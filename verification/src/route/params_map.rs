//! An ordered list of named parameters captured while matching a route.
use crate::matching::params_view;
use crate::strs::str_eq;
use vstd::prelude::*;

verus! {

/// The view of an optional borrowed string.
pub open spec fn opt_str_view(o: Option<&str>) -> Option<Seq<char>> {
    match o {
        Some(s) => Some(s@),
        None => None,
    }
}

/// The value of the first parameter named `key`, if there is one.
pub open spec fn first_value(ps: Seq<(Seq<char>, Seq<char>)>, key: Seq<char>) -> Option<Seq<char>>
    decreases ps.len(),
{
    if ps.len() == 0 {
        None
    } else if ps[0].0 == key {
        Some(ps[0].1)
    } else {
        first_value(ps.drop_first(), key)
    }
}

/// A key finds the value of the first parameter with that name.
pub proof fn lemma_first_value_found(ps: Seq<(Seq<char>, Seq<char>)>, key: Seq<char>, i: int)
    requires
        0 <= i < ps.len(),
        ps[i].0 == key,
        forall|j: int| 0 <= j < i ==> ps[j].0 != key,
    ensures
        first_value(ps, key) == Some(ps[i].1),
    decreases i,
{
    if i > 0 {
        assert forall|j: int| 0 <= j < i - 1 implies ps.drop_first()[j].0 != key by {
            assert(ps.drop_first()[j] == ps[j + 1]);
        }
        lemma_first_value_found(ps.drop_first(), key, i - 1);
    }
}

/// A key that names no parameter finds nothing.
pub proof fn lemma_first_value_absent(ps: Seq<(Seq<char>, Seq<char>)>, key: Seq<char>)
    requires
        forall|j: int| 0 <= j < ps.len() ==> ps[j].0 != key,
    ensures
        first_value(ps, key) is None,
    decreases ps.len(),
{
    if ps.len() > 0 {
        assert forall|j: int| 0 <= j < ps.len() - 1 implies ps.drop_first()[j].0 != key by {
            assert(ps.drop_first()[j] == ps[j + 1]);
        }
        lemma_first_value_absent(ps.drop_first(), key);
    }
}

/// In a list that holds one parameter, a key finds that parameter's value
/// when it is the parameter's name, and nothing otherwise.
pub proof fn lemma_get_single(key: Seq<char>, value: Seq<char>, probe: Seq<char>)
    ensures
        first_value(seq![(key, value)], probe) == if probe == key {
            Some(value)
        } else {
            None::<Seq<char>>
        },
{
    let ps = seq![(key, value)];
    assert(ps[0] == (key, value));
    assert(ps.drop_first() =~= Seq::<(Seq<char>, Seq<char>)>::empty());
    assert(first_value(ps.drop_first(), probe) == None::<Seq<char>>);
}

/// After one list of parameters is extended by another, a key finds its
/// value in the first list when it is there, and in the second otherwise.
pub proof fn lemma_get_extended(
    a: Seq<(Seq<char>, Seq<char>)>,
    b: Seq<(Seq<char>, Seq<char>)>,
    key: Seq<char>,
)
    ensures
        first_value(a + b, key) == match first_value(a, key) {
            Some(v) => Some(v),
            None => first_value(b, key),
        },
    decreases a.len(),
{
    if a.len() > 0 {
        assert((a + b).drop_first() =~= a.drop_first() + b);
        lemma_get_extended(a.drop_first(), b, key);
    } else {
        assert(a + b =~= b);
    }
}

/// Looks up the first parameter named `key` in a list of parameters.
pub fn find_param<'a>(ps: &'a [(&'static str, String)], key: &str) -> (r: Option<&'a str>)
    ensures
        opt_str_view(r) == first_value(params_view(ps@), key@),
{
    let n = ps.len();
    let mut i: usize = 0;
    proof {
        assert(params_view(ps@).skip(0) =~= params_view(ps@));
    }
    while i < n
        invariant
            n == ps@.len(),
            i <= n,
            first_value(params_view(ps@), key@) == first_value(params_view(ps@).skip(i as int), key@),
        decreases n - i,
    {
        let ghost rest = params_view(ps@).skip(i as int);
        proof {
            assert(rest[0] == (ps@[i as int].0@, ps@[i as int].1@));
            assert(rest.drop_first() =~= params_view(ps@).skip(i + 1));
        }
        if str_eq(ps[i].0, key) {
            return Some(ps[i].1.as_str());
        }
        i = i + 1;
    }
    None
}

/// A list of named parameters, in the order in which they were captured.
#[derive(Debug, Clone, PartialEq, Eq)]
pub struct ParamsMap(Vec<(&'static str, String)>);

impl View for ParamsMap {
    type V = Seq<(Seq<char>, Seq<char>)>;

    closed spec fn view(&self) -> Seq<(Seq<char>, Seq<char>)> {
        params_view(self.0@)
    }
}

impl Default for ParamsMap {
    fn default() -> (r: Self)
        ensures
            r@ == Seq::<(Seq<char>, Seq<char>)>::empty(),
    {
        let r = ParamsMap(Vec::new());
        assert(r@ =~= Seq::<(Seq<char>, Seq<char>)>::empty());
        r
    }
}

impl ParamsMap {
    /// An empty list.
    pub fn new() -> (r: Self)
        ensures
            r@ == Seq::<(Seq<char>, Seq<char>)>::empty(),
    {
        Self::default()
    }

    /// A list that holds one parameter.
    pub fn single(key: &'static str, value: &str) -> (r: Self)
        ensures
            r@ == seq![(key@, value@)],
    {
        let r = ParamsMap(vec![(key, value.to_owned())]);
        assert(r@ =~= seq![(key@, value@)]);
        r
    }

    /// A list that holds the given parameters, in the given order.
    pub fn from_vec(params: Vec<(&'static str, String)>) -> (r: Self)
        ensures
            r@ == params_view(params@),
    {
        ParamsMap(params)
    }

    /// The parameters, in order.
    pub fn into_vec(self) -> (r: Vec<(&'static str, String)>)
        ensures
            params_view(r@) == self@,
    {
        self.0
    }

    /// The value of the first parameter named `key`.
    pub fn get(&self, key: &str) -> (r: Option<&str>)
        ensures
            opt_str_view(r) == first_value(self@, key@),
    {
        find_param(self.0.as_slice(), key)
    }

    /// Appends the parameters of `other` after those already held.
    pub fn extend(&mut self, other: ParamsMap)
        ensures
            final(self)@ == old(self)@ + other@,
    {
        let mut more = other.0;
        let ghost a = self.0@;
        let ghost b = more@;
        self.0.append(&mut more);
        assert(params_view(self.0@) =~= params_view(a) + params_view(b));
    }
}

} // verus!
