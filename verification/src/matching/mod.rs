//! Character-level route matching: a route is a sequence of segments that
//! each consume a prefix of the remaining path.
use crate::strs::{empty_or_slash, slash, str_eq};
use vstd::prelude::*;
use vstd::string::*;
use vstd::utf8::*;

pub use crate::route2::{ParamSegment, StaticSegment, WildcardSegment};

pub mod sequence;
mod tuples;

verus! {

/// The view of a list of named parameters: pairs of key and value text.
pub open spec fn params_view(v: Seq<(&'static str, String)>) -> Seq<(Seq<char>, Seq<char>)> {
    v.map_values(|p: (&'static str, String)| (p.0@, p.1@))
}

/// The mathematical content of a partial match.
pub struct PartialMatchView {
    pub remaining: Seq<char>,
    pub params: Seq<(Seq<char>, Seq<char>)>,
    pub matched: Seq<char>,
}

/// The result of matching a prefix of a path: what is left of the path, the
/// parameters that were captured and the text that was matched.
#[derive(Debug)]
pub struct PartialPathMatch<'a> {
    pub remaining: &'a str,
    pub params: Vec<(&'static str, String)>,
    pub matched: String,
}

impl<'a> View for PartialPathMatch<'a> {
    type V = PartialMatchView;

    open spec fn view(&self) -> PartialMatchView {
        PartialMatchView {
            remaining: self.remaining@,
            params: params_view(self.params@),
            matched: self.matched@,
        }
    }
}

/// The view of an optional partial match.
pub open spec fn opt_match_view<'a>(r: Option<PartialPathMatch<'a>>) -> Option<PartialMatchView> {
    match r {
        Some(m) => Some(m@),
        None => None,
    }
}

/// A remaining path counts as complete when it is empty or a lone `/`.
pub open spec fn complete_text(r: Seq<char>) -> bool {
    r.len() == 0 || r == slash()
}

impl<'a> PartialPathMatch<'a> {
    pub fn new(
        remaining: &'a str,
        params: Vec<(&'static str, String)>,
        matched: String,
    ) -> (r: Self)
        ensures
            r.remaining == remaining,
            r.params == params,
            r.matched == matched,
    {
        PartialPathMatch { remaining, params, matched }
    }

    /// Whether nothing but at most a single `/` is left to match.
    pub fn is_complete(&self) -> (b: bool)
        ensures
            b == complete_text(self.remaining@),
    {
        proof {
            reveal_strlit("/");
        }
        if self.remaining.is_empty() {
            true
        } else {
            let b = str_eq(self.remaining, "/");
            assert("/"@ =~= slash());
            b
        }
    }

    pub fn remaining(&self) -> (r: &str)
        ensures
            r@ == self.remaining@,
    {
        self.remaining
    }

    pub fn params(&self) -> (r: &[(&'static str, String)])
        ensures
            r@ == self.params@,
    {
        self.params.as_slice()
    }

    pub fn matched(&self) -> (r: &str)
        ensures
            r@ == self.matched@,
    {
        self.matched.as_str()
    }
}

/// The text left after the byte offset given by the UTF-8 length of `m`.
pub open spec fn byte_rest(p: Seq<char>, m: Seq<char>) -> Seq<char> {
    decode_utf8(encode_utf8(p).skip(encode_utf8(m).len() as int))
}

/// The byte offset given by the UTF-8 length of `m` falls on a character
/// boundary of `p`.
pub open spec fn byte_rest_ok(p: Seq<char>, m: Seq<char>) -> bool {
    is_char_boundary(encode_utf8(p), encode_utf8(m).len() as int)
}

/// The tail of `path` that starts at the byte offset of the length of
/// `matched`.
pub fn rest_after_bytes<'a>(path: &'a str, matched: &String) -> (r: &'a str)
    requires
        byte_rest_ok(path@, matched@),
    ensures
        r@ == byte_rest(path@, matched@),
{
    let k = matched.as_str().as_bytes().len();
    let _total = path.as_bytes().len();
    let (_, rest) = path.split_at(k);
    proof {
        encode_utf8_decode_utf8(rest@);
        assert(rest.spec_bytes() =~= encode_utf8(path@).skip(encode_utf8(matched@).len() as int));
    }
    rest
}

/// A route, or part of one, that may match a prefix of a path.
///
/// A tuple of routes matches its members one after another, each on what the
/// previous one left.
pub trait RouteMatch {
    /// What `test` returns on the given path.
    spec fn spec_test(&self, path: Seq<char>) -> Option<PartialMatchView>;

    /// The paths on which `test` is defined.
    spec fn test_ok(&self, path: Seq<char>) -> bool;

    /// On a path that is empty or starts with `/`, matching is defined, the
    /// match splits the path into the matched text and the remaining text,
    /// and what remains is again empty or starts with `/`.
    proof fn lemma_slash_path(&self, path: Seq<char>)
        requires
            empty_or_slash(path),
        ensures
            self.test_ok(path),
            self.spec_test(path) matches Some(m) ==> {
                &&& m.matched + m.remaining == path
                &&& empty_or_slash(m.remaining)
            },
    ;

    fn test<'a>(&self, path: &'a str) -> (r: Option<PartialPathMatch<'a>>)
        requires
            self.test_ok(path@),
        ensures
            opt_match_view(r) == self.spec_test(path@),
    ;

    fn matches(&self, path: &str) -> (b: bool)
        requires
            self.test_ok(path@),
        ensures
            b == self.spec_test(path@) is Some,
    {
        self.test(path).is_some()
    }
}

/// Appends the parameters of a second match to those of a first.
pub fn join_params(
    mut a: Vec<(&'static str, String)>,
    mut b: Vec<(&'static str, String)>,
) -> (r: Vec<(&'static str, String)>)
    ensures
        params_view(r@) == params_view(a@) + params_view(b@),
{
    let ghost a0 = a@;
    let ghost b0 = b@;
    a.append(&mut b);
    proof {
        assert(a@ == a0 + b0);
        assert(params_view(a@) =~= params_view(a0) + params_view(b0));
    }
    a
}

/// Sequential composition of two partial matches, the second taken on what the
/// first left.
pub open spec fn seq_match(a: PartialMatchView, b: PartialMatchView) -> PartialMatchView {
    PartialMatchView {
        remaining: b.remaining,
        params: a.params + b.params,
        matched: a.matched + b.matched,
    }
}

pub(crate) fn chain<'a>(first: PartialPathMatch<'a>, second: PartialPathMatch<'a>) -> (r: PartialPathMatch<'a>)
    ensures
        r@ == seq_match(first@, second@),
{
    let PartialPathMatch { remaining: _, params: pa, matched: ma } = first;
    let PartialPathMatch { remaining, params: pb, matched: mb } = second;
    let mut matched = ma;
    matched.append(mb.as_str());
    let params = join_params(pa, pb);
    PartialPathMatch { remaining, params, matched }
}

impl<A: RouteMatch> RouteMatch for (A,) {
    open spec fn spec_test(&self, path: Seq<char>) -> Option<PartialMatchView> {
        self.0.spec_test(path)
    }

    open spec fn test_ok(&self, path: Seq<char>) -> bool {
        self.0.test_ok(path)
    }

    proof fn lemma_slash_path(&self, path: Seq<char>) {
        self.0.lemma_slash_path(path);
    }

    fn test<'a>(&self, path: &'a str) -> (r: Option<PartialPathMatch<'a>>) {
        self.0.test(path)
    }
}

/// What remains of a path counts as complete exactly when it is empty or a
/// lone `/`.
pub proof fn lemma_complete_text_law(r: Seq<char>)
    ensures
        complete_text(r) <==> (r.len() == 0 || r == seq!['/']),
{
}

} // verus!
