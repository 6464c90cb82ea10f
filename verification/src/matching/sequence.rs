//! Matching a list of patterns one after another, each on what the one
//! before it left of the path.
use crate::matching::{opt_match_view, seq_match, PartialMatchView, PartialPathMatch, RouteMatch};
use crate::strs::empty_or_slash;
use vstd::prelude::*;

verus! {

/// What one pattern gives on a path: a partial match, or nothing.
pub type Pattern = spec_fn(Seq<char>) -> Option<PartialMatchView>;

/// On which paths a pattern's matching is defined.
pub type PatternOk = spec_fn(Seq<char>) -> bool;

/// The members of a tuple of patterns, in order: what each gives on a path,
/// and where each is defined.
pub trait Patterns {
    spec fn patterns(&self) -> Seq<Pattern>;

    spec fn pattern_oks(&self) -> Seq<PatternOk>;
}

/// The match of nothing: all of the path remains.
pub open spec fn empty_match(path: Seq<char>) -> PartialMatchView {
    PartialMatchView { remaining: path, params: Seq::empty(), matched: Seq::empty() }
}

/// A match that has already been made, followed by the match (if any) of
/// what it left.
pub open spec fn then_rest(done: PartialMatchView, rest: Option<PartialMatchView>) -> Option<
    PartialMatchView,
> {
    match rest {
        None => None,
        Some(r) => Some(seq_match(done, r)),
    }
}

/// Matching the patterns in order: the first on the path, each next one on
/// what the one before left; nothing if any of them fails.
pub open spec fn sequence_test(parts: Seq<Pattern>, path: Seq<char>) -> Option<PartialMatchView>
    decreases parts.len(),
{
    if parts.len() == 0 {
        Some(empty_match(path))
    } else {
        match (parts[0])(path) {
            None => None,
            Some(m) => then_rest(m, sequence_test(parts.drop_first(), m.remaining)),
        }
    }
}

/// Each pattern that is reached is defined on the text it is given.
pub open spec fn sequence_ok(oks: Seq<PatternOk>, parts: Seq<Pattern>, path: Seq<char>) -> bool
    decreases parts.len(),
{
    if parts.len() == 0 {
        true
    } else {
        &&& (oks[0])(path)
        &&& match (parts[0])(path) {
            None => true,
            Some(m) => sequence_ok(oks.drop_first(), parts.drop_first(), m.remaining),
        }
    }
}

/// The text the pattern at index `i` is given, along the matches `ms` of the
/// patterns before it.
pub open spec fn input_at(ms: Seq<PartialMatchView>, path: Seq<char>, i: int) -> Seq<char> {
    if i == 0 {
        path
    } else {
        ms[i - 1].remaining
    }
}

/// `ms` are the matches of the first `ms.len()` patterns, each taken on what
/// the one before left.
pub open spec fn chained(parts: Seq<Pattern>, ms: Seq<PartialMatchView>, path: Seq<char>) -> bool {
    &&& ms.len() <= parts.len()
    &&& forall|i: int|
        0 <= i < ms.len() ==> (parts[i])(input_at(ms, path, i)) == Some(#[trigger] ms[i])
}

/// The parameters of the matches, joined in order.
pub open spec fn all_params(ms: Seq<PartialMatchView>) -> Seq<(Seq<char>, Seq<char>)>
    decreases ms.len(),
{
    if ms.len() == 0 {
        Seq::empty()
    } else {
        ms[0].params + all_params(ms.drop_first())
    }
}

/// The matched texts of the matches, joined in order.
pub open spec fn all_matched(ms: Seq<PartialMatchView>) -> Seq<char>
    decreases ms.len(),
{
    if ms.len() == 0 {
        Seq::empty()
    } else {
        ms[0].matched + all_matched(ms.drop_first())
    }
}

/// The match made of the chained matches `ms`: what the last one left, with
/// all the parameters and matched texts in order.
pub open spec fn joined(ms: Seq<PartialMatchView>, path: Seq<char>) -> PartialMatchView {
    PartialMatchView {
        remaining: input_at(ms, path, ms.len() as int),
        params: all_params(ms),
        matched: all_matched(ms),
    }
}

proof fn lemma_chained_tail(parts: Seq<Pattern>, ms: Seq<PartialMatchView>, path: Seq<char>)
    requires
        ms.len() > 0,
        chained(parts, ms, path),
    ensures
        (parts[0])(path) == Some(ms[0]),
        chained(parts.drop_first(), ms.drop_first(), ms[0].remaining),
        input_at(ms.drop_first(), ms[0].remaining, ms.len() - 1) == input_at(
            ms,
            path,
            ms.len() as int,
        ),
{
    assert((parts[0])(input_at(ms, path, 0)) == Some(ms[0]));
    let p2 = parts.drop_first();
    let m2 = ms.drop_first();
    assert forall|i: int| 0 <= i < m2.len() implies (p2[i])(input_at(m2, ms[0].remaining, i))
        == Some(#[trigger] m2[i]) by {
        assert(m2[i] == ms[i + 1]);
        assert((parts[i + 1])(input_at(ms, path, i + 1)) == Some(ms[i + 1]));
    }
}

/// When every pattern matches, each on what the one before left, the
/// sequence matches: what remains is what the last one left, and the
/// parameters and matched texts are those of the patterns, joined in order.
pub proof fn lemma_sequence_all_match(
    parts: Seq<Pattern>,
    ms: Seq<PartialMatchView>,
    path: Seq<char>,
)
    requires
        ms.len() == parts.len(),
        chained(parts, ms, path),
    ensures
        sequence_test(parts, path) == Some(joined(ms, path)),
    decreases parts.len(),
{
    if parts.len() > 0 {
        lemma_chained_tail(parts, ms, path);
        let m0 = ms[0];
        let m2 = ms.drop_first();
        lemma_sequence_all_match(parts.drop_first(), m2, m0.remaining);
        let j = joined(ms, path);
        let s = seq_match(m0, joined(m2, m0.remaining));
        assert(j.params =~= s.params);
        assert(j.matched =~= s.matched);
        assert(j == s);
    }
}

/// When a pattern fails on what the ones before it left, the sequence fails,
/// whatever the patterns after it would do.
pub proof fn lemma_sequence_first_failure(
    parts: Seq<Pattern>,
    ms: Seq<PartialMatchView>,
    path: Seq<char>,
)
    requires
        ms.len() < parts.len(),
        chained(parts, ms, path),
        (parts[ms.len() as int])(input_at(ms, path, ms.len() as int)) is None,
    ensures
        sequence_test(parts, path) is None,
    decreases ms.len(),
{
    if ms.len() > 0 {
        lemma_chained_tail(parts, ms, path);
        let m2 = ms.drop_first();
        assert(parts.drop_first()[m2.len() as int] == parts[ms.len() as int]);
        lemma_sequence_first_failure(parts.drop_first(), m2, ms[0].remaining);
    }
}

/// Every outcome of a sequence comes from a chain of matches: the returned
/// `ms` are the matches of the patterns in turn, up to the first that
/// fails. The sequence matches exactly when none fails, and then it gives
/// the chain's joined match.
pub proof fn lemma_sequence_match_is_chain(parts: Seq<Pattern>, path: Seq<char>) -> (ms: Seq<
    PartialMatchView,
>)
    ensures
        chained(parts, ms, path),
        ms.len() < parts.len() ==> (parts[ms.len() as int])(input_at(ms, path, ms.len() as int)) is None,
        sequence_test(parts, path) is Some <==> ms.len() == parts.len(),
        ms.len() == parts.len() ==> sequence_test(parts, path) == Some(joined(ms, path)),
    decreases parts.len(),
{
    if parts.len() == 0 {
        let ms = Seq::<PartialMatchView>::empty();
        lemma_sequence_all_match(parts, ms, path);
        ms
    } else {
        match (parts[0])(path) {
            None => {
                let ms = Seq::<PartialMatchView>::empty();
                ms
            },
            Some(m0) => {
                let rest = lemma_sequence_match_is_chain(parts.drop_first(), m0.remaining);
                let ms = seq![m0] + rest;
                assert(ms.drop_first() =~= rest);
                assert forall|i: int| 0 <= i < ms.len() implies (parts[i])(input_at(ms, path, i))
                    == Some(#[trigger] ms[i]) by {
                    if i > 0 {
                        assert(ms[i] == rest[i - 1]);
                        assert(parts.drop_first()[i - 1] == parts[i]);
                        assert((parts.drop_first()[i - 1])(input_at(rest, m0.remaining, i - 1))
                            == Some(rest[i - 1]));
                    }
                }
                if ms.len() < parts.len() {
                    assert(parts.drop_first()[rest.len() as int] == parts[ms.len() as int]);
                    lemma_sequence_first_failure(parts, ms, path);
                } else {
                    lemma_sequence_all_match(parts, ms, path);
                }
                ms
            },
        }
    }
}

/// Matching two lists of patterns one after the other is matching the
/// concatenated list: how the patterns are grouped does not matter.
pub proof fn lemma_sequence_concat(a: Seq<Pattern>, b: Seq<Pattern>, path: Seq<char>)
    ensures
        sequence_test(a + b, path) == match sequence_test(a, path) {
            None => None,
            Some(ma) => then_rest(ma, sequence_test(b, ma.remaining)),
        },
    decreases a.len(),
{
    if a.len() == 0 {
        assert(a + b =~= b);
        if let Some(mb) = sequence_test(b, path) {
            let s = seq_match(empty_match(path), mb);
            assert(s.params =~= mb.params);
            assert(s.matched =~= mb.matched);
        }
    } else {
        assert((a + b).drop_first() =~= a.drop_first() + b);
        assert((a + b)[0] == a[0]);
        if let Some(m0) = (a[0])(path) {
            lemma_sequence_concat(a.drop_first(), b, m0.remaining);
            if let Some(mr) = sequence_test(a.drop_first(), m0.remaining) {
                if let Some(mb) = sequence_test(b, mr.remaining) {
                    let l = seq_match(m0, seq_match(mr, mb));
                    let r = seq_match(seq_match(m0, mr), mb);
                    assert(l.params =~= r.params);
                    assert(l.matched =~= r.matched);
                }
            }
        }
    }
}

/// One pattern, on paths that are empty or start with `/`: it is defined
/// there, and a match splits the path into matched and remaining text, the
/// remaining text again empty or starting with `/`.
pub open spec fn slash_step(ok: PatternOk, part: Pattern, p: Seq<char>) -> bool {
    &&& ok(p)
    &&& (part(p) matches Some(m) ==> {
        &&& m.matched + m.remaining == p
        &&& empty_or_slash(m.remaining)
    })
}

pub open spec fn slash_sound(ok: PatternOk, part: Pattern) -> bool {
    forall|p: Seq<char>| empty_or_slash(p) ==> #[trigger] slash_step(ok, part, p)
}

/// A sequence of patterns that each keep to `/`-paths keeps to them too.
pub proof fn lemma_sequence_slash(oks: Seq<PatternOk>, parts: Seq<Pattern>, path: Seq<char>)
    requires
        oks.len() == parts.len(),
        forall|i: int| 0 <= i < parts.len() ==> #[trigger] slash_sound(oks[i], parts[i]),
        empty_or_slash(path),
    ensures
        sequence_ok(oks, parts, path),
        sequence_test(parts, path) matches Some(m) ==> {
            &&& m.matched + m.remaining == path
            &&& empty_or_slash(m.remaining)
        },
    decreases parts.len(),
{
    if parts.len() == 0 {
        assert(Seq::<char>::empty() + Seq::<char>::empty() + path =~= path);
    } else {
        assert(slash_sound(oks[0], parts[0]));
        assert(slash_step(oks[0], parts[0], path));
        if let Some(m0) = (parts[0])(path) {
            let o2 = oks.drop_first();
            let p2 = parts.drop_first();
            assert forall|i: int| 0 <= i < p2.len() implies #[trigger] slash_sound(o2[i], p2[i]) by {
                assert(slash_sound(oks[i + 1], parts[i + 1]));
            }
            lemma_sequence_slash(o2, p2, m0.remaining);
            if let Some(mr) = sequence_test(p2, m0.remaining) {
                let m = seq_match(m0, mr);
                assert(m.matched + m.remaining =~= m0.matched + (mr.matched + mr.remaining));
            }
        }
    }
}

pub(crate) proof fn lemma_sequence_start(parts: Seq<Pattern>, oks: Seq<PatternOk>, path: Seq<char>)
    ensures
        parts.skip(0) == parts,
        oks.skip(0) == oks,
        sequence_test(parts, path) == then_rest(empty_match(path), sequence_test(parts, path)),
{
    assert(parts.skip(0) =~= parts);
    assert(oks.skip(0) =~= oks);
    if let Some(m) = sequence_test(parts, path) {
        let s = seq_match(empty_match(path), m);
        assert(s.params =~= m.params);
        assert(s.matched =~= m.matched);
    }
}

proof fn lemma_sequence_step(
    parts: Seq<Pattern>,
    oks: Seq<PatternOk>,
    i: int,
    done: PartialMatchView,
    path: Seq<char>,
)
    requires
        0 <= i < parts.len(),
        oks.len() == parts.len(),
        sequence_test(parts, path) == then_rest(done, sequence_test(parts.skip(i), done.remaining)),
        sequence_ok(oks.skip(i), parts.skip(i), done.remaining),
    ensures
        (oks[i])(done.remaining),
        (parts[i])(done.remaining) is None ==> sequence_test(parts, path) is None,
        (parts[i])(done.remaining) matches Some(m) ==> {
            &&& sequence_test(parts, path) == then_rest(
                seq_match(done, m),
                sequence_test(parts.skip(i + 1), m.remaining),
            )
            &&& sequence_ok(oks.skip(i + 1), parts.skip(i + 1), m.remaining)
        },
{
    assert(parts.skip(i)[0] == parts[i]);
    assert(oks.skip(i)[0] == oks[i]);
    assert(parts.skip(i).drop_first() =~= parts.skip(i + 1));
    assert(oks.skip(i).drop_first() =~= oks.skip(i + 1));
    if let Some(m) = (parts[i])(done.remaining) {
        if let Some(r) = sequence_test(parts.skip(i + 1), m.remaining) {
            let l = seq_match(done, seq_match(m, r));
            let rr = seq_match(seq_match(done, m), r);
            assert(l.params =~= rr.params);
            assert(l.matched =~= rr.matched);
        }
    }
}

pub(crate) proof fn lemma_sequence_end(parts: Seq<Pattern>, done: PartialMatchView, path: Seq<char>)
    requires
        sequence_test(parts, path) == then_rest(
            done,
            sequence_test(parts.skip(parts.len() as int), done.remaining),
        ),
    ensures
        sequence_test(parts, path) == Some(done),
{
    assert(parts.skip(parts.len() as int).len() == 0);
    let s = seq_match(done, empty_match(done.remaining));
    assert(s.params =~= done.params);
    assert(s.matched =~= done.matched);
}

/// A match of nothing, on the whole of `path`.
pub fn start_match<'a>(path: &'a str) -> (r: PartialPathMatch<'a>)
    ensures
        r@ == empty_match(path@),
        r.remaining == path,
{
    let r = PartialPathMatch { remaining: path, params: Vec::new(), matched: String::new() };
    assert(r@.params =~= Seq::<(Seq<char>, Seq<char>)>::empty());
    r
}

/// What a route gives on a path, as a pattern.
pub open spec fn pattern_of<T: RouteMatch>(t: &T) -> Pattern {
    |p: Seq<char>| t.spec_test(p)
}

/// Where a route's matching is defined.
pub open spec fn ok_of<T: RouteMatch>(t: &T) -> PatternOk {
    |p: Seq<char>| t.test_ok(p)
}

/// Every route keeps to paths that are empty or start with `/`.
pub proof fn lemma_route_slash_sound<T: RouteMatch>(t: &T)
    ensures
        slash_sound(ok_of(t), pattern_of(t)),
{
    assert forall|p: Seq<char>| empty_or_slash(p) implies #[trigger] slash_step(
        ok_of(t),
        pattern_of(t),
        p,
    ) by {
        t.lemma_slash_path(p);
    }
}

/// One step of matching a sequence: `part`, the pattern at index `i`, is
/// tried on what the matches before it left.
pub(crate) fn test_step<'a, T: RouteMatch>(
    part: &T,
    done: PartialPathMatch<'a>,
    Ghost(parts): Ghost<Seq<Pattern>>,
    Ghost(oks): Ghost<Seq<PatternOk>>,
    Ghost(i): Ghost<int>,
    Ghost(path): Ghost<Seq<char>>,
) -> (r: Option<PartialPathMatch<'a>>)
    requires
        0 <= i < parts.len(),
        oks.len() == parts.len(),
        parts[i] == pattern_of(part),
        oks[i] == ok_of(part),
        sequence_test(parts, path) == then_rest(done@, sequence_test(parts.skip(i), done@.remaining)),
        sequence_ok(oks.skip(i), parts.skip(i), done@.remaining),
    ensures
        r is None ==> sequence_test(parts, path) is None,
        r matches Some(d) ==> {
            &&& sequence_test(parts, path) == then_rest(
                d@,
                sequence_test(parts.skip(i + 1), d@.remaining),
            )
            &&& sequence_ok(oks.skip(i + 1), parts.skip(i + 1), d@.remaining)
        },
{
    proof {
        lemma_sequence_step(parts, oks, i, done@, path);
    }
    match part.test(done.remaining) {
        None => None,
        Some(m) => Some(crate::matching::chain(done, m)),
    }
}

} // verus!
