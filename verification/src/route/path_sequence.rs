//! Path patterns matched one after another over the segments of a path, each
//! on the segments that the ones before it left.
use crate::route::params_map::ParamsMap;
use crate::route::path_segment::{absorb, normalized, prefixed, PathMatchView, RoutePath};
use crate::strs::strings_view;
use vstd::prelude::*;

verus! {

/// What one path pattern gives on a list of segments: its match and the
/// number of segments it consumed, or nothing.
pub type SegPattern = spec_fn(Seq<Seq<char>>) -> Option<(PathMatchView, nat)>;

/// The members of a tuple of path patterns, in order.
pub trait SegPatterns {
    spec fn seg_patterns(&self) -> Seq<SegPattern>;
}

/// What a path pattern gives, as a function of the segments.
pub open spec fn seg_pattern_of<T: RoutePath>(t: &T) -> SegPattern {
    |segs: Seq<Seq<char>>| t.spec_test(segs)
}

/// A match, if any, consumes no more than `len` segments.
pub open spec fn consumed_ok(r: Option<(PathMatchView, nat)>, len: nat) -> bool {
    r matches Some((_, n)) ==> n <= len
}

/// A pattern never consumes more segments than it is given.
pub open spec fn consumes_within(part: SegPattern) -> bool {
    forall|segs: Seq<Seq<char>>| consumed_ok(#[trigger] part(segs), segs.len())
}

/// Every path pattern consumes within what it is given.
pub proof fn lemma_route_path_within<T: RoutePath>(t: &T)
    ensures
        consumes_within(seg_pattern_of(t)),
{
    assert forall|segs: Seq<Seq<char>>| consumed_ok(#[trigger] (seg_pattern_of(t))(segs), segs.len()) by {
        t.lemma_consumed(segs);
    }
}

/// What matching patterns in sequence has gathered: the joined text (each
/// match's text with its leading `/`), the parameters in order, and the
/// number of segments consumed.
pub struct PathRun {
    pub text: Seq<char>,
    pub params: Seq<(Seq<char>, Seq<char>)>,
    pub consumed: nat,
}

/// What has been gathered, followed by what the rest gathers (if it matches).
pub open spec fn run_after(
    text: Seq<char>,
    params: Seq<(Seq<char>, Seq<char>)>,
    consumed: nat,
    rest: Option<PathRun>,
) -> Option<PathRun> {
    match rest {
        None => None,
        Some(r) => Some(
            PathRun { text: text + r.text, params: params + r.params, consumed: consumed + r.consumed },
        ),
    }
}

/// Matching the patterns in order, each on the segments the ones before it
/// left; nothing if any of them fails.
pub open spec fn path_run(parts: Seq<SegPattern>, segs: Seq<Seq<char>>) -> Option<PathRun>
    decreases parts.len(),
{
    if parts.len() == 0 {
        Some(PathRun { text: Seq::empty(), params: Seq::empty(), consumed: 0 })
    } else {
        match (parts[0])(segs) {
            None => None,
            Some((m, n)) => run_after(
                prefixed(m.path),
                m.params,
                n,
                path_run(parts.drop_first(), segs.skip(n as int)),
            ),
        }
    }
}

/// The match of the patterns in sequence: the joined text (none when it is
/// empty or a lone `/`), the parameters in order, and the segments consumed.
pub open spec fn path_sequence(parts: Seq<SegPattern>, segs: Seq<Seq<char>>) -> Option<
    (PathMatchView, nat),
> {
    match path_run(parts, segs) {
        None => None,
        Some(r) => Some((PathMatchView { path: normalized(r.text), params: r.params }, r.consumed)),
    }
}

/// The number of segments the first `i` matches consumed together.
pub open spec fn offset(ms: Seq<(PathMatchView, nat)>, i: int) -> nat
    decreases i,
{
    if i <= 0 || ms.len() == 0 {
        0
    } else {
        ms[0].1 + offset(ms.drop_first(), i - 1)
    }
}

/// `ms` are the matches of the first `ms.len()` patterns, each taken on the
/// segments that the ones before it left.
pub open spec fn path_chained(
    parts: Seq<SegPattern>,
    ms: Seq<(PathMatchView, nat)>,
    segs: Seq<Seq<char>>,
) -> bool {
    &&& ms.len() <= parts.len()
    &&& forall|i: int|
        0 <= i < ms.len() ==> (parts[i])(segs.skip(offset(ms, i) as int)) == Some(#[trigger] ms[i])
}

/// The texts of the matches, each with its leading `/`, joined in order.
pub open spec fn all_texts(ms: Seq<(PathMatchView, nat)>) -> Seq<char>
    decreases ms.len(),
{
    if ms.len() == 0 {
        Seq::empty()
    } else {
        prefixed(ms[0].0.path) + all_texts(ms.drop_first())
    }
}

/// The parameters of the matches, joined in order.
pub open spec fn all_path_params(ms: Seq<(PathMatchView, nat)>) -> Seq<(Seq<char>, Seq<char>)>
    decreases ms.len(),
{
    if ms.len() == 0 {
        Seq::empty()
    } else {
        ms[0].0.params + all_path_params(ms.drop_first())
    }
}

/// Adding one more match to the count of consumed segments.
proof fn lemma_offset_step(ms: Seq<(PathMatchView, nat)>, k: int)
    requires
        0 <= k < ms.len(),
    ensures
        offset(ms, k + 1) == offset(ms, k) + ms[k].1,
    decreases k,
{
    if k > 0 {
        lemma_offset_step(ms.drop_first(), k - 1);
        assert(ms.drop_first()[k - 1] == ms[k]);
    } else {
        assert(offset(ms.drop_first(), 0) == 0);
    }
}

/// Along a chain of patterns that consume within what they are given, the
/// first `k` matches consume no more than there are segments.
proof fn lemma_chain_prefix_bound(
    parts: Seq<SegPattern>,
    ms: Seq<(PathMatchView, nat)>,
    segs: Seq<Seq<char>>,
    k: int,
)
    requires
        0 <= k <= ms.len(),
        forall|j: int| 0 <= j < parts.len() ==> #[trigger] consumes_within(parts[j]),
        path_chained(parts, ms, segs),
    ensures
        offset(ms, k) <= segs.len(),
    decreases k,
{
    if k > 0 {
        lemma_chain_prefix_bound(parts, ms, segs, k - 1);
        lemma_offset_step(ms, k - 1);
        let o = offset(ms, k - 1);
        assert((parts[k - 1])(segs.skip(o as int)) == Some(ms[k - 1]));
        assert(consumes_within(parts[k - 1]));
        assert(consumed_ok((parts[k - 1])(segs.skip(o as int)), segs.skip(o as int).len()));
    }
}

proof fn lemma_path_chained_tail(
    parts: Seq<SegPattern>,
    ms: Seq<(PathMatchView, nat)>,
    segs: Seq<Seq<char>>,
)
    requires
        ms.len() > 0,
        forall|j: int| 0 <= j < parts.len() ==> #[trigger] consumes_within(parts[j]),
        path_chained(parts, ms, segs),
    ensures
        (parts[0])(segs) == Some(ms[0]),
        ms[0].1 <= segs.len(),
        forall|j: int|
            0 <= j < parts.drop_first().len() ==> #[trigger] consumes_within(parts.drop_first()[j]),
        path_chained(parts.drop_first(), ms.drop_first(), segs.skip(ms[0].1 as int)),
{
    assert(segs.skip(0) =~= segs);
    assert((parts[0])(segs.skip(offset(ms, 0) as int)) == Some(ms[0]));
    lemma_chain_prefix_bound(parts, ms, segs, 1);
    let p2 = parts.drop_first();
    let m2 = ms.drop_first();
    let s2 = segs.skip(ms[0].1 as int);
    assert forall|j: int| 0 <= j < p2.len() implies #[trigger] consumes_within(p2[j]) by {
        assert(consumes_within(parts[j + 1]));
    }
    assert forall|i: int| 0 <= i < m2.len() implies (p2[i])(s2.skip(offset(m2, i) as int)) == Some(
        #[trigger] m2[i],
    ) by {
        assert(m2[i] == ms[i + 1]);
        assert((parts[i + 1])(segs.skip(offset(ms, i + 1) as int)) == Some(ms[i + 1]));
        assert(offset(ms, i + 1) == ms[0].1 + offset(m2, i));
        lemma_chain_prefix_bound(parts, ms, segs, i + 1);
        assert(s2.skip(offset(m2, i) as int) =~= segs.skip(offset(ms, i + 1) as int));
    }
}

/// When every pattern matches, each on the segments the ones before it
/// left, the sequence matches: it consumes what they consumed together, its
/// text is their texts joined in order (none when that is empty or a lone
/// `/`), and its parameters are theirs in order.
pub proof fn lemma_path_sequence_all_match(
    parts: Seq<SegPattern>,
    ms: Seq<(PathMatchView, nat)>,
    segs: Seq<Seq<char>>,
)
    requires
        ms.len() == parts.len(),
        forall|j: int| 0 <= j < parts.len() ==> #[trigger] consumes_within(parts[j]),
        path_chained(parts, ms, segs),
    ensures
        path_run(parts, segs) == Some(
            PathRun {
                text: all_texts(ms),
                params: all_path_params(ms),
                consumed: offset(ms, ms.len() as int),
            },
        ),
        path_sequence(parts, segs) == Some(
            (
                PathMatchView { path: normalized(all_texts(ms)), params: all_path_params(ms) },
                offset(ms, ms.len() as int),
            ),
        ),
    decreases parts.len(),
{
    if parts.len() > 0 {
        lemma_path_chained_tail(parts, ms, segs);
        lemma_path_sequence_all_match(
            parts.drop_first(),
            ms.drop_first(),
            segs.skip(ms[0].1 as int),
        );
    }
}

/// When a pattern fails on the segments the ones before it left, the
/// sequence fails, whatever the patterns after it would do.
pub proof fn lemma_path_sequence_first_failure(
    parts: Seq<SegPattern>,
    ms: Seq<(PathMatchView, nat)>,
    segs: Seq<Seq<char>>,
)
    requires
        ms.len() < parts.len(),
        forall|j: int| 0 <= j < parts.len() ==> #[trigger] consumes_within(parts[j]),
        path_chained(parts, ms, segs),
        (parts[ms.len() as int])(segs.skip(offset(ms, ms.len() as int) as int)) is None,
    ensures
        path_run(parts, segs) is None,
        path_sequence(parts, segs) is None,
    decreases ms.len(),
{
    if ms.len() == 0 {
        assert(segs.skip(0) =~= segs);
    } else {
        lemma_path_chained_tail(parts, ms, segs);
        let m2 = ms.drop_first();
        let s2 = segs.skip(ms[0].1 as int);
        lemma_chain_prefix_bound(parts, ms, segs, ms.len() as int);
        assert(offset(ms, ms.len() as int) == ms[0].1 + offset(m2, m2.len() as int));
        assert(s2.skip(offset(m2, m2.len() as int) as int) =~= segs.skip(
            offset(ms, ms.len() as int) as int,
        ));
        assert(parts.drop_first()[m2.len() as int] == parts[ms.len() as int]);
        lemma_path_sequence_first_failure(parts.drop_first(), m2, s2);
    }
}

/// A sequence of patterns that consume within what they are given consumes
/// within it too.
pub proof fn lemma_path_run_within(parts: Seq<SegPattern>, segs: Seq<Seq<char>>)
    requires
        forall|j: int| 0 <= j < parts.len() ==> #[trigger] consumes_within(parts[j]),
    ensures
        path_run(parts, segs) matches Some(r) ==> r.consumed <= segs.len(),
    decreases parts.len(),
{
    if parts.len() > 0 {
        assert(consumes_within(parts[0]));
        if let Some((m, n)) = (parts[0])(segs) {
            let p2 = parts.drop_first();
            assert forall|j: int| 0 <= j < p2.len() implies #[trigger] consumes_within(p2[j]) by {
                assert(consumes_within(parts[j + 1]));
            }
            lemma_path_run_within(p2, segs.skip(n as int));
        }
    }
}

pub(crate) proof fn lemma_path_run_start(parts: Seq<SegPattern>, segs: Seq<Seq<char>>)
    ensures
        parts.skip(0) == parts,
        path_run(parts, segs) == run_after(Seq::empty(), Seq::empty(), 0, path_run(parts, segs)),
{
    assert(parts.skip(0) =~= parts);
    if let Some(r) = path_run(parts, segs) {
        assert(Seq::<char>::empty() + r.text =~= r.text);
        assert(Seq::<(Seq<char>, Seq<char>)>::empty() + r.params =~= r.params);
    }
}

pub(crate) proof fn lemma_path_run_end(
    parts: Seq<SegPattern>,
    segs: Seq<Seq<char>>,
    text: Seq<char>,
    params: Seq<(Seq<char>, Seq<char>)>,
    consumed: nat,
    rest: Seq<Seq<char>>,
)
    requires
        path_run(parts, segs) == run_after(
            text,
            params,
            consumed,
            path_run(parts.skip(parts.len() as int), rest),
        ),
    ensures
        path_run(parts, segs) == Some(PathRun { text, params, consumed }),
{
    assert(parts.skip(parts.len() as int).len() == 0);
    assert(text + Seq::<char>::empty() =~= text);
    assert(params + Seq::<(Seq<char>, Seq<char>)>::empty() =~= params);
}

/// One step of matching a sequence of path patterns: `part`, the pattern at
/// index `i`, is tried at segment `pos`, and its match is folded into the
/// joined text and parameters.
pub(crate) fn path_step<T: RoutePath>(
    part: &T,
    segs: &Vec<String>,
    pos: usize,
    joined: &mut String,
    params: &mut ParamsMap,
    Ghost(parts): Ghost<Seq<SegPattern>>,
    Ghost(i): Ghost<int>,
    Ghost(start): Ghost<usize>,
) -> (r: Option<usize>)
    requires
        0 <= i < parts.len(),
        parts[i] == seg_pattern_of(part),
        start <= pos <= segs@.len(),
        path_run(parts, strings_view(segs@).skip(start as int)) == run_after(
            old(joined)@,
            old(params)@,
            (pos - start) as nat,
            path_run(parts.skip(i), strings_view(segs@).skip(pos as int)),
        ),
    ensures
        r is None ==> path_run(parts, strings_view(segs@).skip(start as int)) is None,
        r matches Some(p) ==> {
            &&& pos <= p <= segs@.len()
            &&& path_run(parts, strings_view(segs@).skip(start as int)) == run_after(
                final(joined)@,
                final(params)@,
                (p - start) as nat,
                path_run(parts.skip(i + 1), strings_view(segs@).skip(p as int)),
            )
        },
{
    let ghost view = strings_view(segs@);
    proof {
        assert(parts.skip(i)[0] == parts[i]);
        assert(parts.skip(i).drop_first() =~= parts.skip(i + 1));
    }
    let (m, p) = match part.test(segs, pos) {
        Some(found) => found,
        None => return None,
    };
    proof {
        assert(view.skip(pos as int).skip(p - pos) =~= view.skip(p as int));
    }
    let ghost j0 = joined@;
    let ghost q0 = params@;
    absorb(joined, params, m);
    proof {
        if let Some(r) = path_run(parts.skip(i + 1), view.skip(p as int)) {
            assert(j0 + (prefixed(m@.path) + r.text) =~= joined@ + r.text);
            assert(q0 + (m@.params + r.params) =~= params@ + r.params);
        }
    }
    Some(p)
}

} // verus!
