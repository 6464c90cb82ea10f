//! Route paths given as text, such as `/blog/:id/*rest`.
use crate::strs::{path_segments, split_segments, strings_view};
use vstd::prelude::*;
use vstd::string::*;

verus! {

/// One segment of a route path given as text.
#[derive(Debug, Clone, PartialEq, Eq, Hash)]
pub enum PathDefinitionSegment {
    /// Text that the path segment must equal.
    Static { path: String },
    /// A named parameter, written `:name`.
    Param { field_name: String },
    /// A named parameter that takes the rest of the path, written `*name`.
    Splat { field_name: String },
}

/// The mathematical content of a path definition segment.
pub enum SegmentView {
    Static(Seq<char>),
    Param(Seq<char>),
    Splat(Seq<char>),
}

impl View for PathDefinitionSegment {
    type V = SegmentView;

    open spec fn view(&self) -> SegmentView {
        match self {
            PathDefinitionSegment::Static { path } => SegmentView::Static(path@),
            PathDefinitionSegment::Param { field_name } => SegmentView::Param(field_name@),
            PathDefinitionSegment::Splat { field_name } => SegmentView::Splat(field_name@),
        }
    }
}

pub open spec fn segments_view(v: Seq<PathDefinitionSegment>) -> Seq<SegmentView> {
    v.map_values(|s: PathDefinitionSegment| s@)
}

/// How many splat segments a definition holds.
pub open spec fn num_splats(s: Seq<SegmentView>) -> nat
    decreases s.len(),
{
    if s.len() == 0 {
        0
    } else {
        num_splats(s.drop_last()) + if s.last() is Splat {
            1nat
        } else {
            0nat
        }
    }
}

/// The score that one segment adds: a parameter 2, anything else 3.
pub open spec fn segment_weight(s: SegmentView) -> int {
    if s is Param {
        2
    } else {
        3
    }
}

pub open spec fn weight_sum(s: Seq<SegmentView>) -> int
    decreases s.len(),
{
    if s.len() == 0 {
        0
    } else {
        weight_sum(s.drop_last()) + segment_weight(s.last())
    }
}

/// The mathematical content of a path definition.
pub struct PathDefinitionView {
    pub segments: Seq<SegmentView>,
    pub has_splat: bool,
}

/// A route path given as a list of segments.
#[derive(Debug, Clone, PartialEq, Eq, Hash)]
pub struct PathDefinition {
    segments: Vec<PathDefinitionSegment>,
    has_splat: bool,
}

impl View for PathDefinition {
    type V = PathDefinitionView;

    closed spec fn view(&self) -> PathDefinitionView {
        PathDefinitionView { segments: segments_view(self.segments@), has_splat: self.has_splat }
    }
}

/// The specificity of a route path: longer paths, and static segments rather
/// than parameters, score higher.
#[derive(Debug, Clone, Copy, PartialEq, Eq, PartialOrd, Ord)]
pub struct Score(pub i32);

/// The score of a path definition.
pub open spec fn spec_score(d: PathDefinitionView) -> int {
    d.segments.len() - (if d.has_splat {
        1int
    } else {
        0int
    }) + weight_sum(d.segments)
}

/// The segment that a piece of path text describes: `:name` a parameter,
/// `*name` a splat, anything else static text.
pub open spec fn classify(seg: Seq<char>) -> SegmentView {
    if seg.len() > 0 && seg[0] == ':' {
        SegmentView::Param(seg.drop_first())
    } else if seg.len() > 0 && seg[0] == '*' {
        SegmentView::Splat(seg.drop_first())
    } else {
        SegmentView::Static(seg)
    }
}

/// The segments that a path text describes.
pub open spec fn classified(text: Seq<char>) -> Seq<SegmentView> {
    path_segments(text).map_values(|s: Seq<char>| classify(s))
}

/// Whether a path text describes a route path: it holds at most one splat
/// segment, and only as its last segment.
pub open spec fn valid_definition(text: Seq<char>) -> bool {
    let segs = classified(text);
    &&& num_splats(segs) <= 1
    &&& num_splats(segs) == 1 ==> segs.last() is Splat
}

/// The definition a path text describes.
pub open spec fn spec_parse(text: Seq<char>) -> PathDefinitionView {
    PathDefinitionView { segments: classified(text), has_splat: num_splats(classified(text)) > 0 }
}

pub proof fn lemma_num_splats_push(s: Seq<SegmentView>, x: SegmentView)
    ensures
        num_splats(s.push(x)) == num_splats(s) + if x is Splat {
            1nat
        } else {
            0nat
        },
{
    assert(s.push(x).drop_last() =~= s);
}

proof fn lemma_no_splats(s: Seq<SegmentView>)
    requires
        num_splats(s) == 0,
    ensures
        forall|i: int| 0 <= i < s.len() ==> !(#[trigger] s[i] is Splat),
    decreases s.len(),
{
    if s.len() > 0 {
        lemma_no_splats(s.drop_last());
        assert forall|i: int| 0 <= i < s.len() implies !(#[trigger] s[i] is Splat) by {
            if i < s.len() - 1 {
                assert(s[i] == s.drop_last()[i]);
            }
        }
    }
}

/// A path definition read from text holds at most one splat segment, only as
/// its last segment, and records whether it holds one.
pub proof fn lemma_parsed_definition(text: Seq<char>)
    requires
        valid_definition(text),
    ensures
        ({
            let d = spec_parse(text);
            &&& num_splats(d.segments) <= 1
            &&& d.has_splat == (num_splats(d.segments) == 1)
            &&& d.has_splat ==> d.segments.last() is Splat
            &&& forall|i: int| 0 <= i < d.segments.len() - 1 ==> !(#[trigger] d.segments[i] is Splat)
        }),
{
    let segs = classified(text);
    if num_splats(segs) == 1 && segs.len() > 0 && segs.last() is Splat {
        assert(num_splats(segs.drop_last()) == 0);
        lemma_no_splats(segs.drop_last());
        assert forall|i: int| 0 <= i < segs.len() - 1 implies !(#[trigger] segs[i] is Splat) by {
            assert(segs[i] == segs.drop_last()[i]);
        }
    } else if num_splats(segs) == 0 {
        lemma_no_splats(segs);
    }
}

/// Reading a path text gives the definition that `from_segments` makes from
/// the segments the text describes.
pub proof fn lemma_parse_is_from_segments(text: Seq<char>, segments: Seq<PathDefinitionSegment>)
    requires
        segments_view(segments) == classified(text),
    ensures
        spec_parse(text) == (PathDefinitionView {
            segments: segments_view(segments),
            has_splat: num_splats(segments_view(segments)) > 0,
        }),
{
}

proof fn lemma_weight_prefix(s: Seq<SegmentView>, k: int)
    requires
        0 <= k <= s.len(),
    ensures
        0 <= weight_sum(s.take(k)) <= weight_sum(s),
    decreases s.len(),
{
    if k < s.len() {
        assert(s.drop_last().take(k) =~= s.take(k));
        lemma_weight_prefix(s.drop_last(), k);
    } else {
        assert(s.take(k) =~= s);
        if s.len() > 0 {
            lemma_weight_prefix(s.drop_last(), s.len() - 1);
        }
    }
}

fn classify_exec(seg: &str) -> (r: PathDefinitionSegment)
    ensures
        r@ == classify(seg@),
{
    let n = seg.unicode_len();
    if n > 0 && seg.get_char(0) == ':' {
        PathDefinitionSegment::Param { field_name: seg.substring_char(1, n).to_owned() }
    } else if n > 0 && seg.get_char(0) == '*' {
        PathDefinitionSegment::Splat { field_name: seg.substring_char(1, n).to_owned() }
    } else {
        PathDefinitionSegment::Static { path: seg.to_owned() }
    }
}

impl PathDefinition {
    /// A definition made of the given segments.
    pub fn from_segments(segments: Vec<PathDefinitionSegment>) -> (r: Self)
        ensures
            r@.segments == segments_view(segments@),
            r@.has_splat == (num_splats(segments_view(segments@)) > 0),
    {
        let n = segments.len();
        let mut has_splat = false;
        let mut i: usize = 0;
        while i < n
            invariant
                n == segments@.len(),
                i <= n,
                has_splat == (num_splats(segments_view(segments@).take(i as int)) > 0),
            decreases n - i,
        {
            proof {
                let v = segments_view(segments@);
                assert(v.take(i + 1) =~= v.take(i as int).push(v[i as int]));
                lemma_num_splats_push(v.take(i as int), v[i as int]);
            }
            if matches!(segments[i], PathDefinitionSegment::Splat { .. }) {
                has_splat = true;
            }
            i = i + 1;
        }
        proof {
            assert(segments_view(segments@).take(n as int) =~= segments_view(segments@));
        }
        PathDefinition { segments, has_splat }
    }

    /// Reads a path text: the non-empty pieces between `/` are its segments.
    /// The text must hold at most one splat segment, and only last; a caller
    /// that breaks this gets a panic.
    pub fn from(value: &str) -> (r: Self)
        requires
            valid_definition(value@),
        ensures
            r@ == spec_parse(value@),
    {
        let pieces = split_segments(value);
        let ghost target = classified(value@);
        let n = pieces.len();
        let mut segments: Vec<PathDefinitionSegment> = Vec::new();
        let mut splats: usize = 0;
        let mut i: usize = 0;
        proof {
            assert(target.len() == n);
        }
        while i < n
            invariant
                n == pieces@.len(),
                target == classified(value@),
                target.len() == n,
                strings_view(pieces@) == path_segments(value@),
                i <= n,
                segments_view(segments@) == target.take(i as int),
                splats == num_splats(target.take(i as int)),
                splats <= i,
            decreases n - i,
        {
            let seg = classify_exec(pieces[i].as_str());
            let is_splat = matches!(seg, PathDefinitionSegment::Splat { .. });
            proof {
                assert(strings_view(pieces@)[i as int] == pieces@[i as int]@);
                assert(target[i as int] == classify(path_segments(value@)[i as int]));
                assert(target.take(i + 1) =~= target.take(i as int).push(target[i as int]));
                lemma_num_splats_push(target.take(i as int), target[i as int]);
            }
            if is_splat {
                splats = splats + 1;
            }
            segments.push(seg);
            proof {
                assert(segments_view(segments@) =~= target.take(i + 1));
            }
            i = i + 1;
        }
        proof {
            assert(target.take(n as int) =~= target);
        }
        if splats > 1 {
            return None.expect(
                "Route definitions should contain only a single splat/wildcard param (/*foo).",
            );
        }
        if splats == 1 {
            let last_is_splat = matches!(segments[n - 1], PathDefinitionSegment::Splat { .. });
            if !last_is_splat {
                return None.expect(
                    "Splat/wildcard params (/*foo) should come at the end of the route.",
                );
            }
        }
        PathDefinition { segments, has_splat: splats > 0 }
    }

    /// The specificity of this path.
    pub fn score(&self) -> (r: Score)
        requires
            self@.segments.len() <= i32::MAX,
            spec_score(self@) <= i32::MAX,
        ensures
            r.0 == spec_score(self@),
    {
        let n = self.segments.len();
        let mut total: i32 = n as i32;
        if self.has_splat {
            total = total - 1;
        }
        let ghost base = total as int;
        let ghost v = segments_view(self.segments@);
        let mut i: usize = 0;
        while i < n
            invariant
                n == self.segments@.len(),
                v == segments_view(self.segments@),
                v.len() == n,
                i <= n,
                base == n - (if self.has_splat {
                    1int
                } else {
                    0int
                }),
                total == base + weight_sum(v.take(i as int)),
                base + weight_sum(v) <= i32::MAX,
            decreases n - i,
        {
            proof {
                assert(v.take(i + 1).drop_last() =~= v.take(i as int));
                assert(v.take(i + 1).last() == v[i as int]);
                lemma_weight_prefix(v, i + 1);
            }
            let w: i32 = if matches!(self.segments[i], PathDefinitionSegment::Param { .. }) {
                2
            } else {
                3
            };
            total = total + w;
            i = i + 1;
        }
        proof {
            assert(v.take(n as int) =~= v);
        }
        Score(total)
    }
}

/// A piece of path text that starts with `:` is a parameter named by the
/// rest of it, one that starts with `*` a splat named by the rest of it, and
/// any other piece is static text equal to the piece.
pub proof fn lemma_classify_law(name: Seq<char>, piece: Seq<char>)
    ensures
        classify(seq![':'] + name) == SegmentView::Param(name),
        classify(seq!['*'] + name) == SegmentView::Splat(name),
        (piece.len() == 0 || (piece[0] != ':' && piece[0] != '*')) ==> classify(piece)
            == SegmentView::Static(piece),
{
    assert((seq![':'] + name).drop_first() =~= name);
    assert((seq!['*'] + name).drop_first() =~= name);
}

/// Adding a segment to a definition adds 3 to its score for a parameter and 4
/// for any other segment; holding a splat takes 1 off; a definition with no
/// segments and no splat scores 0.
pub proof fn lemma_score_law(segments: Seq<SegmentView>, x: SegmentView, has_splat: bool)
    ensures
        spec_score(PathDefinitionView { segments: segments.push(x), has_splat }) == spec_score(
            PathDefinitionView { segments, has_splat },
        ) + if x is Param {
            3int
        } else {
            4int
        },
        spec_score(PathDefinitionView { segments, has_splat: true }) == spec_score(
            PathDefinitionView { segments, has_splat: false },
        ) - 1,
        spec_score(PathDefinitionView { segments: Seq::empty(), has_splat: false }) == 0,
{
    assert(segments.push(x).drop_last() =~= segments);
}

/// Reading a path text gives one segment for each non-empty piece between
/// `/` characters, in order, each classified by its first character; the
/// definition holds a splat exactly when one of its segments is a splat.
pub proof fn lemma_parse_law(text: Seq<char>)
    ensures
        spec_parse(text).segments.len() == path_segments(text).len(),
        forall|i: int|
            0 <= i < path_segments(text).len() ==> #[trigger] spec_parse(text).segments[i]
                == classify(path_segments(text)[i]),
        spec_parse(text).has_splat == (num_splats(spec_parse(text).segments) > 0),
{
}

} // verus!
