//! Routes whose paths are matched one `/`-separated segment at a time.
use crate::route::params_map::ParamsMap;
use crate::route::path_sequence::{
    consumes_within, lemma_path_run_end, lemma_path_run_start, lemma_path_run_within,
    lemma_route_path_within, path_sequence, path_step, seg_pattern_of, SegPattern, SegPatterns,
};
use crate::strs::{path_segments, slash, split_segments, str_eq, strings_view};
use std::marker::PhantomData;
use vstd::prelude::*;
use vstd::string::*;

verus! {

/// The view of an optional owned string.
pub open spec fn opt_string_view(o: Option<String>) -> Option<Seq<char>> {
    match o {
        Some(s) => Some(s@),
        None => None,
    }
}

/// The mathematical content of a path match.
pub struct PathMatchView {
    pub path: Option<Seq<char>>,
    pub params: Seq<(Seq<char>, Seq<char>)>,
}

/// The result of matching a route against the segments of a path: the text it
/// matched, if it corresponds to any text, and the parameters it captured.
#[derive(Debug, PartialEq, Eq, Clone)]
pub struct PathMatch {
    pub path: Option<String>,
    pub params: ParamsMap,
}

impl View for PathMatch {
    type V = PathMatchView;

    open spec fn view(&self) -> PathMatchView {
        PathMatchView { path: opt_string_view(self.path), params: self.params@ }
    }
}

/// The view of an optional path match.
pub open spec fn opt_path_match_view(o: Option<PathMatch>) -> Option<PathMatchView> {
    match o {
        Some(m) => Some(m@),
        None => None,
    }
}

/// A match of no text with no parameters.
pub open spec fn empty_match() -> PathMatchView {
    PathMatchView { path: None, params: Seq::empty() }
}

impl Default for PathMatch {
    fn default() -> (r: Self)
        ensures
            r@ == empty_match(),
    {
        PathMatch { path: None, params: ParamsMap::new() }
    }
}

/// A route that matches a prefix of the segments of a path.
pub trait RoutePath {
    /// The match and the number of segments consumed, on the given segments.
    spec fn spec_test(&self, segs: Seq<Seq<char>>) -> Option<(PathMatchView, nat)>;

    /// A match never consumes more segments than there are.
    proof fn lemma_consumed(&self, segs: Seq<Seq<char>>)
        ensures
            self.spec_test(segs) matches Some((_, n)) ==> n <= segs.len(),
    ;

    /// Matches the segments from index `pos` on and returns the match with the
    /// index of the first segment not consumed.
    fn test(&self, segs: &Vec<String>, pos: usize) -> (r: Option<(PathMatch, usize)>)
        requires
            pos <= segs@.len(),
        ensures
            match r {
                Some((m, p)) => {
                    &&& pos <= p <= segs@.len()
                    &&& self.spec_test(strings_view(segs@).skip(pos as int)) == Some(
                        (m@, (p - pos) as nat),
                    )
                },
                None => self.spec_test(strings_view(segs@).skip(pos as int)) is None,
            },
    ;

    /// Matches the whole path: the route must consume every segment.
    fn exhaustive_match(&self, path: &str) -> (r: Option<PathMatch>)
        ensures
            opt_path_match_view(r) == match self.spec_test(path_segments(path@)) {
                Some((m, n)) => if n == path_segments(path@).len() {
                    Some(m)
                } else {
                    None
                },
                None => None,
            },
    {
        let segs = split_segments(path);
        proof {
            assert(strings_view(segs@).skip(0) =~= strings_view(segs@));
        }
        match self.test(&segs, 0) {
            Some((m, p)) => {
                if p == segs.len() {
                    Some(m)
                } else {
                    None
                }
            },
            None => None,
        }
    }
}

/// What a path match contributes to the path of a sequence of matches: nothing
/// when it matched no text, otherwise its text with a leading `/`.
pub open spec fn prefixed(o: Option<Seq<char>>) -> Seq<char> {
    match o {
        None => Seq::empty(),
        Some(p) => if p.len() > 0 && p[0] == '/' {
            p
        } else {
            slash() + p
        },
    }
}

/// A joined path that is empty or a lone `/` stands for no text.
pub open spec fn normalized(j: Seq<char>) -> Option<Seq<char>> {
    if j.len() == 0 || j == slash() {
        None
    } else {
        Some(j)
    }
}

/// Appends the contribution of a match's text to a joined path.
fn push_prefixed(buf: &mut String, o: &Option<String>)
    ensures
        final(buf)@ == old(buf)@ + prefixed(opt_string_view(*o)),
{
    match o {
        None => {
            assert(old(buf)@ + Seq::<char>::empty() =~= old(buf)@);
        },
        Some(p) => {
            let s = p.as_str();
            if s.unicode_len() > 0 && s.get_char(0) == '/' {
                buf.append(s);
            } else {
                buf.append("/");
                buf.append(s);
                proof {
                    reveal_strlit("/");
                    assert(final(buf)@ =~= old(buf)@ + (slash() + p@));
                }
            }
        },
    }
}

pub(crate) fn normalize(j: String) -> (r: Option<String>)
    ensures
        opt_string_view(r) == normalized(j@),
{
    proof {
        reveal_strlit("/");
        assert("/"@ =~= slash());
    }
    if j.as_str().is_empty() || str_eq(j.as_str(), "/") {
        None
    } else {
        Some(j)
    }
}

/// Folds one more match into the path and parameters joined so far.
pub(crate) fn absorb(joined: &mut String, params: &mut ParamsMap, m: PathMatch)
    ensures
        final(joined)@ == old(joined)@ + prefixed(m@.path),
        final(params)@ == old(params)@ + m@.params,
{
    push_prefixed(joined, &m.path);
    params.extend(m.params);
}

impl RoutePath for () {
    open spec fn spec_test(&self, segs: Seq<Seq<char>>) -> Option<(PathMatchView, nat)> {
        Some((empty_match(), 0))
    }

    proof fn lemma_consumed(&self, segs: Seq<Seq<char>>) {
    }

    fn test(&self, segs: &Vec<String>, pos: usize) -> (r: Option<(PathMatch, usize)>) {
        Some((PathMatch::default(), pos))
    }
}

/// A segment that must equal the given text. The empty text matches without
/// consuming a segment.
#[derive(Copy, Clone, Debug, PartialEq, Eq, Hash)]
pub struct StaticSegment(pub &'static str);

impl RoutePath for StaticSegment {
    open spec fn spec_test(&self, segs: Seq<Seq<char>>) -> Option<(PathMatchView, nat)> {
        if self.0@.len() == 0 {
            Some((empty_match(), 0))
        } else if segs.len() == 0 {
            None
        } else if segs[0] == self.0@ {
            Some((PathMatchView { path: Some(self.0@), params: Seq::empty() }, 1))
        } else {
            None
        }
    }

    proof fn lemma_consumed(&self, segs: Seq<Seq<char>>) {
    }

    fn test(&self, segs: &Vec<String>, pos: usize) -> (r: Option<(PathMatch, usize)>) {
        proof {
            assert(strings_view(segs@).skip(pos as int).len() == segs@.len() - pos);
        }
        if self.0.is_empty() {
            Some((PathMatch::default(), pos))
        } else if pos >= segs.len() {
            None
        } else {
            proof {
                assert(strings_view(segs@).skip(pos as int)[0] == segs@[pos as int]@);
            }
            if str_eq(self.0, segs[pos].as_str()) {
                let params = ParamsMap::new();
                Some((PathMatch { path: Some(self.0.to_owned()), params }, pos + 1))
            } else {
                None
            }
        }
    }
}

/// A static segment with text matches exactly when the first segment is its
/// text, and then consumes that one segment, gives it as its text and
/// captures nothing; an empty static segment matches without consuming
/// anything or giving any text.
pub proof fn lemma_static_path_law(seg: StaticSegment, segs: Seq<Seq<char>>)
    ensures
        seg.0@.len() == 0 ==> seg.spec_test(segs) == Some(
            (PathMatchView { path: None, params: Seq::empty() }, 0nat),
        ),
        seg.0@.len() > 0 ==> (seg.spec_test(segs) is Some <==> (segs.len() > 0 && segs[0]
            == seg.0@)),
        seg.0@.len() > 0 && seg.spec_test(segs) is Some ==> seg.spec_test(segs) == Some(
            (PathMatchView { path: Some(segs[0]), params: Seq::empty() }, 1nat),
        ),
{
}

/// The kinds of values a parameter segment accepts.
pub trait SegmentValue {
    /// Whether the text is a valid value of this kind.
    spec fn spec_accepts(s: Seq<char>) -> bool;

    fn accepts(s: &str) -> (b: bool)
        ensures
            b == Self::spec_accepts(s@),
    ;
}

impl SegmentValue for String {
    open spec fn spec_accepts(s: Seq<char>) -> bool {
        true
    }

    fn accepts(s: &str) -> (b: bool) {
        true
    }
}

pub open spec fn is_digit(c: char) -> bool {
    '0' <= c && c <= '9'
}

pub open spec fn all_digits(d: Seq<char>) -> bool {
    forall|i: int| 0 <= i < d.len() ==> is_digit(#[trigger] d[i])
}

/// The number written by a sequence of decimal digits.
pub open spec fn digits_value(d: Seq<char>) -> int
    decreases d.len(),
{
    if d.len() == 0 {
        0
    } else {
        digits_value(d.drop_last()) * 10 + (d.last() as int - '0' as int)
    }
}

/// The length of a leading `+` or `-` sign.
pub open spec fn sign_len(s: Seq<char>) -> int {
    if s.len() > 0 && (s[0] == '+' || s[0] == '-') {
        1
    } else {
        0
    }
}

/// Text that denotes an `i32` in decimal: an optional sign, then at least one
/// digit, with a value in range.
pub open spec fn i32_text(s: Seq<char>) -> bool {
    let d = s.skip(sign_len(s));
    &&& d.len() > 0
    &&& all_digits(d)
    &&& if s.len() > 0 && s[0] == '-' {
        digits_value(d) <= 2147483648
    } else {
        digits_value(d) <= 2147483647
    }
}

proof fn lemma_digits_nonneg(d: Seq<char>)
    requires
        all_digits(d),
    ensures
        digits_value(d) >= 0,
    decreases d.len(),
{
    if d.len() > 0 {
        assert(is_digit(d[d.len() - 1]));
        lemma_digits_nonneg(d.drop_last());
    }
}

proof fn lemma_digits_mono(d: Seq<char>, k: int)
    requires
        all_digits(d),
        0 <= k <= d.len(),
    ensures
        digits_value(d.take(k)) <= digits_value(d),
    decreases d.len(),
{
    if k < d.len() {
        assert(is_digit(d[d.len() - 1]));
        lemma_digits_nonneg(d.drop_last());
        assert(d.drop_last().take(k) =~= d.take(k));
        lemma_digits_mono(d.drop_last(), k);
    } else {
        assert(d.take(k) =~= d);
    }
}

impl SegmentValue for i32 {
    open spec fn spec_accepts(s: Seq<char>) -> bool {
        i32_text(s)
    }

    fn accepts(s: &str) -> (b: bool) {
        let n = s.unicode_len();
        let mut start: usize = 0;
        let mut neg = false;
        if n > 0 {
            let c = s.get_char(0);
            if c == '+' || c == '-' {
                start = 1;
                neg = c == '-';
            }
        }
        if start == n {
            return false;
        }
        let limit: u64 = if neg { 2147483648 } else { 2147483647 };
        let ghost d = s@.skip(start as int);
        let mut acc: u64 = 0;
        let mut i = start;
        proof {
            assert(s@.subrange(start as int, start as int) =~= Seq::<char>::empty());
        }
        while i < n
            invariant
                start <= i <= n,
                n == s@.len(),
                d == s@.skip(start as int),
                start as int == sign_len(s@),
                neg == (s@.len() > 0 && s@[0] == '-'),
                limit == if neg { 2147483648u64 } else { 2147483647u64 },
                acc <= limit,
                acc == digits_value(s@.subrange(start as int, i as int)),
                all_digits(s@.subrange(start as int, i as int)),
            decreases n - i,
        {
            let c = s.get_char(i);
            let ghost pre = s@.subrange(start as int, i as int);
            let ghost next_d = s@.subrange(start as int, i + 1);
            proof {
                assert(next_d.drop_last() =~= pre);
                assert(next_d.last() == c);
                assert(d.take(i + 1 - start) =~= next_d);
            }
            if !('0' <= c && c <= '9') {
                proof {
                    assert(d[i - start] == c);
                }
                return false;
            }
            let dv: u64 = (c as u64) - ('0' as u64);
            let next = acc * 10 + dv;
            proof {
                assert(all_digits(next_d)) by {
                    assert forall|j: int| 0 <= j < next_d.len() implies is_digit(next_d[j]) by {
                        if j < pre.len() {
                            assert(next_d[j] == pre[j]);
                        }
                    }
                }
                assert(next == digits_value(next_d));
            }
            if next > limit {
                proof {
                    if all_digits(d) {
                        lemma_digits_mono(d, i + 1 - start);
                    }
                }
                return false;
            }
            acc = next;
            i = i + 1;
        }
        proof {
            assert(s@.subrange(start as int, n as int) =~= d);
        }
        true
    }
}

/// A segment that captures one segment of the path as a named parameter,
/// provided it is a valid value of kind `T`.
#[derive(Debug)]
pub struct ParamSegment<T> {
    field_name: &'static str,
    ty: PhantomData<T>,
}

/// An `i32` segment accepts a run of decimal digits, alone or after a `+`
/// or a `-` sign, exactly when its value is in range (one more for a `-`):
/// the digits `d` are read as the number whose last digit is the last one
/// and whose other digits are read the same way, times ten. It accepts
/// nothing that is empty, a lone sign, or ends in anything but a digit.
pub proof fn lemma_i32_segment_law(d: Seq<char>, c: char, s: Seq<char>)
    ensures
        digits_value(Seq::<char>::empty()) == 0,
        is_digit(c) ==> digits_value(d.push(c)) == digits_value(d) * 10 + (c as int - '0' as int),
        (d.len() > 0 && all_digits(d)) ==> {
            &&& <i32 as SegmentValue>::spec_accepts(d) == (digits_value(d) <= 2147483647)
            &&& <i32 as SegmentValue>::spec_accepts(seq!['+'] + d) == (digits_value(d)
                <= 2147483647)
            &&& <i32 as SegmentValue>::spec_accepts(seq!['-'] + d) == (digits_value(d)
                <= 2147483648)
        },
        !<i32 as SegmentValue>::spec_accepts(Seq::<char>::empty()),
        !<i32 as SegmentValue>::spec_accepts(seq!['+']),
        !<i32 as SegmentValue>::spec_accepts(seq!['-']),
        (s.len() > 0 && !is_digit(s.last())) ==> !<i32 as SegmentValue>::spec_accepts(s),
{
    assert(d.push(c).drop_last() =~= d);
    if d.len() > 0 && all_digits(d) {
        assert(is_digit(d[0]));
        assert(d.skip(0) =~= d);
        assert((seq!['+'] + d).skip(1) =~= d);
        assert((seq!['-'] + d).skip(1) =~= d);
    }
    assert(seq!['+'].skip(1).len() == 0);
    assert(seq!['-'].skip(1).len() == 0);
    if s.len() > 0 && !is_digit(s.last()) {
        let d2 = s.skip(sign_len(s));
        if d2.len() > 0 {
            assert(d2[d2.len() - 1] == s.last());
        }
    }
}

impl<T> ParamSegment<T> {
    pub fn new(field_name: &'static str) -> (r: ParamSegment<T>)
        ensures
            r.field_name() == field_name,
    {
        ParamSegment { field_name, ty: PhantomData }
    }

    pub closed spec fn field_name(&self) -> &'static str {
        self.field_name
    }
}

impl<T: SegmentValue> RoutePath for ParamSegment<T> {
    open spec fn spec_test(&self, segs: Seq<Seq<char>>) -> Option<(PathMatchView, nat)> {
        if segs.len() > 0 && T::spec_accepts(segs[0]) {
            Some(
                (
                    PathMatchView {
                        path: Some(segs[0]),
                        params: seq![(self.field_name()@, segs[0])],
                    },
                    1,
                ),
            )
        } else {
            None
        }
    }

    proof fn lemma_consumed(&self, segs: Seq<Seq<char>>) {
    }

    fn test(&self, segs: &Vec<String>, pos: usize) -> (r: Option<(PathMatch, usize)>) {
        proof {
            assert(strings_view(segs@).skip(pos as int).len() == segs@.len() - pos);
        }
        if pos >= segs.len() {
            return None;
        }
        proof {
            assert(strings_view(segs@).skip(pos as int)[0] == segs@[pos as int]@);
        }
        let segment = segs[pos].as_str();
        if !T::accepts(segment) {
            return None;
        }
        let params = ParamsMap::single(self.field_name, segment);
        Some((PathMatch { path: Some(segment.to_owned()), params }, pos + 1))
    }
}

/// A parameter segment matches exactly when there is a first segment and its
/// kind accepts it; it then consumes that segment, gives it as its text and
/// captures it under its name.
pub proof fn lemma_param_path_law<T: SegmentValue>(seg: ParamSegment<T>, segs: Seq<Seq<char>>)
    ensures
        seg.spec_test(segs) is Some <==> (segs.len() > 0 && T::spec_accepts(segs[0])),
        seg.spec_test(segs) is Some ==> seg.spec_test(segs) == Some(
            (
                PathMatchView {
                    path: Some(segs[0]),
                    params: seq![(seg.field_name()@, segs[0])],
                },
                1nat,
            ),
        ),
{
}

/// The segments joined with `/` between them.
pub open spec fn join_slash(segs: Seq<Seq<char>>) -> Seq<char>
    decreases segs.len(),
{
    if segs.len() == 0 {
        Seq::empty()
    } else if segs.len() == 1 {
        segs[0]
    } else {
        join_slash(segs.drop_last()) + slash() + segs.last()
    }
}

/// Joining segments with `/`: no segments give no text, one segment gives
/// itself, and one more segment adds a `/` and that segment.
pub proof fn lemma_join_slash_law(segs: Seq<Seq<char>>, x: Seq<char>)
    ensures
        join_slash(Seq::<Seq<char>>::empty()) == Seq::<char>::empty(),
        join_slash(seq![x]) == x,
        segs.len() > 0 ==> join_slash(segs.push(x)) == join_slash(segs) + seq!['/'] + x,
{
    assert(segs.push(x).drop_last() =~= segs);
}

/// A segment that captures all the remaining segments, joined with `/`, as a
/// named parameter.
#[derive(Copy, Clone, Debug, PartialEq, Eq, Hash)]
pub struct SplatSegment {
    field_name: &'static str,
}

impl SplatSegment {
    pub fn new(field_name: &'static str) -> (r: SplatSegment)
        ensures
            r.field_name() == field_name,
    {
        SplatSegment { field_name }
    }

    pub closed spec fn field_name(&self) -> &'static str {
        self.field_name
    }
}

impl RoutePath for SplatSegment {
    open spec fn spec_test(&self, segs: Seq<Seq<char>>) -> Option<(PathMatchView, nat)> {
        Some(
            (
                PathMatchView {
                    path: Some(join_slash(segs)),
                    params: seq![(self.field_name()@, join_slash(segs))],
                },
                segs.len(),
            ),
        )
    }

    proof fn lemma_consumed(&self, segs: Seq<Seq<char>>) {
    }

    fn test(&self, segs: &Vec<String>, pos: usize) -> (r: Option<(PathMatch, usize)>) {
        let ghost all = strings_view(segs@).skip(pos as int);
        let n = segs.len();
        let mut matched = String::new();
        let mut i = pos;
        proof {
            assert(all.take(0) =~= Seq::<Seq<char>>::empty());
        }
        while i < n
            invariant
                pos <= i <= n,
                n == segs@.len(),
                all == strings_view(segs@).skip(pos as int),
                matched@ == join_slash(all.take(i - pos)),
            decreases n - i,
        {
            let ghost before = all.take(i - pos);
            proof {
                assert(all.take(i + 1 - pos).drop_last() =~= before);
                assert(all.take(i + 1 - pos).last() == segs@[i as int]@);
            }
            if i > pos {
                matched.append("/");
                proof {
                    reveal_strlit("/");
                }
            } else {
                proof {
                    assert(before.len() == 0);
                }
            }
            matched.append(segs[i].as_str());
            proof {
                if i > pos {
                    assert(matched@ =~= join_slash(before) + slash() + segs@[i as int]@);
                } else {
                    assert(matched@ =~= segs@[i as int]@);
                }
            }
            i = i + 1;
        }
        proof {
            assert(all.take(n - pos) =~= all);
        }
        let params = ParamsMap::single(self.field_name, matched.as_str());
        Some((PathMatch { path: Some(matched), params }, n))
    }
}

impl<A: RoutePath> RoutePath for (A,) {
    open spec fn spec_test(&self, segs: Seq<Seq<char>>) -> Option<(PathMatchView, nat)> {
        self.0.spec_test(segs)
    }

    proof fn lemma_consumed(&self, segs: Seq<Seq<char>>) {
        self.0.lemma_consumed(segs);
    }

    fn test(&self, segs: &Vec<String>, pos: usize) -> (r: Option<(PathMatch, usize)>) {
        self.0.test(segs, pos)
    }
}


impl<A: RoutePath, B: RoutePath> SegPatterns for (A, B) {
    open spec fn seg_patterns(&self) -> Seq<SegPattern> {
        seq![seg_pattern_of(&self.0), seg_pattern_of(&self.1)]
    }
}

/// A tuple of path patterns matches its members one after another, each on
/// the segments the ones before it left (`path_sequence`).
impl<A: RoutePath, B: RoutePath> RoutePath for (A, B) {
    open spec fn spec_test(&self, segs: Seq<Seq<char>>) -> Option<(PathMatchView, nat)> {
        path_sequence(self.seg_patterns(), segs)
    }

    proof fn lemma_consumed(&self, segs: Seq<Seq<char>>) {
        let parts = self.seg_patterns();
        lemma_route_path_within(&self.0);
        lemma_route_path_within(&self.1);
        assert forall|i: int| 0 <= i < 2 implies #[trigger] consumes_within(parts[i]) by {
            if i == 0 {} else if i == 1 {}
        }
        lemma_path_run_within(parts, segs);
    }

    fn test(&self, segs: &Vec<String>, pos: usize) -> (r: Option<(PathMatch, usize)>) {
        let ghost parts = self.seg_patterns();
        let mut joined = String::new();
        let mut params = ParamsMap::new();
        proof {
            lemma_path_run_start(parts, strings_view(segs@).skip(pos as int));
        }
        let p = match path_step(&self.0, segs, pos, &mut joined, &mut params, Ghost(parts), Ghost(0), Ghost(pos)) {
            Some(p) => p,
            None => return None,
        };
        let p = match path_step(&self.1, segs, p, &mut joined, &mut params, Ghost(parts), Ghost(1), Ghost(pos)) {
            Some(p) => p,
            None => return None,
        };
        proof {
            lemma_path_run_end(
                parts,
                strings_view(segs@).skip(pos as int),
                joined@,
                params@,
                (p - pos) as nat,
                strings_view(segs@).skip(p as int),
            );
        }
        let path = normalize(joined);
        Some((PathMatch { path, params }, p))
    }
}

impl<A: RoutePath, B: RoutePath, C: RoutePath> SegPatterns for (A, B, C) {
    open spec fn seg_patterns(&self) -> Seq<SegPattern> {
        seq![seg_pattern_of(&self.0), seg_pattern_of(&self.1), seg_pattern_of(&self.2)]
    }
}

impl<A: RoutePath, B: RoutePath, C: RoutePath> RoutePath for (A, B, C) {
    open spec fn spec_test(&self, segs: Seq<Seq<char>>) -> Option<(PathMatchView, nat)> {
        path_sequence(self.seg_patterns(), segs)
    }

    proof fn lemma_consumed(&self, segs: Seq<Seq<char>>) {
        let parts = self.seg_patterns();
        lemma_route_path_within(&self.0);
        lemma_route_path_within(&self.1);
        lemma_route_path_within(&self.2);
        assert forall|i: int| 0 <= i < 3 implies #[trigger] consumes_within(parts[i]) by {
            if i == 0 {} else if i == 1 {} else if i == 2 {}
        }
        lemma_path_run_within(parts, segs);
    }

    fn test(&self, segs: &Vec<String>, pos: usize) -> (r: Option<(PathMatch, usize)>) {
        let ghost parts = self.seg_patterns();
        let mut joined = String::new();
        let mut params = ParamsMap::new();
        proof {
            lemma_path_run_start(parts, strings_view(segs@).skip(pos as int));
        }
        let p = match path_step(&self.0, segs, pos, &mut joined, &mut params, Ghost(parts), Ghost(0), Ghost(pos)) {
            Some(p) => p,
            None => return None,
        };
        let p = match path_step(&self.1, segs, p, &mut joined, &mut params, Ghost(parts), Ghost(1), Ghost(pos)) {
            Some(p) => p,
            None => return None,
        };
        let p = match path_step(&self.2, segs, p, &mut joined, &mut params, Ghost(parts), Ghost(2), Ghost(pos)) {
            Some(p) => p,
            None => return None,
        };
        proof {
            lemma_path_run_end(
                parts,
                strings_view(segs@).skip(pos as int),
                joined@,
                params@,
                (p - pos) as nat,
                strings_view(segs@).skip(p as int),
            );
        }
        let path = normalize(joined);
        Some((PathMatch { path, params }, p))
    }
}

impl<A: RoutePath, B: RoutePath, C: RoutePath, D: RoutePath> SegPatterns for (A, B, C, D) {
    open spec fn seg_patterns(&self) -> Seq<SegPattern> {
        seq![seg_pattern_of(&self.0), seg_pattern_of(&self.1), seg_pattern_of(&self.2), seg_pattern_of(&self.3)]
    }
}

impl<A: RoutePath, B: RoutePath, C: RoutePath, D: RoutePath> RoutePath for (A, B, C, D) {
    open spec fn spec_test(&self, segs: Seq<Seq<char>>) -> Option<(PathMatchView, nat)> {
        path_sequence(self.seg_patterns(), segs)
    }

    proof fn lemma_consumed(&self, segs: Seq<Seq<char>>) {
        let parts = self.seg_patterns();
        lemma_route_path_within(&self.0);
        lemma_route_path_within(&self.1);
        lemma_route_path_within(&self.2);
        lemma_route_path_within(&self.3);
        assert forall|i: int| 0 <= i < 4 implies #[trigger] consumes_within(parts[i]) by {
            if i == 0 {} else if i == 1 {} else if i == 2 {} else if i == 3 {}
        }
        lemma_path_run_within(parts, segs);
    }

    fn test(&self, segs: &Vec<String>, pos: usize) -> (r: Option<(PathMatch, usize)>) {
        let ghost parts = self.seg_patterns();
        let mut joined = String::new();
        let mut params = ParamsMap::new();
        proof {
            lemma_path_run_start(parts, strings_view(segs@).skip(pos as int));
        }
        let p = match path_step(&self.0, segs, pos, &mut joined, &mut params, Ghost(parts), Ghost(0), Ghost(pos)) {
            Some(p) => p,
            None => return None,
        };
        let p = match path_step(&self.1, segs, p, &mut joined, &mut params, Ghost(parts), Ghost(1), Ghost(pos)) {
            Some(p) => p,
            None => return None,
        };
        let p = match path_step(&self.2, segs, p, &mut joined, &mut params, Ghost(parts), Ghost(2), Ghost(pos)) {
            Some(p) => p,
            None => return None,
        };
        let p = match path_step(&self.3, segs, p, &mut joined, &mut params, Ghost(parts), Ghost(3), Ghost(pos)) {
            Some(p) => p,
            None => return None,
        };
        proof {
            lemma_path_run_end(
                parts,
                strings_view(segs@).skip(pos as int),
                joined@,
                params@,
                (p - pos) as nat,
                strings_view(segs@).skip(p as int),
            );
        }
        let path = normalize(joined);
        Some((PathMatch { path, params }, p))
    }
}

impl<A: RoutePath, B: RoutePath, C: RoutePath, D: RoutePath, E: RoutePath> SegPatterns for (A, B, C, D, E) {
    open spec fn seg_patterns(&self) -> Seq<SegPattern> {
        seq![seg_pattern_of(&self.0), seg_pattern_of(&self.1), seg_pattern_of(&self.2), seg_pattern_of(&self.3), seg_pattern_of(&self.4)]
    }
}

impl<A: RoutePath, B: RoutePath, C: RoutePath, D: RoutePath, E: RoutePath> RoutePath for (A, B, C, D, E) {
    open spec fn spec_test(&self, segs: Seq<Seq<char>>) -> Option<(PathMatchView, nat)> {
        path_sequence(self.seg_patterns(), segs)
    }

    proof fn lemma_consumed(&self, segs: Seq<Seq<char>>) {
        let parts = self.seg_patterns();
        lemma_route_path_within(&self.0);
        lemma_route_path_within(&self.1);
        lemma_route_path_within(&self.2);
        lemma_route_path_within(&self.3);
        lemma_route_path_within(&self.4);
        assert forall|i: int| 0 <= i < 5 implies #[trigger] consumes_within(parts[i]) by {
            if i == 0 {} else if i == 1 {} else if i == 2 {} else if i == 3 {} else if i == 4 {}
        }
        lemma_path_run_within(parts, segs);
    }

    fn test(&self, segs: &Vec<String>, pos: usize) -> (r: Option<(PathMatch, usize)>) {
        let ghost parts = self.seg_patterns();
        let mut joined = String::new();
        let mut params = ParamsMap::new();
        proof {
            lemma_path_run_start(parts, strings_view(segs@).skip(pos as int));
        }
        let p = match path_step(&self.0, segs, pos, &mut joined, &mut params, Ghost(parts), Ghost(0), Ghost(pos)) {
            Some(p) => p,
            None => return None,
        };
        let p = match path_step(&self.1, segs, p, &mut joined, &mut params, Ghost(parts), Ghost(1), Ghost(pos)) {
            Some(p) => p,
            None => return None,
        };
        let p = match path_step(&self.2, segs, p, &mut joined, &mut params, Ghost(parts), Ghost(2), Ghost(pos)) {
            Some(p) => p,
            None => return None,
        };
        let p = match path_step(&self.3, segs, p, &mut joined, &mut params, Ghost(parts), Ghost(3), Ghost(pos)) {
            Some(p) => p,
            None => return None,
        };
        let p = match path_step(&self.4, segs, p, &mut joined, &mut params, Ghost(parts), Ghost(4), Ghost(pos)) {
            Some(p) => p,
            None => return None,
        };
        proof {
            lemma_path_run_end(
                parts,
                strings_view(segs@).skip(pos as int),
                joined@,
                params@,
                (p - pos) as nat,
                strings_view(segs@).skip(p as int),
            );
        }
        let path = normalize(joined);
        Some((PathMatch { path, params }, p))
    }
}

impl<A: RoutePath, B: RoutePath, C: RoutePath, D: RoutePath, E: RoutePath, F: RoutePath> SegPatterns for (A, B, C, D, E, F) {
    open spec fn seg_patterns(&self) -> Seq<SegPattern> {
        seq![seg_pattern_of(&self.0), seg_pattern_of(&self.1), seg_pattern_of(&self.2), seg_pattern_of(&self.3), seg_pattern_of(&self.4), seg_pattern_of(&self.5)]
    }
}

impl<A: RoutePath, B: RoutePath, C: RoutePath, D: RoutePath, E: RoutePath, F: RoutePath> RoutePath for (A, B, C, D, E, F) {
    open spec fn spec_test(&self, segs: Seq<Seq<char>>) -> Option<(PathMatchView, nat)> {
        path_sequence(self.seg_patterns(), segs)
    }

    proof fn lemma_consumed(&self, segs: Seq<Seq<char>>) {
        let parts = self.seg_patterns();
        lemma_route_path_within(&self.0);
        lemma_route_path_within(&self.1);
        lemma_route_path_within(&self.2);
        lemma_route_path_within(&self.3);
        lemma_route_path_within(&self.4);
        lemma_route_path_within(&self.5);
        assert forall|i: int| 0 <= i < 6 implies #[trigger] consumes_within(parts[i]) by {
            if i == 0 {} else if i == 1 {} else if i == 2 {} else if i == 3 {} else if i == 4 {} else if i == 5 {}
        }
        lemma_path_run_within(parts, segs);
    }

    fn test(&self, segs: &Vec<String>, pos: usize) -> (r: Option<(PathMatch, usize)>) {
        let ghost parts = self.seg_patterns();
        let mut joined = String::new();
        let mut params = ParamsMap::new();
        proof {
            lemma_path_run_start(parts, strings_view(segs@).skip(pos as int));
        }
        let p = match path_step(&self.0, segs, pos, &mut joined, &mut params, Ghost(parts), Ghost(0), Ghost(pos)) {
            Some(p) => p,
            None => return None,
        };
        let p = match path_step(&self.1, segs, p, &mut joined, &mut params, Ghost(parts), Ghost(1), Ghost(pos)) {
            Some(p) => p,
            None => return None,
        };
        let p = match path_step(&self.2, segs, p, &mut joined, &mut params, Ghost(parts), Ghost(2), Ghost(pos)) {
            Some(p) => p,
            None => return None,
        };
        let p = match path_step(&self.3, segs, p, &mut joined, &mut params, Ghost(parts), Ghost(3), Ghost(pos)) {
            Some(p) => p,
            None => return None,
        };
        let p = match path_step(&self.4, segs, p, &mut joined, &mut params, Ghost(parts), Ghost(4), Ghost(pos)) {
            Some(p) => p,
            None => return None,
        };
        let p = match path_step(&self.5, segs, p, &mut joined, &mut params, Ghost(parts), Ghost(5), Ghost(pos)) {
            Some(p) => p,
            None => return None,
        };
        proof {
            lemma_path_run_end(
                parts,
                strings_view(segs@).skip(pos as int),
                joined@,
                params@,
                (p - pos) as nat,
                strings_view(segs@).skip(p as int),
            );
        }
        let path = normalize(joined);
        Some((PathMatch { path, params }, p))
    }
}

impl<A: RoutePath, B: RoutePath, C: RoutePath, D: RoutePath, E: RoutePath, F: RoutePath, G: RoutePath> SegPatterns for (A, B, C, D, E, F, G) {
    open spec fn seg_patterns(&self) -> Seq<SegPattern> {
        seq![seg_pattern_of(&self.0), seg_pattern_of(&self.1), seg_pattern_of(&self.2), seg_pattern_of(&self.3), seg_pattern_of(&self.4), seg_pattern_of(&self.5), seg_pattern_of(&self.6)]
    }
}

impl<A: RoutePath, B: RoutePath, C: RoutePath, D: RoutePath, E: RoutePath, F: RoutePath, G: RoutePath> RoutePath for (A, B, C, D, E, F, G) {
    open spec fn spec_test(&self, segs: Seq<Seq<char>>) -> Option<(PathMatchView, nat)> {
        path_sequence(self.seg_patterns(), segs)
    }

    proof fn lemma_consumed(&self, segs: Seq<Seq<char>>) {
        let parts = self.seg_patterns();
        lemma_route_path_within(&self.0);
        lemma_route_path_within(&self.1);
        lemma_route_path_within(&self.2);
        lemma_route_path_within(&self.3);
        lemma_route_path_within(&self.4);
        lemma_route_path_within(&self.5);
        lemma_route_path_within(&self.6);
        assert forall|i: int| 0 <= i < 7 implies #[trigger] consumes_within(parts[i]) by {
            if i == 0 {} else if i == 1 {} else if i == 2 {} else if i == 3 {} else if i == 4 {} else if i == 5 {} else if i == 6 {}
        }
        lemma_path_run_within(parts, segs);
    }

    fn test(&self, segs: &Vec<String>, pos: usize) -> (r: Option<(PathMatch, usize)>) {
        let ghost parts = self.seg_patterns();
        let mut joined = String::new();
        let mut params = ParamsMap::new();
        proof {
            lemma_path_run_start(parts, strings_view(segs@).skip(pos as int));
        }
        let p = match path_step(&self.0, segs, pos, &mut joined, &mut params, Ghost(parts), Ghost(0), Ghost(pos)) {
            Some(p) => p,
            None => return None,
        };
        let p = match path_step(&self.1, segs, p, &mut joined, &mut params, Ghost(parts), Ghost(1), Ghost(pos)) {
            Some(p) => p,
            None => return None,
        };
        let p = match path_step(&self.2, segs, p, &mut joined, &mut params, Ghost(parts), Ghost(2), Ghost(pos)) {
            Some(p) => p,
            None => return None,
        };
        let p = match path_step(&self.3, segs, p, &mut joined, &mut params, Ghost(parts), Ghost(3), Ghost(pos)) {
            Some(p) => p,
            None => return None,
        };
        let p = match path_step(&self.4, segs, p, &mut joined, &mut params, Ghost(parts), Ghost(4), Ghost(pos)) {
            Some(p) => p,
            None => return None,
        };
        let p = match path_step(&self.5, segs, p, &mut joined, &mut params, Ghost(parts), Ghost(5), Ghost(pos)) {
            Some(p) => p,
            None => return None,
        };
        let p = match path_step(&self.6, segs, p, &mut joined, &mut params, Ghost(parts), Ghost(6), Ghost(pos)) {
            Some(p) => p,
            None => return None,
        };
        proof {
            lemma_path_run_end(
                parts,
                strings_view(segs@).skip(pos as int),
                joined@,
                params@,
                (p - pos) as nat,
                strings_view(segs@).skip(p as int),
            );
        }
        let path = normalize(joined);
        Some((PathMatch { path, params }, p))
    }
}

impl<A: RoutePath, B: RoutePath, C: RoutePath, D: RoutePath, E: RoutePath, F: RoutePath, G: RoutePath, H: RoutePath> SegPatterns for (A, B, C, D, E, F, G, H) {
    open spec fn seg_patterns(&self) -> Seq<SegPattern> {
        seq![seg_pattern_of(&self.0), seg_pattern_of(&self.1), seg_pattern_of(&self.2), seg_pattern_of(&self.3), seg_pattern_of(&self.4), seg_pattern_of(&self.5), seg_pattern_of(&self.6), seg_pattern_of(&self.7)]
    }
}

impl<A: RoutePath, B: RoutePath, C: RoutePath, D: RoutePath, E: RoutePath, F: RoutePath, G: RoutePath, H: RoutePath> RoutePath for (A, B, C, D, E, F, G, H) {
    open spec fn spec_test(&self, segs: Seq<Seq<char>>) -> Option<(PathMatchView, nat)> {
        path_sequence(self.seg_patterns(), segs)
    }

    proof fn lemma_consumed(&self, segs: Seq<Seq<char>>) {
        let parts = self.seg_patterns();
        lemma_route_path_within(&self.0);
        lemma_route_path_within(&self.1);
        lemma_route_path_within(&self.2);
        lemma_route_path_within(&self.3);
        lemma_route_path_within(&self.4);
        lemma_route_path_within(&self.5);
        lemma_route_path_within(&self.6);
        lemma_route_path_within(&self.7);
        assert forall|i: int| 0 <= i < 8 implies #[trigger] consumes_within(parts[i]) by {
            if i == 0 {} else if i == 1 {} else if i == 2 {} else if i == 3 {} else if i == 4 {} else if i == 5 {} else if i == 6 {} else if i == 7 {}
        }
        lemma_path_run_within(parts, segs);
    }

    fn test(&self, segs: &Vec<String>, pos: usize) -> (r: Option<(PathMatch, usize)>) {
        let ghost parts = self.seg_patterns();
        let mut joined = String::new();
        let mut params = ParamsMap::new();
        proof {
            lemma_path_run_start(parts, strings_view(segs@).skip(pos as int));
        }
        let p = match path_step(&self.0, segs, pos, &mut joined, &mut params, Ghost(parts), Ghost(0), Ghost(pos)) {
            Some(p) => p,
            None => return None,
        };
        let p = match path_step(&self.1, segs, p, &mut joined, &mut params, Ghost(parts), Ghost(1), Ghost(pos)) {
            Some(p) => p,
            None => return None,
        };
        let p = match path_step(&self.2, segs, p, &mut joined, &mut params, Ghost(parts), Ghost(2), Ghost(pos)) {
            Some(p) => p,
            None => return None,
        };
        let p = match path_step(&self.3, segs, p, &mut joined, &mut params, Ghost(parts), Ghost(3), Ghost(pos)) {
            Some(p) => p,
            None => return None,
        };
        let p = match path_step(&self.4, segs, p, &mut joined, &mut params, Ghost(parts), Ghost(4), Ghost(pos)) {
            Some(p) => p,
            None => return None,
        };
        let p = match path_step(&self.5, segs, p, &mut joined, &mut params, Ghost(parts), Ghost(5), Ghost(pos)) {
            Some(p) => p,
            None => return None,
        };
        let p = match path_step(&self.6, segs, p, &mut joined, &mut params, Ghost(parts), Ghost(6), Ghost(pos)) {
            Some(p) => p,
            None => return None,
        };
        let p = match path_step(&self.7, segs, p, &mut joined, &mut params, Ghost(parts), Ghost(7), Ghost(pos)) {
            Some(p) => p,
            None => return None,
        };
        proof {
            lemma_path_run_end(
                parts,
                strings_view(segs@).skip(pos as int),
                joined@,
                params@,
                (p - pos) as nat,
                strings_view(segs@).skip(p as int),
            );
        }
        let path = normalize(joined);
        Some((PathMatch { path, params }, p))
    }
}

impl<A: RoutePath, B: RoutePath, C: RoutePath, D: RoutePath, E: RoutePath, F: RoutePath, G: RoutePath, H: RoutePath, I: RoutePath> SegPatterns for (A, B, C, D, E, F, G, H, I) {
    open spec fn seg_patterns(&self) -> Seq<SegPattern> {
        seq![seg_pattern_of(&self.0), seg_pattern_of(&self.1), seg_pattern_of(&self.2), seg_pattern_of(&self.3), seg_pattern_of(&self.4), seg_pattern_of(&self.5), seg_pattern_of(&self.6), seg_pattern_of(&self.7), seg_pattern_of(&self.8)]
    }
}

impl<A: RoutePath, B: RoutePath, C: RoutePath, D: RoutePath, E: RoutePath, F: RoutePath, G: RoutePath, H: RoutePath, I: RoutePath> RoutePath for (A, B, C, D, E, F, G, H, I) {
    open spec fn spec_test(&self, segs: Seq<Seq<char>>) -> Option<(PathMatchView, nat)> {
        path_sequence(self.seg_patterns(), segs)
    }

    proof fn lemma_consumed(&self, segs: Seq<Seq<char>>) {
        let parts = self.seg_patterns();
        lemma_route_path_within(&self.0);
        lemma_route_path_within(&self.1);
        lemma_route_path_within(&self.2);
        lemma_route_path_within(&self.3);
        lemma_route_path_within(&self.4);
        lemma_route_path_within(&self.5);
        lemma_route_path_within(&self.6);
        lemma_route_path_within(&self.7);
        lemma_route_path_within(&self.8);
        assert forall|i: int| 0 <= i < 9 implies #[trigger] consumes_within(parts[i]) by {
            if i == 0 {} else if i == 1 {} else if i == 2 {} else if i == 3 {} else if i == 4 {} else if i == 5 {} else if i == 6 {} else if i == 7 {} else if i == 8 {}
        }
        lemma_path_run_within(parts, segs);
    }

    fn test(&self, segs: &Vec<String>, pos: usize) -> (r: Option<(PathMatch, usize)>) {
        let ghost parts = self.seg_patterns();
        let mut joined = String::new();
        let mut params = ParamsMap::new();
        proof {
            lemma_path_run_start(parts, strings_view(segs@).skip(pos as int));
        }
        let p = match path_step(&self.0, segs, pos, &mut joined, &mut params, Ghost(parts), Ghost(0), Ghost(pos)) {
            Some(p) => p,
            None => return None,
        };
        let p = match path_step(&self.1, segs, p, &mut joined, &mut params, Ghost(parts), Ghost(1), Ghost(pos)) {
            Some(p) => p,
            None => return None,
        };
        let p = match path_step(&self.2, segs, p, &mut joined, &mut params, Ghost(parts), Ghost(2), Ghost(pos)) {
            Some(p) => p,
            None => return None,
        };
        let p = match path_step(&self.3, segs, p, &mut joined, &mut params, Ghost(parts), Ghost(3), Ghost(pos)) {
            Some(p) => p,
            None => return None,
        };
        let p = match path_step(&self.4, segs, p, &mut joined, &mut params, Ghost(parts), Ghost(4), Ghost(pos)) {
            Some(p) => p,
            None => return None,
        };
        let p = match path_step(&self.5, segs, p, &mut joined, &mut params, Ghost(parts), Ghost(5), Ghost(pos)) {
            Some(p) => p,
            None => return None,
        };
        let p = match path_step(&self.6, segs, p, &mut joined, &mut params, Ghost(parts), Ghost(6), Ghost(pos)) {
            Some(p) => p,
            None => return None,
        };
        let p = match path_step(&self.7, segs, p, &mut joined, &mut params, Ghost(parts), Ghost(7), Ghost(pos)) {
            Some(p) => p,
            None => return None,
        };
        let p = match path_step(&self.8, segs, p, &mut joined, &mut params, Ghost(parts), Ghost(8), Ghost(pos)) {
            Some(p) => p,
            None => return None,
        };
        proof {
            lemma_path_run_end(
                parts,
                strings_view(segs@).skip(pos as int),
                joined@,
                params@,
                (p - pos) as nat,
                strings_view(segs@).skip(p as int),
            );
        }
        let path = normalize(joined);
        Some((PathMatch { path, params }, p))
    }
}

impl<A: RoutePath, B: RoutePath, C: RoutePath, D: RoutePath, E: RoutePath, F: RoutePath, G: RoutePath, H: RoutePath, I: RoutePath, J: RoutePath> SegPatterns for (A, B, C, D, E, F, G, H, I, J) {
    open spec fn seg_patterns(&self) -> Seq<SegPattern> {
        seq![seg_pattern_of(&self.0), seg_pattern_of(&self.1), seg_pattern_of(&self.2), seg_pattern_of(&self.3), seg_pattern_of(&self.4), seg_pattern_of(&self.5), seg_pattern_of(&self.6), seg_pattern_of(&self.7), seg_pattern_of(&self.8), seg_pattern_of(&self.9)]
    }
}

impl<A: RoutePath, B: RoutePath, C: RoutePath, D: RoutePath, E: RoutePath, F: RoutePath, G: RoutePath, H: RoutePath, I: RoutePath, J: RoutePath> RoutePath for (A, B, C, D, E, F, G, H, I, J) {
    open spec fn spec_test(&self, segs: Seq<Seq<char>>) -> Option<(PathMatchView, nat)> {
        path_sequence(self.seg_patterns(), segs)
    }

    proof fn lemma_consumed(&self, segs: Seq<Seq<char>>) {
        let parts = self.seg_patterns();
        lemma_route_path_within(&self.0);
        lemma_route_path_within(&self.1);
        lemma_route_path_within(&self.2);
        lemma_route_path_within(&self.3);
        lemma_route_path_within(&self.4);
        lemma_route_path_within(&self.5);
        lemma_route_path_within(&self.6);
        lemma_route_path_within(&self.7);
        lemma_route_path_within(&self.8);
        lemma_route_path_within(&self.9);
        assert forall|i: int| 0 <= i < 10 implies #[trigger] consumes_within(parts[i]) by {
            if i == 0 {} else if i == 1 {} else if i == 2 {} else if i == 3 {} else if i == 4 {} else if i == 5 {} else if i == 6 {} else if i == 7 {} else if i == 8 {} else if i == 9 {}
        }
        lemma_path_run_within(parts, segs);
    }

    fn test(&self, segs: &Vec<String>, pos: usize) -> (r: Option<(PathMatch, usize)>) {
        let ghost parts = self.seg_patterns();
        let mut joined = String::new();
        let mut params = ParamsMap::new();
        proof {
            lemma_path_run_start(parts, strings_view(segs@).skip(pos as int));
        }
        let p = match path_step(&self.0, segs, pos, &mut joined, &mut params, Ghost(parts), Ghost(0), Ghost(pos)) {
            Some(p) => p,
            None => return None,
        };
        let p = match path_step(&self.1, segs, p, &mut joined, &mut params, Ghost(parts), Ghost(1), Ghost(pos)) {
            Some(p) => p,
            None => return None,
        };
        let p = match path_step(&self.2, segs, p, &mut joined, &mut params, Ghost(parts), Ghost(2), Ghost(pos)) {
            Some(p) => p,
            None => return None,
        };
        let p = match path_step(&self.3, segs, p, &mut joined, &mut params, Ghost(parts), Ghost(3), Ghost(pos)) {
            Some(p) => p,
            None => return None,
        };
        let p = match path_step(&self.4, segs, p, &mut joined, &mut params, Ghost(parts), Ghost(4), Ghost(pos)) {
            Some(p) => p,
            None => return None,
        };
        let p = match path_step(&self.5, segs, p, &mut joined, &mut params, Ghost(parts), Ghost(5), Ghost(pos)) {
            Some(p) => p,
            None => return None,
        };
        let p = match path_step(&self.6, segs, p, &mut joined, &mut params, Ghost(parts), Ghost(6), Ghost(pos)) {
            Some(p) => p,
            None => return None,
        };
        let p = match path_step(&self.7, segs, p, &mut joined, &mut params, Ghost(parts), Ghost(7), Ghost(pos)) {
            Some(p) => p,
            None => return None,
        };
        let p = match path_step(&self.8, segs, p, &mut joined, &mut params, Ghost(parts), Ghost(8), Ghost(pos)) {
            Some(p) => p,
            None => return None,
        };
        let p = match path_step(&self.9, segs, p, &mut joined, &mut params, Ghost(parts), Ghost(9), Ghost(pos)) {
            Some(p) => p,
            None => return None,
        };
        proof {
            lemma_path_run_end(
                parts,
                strings_view(segs@).skip(pos as int),
                joined@,
                params@,
                (p - pos) as nat,
                strings_view(segs@).skip(p as int),
            );
        }
        let path = normalize(joined);
        Some((PathMatch { path, params }, p))
    }
}

/// A tuple of 2 path patterns matches its members one after another, in
/// order, each on the segments the ones before it left.
pub proof fn lemma_path_tuple_2<A: RoutePath, B: RoutePath>(t: (A, B), segs: Seq<Seq<char>>)
    ensures
        t.spec_test(segs) == path_sequence(
            seq![seg_pattern_of(&t.0), seg_pattern_of(&t.1)],
            segs,
        ),
{
}

/// A tuple of 3 path patterns matches its members one after another, in
/// order, each on the segments the ones before it left.
pub proof fn lemma_path_tuple_3<A: RoutePath, B: RoutePath, C: RoutePath>(t: (A, B, C), segs: Seq<Seq<char>>)
    ensures
        t.spec_test(segs) == path_sequence(
            seq![seg_pattern_of(&t.0), seg_pattern_of(&t.1), seg_pattern_of(&t.2)],
            segs,
        ),
{
}

/// A tuple of 4 path patterns matches its members one after another, in
/// order, each on the segments the ones before it left.
pub proof fn lemma_path_tuple_4<A: RoutePath, B: RoutePath, C: RoutePath, D: RoutePath>(t: (A, B, C, D), segs: Seq<Seq<char>>)
    ensures
        t.spec_test(segs) == path_sequence(
            seq![seg_pattern_of(&t.0), seg_pattern_of(&t.1), seg_pattern_of(&t.2), seg_pattern_of(&t.3)],
            segs,
        ),
{
}

/// A tuple of 5 path patterns matches its members one after another, in
/// order, each on the segments the ones before it left.
pub proof fn lemma_path_tuple_5<A: RoutePath, B: RoutePath, C: RoutePath, D: RoutePath, E: RoutePath>(t: (A, B, C, D, E), segs: Seq<Seq<char>>)
    ensures
        t.spec_test(segs) == path_sequence(
            seq![seg_pattern_of(&t.0), seg_pattern_of(&t.1), seg_pattern_of(&t.2), seg_pattern_of(&t.3), seg_pattern_of(&t.4)],
            segs,
        ),
{
}

/// A tuple of 6 path patterns matches its members one after another, in
/// order, each on the segments the ones before it left.
pub proof fn lemma_path_tuple_6<A: RoutePath, B: RoutePath, C: RoutePath, D: RoutePath, E: RoutePath, F: RoutePath>(t: (A, B, C, D, E, F), segs: Seq<Seq<char>>)
    ensures
        t.spec_test(segs) == path_sequence(
            seq![seg_pattern_of(&t.0), seg_pattern_of(&t.1), seg_pattern_of(&t.2), seg_pattern_of(&t.3), seg_pattern_of(&t.4), seg_pattern_of(&t.5)],
            segs,
        ),
{
}

/// A tuple of 7 path patterns matches its members one after another, in
/// order, each on the segments the ones before it left.
pub proof fn lemma_path_tuple_7<A: RoutePath, B: RoutePath, C: RoutePath, D: RoutePath, E: RoutePath, F: RoutePath, G: RoutePath>(t: (A, B, C, D, E, F, G), segs: Seq<Seq<char>>)
    ensures
        t.spec_test(segs) == path_sequence(
            seq![seg_pattern_of(&t.0), seg_pattern_of(&t.1), seg_pattern_of(&t.2), seg_pattern_of(&t.3), seg_pattern_of(&t.4), seg_pattern_of(&t.5), seg_pattern_of(&t.6)],
            segs,
        ),
{
}

/// A tuple of 8 path patterns matches its members one after another, in
/// order, each on the segments the ones before it left.
pub proof fn lemma_path_tuple_8<A: RoutePath, B: RoutePath, C: RoutePath, D: RoutePath, E: RoutePath, F: RoutePath, G: RoutePath, H: RoutePath>(t: (A, B, C, D, E, F, G, H), segs: Seq<Seq<char>>)
    ensures
        t.spec_test(segs) == path_sequence(
            seq![seg_pattern_of(&t.0), seg_pattern_of(&t.1), seg_pattern_of(&t.2), seg_pattern_of(&t.3), seg_pattern_of(&t.4), seg_pattern_of(&t.5), seg_pattern_of(&t.6), seg_pattern_of(&t.7)],
            segs,
        ),
{
}

/// A tuple of 9 path patterns matches its members one after another, in
/// order, each on the segments the ones before it left.
pub proof fn lemma_path_tuple_9<A: RoutePath, B: RoutePath, C: RoutePath, D: RoutePath, E: RoutePath, F: RoutePath, G: RoutePath, H: RoutePath, I: RoutePath>(t: (A, B, C, D, E, F, G, H, I), segs: Seq<Seq<char>>)
    ensures
        t.spec_test(segs) == path_sequence(
            seq![seg_pattern_of(&t.0), seg_pattern_of(&t.1), seg_pattern_of(&t.2), seg_pattern_of(&t.3), seg_pattern_of(&t.4), seg_pattern_of(&t.5), seg_pattern_of(&t.6), seg_pattern_of(&t.7), seg_pattern_of(&t.8)],
            segs,
        ),
{
}

/// A tuple of 10 path patterns matches its members one after another, in
/// order, each on the segments the ones before it left.
pub proof fn lemma_path_tuple_10<A: RoutePath, B: RoutePath, C: RoutePath, D: RoutePath, E: RoutePath, F: RoutePath, G: RoutePath, H: RoutePath, I: RoutePath, J: RoutePath>(t: (A, B, C, D, E, F, G, H, I, J), segs: Seq<Seq<char>>)
    ensures
        t.spec_test(segs) == path_sequence(
            seq![seg_pattern_of(&t.0), seg_pattern_of(&t.1), seg_pattern_of(&t.2), seg_pattern_of(&t.3), seg_pattern_of(&t.4), seg_pattern_of(&t.5), seg_pattern_of(&t.6), seg_pattern_of(&t.7), seg_pattern_of(&t.8), seg_pattern_of(&t.9)],
            segs,
        ),
{
}

/// A splat segment always matches: it consumes all the segments, and gives
/// them joined with `/` as its text and as the value of its parameter.
pub proof fn lemma_splat_path_law(seg: SplatSegment, segs: Seq<Seq<char>>)
    ensures
        seg.spec_test(segs) == Some(
            (
                PathMatchView {
                    path: Some(join_slash(segs)),
                    params: seq![(seg.field_name()@, join_slash(segs))],
                },
                segs.len(),
            ),
        ),
{
}

} // verus!
