//! Character-level helpers on strings shared by the path matchers and the
//! HTML renderer.
use vstd::prelude::*;
use vstd::string::*;

verus! {

/// The one-character sequence `/`.
pub open spec fn slash() -> Seq<char> {
    seq!['/']
}

/// True when the text is empty or begins with a `/`.
pub open spec fn empty_or_slash(p: Seq<char>) -> bool {
    p.len() == 0 || p[0] == '/'
}

/// The length of the longest prefix of `p` that holds no `/`.
pub open spec fn run_len(p: Seq<char>) -> nat
    decreases p.len(),
{
    if p.len() == 0 || p[0] == '/' {
        0
    } else {
        1 + run_len(p.drop_first())
    }
}

/// The longest prefix of `p` that holds no `/`.
pub open spec fn run_until_slash(p: Seq<char>) -> Seq<char> {
    p.take(run_len(p) as int)
}

pub proof fn lemma_run_len_bound(p: Seq<char>)
    ensures
        run_len(p) <= p.len(),
        forall|j: int| 0 <= j < run_len(p) ==> p[j] != '/',
        run_len(p) < p.len() ==> p[run_len(p) as int] == '/',
    decreases p.len(),
{
    if p.len() > 0 && p[0] != '/' {
        lemma_run_len_bound(p.drop_first());
        assert forall|j: int| 0 <= j < run_len(p) implies p[j] != '/' by {
            if j > 0 {
                assert(p[j] == p.drop_first()[j - 1]);
            }
        }
    }
}

/// A prefix free of `/` that ends at the end of the text or at a `/` is the
/// run measured by `run_len`.
pub proof fn lemma_run_len_exact(p: Seq<char>, k: int)
    requires
        0 <= k <= p.len(),
        forall|j: int| 0 <= j < k ==> p[j] != '/',
        k == p.len() || p[k] == '/',
    ensures
        run_len(p) == k,
    decreases k,
{
    if k > 0 {
        assert forall|j: int| 0 <= j < k - 1 implies p.drop_first()[j] != '/' by {
            assert(p.drop_first()[j] == p[j + 1]);
        }
        if k - 1 < p.drop_first().len() {
            assert(p.drop_first()[k - 1] == p[k]);
        }
        lemma_run_len_exact(p.drop_first(), k - 1);
    }
}

/// Index of the first `/` at or after `start` in `s`, or the length of `s`.
pub fn find_slash(s: &str, start: usize) -> (i: usize)
    requires
        start <= s@.len(),
    ensures
        start <= i <= s@.len(),
        i - start == run_len(s@.skip(start as int)),
{
    let n = s.unicode_len();
    let mut i = start;
    while i < n && s.get_char(i) != '/'
        invariant
            n == s@.len(),
            start <= i <= n,
            forall|j: int| start <= j < i ==> s@[j] != '/',
        decreases n - i,
    {
        i = i + 1;
    }
    proof {
        let q = s@.skip(start as int);
        assert forall|j: int| 0 <= j < i - start implies q[j] != '/' by {
            assert(q[j] == s@[start + j]);
        }
        if i < n {
            assert(q[i - start] == s@[i as int]);
        }
        lemma_run_len_exact(q, i - start);
    }
    i
}

/// Whether two strings hold the same characters.
pub fn str_eq(a: &str, b: &str) -> (r: bool)
    ensures
        r == (a@ == b@),
{
    let n = a.unicode_len();
    if n != b.unicode_len() {
        return false;
    }
    let mut i: usize = 0;
    while i < n
        invariant
            n == a@.len(),
            n == b@.len(),
            i <= n,
            forall|j: int| 0 <= j < i ==> a@[j] == b@[j],
        decreases n - i,
    {
        if a.get_char(i) != b.get_char(i) {
            return false;
        }
        i = i + 1;
    }
    assert(a@ =~= b@);
    true
}

/// Appends the characters of `s` from index `from` up to index `to`.
pub fn push_range(buf: &mut String, s: &str, from: usize, to: usize)
    requires
        from <= to <= s@.len(),
    ensures
        final(buf)@ == old(buf)@ + s@.subrange(from as int, to as int),
{
    let piece = s.substring_char(from, to);
    buf.append(piece);
}

} // verus!

verus! {

/// The views of a sequence of strings.
pub open spec fn strings_view(v: Seq<String>) -> Seq<Seq<char>> {
    v.map_values(|x: String| x@)
}

/// The non-empty pieces of `s` between `/` characters, where `cur` is the piece
/// read so far.
pub open spec fn seg_acc(s: Seq<char>, cur: Seq<char>) -> Seq<Seq<char>>
    decreases s.len(),
{
    if s.len() == 0 {
        if cur.len() == 0 {
            Seq::empty()
        } else {
            seq![cur]
        }
    } else if s[0] == '/' {
        (if cur.len() == 0 {
            Seq::empty()
        } else {
            seq![cur]
        }) + seg_acc(s.drop_first(), Seq::empty())
    } else {
        seg_acc(s.drop_first(), cur.push(s[0]))
    }
}

/// The non-empty pieces of a path between `/` characters, in order.
pub open spec fn path_segments(s: Seq<char>) -> Seq<Seq<char>> {
    seg_acc(s, Seq::empty())
}

proof fn lemma_seg_acc_run(a: Seq<char>, rest: Seq<char>, cur: Seq<char>)
    requires
        forall|j: int| 0 <= j < a.len() ==> a[j] != '/',
    ensures
        seg_acc(a + rest, cur) == seg_acc(rest, cur + a),
    decreases a.len(),
{
    if a.len() == 0 {
        assert(a + rest =~= rest);
        assert(cur + a =~= cur);
    } else {
        assert((a + rest)[0] == a[0]);
        assert((a + rest).drop_first() =~= a.drop_first() + rest);
        assert forall|j: int| 0 <= j < a.drop_first().len() implies a.drop_first()[j] != '/' by {
            assert(a.drop_first()[j] == a[j + 1]);
        }
        lemma_seg_acc_run(a.drop_first(), rest, cur.push(a[0]));
        assert(cur.push(a[0]) + a.drop_first() =~= cur + a);
    }
}

/// The segments of a path: none for the empty path; a leading `/` adds none;
/// a non-empty run free of `/`, followed by the end or a `/`, is the first
/// segment, followed by the segments of what comes after it.
pub proof fn lemma_path_segments_law(a: Seq<char>, rest: Seq<char>)
    ensures
        path_segments(Seq::empty()) == Seq::<Seq<char>>::empty(),
        path_segments(seq!['/'] + rest) == path_segments(rest),
        (a.len() > 0 && (forall|j: int| 0 <= j < a.len() ==> a[j] != '/') && (rest.len() == 0
            || rest[0] == '/')) ==> path_segments(a + rest) == seq![a] + path_segments(rest),
{
    assert((seq!['/'] + rest).drop_first() =~= rest);
    assert(Seq::<Seq<char>>::empty() + seg_acc(rest, Seq::empty()) =~= seg_acc(rest, Seq::empty()));
    if a.len() > 0 && (forall|j: int| 0 <= j < a.len() ==> a[j] != '/') && (rest.len() == 0
        || rest[0] == '/') {
        lemma_seg_acc_run(a, rest, Seq::empty());
        assert(Seq::<char>::empty() + a =~= a);
        if rest.len() == 0 {
            assert(seq![a] + Seq::<Seq<char>>::empty() =~= seq![a]);
        } else {
            assert(Seq::<Seq<char>>::empty() + seg_acc(rest.drop_first(), Seq::empty())
                =~= seg_acc(rest.drop_first(), Seq::empty()));
        }
    }
}

/// Splits a path at `/` and keeps the non-empty pieces.
pub fn split_segments(path: &str) -> (r: Vec<String>)
    ensures
        strings_view(r@) == path_segments(path@),
{
    let n = path.unicode_len();
    let mut out: Vec<String> = Vec::new();
    let mut start: usize = 0;
    let mut i: usize = 0;
    proof {
        assert(path@.skip(0) =~= path@);
        assert(path@.subrange(0, 0) =~= Seq::<char>::empty());
    }
    while i < n
        invariant
            n == path@.len(),
            start <= i <= n,
            path_segments(path@) == strings_view(out@) + seg_acc(
                path@.skip(i as int),
                path@.subrange(start as int, i as int),
            ),
        decreases n - i,
    {
        let ghost rest = path@.skip(i as int);
        let ghost cur = path@.subrange(start as int, i as int);
        proof {
            assert(rest[0] == path@[i as int]);
            assert(rest.drop_first() =~= path@.skip(i + 1));
        }
        if path.get_char(i) == '/' {
            if i > start {
                let piece = path.substring_char(start, i);
                let ghost before = out@;
                out.push(piece.to_owned());
                proof {
                    assert(strings_view(out@) =~= strings_view(before) + seq![cur]);
                }
            }
            proof {
                assert(path@.subrange(i + 1, i + 1) =~= Seq::<char>::empty());
                assert(strings_view(out@) + seg_acc(path@.skip(i + 1), Seq::empty())
                    =~= path_segments(path@));
            }
            start = i + 1;
        } else {
            proof {
                assert(cur.push(path@[i as int]) =~= path@.subrange(start as int, i + 1));
            }
        }
        i = i + 1;
    }
    let ghost cur = path@.subrange(start as int, n as int);
    proof {
        assert(path@.skip(n as int) =~= Seq::<char>::empty());
    }
    if start < n {
        let piece = path.substring_char(start, n);
        let ghost before = out@;
        out.push(piece.to_owned());
        proof {
            assert(strings_view(out@) =~= strings_view(before) + seq![cur]);
        }
    } else {
        proof {
            assert(strings_view(out@) =~= strings_view(out@) + Seq::<Seq<char>>::empty());
        }
    }
    out
}

} // verus!
