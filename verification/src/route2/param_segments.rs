//! Segments that capture part of the path as a named parameter.
use crate::matching::{
    byte_rest, byte_rest_ok, params_view, rest_after_bytes, PartialMatchView, PartialPathMatch,
    RouteMatch,
};
use crate::strs::{
    empty_or_slash, find_slash, lemma_run_len_bound, push_range, run_len, run_until_slash, slash,
};
use vstd::prelude::*;
use vstd::string::*;

verus! {

/// The leading `/` of a path, if it has one.
pub open spec fn lead_text(p: Seq<char>) -> Seq<char> {
    if p.len() > 0 && p[0] == '/' {
        slash()
    } else {
        Seq::empty()
    }
}

/// The path without its first character, which a segment always consumes.
pub open spec fn body(p: Seq<char>) -> Seq<char> {
    if p.len() > 0 {
        p.drop_first()
    } else {
        p
    }
}

/// What is left of `p` once the text `m` has been matched: the tail after
/// `m` when `p` starts with `/`, otherwise the tail after as many bytes as `m`
/// has.
pub open spec fn rest_of(p: Seq<char>, m: Seq<char>) -> Seq<char> {
    if p.len() == 0 {
        p
    } else if p[0] == '/' {
        p.skip(m.len() as int)
    } else {
        byte_rest(p, m)
    }
}

/// Taking the tail as `rest_of` does never cuts a character in two.
pub open spec fn rest_ok(p: Seq<char>, m: Seq<char>) -> bool {
    p.len() == 0 || p[0] == '/' || byte_rest_ok(p, m)
}

pub fn rest_of_exec<'a>(path: &'a str, matched: &String) -> (r: &'a str)
    requires
        rest_ok(path@, matched@),
        path@.len() > 0 && path@[0] == '/' ==> matched@.len() <= path@.len(),
    ensures
        r@ == rest_of(path@, matched@),
{
    let n = path.unicode_len();
    if n == 0 {
        path
    } else if path.get_char(0) == '/' {
        let k = matched.as_str().unicode_len();
        path.substring_char(k, n)
    } else {
        rest_after_bytes(path, matched)
    }
}

/// Reads the leading `/` (if any) into a new string and returns it with the
/// index where the body of the path starts.
pub fn read_lead(path: &str) -> (r: (String, usize))
    ensures
        r.0@ == lead_text(path@),
        r.1 as int == if path@.len() > 0 { 1int } else { 0int },
{
    let n = path.unicode_len();
    let mut matched = String::new();
    if n > 0 && path.get_char(0) == '/' {
        matched.append("/");
        proof {
            reveal_strlit("/");
        }
    }
    let start: usize = if n > 0 { 1 } else { 0 };
    proof {
        assert(matched@ =~= lead_text(path@));
    }
    (matched, start)
}

/// The text a parameter segment captures from `p`.
pub open spec fn param_value(p: Seq<char>) -> Seq<char> {
    run_until_slash(body(p))
}

/// What a parameter segment matches of `p`.
pub open spec fn param_matched(p: Seq<char>) -> Seq<char> {
    lead_text(p) + param_value(p)
}

/// A segment that captures the text up to the next `/` as the parameter with
/// the given name.
#[derive(Copy, Clone, Debug, PartialEq, Eq, Hash)]
pub struct ParamSegment(pub &'static str);

impl RouteMatch for ParamSegment {
    open spec fn spec_test(&self, path: Seq<char>) -> Option<PartialMatchView> {
        Some(
            PartialMatchView {
                remaining: rest_of(path, param_matched(path)),
                params: seq![(self.0@, param_value(path))],
                matched: param_matched(path),
            },
        )
    }

    open spec fn test_ok(&self, path: Seq<char>) -> bool {
        rest_ok(path, param_matched(path))
    }

    proof fn lemma_slash_path(&self, path: Seq<char>) {
        if path.len() > 0 {
            let b = path.drop_first();
            lemma_run_len_bound(b);
            let k = run_len(b) as int;
            assert(param_matched(path) + path.skip(1 + k) =~= path);
            if 1 + k < path.len() {
                assert(path.skip(1 + k)[0] == b[k]);
            }
        }
    }

    fn test<'a>(&self, path: &'a str) -> (r: Option<PartialPathMatch<'a>>) {
        let n = path.unicode_len();
        let (mut matched, start) = read_lead(path);
        let end = find_slash(path, start);
        let mut value = String::new();
        push_range(&mut matched, path, start, end);
        push_range(&mut value, path, start, end);
        proof {
            let b = body(path@);
            assert(b =~= path@.skip(start as int));
            assert(path@.subrange(start as int, end as int) =~= run_until_slash(b));
            assert(value@ =~= param_value(path@));
            assert(matched@ =~= param_matched(path@));
            lemma_run_len_bound(b);
        }
        let rest = rest_of_exec(path, &matched);
        let params = vec![(self.0, value)];
        proof {
            assert(params_view(params@) =~= seq![(self.0@, param_value(path@))]);
        }
        Some(PartialPathMatch::new(rest, params, matched))
    }
}

/// The text a wildcard segment captures from `p`: everything after the first
/// character.
pub open spec fn wildcard_matched(p: Seq<char>) -> Seq<char> {
    lead_text(p) + body(p)
}

/// A segment that captures all the rest of the path as the parameter with the
/// given name.
#[derive(Copy, Clone, Debug, PartialEq, Eq, Hash)]
pub struct WildcardSegment(pub &'static str);

impl RouteMatch for WildcardSegment {
    open spec fn spec_test(&self, path: Seq<char>) -> Option<PartialMatchView> {
        Some(
            PartialMatchView {
                remaining: rest_of(path, wildcard_matched(path)),
                params: seq![(self.0@, body(path))],
                matched: wildcard_matched(path),
            },
        )
    }

    open spec fn test_ok(&self, path: Seq<char>) -> bool {
        rest_ok(path, wildcard_matched(path))
    }

    proof fn lemma_slash_path(&self, path: Seq<char>) {
        if path.len() > 0 {
            assert(wildcard_matched(path) =~= path);
            assert(wildcard_matched(path) + path.skip(path.len() as int) =~= path);
        }
    }

    fn test<'a>(&self, path: &'a str) -> (r: Option<PartialPathMatch<'a>>) {
        let n = path.unicode_len();
        let (mut matched, start) = read_lead(path);
        let mut value = String::new();
        push_range(&mut matched, path, start, n);
        push_range(&mut value, path, start, n);
        proof {
            assert(path@.subrange(start as int, n as int) =~= body(path@));
            assert(matched@ =~= wildcard_matched(path@));
        }
        let rest = rest_of_exec(path, &matched);
        let params = vec![(self.0, value)];
        proof {
            assert(params_view(params@) =~= seq![(self.0@, body(path@))]);
        }
        Some(PartialPathMatch::new(rest, params, matched))
    }
}

/// On a path that starts with `/`, a parameter segment always matches: it
/// captures, under its name, the characters after that `/` up to the next
/// `/` or the end, matches the `/` and those characters, and leaves the rest
/// of the path, which is empty or starts with `/`.
pub proof fn lemma_param_segment_law(seg: ParamSegment, p: Seq<char>)
    requires
        p.len() > 0,
        p[0] == '/',
    ensures
        seg.spec_test(p) is Some,
        ({
            let m = seg.spec_test(p)->0;
            let v = m.params[0].1;
            &&& m.params == seq![(seg.0@, v)]
            &&& m.matched == seq!['/'] + v
            &&& m.matched + m.remaining == p
            &&& forall|j: int| 0 <= j < v.len() ==> v[j] != '/'
            &&& (m.remaining.len() == 0 || m.remaining[0] == '/')
        }),
{
    let b = p.drop_first();
    lemma_run_len_bound(b);
    let k = run_len(b) as int;
    assert(param_matched(p) =~= seq!['/'] + b.take(k));
    assert(param_matched(p) + p.skip(1 + k) =~= p);
    if 1 + k < p.len() {
        assert(p.skip(1 + k)[0] == b[k]);
    }
}

/// On a path that starts with `/`, a wildcard segment matches all of it and
/// captures, under its name, everything after the leading `/`.
pub proof fn lemma_wildcard_segment_law(seg: WildcardSegment, p: Seq<char>)
    requires
        p.len() > 0,
        p[0] == '/',
    ensures
        seg.spec_test(p) is Some,
        ({
            let m = seg.spec_test(p)->0;
            &&& m.matched == p
            &&& m.remaining.len() == 0
            &&& m.params == seq![(seg.0@, p.drop_first())]
        }),
{
    assert(wildcard_matched(p) =~= p);
}

} // verus!
