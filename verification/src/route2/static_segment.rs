//! Segments that match fixed text.
use crate::matching::{params_view, PartialMatchView, PartialPathMatch, RouteMatch};
use crate::route2::param_segments::{
    body, param_matched, param_value, read_lead, rest_of, rest_of_exec, rest_ok, ParamSegment,
};
use crate::strs::{find_slash, lemma_run_len_bound, lemma_run_len_exact, push_range, run_len, run_until_slash};
use vstd::prelude::*;
use vstd::string::*;

verus! {

/// A segment that matches the given text, up to the next `/`.
///
/// The first character of the path is consumed (and kept in the match when it
/// is a `/`); the characters after it, up to the next `/`, must be the
/// segment's text.
#[derive(Copy, Clone, Debug, PartialEq, Eq, Hash)]
pub struct StaticSegment(pub &'static str);

impl RouteMatch for StaticSegment {
    open spec fn spec_test(&self, path: Seq<char>) -> Option<PartialMatchView> {
        if param_value(path) == self.0@ {
            Some(
                PartialMatchView {
                    remaining: rest_of(path, param_matched(path)),
                    params: Seq::empty(),
                    matched: param_matched(path),
                },
            )
        } else {
            None
        }
    }

    open spec fn test_ok(&self, path: Seq<char>) -> bool {
        rest_ok(path, param_matched(path))
    }

    proof fn lemma_slash_path(&self, path: Seq<char>) {
        ParamSegment(self.0).lemma_slash_path(path);
    }

    fn test<'a>(&self, path: &'a str) -> (r: Option<PartialPathMatch<'a>>) {
        let n = path.unicode_len();
        let (mut matched, start) = read_lead(path);
        let end = find_slash(path, start);
        let s = self.0;
        let sn = s.unicode_len();
        let ghost v = path@.subrange(start as int, end as int);
        proof {
            let b = body(path@);
            assert(b =~= path@.skip(start as int));
            assert(v =~= run_until_slash(b));
        }
        if end - start != sn {
            proof {
                assert(v.len() != s@.len());
            }
            return None;
        }
        let mut i = start;
        while i < end
            invariant
                start <= i <= end <= n,
                n == path@.len(),
                sn == s@.len(),
                end - start == sn,
                v == path@.subrange(start as int, end as int),
                v == param_value(path@),
                s == self.0,
                s@.take(i - start) =~= path@.subrange(start as int, i as int),
            decreases end - i,
        {
            let j = i - start;
            if path.get_char(i) != s.get_char(j) {
                proof {
                    assert(v[j as int] == path@[i as int]);
                    assert(v != s@);
                }
                return None;
            }
            proof {
                assert(s@.take(j + 1) =~= s@.take(j as int).push(s@[j as int]));
                assert(path@.subrange(start as int, i + 1) =~= path@.subrange(
                    start as int,
                    i as int,
                ).push(path@[i as int]));
            }
            i = i + 1;
        }
        proof {
            assert(s@.take(sn as int) =~= s@);
            assert(v =~= s@);
        }
        push_range(&mut matched, path, start, end);
        proof {
            assert(matched@ =~= param_matched(path@));
            lemma_run_len_bound(body(path@));
        }
        let rest = rest_of_exec(path, &matched);
        let params: Vec<(&'static str, String)> = Vec::new();
        proof {
            assert(params_view(params@) =~= Seq::empty());
        }
        Some(PartialPathMatch::new(rest, params, matched))
    }
}

/// On a path that starts with `/`, a static segment matches exactly when the
/// characters after that `/`, up to the next `/` or the end, are the
/// segment's text; it then matches the `/` and the text, captures nothing,
/// and leaves the rest of the path.
pub proof fn lemma_static_segment_law(seg: StaticSegment, p: Seq<char>)
    requires
        p.len() > 0,
        p[0] == '/',
    ensures
        ({
            let s = seg.0@;
            let k = s.len() as int;
            let fits = {
                &&& k + 1 <= p.len()
                &&& p.subrange(1, k + 1) == s
                &&& (k + 1 == p.len() || p[k + 1] == '/')
                &&& forall|j: int| 0 <= j < k ==> s[j] != '/'
            };
            &&& seg.spec_test(p) is Some <==> fits
            &&& seg.spec_test(p) matches Some(m) ==> {
                &&& m.matched == seq!['/'] + s
                &&& m.remaining == p.skip(k + 1)
                &&& m.params.len() == 0
            }
        }),
{
    let s = seg.0@;
    let k = s.len() as int;
    let b = p.drop_first();
    lemma_run_len_bound(b);
    let r = run_len(b) as int;
    if k + 1 <= p.len() && p.subrange(1, k + 1) == s && (k + 1 == p.len() || p[k + 1] == '/')
        && forall|j: int| 0 <= j < k ==> s[j] != '/' {
        assert forall|j: int| 0 <= j < k implies b[j] != '/' by {
            assert(b[j] == p.subrange(1, k + 1)[j]);
        }
        if k < b.len() {
            assert(b[k] == p[k + 1]);
        }
        lemma_run_len_exact(b, k);
        assert(param_value(p) =~= s);
    }
    if param_value(p) == s {
        assert(r == k);
        assert(p.subrange(1, k + 1) =~= b.take(r));
        if k + 1 < p.len() {
            assert(p[k + 1] == b[k]);
        }
        assert forall|j: int| 0 <= j < k implies s[j] != '/' by {
            assert(s[j] == b[j]);
        }
        assert(param_matched(p) =~= seq!['/'] + s);
    }
}

} // verus!
