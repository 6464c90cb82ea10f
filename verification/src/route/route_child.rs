//! Choosing among alternative routes.
use crate::matching::{complete_text, opt_match_view, PartialMatchView, PartialPathMatch, RouteMatch};
use vstd::prelude::*;

verus! {

/// A set of alternative routes, of which the first that matches a path
/// completely is chosen.
pub trait PossibleRoutes {
    spec fn spec_choose(&self, path: Seq<char>) -> Option<PartialMatchView>;

    spec fn choose_ok(&self, path: Seq<char>) -> bool;

    fn choose_match<'a>(&self, path: &'a str) -> (r: Option<PartialPathMatch<'a>>)
        requires
            self.choose_ok(path@),
        ensures
            opt_match_view(r) == self.spec_choose(path@),
    ;
}

impl PossibleRoutes for () {
    open spec fn spec_choose(&self, path: Seq<char>) -> Option<PartialMatchView> {
        None
    }

    open spec fn choose_ok(&self, path: Seq<char>) -> bool {
        true
    }

    fn choose_match<'a>(&self, path: &'a str) -> (r: Option<PartialPathMatch<'a>>) {
        None
    }
}

/// A single route is chosen whenever it matches, completely or not.
impl<A: RouteMatch> PossibleRoutes for (A,) {
    open spec fn spec_choose(&self, path: Seq<char>) -> Option<PartialMatchView> {
        self.0.spec_test(path)
    }

    open spec fn choose_ok(&self, path: Seq<char>) -> bool {
        self.0.test_ok(path)
    }

    fn choose_match<'a>(&self, path: &'a str) -> (r: Option<PartialPathMatch<'a>>) {
        self.0.test(path)
    }
}

/// The match of a route, if it is complete.
pub open spec fn complete_match<A: RouteMatch>(a: &A, path: Seq<char>) -> Option<PartialMatchView> {
    match a.spec_test(path) {
        Some(m) => if complete_text(m.remaining) {
            Some(m)
        } else {
            None
        },
        None => None,
    }
}

fn test_complete<'a, A: RouteMatch>(a: &A, path: &'a str) -> (r: Option<PartialPathMatch<'a>>)
    requires
        a.test_ok(path@),
    ensures
        opt_match_view(r) == complete_match(a, path@),
{
    match a.test(path) {
        Some(m) => if m.is_complete() {
            Some(m)
        } else {
            None
        },
        None => None,
    }
}

/// The first of a list of possible matches that exists.
pub open spec fn first_some<T>(s: Seq<Option<T>>) -> Option<T>
    decreases s.len(),
{
    if s.len() == 0 {
        None
    } else if s[0] is Some {
        s[0]
    } else {
        first_some(s.drop_first())
    }
}

/// The first match that exists is the one at the least index that holds one;
/// when none does, there is none.
pub proof fn lemma_first_some<T>(s: Seq<Option<T>>, i: int)
    requires
        0 <= i <= s.len(),
        forall|j: int| 0 <= j < i ==> #[trigger] s[j] is None,
        i == s.len() || s[i] is Some,
    ensures
        first_some(s) == if i == s.len() {
            None
        } else {
            s[i]
        },
    decreases i,
{
    if i > 0 {
        assert forall|j: int| 0 <= j < i - 1 implies #[trigger] s.drop_first()[j] is None by {
            assert(s.drop_first()[j] == s[j + 1]);
        }
        lemma_first_some(s.drop_first(), i - 1);
    }
}

/// `k` is the least index of `s` that holds a value.
pub open spec fn first_some_at<T>(s: Seq<Option<T>>, k: int) -> bool {
    &&& 0 <= k < s.len()
    &&& s[k] is Some
    &&& forall|j: int| 0 <= j < k ==> #[trigger] s[j] is None
}

/// No index of `s` holds a value.
pub open spec fn all_none<T>(s: Seq<Option<T>>) -> bool {
    forall|j: int| 0 <= j < s.len() ==> #[trigger] s[j] is None
}

/// A test's result, kept only when it matches the path completely.
pub open spec fn keep_complete(t: Option<PartialMatchView>) -> Option<PartialMatchView> {
    match t {
        Some(m) => if complete_text(m.remaining) {
            Some(m)
        } else {
            None
        },
        None => None,
    }
}

/// Choosing among alternatives whose own tests on the path gave `tests`, in
/// order: the result is the test of the least alternative that matches
/// completely, and there is none when no alternative matches completely.
pub open spec fn chooses_first_complete(
    tests: Seq<Option<PartialMatchView>>,
    result: Option<PartialMatchView>,
) -> bool {
    let kept = Seq::new(tests.len(), |i: int| keep_complete(tests[i]));
    &&& forall|k: int| #[trigger] first_some_at(kept, k) ==> result == tests[k]
    &&& all_none(kept) ==> result is None
}

proof fn lemma_chooses_first_complete(
    tests: Seq<Option<PartialMatchView>>,
    s: Seq<Option<PartialMatchView>>,
    result: Option<PartialMatchView>,
)
    requires
        s.len() == tests.len(),
        forall|i: int| 0 <= i < s.len() ==> #[trigger] s[i] == keep_complete(tests[i]),
        result == first_some(s),
    ensures
        chooses_first_complete(tests, result),
{
    let kept = Seq::new(tests.len(), |i: int| keep_complete(tests[i]));
    assert(kept =~= s);
    assert forall|k: int| #[trigger] first_some_at(kept, k) implies result == tests[k] by {
        lemma_first_some(s, k);
    }
    if all_none(kept) {
        lemma_first_some(s, s.len() as int);
    }
}

/// The complete matches of alternatives, in order: a tuple of any size
/// chooses the first of them that exists (`first_some`), that is, the
/// complete match of the alternative at the least index that matches
/// completely (`lemma_first_some`); alternatives that match only part of the
/// path are passed over.

impl<A: RouteMatch, B: RouteMatch> PossibleRoutes for (A, B) {
    open spec fn spec_choose(&self, path: Seq<char>) -> Option<PartialMatchView> {
        first_some(
            seq![
                complete_match(&self.0, path),
                complete_match(&self.1, path),
            ],
        )
    }

    open spec fn choose_ok(&self, path: Seq<char>) -> bool {
        self.0.test_ok(path)
        && self.1.test_ok(path)
    }

    fn choose_match<'a>(&self, path: &'a str) -> (r: Option<PartialPathMatch<'a>>) {
        let ghost s = seq![
            complete_match(&self.0, path@),
            complete_match(&self.1, path@),
        ];
        if let Some(m) = test_complete(&self.0, path) {
            proof {
                lemma_first_some(s, 0);
            }
            return Some(m);
        }
        assert(s[0] is None);
        if let Some(m) = test_complete(&self.1, path) {
            proof {
                lemma_first_some(s, 1);
            }
            return Some(m);
        }
        assert(s[1] is None);
        proof {
            lemma_first_some(s, 2);
        }
        None
    }
}

impl<A: RouteMatch, B: RouteMatch, C: RouteMatch> PossibleRoutes for (A, B, C) {
    open spec fn spec_choose(&self, path: Seq<char>) -> Option<PartialMatchView> {
        first_some(
            seq![
                complete_match(&self.0, path),
                complete_match(&self.1, path),
                complete_match(&self.2, path),
            ],
        )
    }

    open spec fn choose_ok(&self, path: Seq<char>) -> bool {
        self.0.test_ok(path)
        && self.1.test_ok(path)
        && self.2.test_ok(path)
    }

    fn choose_match<'a>(&self, path: &'a str) -> (r: Option<PartialPathMatch<'a>>) {
        let ghost s = seq![
            complete_match(&self.0, path@),
            complete_match(&self.1, path@),
            complete_match(&self.2, path@),
        ];
        if let Some(m) = test_complete(&self.0, path) {
            proof {
                lemma_first_some(s, 0);
            }
            return Some(m);
        }
        assert(s[0] is None);
        if let Some(m) = test_complete(&self.1, path) {
            proof {
                lemma_first_some(s, 1);
            }
            return Some(m);
        }
        assert(s[1] is None);
        if let Some(m) = test_complete(&self.2, path) {
            proof {
                lemma_first_some(s, 2);
            }
            return Some(m);
        }
        assert(s[2] is None);
        proof {
            lemma_first_some(s, 3);
        }
        None
    }
}

impl<A: RouteMatch, B: RouteMatch, C: RouteMatch, D: RouteMatch> PossibleRoutes for (A, B, C, D) {
    open spec fn spec_choose(&self, path: Seq<char>) -> Option<PartialMatchView> {
        first_some(
            seq![
                complete_match(&self.0, path),
                complete_match(&self.1, path),
                complete_match(&self.2, path),
                complete_match(&self.3, path),
            ],
        )
    }

    open spec fn choose_ok(&self, path: Seq<char>) -> bool {
        self.0.test_ok(path)
        && self.1.test_ok(path)
        && self.2.test_ok(path)
        && self.3.test_ok(path)
    }

    fn choose_match<'a>(&self, path: &'a str) -> (r: Option<PartialPathMatch<'a>>) {
        let ghost s = seq![
            complete_match(&self.0, path@),
            complete_match(&self.1, path@),
            complete_match(&self.2, path@),
            complete_match(&self.3, path@),
        ];
        if let Some(m) = test_complete(&self.0, path) {
            proof {
                lemma_first_some(s, 0);
            }
            return Some(m);
        }
        assert(s[0] is None);
        if let Some(m) = test_complete(&self.1, path) {
            proof {
                lemma_first_some(s, 1);
            }
            return Some(m);
        }
        assert(s[1] is None);
        if let Some(m) = test_complete(&self.2, path) {
            proof {
                lemma_first_some(s, 2);
            }
            return Some(m);
        }
        assert(s[2] is None);
        if let Some(m) = test_complete(&self.3, path) {
            proof {
                lemma_first_some(s, 3);
            }
            return Some(m);
        }
        assert(s[3] is None);
        proof {
            lemma_first_some(s, 4);
        }
        None
    }
}

impl<A: RouteMatch, B: RouteMatch, C: RouteMatch, D: RouteMatch, E: RouteMatch> PossibleRoutes for (A, B, C, D, E) {
    open spec fn spec_choose(&self, path: Seq<char>) -> Option<PartialMatchView> {
        first_some(
            seq![
                complete_match(&self.0, path),
                complete_match(&self.1, path),
                complete_match(&self.2, path),
                complete_match(&self.3, path),
                complete_match(&self.4, path),
            ],
        )
    }

    open spec fn choose_ok(&self, path: Seq<char>) -> bool {
        self.0.test_ok(path)
        && self.1.test_ok(path)
        && self.2.test_ok(path)
        && self.3.test_ok(path)
        && self.4.test_ok(path)
    }

    fn choose_match<'a>(&self, path: &'a str) -> (r: Option<PartialPathMatch<'a>>) {
        let ghost s = seq![
            complete_match(&self.0, path@),
            complete_match(&self.1, path@),
            complete_match(&self.2, path@),
            complete_match(&self.3, path@),
            complete_match(&self.4, path@),
        ];
        if let Some(m) = test_complete(&self.0, path) {
            proof {
                lemma_first_some(s, 0);
            }
            return Some(m);
        }
        assert(s[0] is None);
        if let Some(m) = test_complete(&self.1, path) {
            proof {
                lemma_first_some(s, 1);
            }
            return Some(m);
        }
        assert(s[1] is None);
        if let Some(m) = test_complete(&self.2, path) {
            proof {
                lemma_first_some(s, 2);
            }
            return Some(m);
        }
        assert(s[2] is None);
        if let Some(m) = test_complete(&self.3, path) {
            proof {
                lemma_first_some(s, 3);
            }
            return Some(m);
        }
        assert(s[3] is None);
        if let Some(m) = test_complete(&self.4, path) {
            proof {
                lemma_first_some(s, 4);
            }
            return Some(m);
        }
        assert(s[4] is None);
        proof {
            lemma_first_some(s, 5);
        }
        None
    }
}

impl<A: RouteMatch, B: RouteMatch, C: RouteMatch, D: RouteMatch, E: RouteMatch, F: RouteMatch> PossibleRoutes for (A, B, C, D, E, F) {
    open spec fn spec_choose(&self, path: Seq<char>) -> Option<PartialMatchView> {
        first_some(
            seq![
                complete_match(&self.0, path),
                complete_match(&self.1, path),
                complete_match(&self.2, path),
                complete_match(&self.3, path),
                complete_match(&self.4, path),
                complete_match(&self.5, path),
            ],
        )
    }

    open spec fn choose_ok(&self, path: Seq<char>) -> bool {
        self.0.test_ok(path)
        && self.1.test_ok(path)
        && self.2.test_ok(path)
        && self.3.test_ok(path)
        && self.4.test_ok(path)
        && self.5.test_ok(path)
    }

    fn choose_match<'a>(&self, path: &'a str) -> (r: Option<PartialPathMatch<'a>>) {
        let ghost s = seq![
            complete_match(&self.0, path@),
            complete_match(&self.1, path@),
            complete_match(&self.2, path@),
            complete_match(&self.3, path@),
            complete_match(&self.4, path@),
            complete_match(&self.5, path@),
        ];
        if let Some(m) = test_complete(&self.0, path) {
            proof {
                lemma_first_some(s, 0);
            }
            return Some(m);
        }
        assert(s[0] is None);
        if let Some(m) = test_complete(&self.1, path) {
            proof {
                lemma_first_some(s, 1);
            }
            return Some(m);
        }
        assert(s[1] is None);
        if let Some(m) = test_complete(&self.2, path) {
            proof {
                lemma_first_some(s, 2);
            }
            return Some(m);
        }
        assert(s[2] is None);
        if let Some(m) = test_complete(&self.3, path) {
            proof {
                lemma_first_some(s, 3);
            }
            return Some(m);
        }
        assert(s[3] is None);
        if let Some(m) = test_complete(&self.4, path) {
            proof {
                lemma_first_some(s, 4);
            }
            return Some(m);
        }
        assert(s[4] is None);
        if let Some(m) = test_complete(&self.5, path) {
            proof {
                lemma_first_some(s, 5);
            }
            return Some(m);
        }
        assert(s[5] is None);
        proof {
            lemma_first_some(s, 6);
        }
        None
    }
}

impl<A: RouteMatch, B: RouteMatch, C: RouteMatch, D: RouteMatch, E: RouteMatch, F: RouteMatch, G: RouteMatch> PossibleRoutes for (A, B, C, D, E, F, G) {
    open spec fn spec_choose(&self, path: Seq<char>) -> Option<PartialMatchView> {
        first_some(
            seq![
                complete_match(&self.0, path),
                complete_match(&self.1, path),
                complete_match(&self.2, path),
                complete_match(&self.3, path),
                complete_match(&self.4, path),
                complete_match(&self.5, path),
                complete_match(&self.6, path),
            ],
        )
    }

    open spec fn choose_ok(&self, path: Seq<char>) -> bool {
        self.0.test_ok(path)
        && self.1.test_ok(path)
        && self.2.test_ok(path)
        && self.3.test_ok(path)
        && self.4.test_ok(path)
        && self.5.test_ok(path)
        && self.6.test_ok(path)
    }

    fn choose_match<'a>(&self, path: &'a str) -> (r: Option<PartialPathMatch<'a>>) {
        let ghost s = seq![
            complete_match(&self.0, path@),
            complete_match(&self.1, path@),
            complete_match(&self.2, path@),
            complete_match(&self.3, path@),
            complete_match(&self.4, path@),
            complete_match(&self.5, path@),
            complete_match(&self.6, path@),
        ];
        if let Some(m) = test_complete(&self.0, path) {
            proof {
                lemma_first_some(s, 0);
            }
            return Some(m);
        }
        assert(s[0] is None);
        if let Some(m) = test_complete(&self.1, path) {
            proof {
                lemma_first_some(s, 1);
            }
            return Some(m);
        }
        assert(s[1] is None);
        if let Some(m) = test_complete(&self.2, path) {
            proof {
                lemma_first_some(s, 2);
            }
            return Some(m);
        }
        assert(s[2] is None);
        if let Some(m) = test_complete(&self.3, path) {
            proof {
                lemma_first_some(s, 3);
            }
            return Some(m);
        }
        assert(s[3] is None);
        if let Some(m) = test_complete(&self.4, path) {
            proof {
                lemma_first_some(s, 4);
            }
            return Some(m);
        }
        assert(s[4] is None);
        if let Some(m) = test_complete(&self.5, path) {
            proof {
                lemma_first_some(s, 5);
            }
            return Some(m);
        }
        assert(s[5] is None);
        if let Some(m) = test_complete(&self.6, path) {
            proof {
                lemma_first_some(s, 6);
            }
            return Some(m);
        }
        assert(s[6] is None);
        proof {
            lemma_first_some(s, 7);
        }
        None
    }
}

impl<A: RouteMatch, B: RouteMatch, C: RouteMatch, D: RouteMatch, E: RouteMatch, F: RouteMatch, G: RouteMatch, H: RouteMatch> PossibleRoutes for (A, B, C, D, E, F, G, H) {
    open spec fn spec_choose(&self, path: Seq<char>) -> Option<PartialMatchView> {
        first_some(
            seq![
                complete_match(&self.0, path),
                complete_match(&self.1, path),
                complete_match(&self.2, path),
                complete_match(&self.3, path),
                complete_match(&self.4, path),
                complete_match(&self.5, path),
                complete_match(&self.6, path),
                complete_match(&self.7, path),
            ],
        )
    }

    open spec fn choose_ok(&self, path: Seq<char>) -> bool {
        self.0.test_ok(path)
        && self.1.test_ok(path)
        && self.2.test_ok(path)
        && self.3.test_ok(path)
        && self.4.test_ok(path)
        && self.5.test_ok(path)
        && self.6.test_ok(path)
        && self.7.test_ok(path)
    }

    fn choose_match<'a>(&self, path: &'a str) -> (r: Option<PartialPathMatch<'a>>) {
        let ghost s = seq![
            complete_match(&self.0, path@),
            complete_match(&self.1, path@),
            complete_match(&self.2, path@),
            complete_match(&self.3, path@),
            complete_match(&self.4, path@),
            complete_match(&self.5, path@),
            complete_match(&self.6, path@),
            complete_match(&self.7, path@),
        ];
        if let Some(m) = test_complete(&self.0, path) {
            proof {
                lemma_first_some(s, 0);
            }
            return Some(m);
        }
        assert(s[0] is None);
        if let Some(m) = test_complete(&self.1, path) {
            proof {
                lemma_first_some(s, 1);
            }
            return Some(m);
        }
        assert(s[1] is None);
        if let Some(m) = test_complete(&self.2, path) {
            proof {
                lemma_first_some(s, 2);
            }
            return Some(m);
        }
        assert(s[2] is None);
        if let Some(m) = test_complete(&self.3, path) {
            proof {
                lemma_first_some(s, 3);
            }
            return Some(m);
        }
        assert(s[3] is None);
        if let Some(m) = test_complete(&self.4, path) {
            proof {
                lemma_first_some(s, 4);
            }
            return Some(m);
        }
        assert(s[4] is None);
        if let Some(m) = test_complete(&self.5, path) {
            proof {
                lemma_first_some(s, 5);
            }
            return Some(m);
        }
        assert(s[5] is None);
        if let Some(m) = test_complete(&self.6, path) {
            proof {
                lemma_first_some(s, 6);
            }
            return Some(m);
        }
        assert(s[6] is None);
        if let Some(m) = test_complete(&self.7, path) {
            proof {
                lemma_first_some(s, 7);
            }
            return Some(m);
        }
        assert(s[7] is None);
        proof {
            lemma_first_some(s, 8);
        }
        None
    }
}

impl<A: RouteMatch, B: RouteMatch, C: RouteMatch, D: RouteMatch, E: RouteMatch, F: RouteMatch, G: RouteMatch, H: RouteMatch, I: RouteMatch> PossibleRoutes for (A, B, C, D, E, F, G, H, I) {
    open spec fn spec_choose(&self, path: Seq<char>) -> Option<PartialMatchView> {
        first_some(
            seq![
                complete_match(&self.0, path),
                complete_match(&self.1, path),
                complete_match(&self.2, path),
                complete_match(&self.3, path),
                complete_match(&self.4, path),
                complete_match(&self.5, path),
                complete_match(&self.6, path),
                complete_match(&self.7, path),
                complete_match(&self.8, path),
            ],
        )
    }

    open spec fn choose_ok(&self, path: Seq<char>) -> bool {
        self.0.test_ok(path)
        && self.1.test_ok(path)
        && self.2.test_ok(path)
        && self.3.test_ok(path)
        && self.4.test_ok(path)
        && self.5.test_ok(path)
        && self.6.test_ok(path)
        && self.7.test_ok(path)
        && self.8.test_ok(path)
    }

    fn choose_match<'a>(&self, path: &'a str) -> (r: Option<PartialPathMatch<'a>>) {
        let ghost s = seq![
            complete_match(&self.0, path@),
            complete_match(&self.1, path@),
            complete_match(&self.2, path@),
            complete_match(&self.3, path@),
            complete_match(&self.4, path@),
            complete_match(&self.5, path@),
            complete_match(&self.6, path@),
            complete_match(&self.7, path@),
            complete_match(&self.8, path@),
        ];
        if let Some(m) = test_complete(&self.0, path) {
            proof {
                lemma_first_some(s, 0);
            }
            return Some(m);
        }
        assert(s[0] is None);
        if let Some(m) = test_complete(&self.1, path) {
            proof {
                lemma_first_some(s, 1);
            }
            return Some(m);
        }
        assert(s[1] is None);
        if let Some(m) = test_complete(&self.2, path) {
            proof {
                lemma_first_some(s, 2);
            }
            return Some(m);
        }
        assert(s[2] is None);
        if let Some(m) = test_complete(&self.3, path) {
            proof {
                lemma_first_some(s, 3);
            }
            return Some(m);
        }
        assert(s[3] is None);
        if let Some(m) = test_complete(&self.4, path) {
            proof {
                lemma_first_some(s, 4);
            }
            return Some(m);
        }
        assert(s[4] is None);
        if let Some(m) = test_complete(&self.5, path) {
            proof {
                lemma_first_some(s, 5);
            }
            return Some(m);
        }
        assert(s[5] is None);
        if let Some(m) = test_complete(&self.6, path) {
            proof {
                lemma_first_some(s, 6);
            }
            return Some(m);
        }
        assert(s[6] is None);
        if let Some(m) = test_complete(&self.7, path) {
            proof {
                lemma_first_some(s, 7);
            }
            return Some(m);
        }
        assert(s[7] is None);
        if let Some(m) = test_complete(&self.8, path) {
            proof {
                lemma_first_some(s, 8);
            }
            return Some(m);
        }
        assert(s[8] is None);
        proof {
            lemma_first_some(s, 9);
        }
        None
    }
}

impl<A: RouteMatch, B: RouteMatch, C: RouteMatch, D: RouteMatch, E: RouteMatch, F: RouteMatch, G: RouteMatch, H: RouteMatch, I: RouteMatch, J: RouteMatch> PossibleRoutes for (A, B, C, D, E, F, G, H, I, J) {
    open spec fn spec_choose(&self, path: Seq<char>) -> Option<PartialMatchView> {
        first_some(
            seq![
                complete_match(&self.0, path),
                complete_match(&self.1, path),
                complete_match(&self.2, path),
                complete_match(&self.3, path),
                complete_match(&self.4, path),
                complete_match(&self.5, path),
                complete_match(&self.6, path),
                complete_match(&self.7, path),
                complete_match(&self.8, path),
                complete_match(&self.9, path),
            ],
        )
    }

    open spec fn choose_ok(&self, path: Seq<char>) -> bool {
        self.0.test_ok(path)
        && self.1.test_ok(path)
        && self.2.test_ok(path)
        && self.3.test_ok(path)
        && self.4.test_ok(path)
        && self.5.test_ok(path)
        && self.6.test_ok(path)
        && self.7.test_ok(path)
        && self.8.test_ok(path)
        && self.9.test_ok(path)
    }

    fn choose_match<'a>(&self, path: &'a str) -> (r: Option<PartialPathMatch<'a>>) {
        let ghost s = seq![
            complete_match(&self.0, path@),
            complete_match(&self.1, path@),
            complete_match(&self.2, path@),
            complete_match(&self.3, path@),
            complete_match(&self.4, path@),
            complete_match(&self.5, path@),
            complete_match(&self.6, path@),
            complete_match(&self.7, path@),
            complete_match(&self.8, path@),
            complete_match(&self.9, path@),
        ];
        if let Some(m) = test_complete(&self.0, path) {
            proof {
                lemma_first_some(s, 0);
            }
            return Some(m);
        }
        assert(s[0] is None);
        if let Some(m) = test_complete(&self.1, path) {
            proof {
                lemma_first_some(s, 1);
            }
            return Some(m);
        }
        assert(s[1] is None);
        if let Some(m) = test_complete(&self.2, path) {
            proof {
                lemma_first_some(s, 2);
            }
            return Some(m);
        }
        assert(s[2] is None);
        if let Some(m) = test_complete(&self.3, path) {
            proof {
                lemma_first_some(s, 3);
            }
            return Some(m);
        }
        assert(s[3] is None);
        if let Some(m) = test_complete(&self.4, path) {
            proof {
                lemma_first_some(s, 4);
            }
            return Some(m);
        }
        assert(s[4] is None);
        if let Some(m) = test_complete(&self.5, path) {
            proof {
                lemma_first_some(s, 5);
            }
            return Some(m);
        }
        assert(s[5] is None);
        if let Some(m) = test_complete(&self.6, path) {
            proof {
                lemma_first_some(s, 6);
            }
            return Some(m);
        }
        assert(s[6] is None);
        if let Some(m) = test_complete(&self.7, path) {
            proof {
                lemma_first_some(s, 7);
            }
            return Some(m);
        }
        assert(s[7] is None);
        if let Some(m) = test_complete(&self.8, path) {
            proof {
                lemma_first_some(s, 8);
            }
            return Some(m);
        }
        assert(s[8] is None);
        if let Some(m) = test_complete(&self.9, path) {
            proof {
                lemma_first_some(s, 9);
            }
            return Some(m);
        }
        assert(s[9] is None);
        proof {
            lemma_first_some(s, 10);
        }
        None
    }
}

impl<A: RouteMatch, B: RouteMatch, C: RouteMatch, D: RouteMatch, E: RouteMatch, F: RouteMatch, G: RouteMatch, H: RouteMatch, I: RouteMatch, J: RouteMatch, K: RouteMatch> PossibleRoutes for (A, B, C, D, E, F, G, H, I, J, K) {
    open spec fn spec_choose(&self, path: Seq<char>) -> Option<PartialMatchView> {
        first_some(
            seq![
                complete_match(&self.0, path),
                complete_match(&self.1, path),
                complete_match(&self.2, path),
                complete_match(&self.3, path),
                complete_match(&self.4, path),
                complete_match(&self.5, path),
                complete_match(&self.6, path),
                complete_match(&self.7, path),
                complete_match(&self.8, path),
                complete_match(&self.9, path),
                complete_match(&self.10, path),
            ],
        )
    }

    open spec fn choose_ok(&self, path: Seq<char>) -> bool {
        self.0.test_ok(path)
        && self.1.test_ok(path)
        && self.2.test_ok(path)
        && self.3.test_ok(path)
        && self.4.test_ok(path)
        && self.5.test_ok(path)
        && self.6.test_ok(path)
        && self.7.test_ok(path)
        && self.8.test_ok(path)
        && self.9.test_ok(path)
        && self.10.test_ok(path)
    }

    fn choose_match<'a>(&self, path: &'a str) -> (r: Option<PartialPathMatch<'a>>) {
        let ghost s = seq![
            complete_match(&self.0, path@),
            complete_match(&self.1, path@),
            complete_match(&self.2, path@),
            complete_match(&self.3, path@),
            complete_match(&self.4, path@),
            complete_match(&self.5, path@),
            complete_match(&self.6, path@),
            complete_match(&self.7, path@),
            complete_match(&self.8, path@),
            complete_match(&self.9, path@),
            complete_match(&self.10, path@),
        ];
        if let Some(m) = test_complete(&self.0, path) {
            proof {
                lemma_first_some(s, 0);
            }
            return Some(m);
        }
        assert(s[0] is None);
        if let Some(m) = test_complete(&self.1, path) {
            proof {
                lemma_first_some(s, 1);
            }
            return Some(m);
        }
        assert(s[1] is None);
        if let Some(m) = test_complete(&self.2, path) {
            proof {
                lemma_first_some(s, 2);
            }
            return Some(m);
        }
        assert(s[2] is None);
        if let Some(m) = test_complete(&self.3, path) {
            proof {
                lemma_first_some(s, 3);
            }
            return Some(m);
        }
        assert(s[3] is None);
        if let Some(m) = test_complete(&self.4, path) {
            proof {
                lemma_first_some(s, 4);
            }
            return Some(m);
        }
        assert(s[4] is None);
        if let Some(m) = test_complete(&self.5, path) {
            proof {
                lemma_first_some(s, 5);
            }
            return Some(m);
        }
        assert(s[5] is None);
        if let Some(m) = test_complete(&self.6, path) {
            proof {
                lemma_first_some(s, 6);
            }
            return Some(m);
        }
        assert(s[6] is None);
        if let Some(m) = test_complete(&self.7, path) {
            proof {
                lemma_first_some(s, 7);
            }
            return Some(m);
        }
        assert(s[7] is None);
        if let Some(m) = test_complete(&self.8, path) {
            proof {
                lemma_first_some(s, 8);
            }
            return Some(m);
        }
        assert(s[8] is None);
        if let Some(m) = test_complete(&self.9, path) {
            proof {
                lemma_first_some(s, 9);
            }
            return Some(m);
        }
        assert(s[9] is None);
        if let Some(m) = test_complete(&self.10, path) {
            proof {
                lemma_first_some(s, 10);
            }
            return Some(m);
        }
        assert(s[10] is None);
        proof {
            lemma_first_some(s, 11);
        }
        None
    }
}

impl<A: RouteMatch, B: RouteMatch, C: RouteMatch, D: RouteMatch, E: RouteMatch, F: RouteMatch, G: RouteMatch, H: RouteMatch, I: RouteMatch, J: RouteMatch, K: RouteMatch, L: RouteMatch> PossibleRoutes for (A, B, C, D, E, F, G, H, I, J, K, L) {
    open spec fn spec_choose(&self, path: Seq<char>) -> Option<PartialMatchView> {
        first_some(
            seq![
                complete_match(&self.0, path),
                complete_match(&self.1, path),
                complete_match(&self.2, path),
                complete_match(&self.3, path),
                complete_match(&self.4, path),
                complete_match(&self.5, path),
                complete_match(&self.6, path),
                complete_match(&self.7, path),
                complete_match(&self.8, path),
                complete_match(&self.9, path),
                complete_match(&self.10, path),
                complete_match(&self.11, path),
            ],
        )
    }

    open spec fn choose_ok(&self, path: Seq<char>) -> bool {
        self.0.test_ok(path)
        && self.1.test_ok(path)
        && self.2.test_ok(path)
        && self.3.test_ok(path)
        && self.4.test_ok(path)
        && self.5.test_ok(path)
        && self.6.test_ok(path)
        && self.7.test_ok(path)
        && self.8.test_ok(path)
        && self.9.test_ok(path)
        && self.10.test_ok(path)
        && self.11.test_ok(path)
    }

    fn choose_match<'a>(&self, path: &'a str) -> (r: Option<PartialPathMatch<'a>>) {
        let ghost s = seq![
            complete_match(&self.0, path@),
            complete_match(&self.1, path@),
            complete_match(&self.2, path@),
            complete_match(&self.3, path@),
            complete_match(&self.4, path@),
            complete_match(&self.5, path@),
            complete_match(&self.6, path@),
            complete_match(&self.7, path@),
            complete_match(&self.8, path@),
            complete_match(&self.9, path@),
            complete_match(&self.10, path@),
            complete_match(&self.11, path@),
        ];
        if let Some(m) = test_complete(&self.0, path) {
            proof {
                lemma_first_some(s, 0);
            }
            return Some(m);
        }
        assert(s[0] is None);
        if let Some(m) = test_complete(&self.1, path) {
            proof {
                lemma_first_some(s, 1);
            }
            return Some(m);
        }
        assert(s[1] is None);
        if let Some(m) = test_complete(&self.2, path) {
            proof {
                lemma_first_some(s, 2);
            }
            return Some(m);
        }
        assert(s[2] is None);
        if let Some(m) = test_complete(&self.3, path) {
            proof {
                lemma_first_some(s, 3);
            }
            return Some(m);
        }
        assert(s[3] is None);
        if let Some(m) = test_complete(&self.4, path) {
            proof {
                lemma_first_some(s, 4);
            }
            return Some(m);
        }
        assert(s[4] is None);
        if let Some(m) = test_complete(&self.5, path) {
            proof {
                lemma_first_some(s, 5);
            }
            return Some(m);
        }
        assert(s[5] is None);
        if let Some(m) = test_complete(&self.6, path) {
            proof {
                lemma_first_some(s, 6);
            }
            return Some(m);
        }
        assert(s[6] is None);
        if let Some(m) = test_complete(&self.7, path) {
            proof {
                lemma_first_some(s, 7);
            }
            return Some(m);
        }
        assert(s[7] is None);
        if let Some(m) = test_complete(&self.8, path) {
            proof {
                lemma_first_some(s, 8);
            }
            return Some(m);
        }
        assert(s[8] is None);
        if let Some(m) = test_complete(&self.9, path) {
            proof {
                lemma_first_some(s, 9);
            }
            return Some(m);
        }
        assert(s[9] is None);
        if let Some(m) = test_complete(&self.10, path) {
            proof {
                lemma_first_some(s, 10);
            }
            return Some(m);
        }
        assert(s[10] is None);
        if let Some(m) = test_complete(&self.11, path) {
            proof {
                lemma_first_some(s, 11);
            }
            return Some(m);
        }
        assert(s[11] is None);
        proof {
            lemma_first_some(s, 12);
        }
        None
    }
}

impl<A: RouteMatch, B: RouteMatch, C: RouteMatch, D: RouteMatch, E: RouteMatch, F: RouteMatch, G: RouteMatch, H: RouteMatch, I: RouteMatch, J: RouteMatch, K: RouteMatch, L: RouteMatch, M: RouteMatch> PossibleRoutes for (A, B, C, D, E, F, G, H, I, J, K, L, M) {
    open spec fn spec_choose(&self, path: Seq<char>) -> Option<PartialMatchView> {
        first_some(
            seq![
                complete_match(&self.0, path),
                complete_match(&self.1, path),
                complete_match(&self.2, path),
                complete_match(&self.3, path),
                complete_match(&self.4, path),
                complete_match(&self.5, path),
                complete_match(&self.6, path),
                complete_match(&self.7, path),
                complete_match(&self.8, path),
                complete_match(&self.9, path),
                complete_match(&self.10, path),
                complete_match(&self.11, path),
                complete_match(&self.12, path),
            ],
        )
    }

    open spec fn choose_ok(&self, path: Seq<char>) -> bool {
        self.0.test_ok(path)
        && self.1.test_ok(path)
        && self.2.test_ok(path)
        && self.3.test_ok(path)
        && self.4.test_ok(path)
        && self.5.test_ok(path)
        && self.6.test_ok(path)
        && self.7.test_ok(path)
        && self.8.test_ok(path)
        && self.9.test_ok(path)
        && self.10.test_ok(path)
        && self.11.test_ok(path)
        && self.12.test_ok(path)
    }

    fn choose_match<'a>(&self, path: &'a str) -> (r: Option<PartialPathMatch<'a>>) {
        let ghost s = seq![
            complete_match(&self.0, path@),
            complete_match(&self.1, path@),
            complete_match(&self.2, path@),
            complete_match(&self.3, path@),
            complete_match(&self.4, path@),
            complete_match(&self.5, path@),
            complete_match(&self.6, path@),
            complete_match(&self.7, path@),
            complete_match(&self.8, path@),
            complete_match(&self.9, path@),
            complete_match(&self.10, path@),
            complete_match(&self.11, path@),
            complete_match(&self.12, path@),
        ];
        if let Some(m) = test_complete(&self.0, path) {
            proof {
                lemma_first_some(s, 0);
            }
            return Some(m);
        }
        assert(s[0] is None);
        if let Some(m) = test_complete(&self.1, path) {
            proof {
                lemma_first_some(s, 1);
            }
            return Some(m);
        }
        assert(s[1] is None);
        if let Some(m) = test_complete(&self.2, path) {
            proof {
                lemma_first_some(s, 2);
            }
            return Some(m);
        }
        assert(s[2] is None);
        if let Some(m) = test_complete(&self.3, path) {
            proof {
                lemma_first_some(s, 3);
            }
            return Some(m);
        }
        assert(s[3] is None);
        if let Some(m) = test_complete(&self.4, path) {
            proof {
                lemma_first_some(s, 4);
            }
            return Some(m);
        }
        assert(s[4] is None);
        if let Some(m) = test_complete(&self.5, path) {
            proof {
                lemma_first_some(s, 5);
            }
            return Some(m);
        }
        assert(s[5] is None);
        if let Some(m) = test_complete(&self.6, path) {
            proof {
                lemma_first_some(s, 6);
            }
            return Some(m);
        }
        assert(s[6] is None);
        if let Some(m) = test_complete(&self.7, path) {
            proof {
                lemma_first_some(s, 7);
            }
            return Some(m);
        }
        assert(s[7] is None);
        if let Some(m) = test_complete(&self.8, path) {
            proof {
                lemma_first_some(s, 8);
            }
            return Some(m);
        }
        assert(s[8] is None);
        if let Some(m) = test_complete(&self.9, path) {
            proof {
                lemma_first_some(s, 9);
            }
            return Some(m);
        }
        assert(s[9] is None);
        if let Some(m) = test_complete(&self.10, path) {
            proof {
                lemma_first_some(s, 10);
            }
            return Some(m);
        }
        assert(s[10] is None);
        if let Some(m) = test_complete(&self.11, path) {
            proof {
                lemma_first_some(s, 11);
            }
            return Some(m);
        }
        assert(s[11] is None);
        if let Some(m) = test_complete(&self.12, path) {
            proof {
                lemma_first_some(s, 12);
            }
            return Some(m);
        }
        assert(s[12] is None);
        proof {
            lemma_first_some(s, 13);
        }
        None
    }
}

impl<A: RouteMatch, B: RouteMatch, C: RouteMatch, D: RouteMatch, E: RouteMatch, F: RouteMatch, G: RouteMatch, H: RouteMatch, I: RouteMatch, J: RouteMatch, K: RouteMatch, L: RouteMatch, M: RouteMatch, N: RouteMatch> PossibleRoutes for (A, B, C, D, E, F, G, H, I, J, K, L, M, N) {
    open spec fn spec_choose(&self, path: Seq<char>) -> Option<PartialMatchView> {
        first_some(
            seq![
                complete_match(&self.0, path),
                complete_match(&self.1, path),
                complete_match(&self.2, path),
                complete_match(&self.3, path),
                complete_match(&self.4, path),
                complete_match(&self.5, path),
                complete_match(&self.6, path),
                complete_match(&self.7, path),
                complete_match(&self.8, path),
                complete_match(&self.9, path),
                complete_match(&self.10, path),
                complete_match(&self.11, path),
                complete_match(&self.12, path),
                complete_match(&self.13, path),
            ],
        )
    }

    open spec fn choose_ok(&self, path: Seq<char>) -> bool {
        self.0.test_ok(path)
        && self.1.test_ok(path)
        && self.2.test_ok(path)
        && self.3.test_ok(path)
        && self.4.test_ok(path)
        && self.5.test_ok(path)
        && self.6.test_ok(path)
        && self.7.test_ok(path)
        && self.8.test_ok(path)
        && self.9.test_ok(path)
        && self.10.test_ok(path)
        && self.11.test_ok(path)
        && self.12.test_ok(path)
        && self.13.test_ok(path)
    }

    fn choose_match<'a>(&self, path: &'a str) -> (r: Option<PartialPathMatch<'a>>) {
        let ghost s = seq![
            complete_match(&self.0, path@),
            complete_match(&self.1, path@),
            complete_match(&self.2, path@),
            complete_match(&self.3, path@),
            complete_match(&self.4, path@),
            complete_match(&self.5, path@),
            complete_match(&self.6, path@),
            complete_match(&self.7, path@),
            complete_match(&self.8, path@),
            complete_match(&self.9, path@),
            complete_match(&self.10, path@),
            complete_match(&self.11, path@),
            complete_match(&self.12, path@),
            complete_match(&self.13, path@),
        ];
        if let Some(m) = test_complete(&self.0, path) {
            proof {
                lemma_first_some(s, 0);
            }
            return Some(m);
        }
        assert(s[0] is None);
        if let Some(m) = test_complete(&self.1, path) {
            proof {
                lemma_first_some(s, 1);
            }
            return Some(m);
        }
        assert(s[1] is None);
        if let Some(m) = test_complete(&self.2, path) {
            proof {
                lemma_first_some(s, 2);
            }
            return Some(m);
        }
        assert(s[2] is None);
        if let Some(m) = test_complete(&self.3, path) {
            proof {
                lemma_first_some(s, 3);
            }
            return Some(m);
        }
        assert(s[3] is None);
        if let Some(m) = test_complete(&self.4, path) {
            proof {
                lemma_first_some(s, 4);
            }
            return Some(m);
        }
        assert(s[4] is None);
        if let Some(m) = test_complete(&self.5, path) {
            proof {
                lemma_first_some(s, 5);
            }
            return Some(m);
        }
        assert(s[5] is None);
        if let Some(m) = test_complete(&self.6, path) {
            proof {
                lemma_first_some(s, 6);
            }
            return Some(m);
        }
        assert(s[6] is None);
        if let Some(m) = test_complete(&self.7, path) {
            proof {
                lemma_first_some(s, 7);
            }
            return Some(m);
        }
        assert(s[7] is None);
        if let Some(m) = test_complete(&self.8, path) {
            proof {
                lemma_first_some(s, 8);
            }
            return Some(m);
        }
        assert(s[8] is None);
        if let Some(m) = test_complete(&self.9, path) {
            proof {
                lemma_first_some(s, 9);
            }
            return Some(m);
        }
        assert(s[9] is None);
        if let Some(m) = test_complete(&self.10, path) {
            proof {
                lemma_first_some(s, 10);
            }
            return Some(m);
        }
        assert(s[10] is None);
        if let Some(m) = test_complete(&self.11, path) {
            proof {
                lemma_first_some(s, 11);
            }
            return Some(m);
        }
        assert(s[11] is None);
        if let Some(m) = test_complete(&self.12, path) {
            proof {
                lemma_first_some(s, 12);
            }
            return Some(m);
        }
        assert(s[12] is None);
        if let Some(m) = test_complete(&self.13, path) {
            proof {
                lemma_first_some(s, 13);
            }
            return Some(m);
        }
        assert(s[13] is None);
        proof {
            lemma_first_some(s, 14);
        }
        None
    }
}

impl<A: RouteMatch, B: RouteMatch, C: RouteMatch, D: RouteMatch, E: RouteMatch, F: RouteMatch, G: RouteMatch, H: RouteMatch, I: RouteMatch, J: RouteMatch, K: RouteMatch, L: RouteMatch, M: RouteMatch, N: RouteMatch, O: RouteMatch> PossibleRoutes for (A, B, C, D, E, F, G, H, I, J, K, L, M, N, O) {
    open spec fn spec_choose(&self, path: Seq<char>) -> Option<PartialMatchView> {
        first_some(
            seq![
                complete_match(&self.0, path),
                complete_match(&self.1, path),
                complete_match(&self.2, path),
                complete_match(&self.3, path),
                complete_match(&self.4, path),
                complete_match(&self.5, path),
                complete_match(&self.6, path),
                complete_match(&self.7, path),
                complete_match(&self.8, path),
                complete_match(&self.9, path),
                complete_match(&self.10, path),
                complete_match(&self.11, path),
                complete_match(&self.12, path),
                complete_match(&self.13, path),
                complete_match(&self.14, path),
            ],
        )
    }

    open spec fn choose_ok(&self, path: Seq<char>) -> bool {
        self.0.test_ok(path)
        && self.1.test_ok(path)
        && self.2.test_ok(path)
        && self.3.test_ok(path)
        && self.4.test_ok(path)
        && self.5.test_ok(path)
        && self.6.test_ok(path)
        && self.7.test_ok(path)
        && self.8.test_ok(path)
        && self.9.test_ok(path)
        && self.10.test_ok(path)
        && self.11.test_ok(path)
        && self.12.test_ok(path)
        && self.13.test_ok(path)
        && self.14.test_ok(path)
    }

    fn choose_match<'a>(&self, path: &'a str) -> (r: Option<PartialPathMatch<'a>>) {
        let ghost s = seq![
            complete_match(&self.0, path@),
            complete_match(&self.1, path@),
            complete_match(&self.2, path@),
            complete_match(&self.3, path@),
            complete_match(&self.4, path@),
            complete_match(&self.5, path@),
            complete_match(&self.6, path@),
            complete_match(&self.7, path@),
            complete_match(&self.8, path@),
            complete_match(&self.9, path@),
            complete_match(&self.10, path@),
            complete_match(&self.11, path@),
            complete_match(&self.12, path@),
            complete_match(&self.13, path@),
            complete_match(&self.14, path@),
        ];
        if let Some(m) = test_complete(&self.0, path) {
            proof {
                lemma_first_some(s, 0);
            }
            return Some(m);
        }
        assert(s[0] is None);
        if let Some(m) = test_complete(&self.1, path) {
            proof {
                lemma_first_some(s, 1);
            }
            return Some(m);
        }
        assert(s[1] is None);
        if let Some(m) = test_complete(&self.2, path) {
            proof {
                lemma_first_some(s, 2);
            }
            return Some(m);
        }
        assert(s[2] is None);
        if let Some(m) = test_complete(&self.3, path) {
            proof {
                lemma_first_some(s, 3);
            }
            return Some(m);
        }
        assert(s[3] is None);
        if let Some(m) = test_complete(&self.4, path) {
            proof {
                lemma_first_some(s, 4);
            }
            return Some(m);
        }
        assert(s[4] is None);
        if let Some(m) = test_complete(&self.5, path) {
            proof {
                lemma_first_some(s, 5);
            }
            return Some(m);
        }
        assert(s[5] is None);
        if let Some(m) = test_complete(&self.6, path) {
            proof {
                lemma_first_some(s, 6);
            }
            return Some(m);
        }
        assert(s[6] is None);
        if let Some(m) = test_complete(&self.7, path) {
            proof {
                lemma_first_some(s, 7);
            }
            return Some(m);
        }
        assert(s[7] is None);
        if let Some(m) = test_complete(&self.8, path) {
            proof {
                lemma_first_some(s, 8);
            }
            return Some(m);
        }
        assert(s[8] is None);
        if let Some(m) = test_complete(&self.9, path) {
            proof {
                lemma_first_some(s, 9);
            }
            return Some(m);
        }
        assert(s[9] is None);
        if let Some(m) = test_complete(&self.10, path) {
            proof {
                lemma_first_some(s, 10);
            }
            return Some(m);
        }
        assert(s[10] is None);
        if let Some(m) = test_complete(&self.11, path) {
            proof {
                lemma_first_some(s, 11);
            }
            return Some(m);
        }
        assert(s[11] is None);
        if let Some(m) = test_complete(&self.12, path) {
            proof {
                lemma_first_some(s, 12);
            }
            return Some(m);
        }
        assert(s[12] is None);
        if let Some(m) = test_complete(&self.13, path) {
            proof {
                lemma_first_some(s, 13);
            }
            return Some(m);
        }
        assert(s[13] is None);
        if let Some(m) = test_complete(&self.14, path) {
            proof {
                lemma_first_some(s, 14);
            }
            return Some(m);
        }
        assert(s[14] is None);
        proof {
            lemma_first_some(s, 15);
        }
        None
    }
}

impl<A: RouteMatch, B: RouteMatch, C: RouteMatch, D: RouteMatch, E: RouteMatch, F: RouteMatch, G: RouteMatch, H: RouteMatch, I: RouteMatch, J: RouteMatch, K: RouteMatch, L: RouteMatch, M: RouteMatch, N: RouteMatch, O: RouteMatch, P: RouteMatch> PossibleRoutes for (A, B, C, D, E, F, G, H, I, J, K, L, M, N, O, P) {
    open spec fn spec_choose(&self, path: Seq<char>) -> Option<PartialMatchView> {
        first_some(
            seq![
                complete_match(&self.0, path),
                complete_match(&self.1, path),
                complete_match(&self.2, path),
                complete_match(&self.3, path),
                complete_match(&self.4, path),
                complete_match(&self.5, path),
                complete_match(&self.6, path),
                complete_match(&self.7, path),
                complete_match(&self.8, path),
                complete_match(&self.9, path),
                complete_match(&self.10, path),
                complete_match(&self.11, path),
                complete_match(&self.12, path),
                complete_match(&self.13, path),
                complete_match(&self.14, path),
                complete_match(&self.15, path),
            ],
        )
    }

    open spec fn choose_ok(&self, path: Seq<char>) -> bool {
        self.0.test_ok(path)
        && self.1.test_ok(path)
        && self.2.test_ok(path)
        && self.3.test_ok(path)
        && self.4.test_ok(path)
        && self.5.test_ok(path)
        && self.6.test_ok(path)
        && self.7.test_ok(path)
        && self.8.test_ok(path)
        && self.9.test_ok(path)
        && self.10.test_ok(path)
        && self.11.test_ok(path)
        && self.12.test_ok(path)
        && self.13.test_ok(path)
        && self.14.test_ok(path)
        && self.15.test_ok(path)
    }

    fn choose_match<'a>(&self, path: &'a str) -> (r: Option<PartialPathMatch<'a>>) {
        let ghost s = seq![
            complete_match(&self.0, path@),
            complete_match(&self.1, path@),
            complete_match(&self.2, path@),
            complete_match(&self.3, path@),
            complete_match(&self.4, path@),
            complete_match(&self.5, path@),
            complete_match(&self.6, path@),
            complete_match(&self.7, path@),
            complete_match(&self.8, path@),
            complete_match(&self.9, path@),
            complete_match(&self.10, path@),
            complete_match(&self.11, path@),
            complete_match(&self.12, path@),
            complete_match(&self.13, path@),
            complete_match(&self.14, path@),
            complete_match(&self.15, path@),
        ];
        if let Some(m) = test_complete(&self.0, path) {
            proof {
                lemma_first_some(s, 0);
            }
            return Some(m);
        }
        assert(s[0] is None);
        if let Some(m) = test_complete(&self.1, path) {
            proof {
                lemma_first_some(s, 1);
            }
            return Some(m);
        }
        assert(s[1] is None);
        if let Some(m) = test_complete(&self.2, path) {
            proof {
                lemma_first_some(s, 2);
            }
            return Some(m);
        }
        assert(s[2] is None);
        if let Some(m) = test_complete(&self.3, path) {
            proof {
                lemma_first_some(s, 3);
            }
            return Some(m);
        }
        assert(s[3] is None);
        if let Some(m) = test_complete(&self.4, path) {
            proof {
                lemma_first_some(s, 4);
            }
            return Some(m);
        }
        assert(s[4] is None);
        if let Some(m) = test_complete(&self.5, path) {
            proof {
                lemma_first_some(s, 5);
            }
            return Some(m);
        }
        assert(s[5] is None);
        if let Some(m) = test_complete(&self.6, path) {
            proof {
                lemma_first_some(s, 6);
            }
            return Some(m);
        }
        assert(s[6] is None);
        if let Some(m) = test_complete(&self.7, path) {
            proof {
                lemma_first_some(s, 7);
            }
            return Some(m);
        }
        assert(s[7] is None);
        if let Some(m) = test_complete(&self.8, path) {
            proof {
                lemma_first_some(s, 8);
            }
            return Some(m);
        }
        assert(s[8] is None);
        if let Some(m) = test_complete(&self.9, path) {
            proof {
                lemma_first_some(s, 9);
            }
            return Some(m);
        }
        assert(s[9] is None);
        if let Some(m) = test_complete(&self.10, path) {
            proof {
                lemma_first_some(s, 10);
            }
            return Some(m);
        }
        assert(s[10] is None);
        if let Some(m) = test_complete(&self.11, path) {
            proof {
                lemma_first_some(s, 11);
            }
            return Some(m);
        }
        assert(s[11] is None);
        if let Some(m) = test_complete(&self.12, path) {
            proof {
                lemma_first_some(s, 12);
            }
            return Some(m);
        }
        assert(s[12] is None);
        if let Some(m) = test_complete(&self.13, path) {
            proof {
                lemma_first_some(s, 13);
            }
            return Some(m);
        }
        assert(s[13] is None);
        if let Some(m) = test_complete(&self.14, path) {
            proof {
                lemma_first_some(s, 14);
            }
            return Some(m);
        }
        assert(s[14] is None);
        if let Some(m) = test_complete(&self.15, path) {
            proof {
                lemma_first_some(s, 15);
            }
            return Some(m);
        }
        assert(s[15] is None);
        proof {
            lemma_first_some(s, 16);
        }
        None
    }
}

impl<A: RouteMatch, B: RouteMatch, C: RouteMatch, D: RouteMatch, E: RouteMatch, F: RouteMatch, G: RouteMatch, H: RouteMatch, I: RouteMatch, J: RouteMatch, K: RouteMatch, L: RouteMatch, M: RouteMatch, N: RouteMatch, O: RouteMatch, P: RouteMatch, Q: RouteMatch> PossibleRoutes for (A, B, C, D, E, F, G, H, I, J, K, L, M, N, O, P, Q) {
    open spec fn spec_choose(&self, path: Seq<char>) -> Option<PartialMatchView> {
        first_some(
            seq![
                complete_match(&self.0, path),
                complete_match(&self.1, path),
                complete_match(&self.2, path),
                complete_match(&self.3, path),
                complete_match(&self.4, path),
                complete_match(&self.5, path),
                complete_match(&self.6, path),
                complete_match(&self.7, path),
                complete_match(&self.8, path),
                complete_match(&self.9, path),
                complete_match(&self.10, path),
                complete_match(&self.11, path),
                complete_match(&self.12, path),
                complete_match(&self.13, path),
                complete_match(&self.14, path),
                complete_match(&self.15, path),
                complete_match(&self.16, path),
            ],
        )
    }

    open spec fn choose_ok(&self, path: Seq<char>) -> bool {
        self.0.test_ok(path)
        && self.1.test_ok(path)
        && self.2.test_ok(path)
        && self.3.test_ok(path)
        && self.4.test_ok(path)
        && self.5.test_ok(path)
        && self.6.test_ok(path)
        && self.7.test_ok(path)
        && self.8.test_ok(path)
        && self.9.test_ok(path)
        && self.10.test_ok(path)
        && self.11.test_ok(path)
        && self.12.test_ok(path)
        && self.13.test_ok(path)
        && self.14.test_ok(path)
        && self.15.test_ok(path)
        && self.16.test_ok(path)
    }

    fn choose_match<'a>(&self, path: &'a str) -> (r: Option<PartialPathMatch<'a>>) {
        let ghost s = seq![
            complete_match(&self.0, path@),
            complete_match(&self.1, path@),
            complete_match(&self.2, path@),
            complete_match(&self.3, path@),
            complete_match(&self.4, path@),
            complete_match(&self.5, path@),
            complete_match(&self.6, path@),
            complete_match(&self.7, path@),
            complete_match(&self.8, path@),
            complete_match(&self.9, path@),
            complete_match(&self.10, path@),
            complete_match(&self.11, path@),
            complete_match(&self.12, path@),
            complete_match(&self.13, path@),
            complete_match(&self.14, path@),
            complete_match(&self.15, path@),
            complete_match(&self.16, path@),
        ];
        if let Some(m) = test_complete(&self.0, path) {
            proof {
                lemma_first_some(s, 0);
            }
            return Some(m);
        }
        assert(s[0] is None);
        if let Some(m) = test_complete(&self.1, path) {
            proof {
                lemma_first_some(s, 1);
            }
            return Some(m);
        }
        assert(s[1] is None);
        if let Some(m) = test_complete(&self.2, path) {
            proof {
                lemma_first_some(s, 2);
            }
            return Some(m);
        }
        assert(s[2] is None);
        if let Some(m) = test_complete(&self.3, path) {
            proof {
                lemma_first_some(s, 3);
            }
            return Some(m);
        }
        assert(s[3] is None);
        if let Some(m) = test_complete(&self.4, path) {
            proof {
                lemma_first_some(s, 4);
            }
            return Some(m);
        }
        assert(s[4] is None);
        if let Some(m) = test_complete(&self.5, path) {
            proof {
                lemma_first_some(s, 5);
            }
            return Some(m);
        }
        assert(s[5] is None);
        if let Some(m) = test_complete(&self.6, path) {
            proof {
                lemma_first_some(s, 6);
            }
            return Some(m);
        }
        assert(s[6] is None);
        if let Some(m) = test_complete(&self.7, path) {
            proof {
                lemma_first_some(s, 7);
            }
            return Some(m);
        }
        assert(s[7] is None);
        if let Some(m) = test_complete(&self.8, path) {
            proof {
                lemma_first_some(s, 8);
            }
            return Some(m);
        }
        assert(s[8] is None);
        if let Some(m) = test_complete(&self.9, path) {
            proof {
                lemma_first_some(s, 9);
            }
            return Some(m);
        }
        assert(s[9] is None);
        if let Some(m) = test_complete(&self.10, path) {
            proof {
                lemma_first_some(s, 10);
            }
            return Some(m);
        }
        assert(s[10] is None);
        if let Some(m) = test_complete(&self.11, path) {
            proof {
                lemma_first_some(s, 11);
            }
            return Some(m);
        }
        assert(s[11] is None);
        if let Some(m) = test_complete(&self.12, path) {
            proof {
                lemma_first_some(s, 12);
            }
            return Some(m);
        }
        assert(s[12] is None);
        if let Some(m) = test_complete(&self.13, path) {
            proof {
                lemma_first_some(s, 13);
            }
            return Some(m);
        }
        assert(s[13] is None);
        if let Some(m) = test_complete(&self.14, path) {
            proof {
                lemma_first_some(s, 14);
            }
            return Some(m);
        }
        assert(s[14] is None);
        if let Some(m) = test_complete(&self.15, path) {
            proof {
                lemma_first_some(s, 15);
            }
            return Some(m);
        }
        assert(s[15] is None);
        if let Some(m) = test_complete(&self.16, path) {
            proof {
                lemma_first_some(s, 16);
            }
            return Some(m);
        }
        assert(s[16] is None);
        proof {
            lemma_first_some(s, 17);
        }
        None
    }
}

impl<A: RouteMatch, B: RouteMatch, C: RouteMatch, D: RouteMatch, E: RouteMatch, F: RouteMatch, G: RouteMatch, H: RouteMatch, I: RouteMatch, J: RouteMatch, K: RouteMatch, L: RouteMatch, M: RouteMatch, N: RouteMatch, O: RouteMatch, P: RouteMatch, Q: RouteMatch, R: RouteMatch> PossibleRoutes for (A, B, C, D, E, F, G, H, I, J, K, L, M, N, O, P, Q, R) {
    open spec fn spec_choose(&self, path: Seq<char>) -> Option<PartialMatchView> {
        first_some(
            seq![
                complete_match(&self.0, path),
                complete_match(&self.1, path),
                complete_match(&self.2, path),
                complete_match(&self.3, path),
                complete_match(&self.4, path),
                complete_match(&self.5, path),
                complete_match(&self.6, path),
                complete_match(&self.7, path),
                complete_match(&self.8, path),
                complete_match(&self.9, path),
                complete_match(&self.10, path),
                complete_match(&self.11, path),
                complete_match(&self.12, path),
                complete_match(&self.13, path),
                complete_match(&self.14, path),
                complete_match(&self.15, path),
                complete_match(&self.16, path),
                complete_match(&self.17, path),
            ],
        )
    }

    open spec fn choose_ok(&self, path: Seq<char>) -> bool {
        self.0.test_ok(path)
        && self.1.test_ok(path)
        && self.2.test_ok(path)
        && self.3.test_ok(path)
        && self.4.test_ok(path)
        && self.5.test_ok(path)
        && self.6.test_ok(path)
        && self.7.test_ok(path)
        && self.8.test_ok(path)
        && self.9.test_ok(path)
        && self.10.test_ok(path)
        && self.11.test_ok(path)
        && self.12.test_ok(path)
        && self.13.test_ok(path)
        && self.14.test_ok(path)
        && self.15.test_ok(path)
        && self.16.test_ok(path)
        && self.17.test_ok(path)
    }

    fn choose_match<'a>(&self, path: &'a str) -> (r: Option<PartialPathMatch<'a>>) {
        let ghost s = seq![
            complete_match(&self.0, path@),
            complete_match(&self.1, path@),
            complete_match(&self.2, path@),
            complete_match(&self.3, path@),
            complete_match(&self.4, path@),
            complete_match(&self.5, path@),
            complete_match(&self.6, path@),
            complete_match(&self.7, path@),
            complete_match(&self.8, path@),
            complete_match(&self.9, path@),
            complete_match(&self.10, path@),
            complete_match(&self.11, path@),
            complete_match(&self.12, path@),
            complete_match(&self.13, path@),
            complete_match(&self.14, path@),
            complete_match(&self.15, path@),
            complete_match(&self.16, path@),
            complete_match(&self.17, path@),
        ];
        if let Some(m) = test_complete(&self.0, path) {
            proof {
                lemma_first_some(s, 0);
            }
            return Some(m);
        }
        assert(s[0] is None);
        if let Some(m) = test_complete(&self.1, path) {
            proof {
                lemma_first_some(s, 1);
            }
            return Some(m);
        }
        assert(s[1] is None);
        if let Some(m) = test_complete(&self.2, path) {
            proof {
                lemma_first_some(s, 2);
            }
            return Some(m);
        }
        assert(s[2] is None);
        if let Some(m) = test_complete(&self.3, path) {
            proof {
                lemma_first_some(s, 3);
            }
            return Some(m);
        }
        assert(s[3] is None);
        if let Some(m) = test_complete(&self.4, path) {
            proof {
                lemma_first_some(s, 4);
            }
            return Some(m);
        }
        assert(s[4] is None);
        if let Some(m) = test_complete(&self.5, path) {
            proof {
                lemma_first_some(s, 5);
            }
            return Some(m);
        }
        assert(s[5] is None);
        if let Some(m) = test_complete(&self.6, path) {
            proof {
                lemma_first_some(s, 6);
            }
            return Some(m);
        }
        assert(s[6] is None);
        if let Some(m) = test_complete(&self.7, path) {
            proof {
                lemma_first_some(s, 7);
            }
            return Some(m);
        }
        assert(s[7] is None);
        if let Some(m) = test_complete(&self.8, path) {
            proof {
                lemma_first_some(s, 8);
            }
            return Some(m);
        }
        assert(s[8] is None);
        if let Some(m) = test_complete(&self.9, path) {
            proof {
                lemma_first_some(s, 9);
            }
            return Some(m);
        }
        assert(s[9] is None);
        if let Some(m) = test_complete(&self.10, path) {
            proof {
                lemma_first_some(s, 10);
            }
            return Some(m);
        }
        assert(s[10] is None);
        if let Some(m) = test_complete(&self.11, path) {
            proof {
                lemma_first_some(s, 11);
            }
            return Some(m);
        }
        assert(s[11] is None);
        if let Some(m) = test_complete(&self.12, path) {
            proof {
                lemma_first_some(s, 12);
            }
            return Some(m);
        }
        assert(s[12] is None);
        if let Some(m) = test_complete(&self.13, path) {
            proof {
                lemma_first_some(s, 13);
            }
            return Some(m);
        }
        assert(s[13] is None);
        if let Some(m) = test_complete(&self.14, path) {
            proof {
                lemma_first_some(s, 14);
            }
            return Some(m);
        }
        assert(s[14] is None);
        if let Some(m) = test_complete(&self.15, path) {
            proof {
                lemma_first_some(s, 15);
            }
            return Some(m);
        }
        assert(s[15] is None);
        if let Some(m) = test_complete(&self.16, path) {
            proof {
                lemma_first_some(s, 16);
            }
            return Some(m);
        }
        assert(s[16] is None);
        if let Some(m) = test_complete(&self.17, path) {
            proof {
                lemma_first_some(s, 17);
            }
            return Some(m);
        }
        assert(s[17] is None);
        proof {
            lemma_first_some(s, 18);
        }
        None
    }
}

impl<A: RouteMatch, B: RouteMatch, C: RouteMatch, D: RouteMatch, E: RouteMatch, F: RouteMatch, G: RouteMatch, H: RouteMatch, I: RouteMatch, J: RouteMatch, K: RouteMatch, L: RouteMatch, M: RouteMatch, N: RouteMatch, O: RouteMatch, P: RouteMatch, Q: RouteMatch, R: RouteMatch, S: RouteMatch> PossibleRoutes for (A, B, C, D, E, F, G, H, I, J, K, L, M, N, O, P, Q, R, S) {
    open spec fn spec_choose(&self, path: Seq<char>) -> Option<PartialMatchView> {
        first_some(
            seq![
                complete_match(&self.0, path),
                complete_match(&self.1, path),
                complete_match(&self.2, path),
                complete_match(&self.3, path),
                complete_match(&self.4, path),
                complete_match(&self.5, path),
                complete_match(&self.6, path),
                complete_match(&self.7, path),
                complete_match(&self.8, path),
                complete_match(&self.9, path),
                complete_match(&self.10, path),
                complete_match(&self.11, path),
                complete_match(&self.12, path),
                complete_match(&self.13, path),
                complete_match(&self.14, path),
                complete_match(&self.15, path),
                complete_match(&self.16, path),
                complete_match(&self.17, path),
                complete_match(&self.18, path),
            ],
        )
    }

    open spec fn choose_ok(&self, path: Seq<char>) -> bool {
        self.0.test_ok(path)
        && self.1.test_ok(path)
        && self.2.test_ok(path)
        && self.3.test_ok(path)
        && self.4.test_ok(path)
        && self.5.test_ok(path)
        && self.6.test_ok(path)
        && self.7.test_ok(path)
        && self.8.test_ok(path)
        && self.9.test_ok(path)
        && self.10.test_ok(path)
        && self.11.test_ok(path)
        && self.12.test_ok(path)
        && self.13.test_ok(path)
        && self.14.test_ok(path)
        && self.15.test_ok(path)
        && self.16.test_ok(path)
        && self.17.test_ok(path)
        && self.18.test_ok(path)
    }

    fn choose_match<'a>(&self, path: &'a str) -> (r: Option<PartialPathMatch<'a>>) {
        let ghost s = seq![
            complete_match(&self.0, path@),
            complete_match(&self.1, path@),
            complete_match(&self.2, path@),
            complete_match(&self.3, path@),
            complete_match(&self.4, path@),
            complete_match(&self.5, path@),
            complete_match(&self.6, path@),
            complete_match(&self.7, path@),
            complete_match(&self.8, path@),
            complete_match(&self.9, path@),
            complete_match(&self.10, path@),
            complete_match(&self.11, path@),
            complete_match(&self.12, path@),
            complete_match(&self.13, path@),
            complete_match(&self.14, path@),
            complete_match(&self.15, path@),
            complete_match(&self.16, path@),
            complete_match(&self.17, path@),
            complete_match(&self.18, path@),
        ];
        if let Some(m) = test_complete(&self.0, path) {
            proof {
                lemma_first_some(s, 0);
            }
            return Some(m);
        }
        assert(s[0] is None);
        if let Some(m) = test_complete(&self.1, path) {
            proof {
                lemma_first_some(s, 1);
            }
            return Some(m);
        }
        assert(s[1] is None);
        if let Some(m) = test_complete(&self.2, path) {
            proof {
                lemma_first_some(s, 2);
            }
            return Some(m);
        }
        assert(s[2] is None);
        if let Some(m) = test_complete(&self.3, path) {
            proof {
                lemma_first_some(s, 3);
            }
            return Some(m);
        }
        assert(s[3] is None);
        if let Some(m) = test_complete(&self.4, path) {
            proof {
                lemma_first_some(s, 4);
            }
            return Some(m);
        }
        assert(s[4] is None);
        if let Some(m) = test_complete(&self.5, path) {
            proof {
                lemma_first_some(s, 5);
            }
            return Some(m);
        }
        assert(s[5] is None);
        if let Some(m) = test_complete(&self.6, path) {
            proof {
                lemma_first_some(s, 6);
            }
            return Some(m);
        }
        assert(s[6] is None);
        if let Some(m) = test_complete(&self.7, path) {
            proof {
                lemma_first_some(s, 7);
            }
            return Some(m);
        }
        assert(s[7] is None);
        if let Some(m) = test_complete(&self.8, path) {
            proof {
                lemma_first_some(s, 8);
            }
            return Some(m);
        }
        assert(s[8] is None);
        if let Some(m) = test_complete(&self.9, path) {
            proof {
                lemma_first_some(s, 9);
            }
            return Some(m);
        }
        assert(s[9] is None);
        if let Some(m) = test_complete(&self.10, path) {
            proof {
                lemma_first_some(s, 10);
            }
            return Some(m);
        }
        assert(s[10] is None);
        if let Some(m) = test_complete(&self.11, path) {
            proof {
                lemma_first_some(s, 11);
            }
            return Some(m);
        }
        assert(s[11] is None);
        if let Some(m) = test_complete(&self.12, path) {
            proof {
                lemma_first_some(s, 12);
            }
            return Some(m);
        }
        assert(s[12] is None);
        if let Some(m) = test_complete(&self.13, path) {
            proof {
                lemma_first_some(s, 13);
            }
            return Some(m);
        }
        assert(s[13] is None);
        if let Some(m) = test_complete(&self.14, path) {
            proof {
                lemma_first_some(s, 14);
            }
            return Some(m);
        }
        assert(s[14] is None);
        if let Some(m) = test_complete(&self.15, path) {
            proof {
                lemma_first_some(s, 15);
            }
            return Some(m);
        }
        assert(s[15] is None);
        if let Some(m) = test_complete(&self.16, path) {
            proof {
                lemma_first_some(s, 16);
            }
            return Some(m);
        }
        assert(s[16] is None);
        if let Some(m) = test_complete(&self.17, path) {
            proof {
                lemma_first_some(s, 17);
            }
            return Some(m);
        }
        assert(s[17] is None);
        if let Some(m) = test_complete(&self.18, path) {
            proof {
                lemma_first_some(s, 18);
            }
            return Some(m);
        }
        assert(s[18] is None);
        proof {
            lemma_first_some(s, 19);
        }
        None
    }
}

impl<A: RouteMatch, B: RouteMatch, C: RouteMatch, D: RouteMatch, E: RouteMatch, F: RouteMatch, G: RouteMatch, H: RouteMatch, I: RouteMatch, J: RouteMatch, K: RouteMatch, L: RouteMatch, M: RouteMatch, N: RouteMatch, O: RouteMatch, P: RouteMatch, Q: RouteMatch, R: RouteMatch, S: RouteMatch, T: RouteMatch> PossibleRoutes for (A, B, C, D, E, F, G, H, I, J, K, L, M, N, O, P, Q, R, S, T) {
    open spec fn spec_choose(&self, path: Seq<char>) -> Option<PartialMatchView> {
        first_some(
            seq![
                complete_match(&self.0, path),
                complete_match(&self.1, path),
                complete_match(&self.2, path),
                complete_match(&self.3, path),
                complete_match(&self.4, path),
                complete_match(&self.5, path),
                complete_match(&self.6, path),
                complete_match(&self.7, path),
                complete_match(&self.8, path),
                complete_match(&self.9, path),
                complete_match(&self.10, path),
                complete_match(&self.11, path),
                complete_match(&self.12, path),
                complete_match(&self.13, path),
                complete_match(&self.14, path),
                complete_match(&self.15, path),
                complete_match(&self.16, path),
                complete_match(&self.17, path),
                complete_match(&self.18, path),
                complete_match(&self.19, path),
            ],
        )
    }

    open spec fn choose_ok(&self, path: Seq<char>) -> bool {
        self.0.test_ok(path)
        && self.1.test_ok(path)
        && self.2.test_ok(path)
        && self.3.test_ok(path)
        && self.4.test_ok(path)
        && self.5.test_ok(path)
        && self.6.test_ok(path)
        && self.7.test_ok(path)
        && self.8.test_ok(path)
        && self.9.test_ok(path)
        && self.10.test_ok(path)
        && self.11.test_ok(path)
        && self.12.test_ok(path)
        && self.13.test_ok(path)
        && self.14.test_ok(path)
        && self.15.test_ok(path)
        && self.16.test_ok(path)
        && self.17.test_ok(path)
        && self.18.test_ok(path)
        && self.19.test_ok(path)
    }

    fn choose_match<'a>(&self, path: &'a str) -> (r: Option<PartialPathMatch<'a>>) {
        let ghost s = seq![
            complete_match(&self.0, path@),
            complete_match(&self.1, path@),
            complete_match(&self.2, path@),
            complete_match(&self.3, path@),
            complete_match(&self.4, path@),
            complete_match(&self.5, path@),
            complete_match(&self.6, path@),
            complete_match(&self.7, path@),
            complete_match(&self.8, path@),
            complete_match(&self.9, path@),
            complete_match(&self.10, path@),
            complete_match(&self.11, path@),
            complete_match(&self.12, path@),
            complete_match(&self.13, path@),
            complete_match(&self.14, path@),
            complete_match(&self.15, path@),
            complete_match(&self.16, path@),
            complete_match(&self.17, path@),
            complete_match(&self.18, path@),
            complete_match(&self.19, path@),
        ];
        if let Some(m) = test_complete(&self.0, path) {
            proof {
                lemma_first_some(s, 0);
            }
            return Some(m);
        }
        assert(s[0] is None);
        if let Some(m) = test_complete(&self.1, path) {
            proof {
                lemma_first_some(s, 1);
            }
            return Some(m);
        }
        assert(s[1] is None);
        if let Some(m) = test_complete(&self.2, path) {
            proof {
                lemma_first_some(s, 2);
            }
            return Some(m);
        }
        assert(s[2] is None);
        if let Some(m) = test_complete(&self.3, path) {
            proof {
                lemma_first_some(s, 3);
            }
            return Some(m);
        }
        assert(s[3] is None);
        if let Some(m) = test_complete(&self.4, path) {
            proof {
                lemma_first_some(s, 4);
            }
            return Some(m);
        }
        assert(s[4] is None);
        if let Some(m) = test_complete(&self.5, path) {
            proof {
                lemma_first_some(s, 5);
            }
            return Some(m);
        }
        assert(s[5] is None);
        if let Some(m) = test_complete(&self.6, path) {
            proof {
                lemma_first_some(s, 6);
            }
            return Some(m);
        }
        assert(s[6] is None);
        if let Some(m) = test_complete(&self.7, path) {
            proof {
                lemma_first_some(s, 7);
            }
            return Some(m);
        }
        assert(s[7] is None);
        if let Some(m) = test_complete(&self.8, path) {
            proof {
                lemma_first_some(s, 8);
            }
            return Some(m);
        }
        assert(s[8] is None);
        if let Some(m) = test_complete(&self.9, path) {
            proof {
                lemma_first_some(s, 9);
            }
            return Some(m);
        }
        assert(s[9] is None);
        if let Some(m) = test_complete(&self.10, path) {
            proof {
                lemma_first_some(s, 10);
            }
            return Some(m);
        }
        assert(s[10] is None);
        if let Some(m) = test_complete(&self.11, path) {
            proof {
                lemma_first_some(s, 11);
            }
            return Some(m);
        }
        assert(s[11] is None);
        if let Some(m) = test_complete(&self.12, path) {
            proof {
                lemma_first_some(s, 12);
            }
            return Some(m);
        }
        assert(s[12] is None);
        if let Some(m) = test_complete(&self.13, path) {
            proof {
                lemma_first_some(s, 13);
            }
            return Some(m);
        }
        assert(s[13] is None);
        if let Some(m) = test_complete(&self.14, path) {
            proof {
                lemma_first_some(s, 14);
            }
            return Some(m);
        }
        assert(s[14] is None);
        if let Some(m) = test_complete(&self.15, path) {
            proof {
                lemma_first_some(s, 15);
            }
            return Some(m);
        }
        assert(s[15] is None);
        if let Some(m) = test_complete(&self.16, path) {
            proof {
                lemma_first_some(s, 16);
            }
            return Some(m);
        }
        assert(s[16] is None);
        if let Some(m) = test_complete(&self.17, path) {
            proof {
                lemma_first_some(s, 17);
            }
            return Some(m);
        }
        assert(s[17] is None);
        if let Some(m) = test_complete(&self.18, path) {
            proof {
                lemma_first_some(s, 18);
            }
            return Some(m);
        }
        assert(s[18] is None);
        if let Some(m) = test_complete(&self.19, path) {
            proof {
                lemma_first_some(s, 19);
            }
            return Some(m);
        }
        assert(s[19] is None);
        proof {
            lemma_first_some(s, 20);
        }
        None
    }
}

impl<A: RouteMatch, B: RouteMatch, C: RouteMatch, D: RouteMatch, E: RouteMatch, F: RouteMatch, G: RouteMatch, H: RouteMatch, I: RouteMatch, J: RouteMatch, K: RouteMatch, L: RouteMatch, M: RouteMatch, N: RouteMatch, O: RouteMatch, P: RouteMatch, Q: RouteMatch, R: RouteMatch, S: RouteMatch, T: RouteMatch, U: RouteMatch> PossibleRoutes for (A, B, C, D, E, F, G, H, I, J, K, L, M, N, O, P, Q, R, S, T, U) {
    open spec fn spec_choose(&self, path: Seq<char>) -> Option<PartialMatchView> {
        first_some(
            seq![
                complete_match(&self.0, path),
                complete_match(&self.1, path),
                complete_match(&self.2, path),
                complete_match(&self.3, path),
                complete_match(&self.4, path),
                complete_match(&self.5, path),
                complete_match(&self.6, path),
                complete_match(&self.7, path),
                complete_match(&self.8, path),
                complete_match(&self.9, path),
                complete_match(&self.10, path),
                complete_match(&self.11, path),
                complete_match(&self.12, path),
                complete_match(&self.13, path),
                complete_match(&self.14, path),
                complete_match(&self.15, path),
                complete_match(&self.16, path),
                complete_match(&self.17, path),
                complete_match(&self.18, path),
                complete_match(&self.19, path),
                complete_match(&self.20, path),
            ],
        )
    }

    open spec fn choose_ok(&self, path: Seq<char>) -> bool {
        self.0.test_ok(path)
        && self.1.test_ok(path)
        && self.2.test_ok(path)
        && self.3.test_ok(path)
        && self.4.test_ok(path)
        && self.5.test_ok(path)
        && self.6.test_ok(path)
        && self.7.test_ok(path)
        && self.8.test_ok(path)
        && self.9.test_ok(path)
        && self.10.test_ok(path)
        && self.11.test_ok(path)
        && self.12.test_ok(path)
        && self.13.test_ok(path)
        && self.14.test_ok(path)
        && self.15.test_ok(path)
        && self.16.test_ok(path)
        && self.17.test_ok(path)
        && self.18.test_ok(path)
        && self.19.test_ok(path)
        && self.20.test_ok(path)
    }

    fn choose_match<'a>(&self, path: &'a str) -> (r: Option<PartialPathMatch<'a>>) {
        let ghost s = seq![
            complete_match(&self.0, path@),
            complete_match(&self.1, path@),
            complete_match(&self.2, path@),
            complete_match(&self.3, path@),
            complete_match(&self.4, path@),
            complete_match(&self.5, path@),
            complete_match(&self.6, path@),
            complete_match(&self.7, path@),
            complete_match(&self.8, path@),
            complete_match(&self.9, path@),
            complete_match(&self.10, path@),
            complete_match(&self.11, path@),
            complete_match(&self.12, path@),
            complete_match(&self.13, path@),
            complete_match(&self.14, path@),
            complete_match(&self.15, path@),
            complete_match(&self.16, path@),
            complete_match(&self.17, path@),
            complete_match(&self.18, path@),
            complete_match(&self.19, path@),
            complete_match(&self.20, path@),
        ];
        if let Some(m) = test_complete(&self.0, path) {
            proof {
                lemma_first_some(s, 0);
            }
            return Some(m);
        }
        assert(s[0] is None);
        if let Some(m) = test_complete(&self.1, path) {
            proof {
                lemma_first_some(s, 1);
            }
            return Some(m);
        }
        assert(s[1] is None);
        if let Some(m) = test_complete(&self.2, path) {
            proof {
                lemma_first_some(s, 2);
            }
            return Some(m);
        }
        assert(s[2] is None);
        if let Some(m) = test_complete(&self.3, path) {
            proof {
                lemma_first_some(s, 3);
            }
            return Some(m);
        }
        assert(s[3] is None);
        if let Some(m) = test_complete(&self.4, path) {
            proof {
                lemma_first_some(s, 4);
            }
            return Some(m);
        }
        assert(s[4] is None);
        if let Some(m) = test_complete(&self.5, path) {
            proof {
                lemma_first_some(s, 5);
            }
            return Some(m);
        }
        assert(s[5] is None);
        if let Some(m) = test_complete(&self.6, path) {
            proof {
                lemma_first_some(s, 6);
            }
            return Some(m);
        }
        assert(s[6] is None);
        if let Some(m) = test_complete(&self.7, path) {
            proof {
                lemma_first_some(s, 7);
            }
            return Some(m);
        }
        assert(s[7] is None);
        if let Some(m) = test_complete(&self.8, path) {
            proof {
                lemma_first_some(s, 8);
            }
            return Some(m);
        }
        assert(s[8] is None);
        if let Some(m) = test_complete(&self.9, path) {
            proof {
                lemma_first_some(s, 9);
            }
            return Some(m);
        }
        assert(s[9] is None);
        if let Some(m) = test_complete(&self.10, path) {
            proof {
                lemma_first_some(s, 10);
            }
            return Some(m);
        }
        assert(s[10] is None);
        if let Some(m) = test_complete(&self.11, path) {
            proof {
                lemma_first_some(s, 11);
            }
            return Some(m);
        }
        assert(s[11] is None);
        if let Some(m) = test_complete(&self.12, path) {
            proof {
                lemma_first_some(s, 12);
            }
            return Some(m);
        }
        assert(s[12] is None);
        if let Some(m) = test_complete(&self.13, path) {
            proof {
                lemma_first_some(s, 13);
            }
            return Some(m);
        }
        assert(s[13] is None);
        if let Some(m) = test_complete(&self.14, path) {
            proof {
                lemma_first_some(s, 14);
            }
            return Some(m);
        }
        assert(s[14] is None);
        if let Some(m) = test_complete(&self.15, path) {
            proof {
                lemma_first_some(s, 15);
            }
            return Some(m);
        }
        assert(s[15] is None);
        if let Some(m) = test_complete(&self.16, path) {
            proof {
                lemma_first_some(s, 16);
            }
            return Some(m);
        }
        assert(s[16] is None);
        if let Some(m) = test_complete(&self.17, path) {
            proof {
                lemma_first_some(s, 17);
            }
            return Some(m);
        }
        assert(s[17] is None);
        if let Some(m) = test_complete(&self.18, path) {
            proof {
                lemma_first_some(s, 18);
            }
            return Some(m);
        }
        assert(s[18] is None);
        if let Some(m) = test_complete(&self.19, path) {
            proof {
                lemma_first_some(s, 19);
            }
            return Some(m);
        }
        assert(s[19] is None);
        if let Some(m) = test_complete(&self.20, path) {
            proof {
                lemma_first_some(s, 20);
            }
            return Some(m);
        }
        assert(s[20] is None);
        proof {
            lemma_first_some(s, 21);
        }
        None
    }
}

impl<A: RouteMatch, B: RouteMatch, C: RouteMatch, D: RouteMatch, E: RouteMatch, F: RouteMatch, G: RouteMatch, H: RouteMatch, I: RouteMatch, J: RouteMatch, K: RouteMatch, L: RouteMatch, M: RouteMatch, N: RouteMatch, O: RouteMatch, P: RouteMatch, Q: RouteMatch, R: RouteMatch, S: RouteMatch, T: RouteMatch, U: RouteMatch, V: RouteMatch> PossibleRoutes for (A, B, C, D, E, F, G, H, I, J, K, L, M, N, O, P, Q, R, S, T, U, V) {
    open spec fn spec_choose(&self, path: Seq<char>) -> Option<PartialMatchView> {
        first_some(
            seq![
                complete_match(&self.0, path),
                complete_match(&self.1, path),
                complete_match(&self.2, path),
                complete_match(&self.3, path),
                complete_match(&self.4, path),
                complete_match(&self.5, path),
                complete_match(&self.6, path),
                complete_match(&self.7, path),
                complete_match(&self.8, path),
                complete_match(&self.9, path),
                complete_match(&self.10, path),
                complete_match(&self.11, path),
                complete_match(&self.12, path),
                complete_match(&self.13, path),
                complete_match(&self.14, path),
                complete_match(&self.15, path),
                complete_match(&self.16, path),
                complete_match(&self.17, path),
                complete_match(&self.18, path),
                complete_match(&self.19, path),
                complete_match(&self.20, path),
                complete_match(&self.21, path),
            ],
        )
    }

    open spec fn choose_ok(&self, path: Seq<char>) -> bool {
        self.0.test_ok(path)
        && self.1.test_ok(path)
        && self.2.test_ok(path)
        && self.3.test_ok(path)
        && self.4.test_ok(path)
        && self.5.test_ok(path)
        && self.6.test_ok(path)
        && self.7.test_ok(path)
        && self.8.test_ok(path)
        && self.9.test_ok(path)
        && self.10.test_ok(path)
        && self.11.test_ok(path)
        && self.12.test_ok(path)
        && self.13.test_ok(path)
        && self.14.test_ok(path)
        && self.15.test_ok(path)
        && self.16.test_ok(path)
        && self.17.test_ok(path)
        && self.18.test_ok(path)
        && self.19.test_ok(path)
        && self.20.test_ok(path)
        && self.21.test_ok(path)
    }

    fn choose_match<'a>(&self, path: &'a str) -> (r: Option<PartialPathMatch<'a>>) {
        let ghost s = seq![
            complete_match(&self.0, path@),
            complete_match(&self.1, path@),
            complete_match(&self.2, path@),
            complete_match(&self.3, path@),
            complete_match(&self.4, path@),
            complete_match(&self.5, path@),
            complete_match(&self.6, path@),
            complete_match(&self.7, path@),
            complete_match(&self.8, path@),
            complete_match(&self.9, path@),
            complete_match(&self.10, path@),
            complete_match(&self.11, path@),
            complete_match(&self.12, path@),
            complete_match(&self.13, path@),
            complete_match(&self.14, path@),
            complete_match(&self.15, path@),
            complete_match(&self.16, path@),
            complete_match(&self.17, path@),
            complete_match(&self.18, path@),
            complete_match(&self.19, path@),
            complete_match(&self.20, path@),
            complete_match(&self.21, path@),
        ];
        if let Some(m) = test_complete(&self.0, path) {
            proof {
                lemma_first_some(s, 0);
            }
            return Some(m);
        }
        assert(s[0] is None);
        if let Some(m) = test_complete(&self.1, path) {
            proof {
                lemma_first_some(s, 1);
            }
            return Some(m);
        }
        assert(s[1] is None);
        if let Some(m) = test_complete(&self.2, path) {
            proof {
                lemma_first_some(s, 2);
            }
            return Some(m);
        }
        assert(s[2] is None);
        if let Some(m) = test_complete(&self.3, path) {
            proof {
                lemma_first_some(s, 3);
            }
            return Some(m);
        }
        assert(s[3] is None);
        if let Some(m) = test_complete(&self.4, path) {
            proof {
                lemma_first_some(s, 4);
            }
            return Some(m);
        }
        assert(s[4] is None);
        if let Some(m) = test_complete(&self.5, path) {
            proof {
                lemma_first_some(s, 5);
            }
            return Some(m);
        }
        assert(s[5] is None);
        if let Some(m) = test_complete(&self.6, path) {
            proof {
                lemma_first_some(s, 6);
            }
            return Some(m);
        }
        assert(s[6] is None);
        if let Some(m) = test_complete(&self.7, path) {
            proof {
                lemma_first_some(s, 7);
            }
            return Some(m);
        }
        assert(s[7] is None);
        if let Some(m) = test_complete(&self.8, path) {
            proof {
                lemma_first_some(s, 8);
            }
            return Some(m);
        }
        assert(s[8] is None);
        if let Some(m) = test_complete(&self.9, path) {
            proof {
                lemma_first_some(s, 9);
            }
            return Some(m);
        }
        assert(s[9] is None);
        if let Some(m) = test_complete(&self.10, path) {
            proof {
                lemma_first_some(s, 10);
            }
            return Some(m);
        }
        assert(s[10] is None);
        if let Some(m) = test_complete(&self.11, path) {
            proof {
                lemma_first_some(s, 11);
            }
            return Some(m);
        }
        assert(s[11] is None);
        if let Some(m) = test_complete(&self.12, path) {
            proof {
                lemma_first_some(s, 12);
            }
            return Some(m);
        }
        assert(s[12] is None);
        if let Some(m) = test_complete(&self.13, path) {
            proof {
                lemma_first_some(s, 13);
            }
            return Some(m);
        }
        assert(s[13] is None);
        if let Some(m) = test_complete(&self.14, path) {
            proof {
                lemma_first_some(s, 14);
            }
            return Some(m);
        }
        assert(s[14] is None);
        if let Some(m) = test_complete(&self.15, path) {
            proof {
                lemma_first_some(s, 15);
            }
            return Some(m);
        }
        assert(s[15] is None);
        if let Some(m) = test_complete(&self.16, path) {
            proof {
                lemma_first_some(s, 16);
            }
            return Some(m);
        }
        assert(s[16] is None);
        if let Some(m) = test_complete(&self.17, path) {
            proof {
                lemma_first_some(s, 17);
            }
            return Some(m);
        }
        assert(s[17] is None);
        if let Some(m) = test_complete(&self.18, path) {
            proof {
                lemma_first_some(s, 18);
            }
            return Some(m);
        }
        assert(s[18] is None);
        if let Some(m) = test_complete(&self.19, path) {
            proof {
                lemma_first_some(s, 19);
            }
            return Some(m);
        }
        assert(s[19] is None);
        if let Some(m) = test_complete(&self.20, path) {
            proof {
                lemma_first_some(s, 20);
            }
            return Some(m);
        }
        assert(s[20] is None);
        if let Some(m) = test_complete(&self.21, path) {
            proof {
                lemma_first_some(s, 21);
            }
            return Some(m);
        }
        assert(s[21] is None);
        proof {
            lemma_first_some(s, 22);
        }
        None
    }
}

impl<A: RouteMatch, B: RouteMatch, C: RouteMatch, D: RouteMatch, E: RouteMatch, F: RouteMatch, G: RouteMatch, H: RouteMatch, I: RouteMatch, J: RouteMatch, K: RouteMatch, L: RouteMatch, M: RouteMatch, N: RouteMatch, O: RouteMatch, P: RouteMatch, Q: RouteMatch, R: RouteMatch, S: RouteMatch, T: RouteMatch, U: RouteMatch, V: RouteMatch, W: RouteMatch> PossibleRoutes for (A, B, C, D, E, F, G, H, I, J, K, L, M, N, O, P, Q, R, S, T, U, V, W) {
    open spec fn spec_choose(&self, path: Seq<char>) -> Option<PartialMatchView> {
        first_some(
            seq![
                complete_match(&self.0, path),
                complete_match(&self.1, path),
                complete_match(&self.2, path),
                complete_match(&self.3, path),
                complete_match(&self.4, path),
                complete_match(&self.5, path),
                complete_match(&self.6, path),
                complete_match(&self.7, path),
                complete_match(&self.8, path),
                complete_match(&self.9, path),
                complete_match(&self.10, path),
                complete_match(&self.11, path),
                complete_match(&self.12, path),
                complete_match(&self.13, path),
                complete_match(&self.14, path),
                complete_match(&self.15, path),
                complete_match(&self.16, path),
                complete_match(&self.17, path),
                complete_match(&self.18, path),
                complete_match(&self.19, path),
                complete_match(&self.20, path),
                complete_match(&self.21, path),
                complete_match(&self.22, path),
            ],
        )
    }

    open spec fn choose_ok(&self, path: Seq<char>) -> bool {
        self.0.test_ok(path)
        && self.1.test_ok(path)
        && self.2.test_ok(path)
        && self.3.test_ok(path)
        && self.4.test_ok(path)
        && self.5.test_ok(path)
        && self.6.test_ok(path)
        && self.7.test_ok(path)
        && self.8.test_ok(path)
        && self.9.test_ok(path)
        && self.10.test_ok(path)
        && self.11.test_ok(path)
        && self.12.test_ok(path)
        && self.13.test_ok(path)
        && self.14.test_ok(path)
        && self.15.test_ok(path)
        && self.16.test_ok(path)
        && self.17.test_ok(path)
        && self.18.test_ok(path)
        && self.19.test_ok(path)
        && self.20.test_ok(path)
        && self.21.test_ok(path)
        && self.22.test_ok(path)
    }

    fn choose_match<'a>(&self, path: &'a str) -> (r: Option<PartialPathMatch<'a>>) {
        let ghost s = seq![
            complete_match(&self.0, path@),
            complete_match(&self.1, path@),
            complete_match(&self.2, path@),
            complete_match(&self.3, path@),
            complete_match(&self.4, path@),
            complete_match(&self.5, path@),
            complete_match(&self.6, path@),
            complete_match(&self.7, path@),
            complete_match(&self.8, path@),
            complete_match(&self.9, path@),
            complete_match(&self.10, path@),
            complete_match(&self.11, path@),
            complete_match(&self.12, path@),
            complete_match(&self.13, path@),
            complete_match(&self.14, path@),
            complete_match(&self.15, path@),
            complete_match(&self.16, path@),
            complete_match(&self.17, path@),
            complete_match(&self.18, path@),
            complete_match(&self.19, path@),
            complete_match(&self.20, path@),
            complete_match(&self.21, path@),
            complete_match(&self.22, path@),
        ];
        if let Some(m) = test_complete(&self.0, path) {
            proof {
                lemma_first_some(s, 0);
            }
            return Some(m);
        }
        assert(s[0] is None);
        if let Some(m) = test_complete(&self.1, path) {
            proof {
                lemma_first_some(s, 1);
            }
            return Some(m);
        }
        assert(s[1] is None);
        if let Some(m) = test_complete(&self.2, path) {
            proof {
                lemma_first_some(s, 2);
            }
            return Some(m);
        }
        assert(s[2] is None);
        if let Some(m) = test_complete(&self.3, path) {
            proof {
                lemma_first_some(s, 3);
            }
            return Some(m);
        }
        assert(s[3] is None);
        if let Some(m) = test_complete(&self.4, path) {
            proof {
                lemma_first_some(s, 4);
            }
            return Some(m);
        }
        assert(s[4] is None);
        if let Some(m) = test_complete(&self.5, path) {
            proof {
                lemma_first_some(s, 5);
            }
            return Some(m);
        }
        assert(s[5] is None);
        if let Some(m) = test_complete(&self.6, path) {
            proof {
                lemma_first_some(s, 6);
            }
            return Some(m);
        }
        assert(s[6] is None);
        if let Some(m) = test_complete(&self.7, path) {
            proof {
                lemma_first_some(s, 7);
            }
            return Some(m);
        }
        assert(s[7] is None);
        if let Some(m) = test_complete(&self.8, path) {
            proof {
                lemma_first_some(s, 8);
            }
            return Some(m);
        }
        assert(s[8] is None);
        if let Some(m) = test_complete(&self.9, path) {
            proof {
                lemma_first_some(s, 9);
            }
            return Some(m);
        }
        assert(s[9] is None);
        if let Some(m) = test_complete(&self.10, path) {
            proof {
                lemma_first_some(s, 10);
            }
            return Some(m);
        }
        assert(s[10] is None);
        if let Some(m) = test_complete(&self.11, path) {
            proof {
                lemma_first_some(s, 11);
            }
            return Some(m);
        }
        assert(s[11] is None);
        if let Some(m) = test_complete(&self.12, path) {
            proof {
                lemma_first_some(s, 12);
            }
            return Some(m);
        }
        assert(s[12] is None);
        if let Some(m) = test_complete(&self.13, path) {
            proof {
                lemma_first_some(s, 13);
            }
            return Some(m);
        }
        assert(s[13] is None);
        if let Some(m) = test_complete(&self.14, path) {
            proof {
                lemma_first_some(s, 14);
            }
            return Some(m);
        }
        assert(s[14] is None);
        if let Some(m) = test_complete(&self.15, path) {
            proof {
                lemma_first_some(s, 15);
            }
            return Some(m);
        }
        assert(s[15] is None);
        if let Some(m) = test_complete(&self.16, path) {
            proof {
                lemma_first_some(s, 16);
            }
            return Some(m);
        }
        assert(s[16] is None);
        if let Some(m) = test_complete(&self.17, path) {
            proof {
                lemma_first_some(s, 17);
            }
            return Some(m);
        }
        assert(s[17] is None);
        if let Some(m) = test_complete(&self.18, path) {
            proof {
                lemma_first_some(s, 18);
            }
            return Some(m);
        }
        assert(s[18] is None);
        if let Some(m) = test_complete(&self.19, path) {
            proof {
                lemma_first_some(s, 19);
            }
            return Some(m);
        }
        assert(s[19] is None);
        if let Some(m) = test_complete(&self.20, path) {
            proof {
                lemma_first_some(s, 20);
            }
            return Some(m);
        }
        assert(s[20] is None);
        if let Some(m) = test_complete(&self.21, path) {
            proof {
                lemma_first_some(s, 21);
            }
            return Some(m);
        }
        assert(s[21] is None);
        if let Some(m) = test_complete(&self.22, path) {
            proof {
                lemma_first_some(s, 22);
            }
            return Some(m);
        }
        assert(s[22] is None);
        proof {
            lemma_first_some(s, 23);
        }
        None
    }
}

impl<A: RouteMatch, B: RouteMatch, C: RouteMatch, D: RouteMatch, E: RouteMatch, F: RouteMatch, G: RouteMatch, H: RouteMatch, I: RouteMatch, J: RouteMatch, K: RouteMatch, L: RouteMatch, M: RouteMatch, N: RouteMatch, O: RouteMatch, P: RouteMatch, Q: RouteMatch, R: RouteMatch, S: RouteMatch, T: RouteMatch, U: RouteMatch, V: RouteMatch, W: RouteMatch, X: RouteMatch> PossibleRoutes for (A, B, C, D, E, F, G, H, I, J, K, L, M, N, O, P, Q, R, S, T, U, V, W, X) {
    open spec fn spec_choose(&self, path: Seq<char>) -> Option<PartialMatchView> {
        first_some(
            seq![
                complete_match(&self.0, path),
                complete_match(&self.1, path),
                complete_match(&self.2, path),
                complete_match(&self.3, path),
                complete_match(&self.4, path),
                complete_match(&self.5, path),
                complete_match(&self.6, path),
                complete_match(&self.7, path),
                complete_match(&self.8, path),
                complete_match(&self.9, path),
                complete_match(&self.10, path),
                complete_match(&self.11, path),
                complete_match(&self.12, path),
                complete_match(&self.13, path),
                complete_match(&self.14, path),
                complete_match(&self.15, path),
                complete_match(&self.16, path),
                complete_match(&self.17, path),
                complete_match(&self.18, path),
                complete_match(&self.19, path),
                complete_match(&self.20, path),
                complete_match(&self.21, path),
                complete_match(&self.22, path),
                complete_match(&self.23, path),
            ],
        )
    }

    open spec fn choose_ok(&self, path: Seq<char>) -> bool {
        self.0.test_ok(path)
        && self.1.test_ok(path)
        && self.2.test_ok(path)
        && self.3.test_ok(path)
        && self.4.test_ok(path)
        && self.5.test_ok(path)
        && self.6.test_ok(path)
        && self.7.test_ok(path)
        && self.8.test_ok(path)
        && self.9.test_ok(path)
        && self.10.test_ok(path)
        && self.11.test_ok(path)
        && self.12.test_ok(path)
        && self.13.test_ok(path)
        && self.14.test_ok(path)
        && self.15.test_ok(path)
        && self.16.test_ok(path)
        && self.17.test_ok(path)
        && self.18.test_ok(path)
        && self.19.test_ok(path)
        && self.20.test_ok(path)
        && self.21.test_ok(path)
        && self.22.test_ok(path)
        && self.23.test_ok(path)
    }

    fn choose_match<'a>(&self, path: &'a str) -> (r: Option<PartialPathMatch<'a>>) {
        let ghost s = seq![
            complete_match(&self.0, path@),
            complete_match(&self.1, path@),
            complete_match(&self.2, path@),
            complete_match(&self.3, path@),
            complete_match(&self.4, path@),
            complete_match(&self.5, path@),
            complete_match(&self.6, path@),
            complete_match(&self.7, path@),
            complete_match(&self.8, path@),
            complete_match(&self.9, path@),
            complete_match(&self.10, path@),
            complete_match(&self.11, path@),
            complete_match(&self.12, path@),
            complete_match(&self.13, path@),
            complete_match(&self.14, path@),
            complete_match(&self.15, path@),
            complete_match(&self.16, path@),
            complete_match(&self.17, path@),
            complete_match(&self.18, path@),
            complete_match(&self.19, path@),
            complete_match(&self.20, path@),
            complete_match(&self.21, path@),
            complete_match(&self.22, path@),
            complete_match(&self.23, path@),
        ];
        if let Some(m) = test_complete(&self.0, path) {
            proof {
                lemma_first_some(s, 0);
            }
            return Some(m);
        }
        assert(s[0] is None);
        if let Some(m) = test_complete(&self.1, path) {
            proof {
                lemma_first_some(s, 1);
            }
            return Some(m);
        }
        assert(s[1] is None);
        if let Some(m) = test_complete(&self.2, path) {
            proof {
                lemma_first_some(s, 2);
            }
            return Some(m);
        }
        assert(s[2] is None);
        if let Some(m) = test_complete(&self.3, path) {
            proof {
                lemma_first_some(s, 3);
            }
            return Some(m);
        }
        assert(s[3] is None);
        if let Some(m) = test_complete(&self.4, path) {
            proof {
                lemma_first_some(s, 4);
            }
            return Some(m);
        }
        assert(s[4] is None);
        if let Some(m) = test_complete(&self.5, path) {
            proof {
                lemma_first_some(s, 5);
            }
            return Some(m);
        }
        assert(s[5] is None);
        if let Some(m) = test_complete(&self.6, path) {
            proof {
                lemma_first_some(s, 6);
            }
            return Some(m);
        }
        assert(s[6] is None);
        if let Some(m) = test_complete(&self.7, path) {
            proof {
                lemma_first_some(s, 7);
            }
            return Some(m);
        }
        assert(s[7] is None);
        if let Some(m) = test_complete(&self.8, path) {
            proof {
                lemma_first_some(s, 8);
            }
            return Some(m);
        }
        assert(s[8] is None);
        if let Some(m) = test_complete(&self.9, path) {
            proof {
                lemma_first_some(s, 9);
            }
            return Some(m);
        }
        assert(s[9] is None);
        if let Some(m) = test_complete(&self.10, path) {
            proof {
                lemma_first_some(s, 10);
            }
            return Some(m);
        }
        assert(s[10] is None);
        if let Some(m) = test_complete(&self.11, path) {
            proof {
                lemma_first_some(s, 11);
            }
            return Some(m);
        }
        assert(s[11] is None);
        if let Some(m) = test_complete(&self.12, path) {
            proof {
                lemma_first_some(s, 12);
            }
            return Some(m);
        }
        assert(s[12] is None);
        if let Some(m) = test_complete(&self.13, path) {
            proof {
                lemma_first_some(s, 13);
            }
            return Some(m);
        }
        assert(s[13] is None);
        if let Some(m) = test_complete(&self.14, path) {
            proof {
                lemma_first_some(s, 14);
            }
            return Some(m);
        }
        assert(s[14] is None);
        if let Some(m) = test_complete(&self.15, path) {
            proof {
                lemma_first_some(s, 15);
            }
            return Some(m);
        }
        assert(s[15] is None);
        if let Some(m) = test_complete(&self.16, path) {
            proof {
                lemma_first_some(s, 16);
            }
            return Some(m);
        }
        assert(s[16] is None);
        if let Some(m) = test_complete(&self.17, path) {
            proof {
                lemma_first_some(s, 17);
            }
            return Some(m);
        }
        assert(s[17] is None);
        if let Some(m) = test_complete(&self.18, path) {
            proof {
                lemma_first_some(s, 18);
            }
            return Some(m);
        }
        assert(s[18] is None);
        if let Some(m) = test_complete(&self.19, path) {
            proof {
                lemma_first_some(s, 19);
            }
            return Some(m);
        }
        assert(s[19] is None);
        if let Some(m) = test_complete(&self.20, path) {
            proof {
                lemma_first_some(s, 20);
            }
            return Some(m);
        }
        assert(s[20] is None);
        if let Some(m) = test_complete(&self.21, path) {
            proof {
                lemma_first_some(s, 21);
            }
            return Some(m);
        }
        assert(s[21] is None);
        if let Some(m) = test_complete(&self.22, path) {
            proof {
                lemma_first_some(s, 22);
            }
            return Some(m);
        }
        assert(s[22] is None);
        if let Some(m) = test_complete(&self.23, path) {
            proof {
                lemma_first_some(s, 23);
            }
            return Some(m);
        }
        assert(s[23] is None);
        proof {
            lemma_first_some(s, 24);
        }
        None
    }
}

impl<A: RouteMatch, B: RouteMatch, C: RouteMatch, D: RouteMatch, E: RouteMatch, F: RouteMatch, G: RouteMatch, H: RouteMatch, I: RouteMatch, J: RouteMatch, K: RouteMatch, L: RouteMatch, M: RouteMatch, N: RouteMatch, O: RouteMatch, P: RouteMatch, Q: RouteMatch, R: RouteMatch, S: RouteMatch, T: RouteMatch, U: RouteMatch, V: RouteMatch, W: RouteMatch, X: RouteMatch, Y: RouteMatch> PossibleRoutes for (A, B, C, D, E, F, G, H, I, J, K, L, M, N, O, P, Q, R, S, T, U, V, W, X, Y) {
    open spec fn spec_choose(&self, path: Seq<char>) -> Option<PartialMatchView> {
        first_some(
            seq![
                complete_match(&self.0, path),
                complete_match(&self.1, path),
                complete_match(&self.2, path),
                complete_match(&self.3, path),
                complete_match(&self.4, path),
                complete_match(&self.5, path),
                complete_match(&self.6, path),
                complete_match(&self.7, path),
                complete_match(&self.8, path),
                complete_match(&self.9, path),
                complete_match(&self.10, path),
                complete_match(&self.11, path),
                complete_match(&self.12, path),
                complete_match(&self.13, path),
                complete_match(&self.14, path),
                complete_match(&self.15, path),
                complete_match(&self.16, path),
                complete_match(&self.17, path),
                complete_match(&self.18, path),
                complete_match(&self.19, path),
                complete_match(&self.20, path),
                complete_match(&self.21, path),
                complete_match(&self.22, path),
                complete_match(&self.23, path),
                complete_match(&self.24, path),
            ],
        )
    }

    open spec fn choose_ok(&self, path: Seq<char>) -> bool {
        self.0.test_ok(path)
        && self.1.test_ok(path)
        && self.2.test_ok(path)
        && self.3.test_ok(path)
        && self.4.test_ok(path)
        && self.5.test_ok(path)
        && self.6.test_ok(path)
        && self.7.test_ok(path)
        && self.8.test_ok(path)
        && self.9.test_ok(path)
        && self.10.test_ok(path)
        && self.11.test_ok(path)
        && self.12.test_ok(path)
        && self.13.test_ok(path)
        && self.14.test_ok(path)
        && self.15.test_ok(path)
        && self.16.test_ok(path)
        && self.17.test_ok(path)
        && self.18.test_ok(path)
        && self.19.test_ok(path)
        && self.20.test_ok(path)
        && self.21.test_ok(path)
        && self.22.test_ok(path)
        && self.23.test_ok(path)
        && self.24.test_ok(path)
    }

    fn choose_match<'a>(&self, path: &'a str) -> (r: Option<PartialPathMatch<'a>>) {
        let ghost s = seq![
            complete_match(&self.0, path@),
            complete_match(&self.1, path@),
            complete_match(&self.2, path@),
            complete_match(&self.3, path@),
            complete_match(&self.4, path@),
            complete_match(&self.5, path@),
            complete_match(&self.6, path@),
            complete_match(&self.7, path@),
            complete_match(&self.8, path@),
            complete_match(&self.9, path@),
            complete_match(&self.10, path@),
            complete_match(&self.11, path@),
            complete_match(&self.12, path@),
            complete_match(&self.13, path@),
            complete_match(&self.14, path@),
            complete_match(&self.15, path@),
            complete_match(&self.16, path@),
            complete_match(&self.17, path@),
            complete_match(&self.18, path@),
            complete_match(&self.19, path@),
            complete_match(&self.20, path@),
            complete_match(&self.21, path@),
            complete_match(&self.22, path@),
            complete_match(&self.23, path@),
            complete_match(&self.24, path@),
        ];
        if let Some(m) = test_complete(&self.0, path) {
            proof {
                lemma_first_some(s, 0);
            }
            return Some(m);
        }
        assert(s[0] is None);
        if let Some(m) = test_complete(&self.1, path) {
            proof {
                lemma_first_some(s, 1);
            }
            return Some(m);
        }
        assert(s[1] is None);
        if let Some(m) = test_complete(&self.2, path) {
            proof {
                lemma_first_some(s, 2);
            }
            return Some(m);
        }
        assert(s[2] is None);
        if let Some(m) = test_complete(&self.3, path) {
            proof {
                lemma_first_some(s, 3);
            }
            return Some(m);
        }
        assert(s[3] is None);
        if let Some(m) = test_complete(&self.4, path) {
            proof {
                lemma_first_some(s, 4);
            }
            return Some(m);
        }
        assert(s[4] is None);
        if let Some(m) = test_complete(&self.5, path) {
            proof {
                lemma_first_some(s, 5);
            }
            return Some(m);
        }
        assert(s[5] is None);
        if let Some(m) = test_complete(&self.6, path) {
            proof {
                lemma_first_some(s, 6);
            }
            return Some(m);
        }
        assert(s[6] is None);
        if let Some(m) = test_complete(&self.7, path) {
            proof {
                lemma_first_some(s, 7);
            }
            return Some(m);
        }
        assert(s[7] is None);
        if let Some(m) = test_complete(&self.8, path) {
            proof {
                lemma_first_some(s, 8);
            }
            return Some(m);
        }
        assert(s[8] is None);
        if let Some(m) = test_complete(&self.9, path) {
            proof {
                lemma_first_some(s, 9);
            }
            return Some(m);
        }
        assert(s[9] is None);
        if let Some(m) = test_complete(&self.10, path) {
            proof {
                lemma_first_some(s, 10);
            }
            return Some(m);
        }
        assert(s[10] is None);
        if let Some(m) = test_complete(&self.11, path) {
            proof {
                lemma_first_some(s, 11);
            }
            return Some(m);
        }
        assert(s[11] is None);
        if let Some(m) = test_complete(&self.12, path) {
            proof {
                lemma_first_some(s, 12);
            }
            return Some(m);
        }
        assert(s[12] is None);
        if let Some(m) = test_complete(&self.13, path) {
            proof {
                lemma_first_some(s, 13);
            }
            return Some(m);
        }
        assert(s[13] is None);
        if let Some(m) = test_complete(&self.14, path) {
            proof {
                lemma_first_some(s, 14);
            }
            return Some(m);
        }
        assert(s[14] is None);
        if let Some(m) = test_complete(&self.15, path) {
            proof {
                lemma_first_some(s, 15);
            }
            return Some(m);
        }
        assert(s[15] is None);
        if let Some(m) = test_complete(&self.16, path) {
            proof {
                lemma_first_some(s, 16);
            }
            return Some(m);
        }
        assert(s[16] is None);
        if let Some(m) = test_complete(&self.17, path) {
            proof {
                lemma_first_some(s, 17);
            }
            return Some(m);
        }
        assert(s[17] is None);
        if let Some(m) = test_complete(&self.18, path) {
            proof {
                lemma_first_some(s, 18);
            }
            return Some(m);
        }
        assert(s[18] is None);
        if let Some(m) = test_complete(&self.19, path) {
            proof {
                lemma_first_some(s, 19);
            }
            return Some(m);
        }
        assert(s[19] is None);
        if let Some(m) = test_complete(&self.20, path) {
            proof {
                lemma_first_some(s, 20);
            }
            return Some(m);
        }
        assert(s[20] is None);
        if let Some(m) = test_complete(&self.21, path) {
            proof {
                lemma_first_some(s, 21);
            }
            return Some(m);
        }
        assert(s[21] is None);
        if let Some(m) = test_complete(&self.22, path) {
            proof {
                lemma_first_some(s, 22);
            }
            return Some(m);
        }
        assert(s[22] is None);
        if let Some(m) = test_complete(&self.23, path) {
            proof {
                lemma_first_some(s, 23);
            }
            return Some(m);
        }
        assert(s[23] is None);
        if let Some(m) = test_complete(&self.24, path) {
            proof {
                lemma_first_some(s, 24);
            }
            return Some(m);
        }
        assert(s[24] is None);
        proof {
            lemma_first_some(s, 25);
        }
        None
    }
}

impl<A: RouteMatch, B: RouteMatch, C: RouteMatch, D: RouteMatch, E: RouteMatch, F: RouteMatch, G: RouteMatch, H: RouteMatch, I: RouteMatch, J: RouteMatch, K: RouteMatch, L: RouteMatch, M: RouteMatch, N: RouteMatch, O: RouteMatch, P: RouteMatch, Q: RouteMatch, R: RouteMatch, S: RouteMatch, T: RouteMatch, U: RouteMatch, V: RouteMatch, W: RouteMatch, X: RouteMatch, Y: RouteMatch, Z: RouteMatch> PossibleRoutes for (A, B, C, D, E, F, G, H, I, J, K, L, M, N, O, P, Q, R, S, T, U, V, W, X, Y, Z) {
    open spec fn spec_choose(&self, path: Seq<char>) -> Option<PartialMatchView> {
        first_some(
            seq![
                complete_match(&self.0, path),
                complete_match(&self.1, path),
                complete_match(&self.2, path),
                complete_match(&self.3, path),
                complete_match(&self.4, path),
                complete_match(&self.5, path),
                complete_match(&self.6, path),
                complete_match(&self.7, path),
                complete_match(&self.8, path),
                complete_match(&self.9, path),
                complete_match(&self.10, path),
                complete_match(&self.11, path),
                complete_match(&self.12, path),
                complete_match(&self.13, path),
                complete_match(&self.14, path),
                complete_match(&self.15, path),
                complete_match(&self.16, path),
                complete_match(&self.17, path),
                complete_match(&self.18, path),
                complete_match(&self.19, path),
                complete_match(&self.20, path),
                complete_match(&self.21, path),
                complete_match(&self.22, path),
                complete_match(&self.23, path),
                complete_match(&self.24, path),
                complete_match(&self.25, path),
            ],
        )
    }

    open spec fn choose_ok(&self, path: Seq<char>) -> bool {
        self.0.test_ok(path)
        && self.1.test_ok(path)
        && self.2.test_ok(path)
        && self.3.test_ok(path)
        && self.4.test_ok(path)
        && self.5.test_ok(path)
        && self.6.test_ok(path)
        && self.7.test_ok(path)
        && self.8.test_ok(path)
        && self.9.test_ok(path)
        && self.10.test_ok(path)
        && self.11.test_ok(path)
        && self.12.test_ok(path)
        && self.13.test_ok(path)
        && self.14.test_ok(path)
        && self.15.test_ok(path)
        && self.16.test_ok(path)
        && self.17.test_ok(path)
        && self.18.test_ok(path)
        && self.19.test_ok(path)
        && self.20.test_ok(path)
        && self.21.test_ok(path)
        && self.22.test_ok(path)
        && self.23.test_ok(path)
        && self.24.test_ok(path)
        && self.25.test_ok(path)
    }

    fn choose_match<'a>(&self, path: &'a str) -> (r: Option<PartialPathMatch<'a>>) {
        let ghost s = seq![
            complete_match(&self.0, path@),
            complete_match(&self.1, path@),
            complete_match(&self.2, path@),
            complete_match(&self.3, path@),
            complete_match(&self.4, path@),
            complete_match(&self.5, path@),
            complete_match(&self.6, path@),
            complete_match(&self.7, path@),
            complete_match(&self.8, path@),
            complete_match(&self.9, path@),
            complete_match(&self.10, path@),
            complete_match(&self.11, path@),
            complete_match(&self.12, path@),
            complete_match(&self.13, path@),
            complete_match(&self.14, path@),
            complete_match(&self.15, path@),
            complete_match(&self.16, path@),
            complete_match(&self.17, path@),
            complete_match(&self.18, path@),
            complete_match(&self.19, path@),
            complete_match(&self.20, path@),
            complete_match(&self.21, path@),
            complete_match(&self.22, path@),
            complete_match(&self.23, path@),
            complete_match(&self.24, path@),
            complete_match(&self.25, path@),
        ];
        if let Some(m) = test_complete(&self.0, path) {
            proof {
                lemma_first_some(s, 0);
            }
            return Some(m);
        }
        assert(s[0] is None);
        if let Some(m) = test_complete(&self.1, path) {
            proof {
                lemma_first_some(s, 1);
            }
            return Some(m);
        }
        assert(s[1] is None);
        if let Some(m) = test_complete(&self.2, path) {
            proof {
                lemma_first_some(s, 2);
            }
            return Some(m);
        }
        assert(s[2] is None);
        if let Some(m) = test_complete(&self.3, path) {
            proof {
                lemma_first_some(s, 3);
            }
            return Some(m);
        }
        assert(s[3] is None);
        if let Some(m) = test_complete(&self.4, path) {
            proof {
                lemma_first_some(s, 4);
            }
            return Some(m);
        }
        assert(s[4] is None);
        if let Some(m) = test_complete(&self.5, path) {
            proof {
                lemma_first_some(s, 5);
            }
            return Some(m);
        }
        assert(s[5] is None);
        if let Some(m) = test_complete(&self.6, path) {
            proof {
                lemma_first_some(s, 6);
            }
            return Some(m);
        }
        assert(s[6] is None);
        if let Some(m) = test_complete(&self.7, path) {
            proof {
                lemma_first_some(s, 7);
            }
            return Some(m);
        }
        assert(s[7] is None);
        if let Some(m) = test_complete(&self.8, path) {
            proof {
                lemma_first_some(s, 8);
            }
            return Some(m);
        }
        assert(s[8] is None);
        if let Some(m) = test_complete(&self.9, path) {
            proof {
                lemma_first_some(s, 9);
            }
            return Some(m);
        }
        assert(s[9] is None);
        if let Some(m) = test_complete(&self.10, path) {
            proof {
                lemma_first_some(s, 10);
            }
            return Some(m);
        }
        assert(s[10] is None);
        if let Some(m) = test_complete(&self.11, path) {
            proof {
                lemma_first_some(s, 11);
            }
            return Some(m);
        }
        assert(s[11] is None);
        if let Some(m) = test_complete(&self.12, path) {
            proof {
                lemma_first_some(s, 12);
            }
            return Some(m);
        }
        assert(s[12] is None);
        if let Some(m) = test_complete(&self.13, path) {
            proof {
                lemma_first_some(s, 13);
            }
            return Some(m);
        }
        assert(s[13] is None);
        if let Some(m) = test_complete(&self.14, path) {
            proof {
                lemma_first_some(s, 14);
            }
            return Some(m);
        }
        assert(s[14] is None);
        if let Some(m) = test_complete(&self.15, path) {
            proof {
                lemma_first_some(s, 15);
            }
            return Some(m);
        }
        assert(s[15] is None);
        if let Some(m) = test_complete(&self.16, path) {
            proof {
                lemma_first_some(s, 16);
            }
            return Some(m);
        }
        assert(s[16] is None);
        if let Some(m) = test_complete(&self.17, path) {
            proof {
                lemma_first_some(s, 17);
            }
            return Some(m);
        }
        assert(s[17] is None);
        if let Some(m) = test_complete(&self.18, path) {
            proof {
                lemma_first_some(s, 18);
            }
            return Some(m);
        }
        assert(s[18] is None);
        if let Some(m) = test_complete(&self.19, path) {
            proof {
                lemma_first_some(s, 19);
            }
            return Some(m);
        }
        assert(s[19] is None);
        if let Some(m) = test_complete(&self.20, path) {
            proof {
                lemma_first_some(s, 20);
            }
            return Some(m);
        }
        assert(s[20] is None);
        if let Some(m) = test_complete(&self.21, path) {
            proof {
                lemma_first_some(s, 21);
            }
            return Some(m);
        }
        assert(s[21] is None);
        if let Some(m) = test_complete(&self.22, path) {
            proof {
                lemma_first_some(s, 22);
            }
            return Some(m);
        }
        assert(s[22] is None);
        if let Some(m) = test_complete(&self.23, path) {
            proof {
                lemma_first_some(s, 23);
            }
            return Some(m);
        }
        assert(s[23] is None);
        if let Some(m) = test_complete(&self.24, path) {
            proof {
                lemma_first_some(s, 24);
            }
            return Some(m);
        }
        assert(s[24] is None);
        if let Some(m) = test_complete(&self.25, path) {
            proof {
                lemma_first_some(s, 25);
            }
            return Some(m);
        }
        assert(s[25] is None);
        proof {
            lemma_first_some(s, 26);
        }
        None
    }
}

/// With no alternatives, nothing is chosen.
pub proof fn lemma_choose_none(path: Seq<char>)
    ensures
        ().spec_choose(path) is None,
{
}

/// A single alternative is chosen whenever its own test matches, completely
/// or not.
pub proof fn lemma_choose_1<A: RouteMatch>(t: &(A,), path: Seq<char>)
    ensures
        t.spec_choose(path) == t.0.spec_test(path),
{
}

/// Choosing among 2 alternatives gives the match of the first whose own
/// test matches the path completely, or none when none does.
pub proof fn lemma_choose_2<A: RouteMatch, B: RouteMatch>(t: &(A, B), path: Seq<char>)
    ensures
        chooses_first_complete(
            seq![t.0.spec_test(path), t.1.spec_test(path)],
            t.spec_choose(path),
        ),
{
    let tests = seq![t.0.spec_test(path), t.1.spec_test(path)];
    let s = seq![complete_match(&t.0, path), complete_match(&t.1, path)];
    assert forall|i: int| 0 <= i < 2 implies #[trigger] s[i] == keep_complete(tests[i]) by {
        if i == 0 {} else if i == 1 {}
    }
    lemma_chooses_first_complete(tests, s, t.spec_choose(path));
}

/// Choosing among 3 alternatives gives the match of the first whose own
/// test matches the path completely, or none when none does.
pub proof fn lemma_choose_3<A: RouteMatch, B: RouteMatch, C: RouteMatch>(t: &(A, B, C), path: Seq<char>)
    ensures
        chooses_first_complete(
            seq![t.0.spec_test(path), t.1.spec_test(path), t.2.spec_test(path)],
            t.spec_choose(path),
        ),
{
    let tests = seq![t.0.spec_test(path), t.1.spec_test(path), t.2.spec_test(path)];
    let s = seq![complete_match(&t.0, path), complete_match(&t.1, path), complete_match(&t.2, path)];
    assert forall|i: int| 0 <= i < 3 implies #[trigger] s[i] == keep_complete(tests[i]) by {
        if i == 0 {} else if i == 1 {} else if i == 2 {}
    }
    lemma_chooses_first_complete(tests, s, t.spec_choose(path));
}

/// Choosing among 4 alternatives gives the match of the first whose own
/// test matches the path completely, or none when none does.
pub proof fn lemma_choose_4<A: RouteMatch, B: RouteMatch, C: RouteMatch, D: RouteMatch>(t: &(A, B, C, D), path: Seq<char>)
    ensures
        chooses_first_complete(
            seq![t.0.spec_test(path), t.1.spec_test(path), t.2.spec_test(path), t.3.spec_test(path)],
            t.spec_choose(path),
        ),
{
    let tests = seq![t.0.spec_test(path), t.1.spec_test(path), t.2.spec_test(path), t.3.spec_test(path)];
    let s = seq![complete_match(&t.0, path), complete_match(&t.1, path), complete_match(&t.2, path), complete_match(&t.3, path)];
    assert forall|i: int| 0 <= i < 4 implies #[trigger] s[i] == keep_complete(tests[i]) by {
        if i == 0 {} else if i == 1 {} else if i == 2 {} else if i == 3 {}
    }
    lemma_chooses_first_complete(tests, s, t.spec_choose(path));
}

/// Choosing among 5 alternatives gives the match of the first whose own
/// test matches the path completely, or none when none does.
pub proof fn lemma_choose_5<A: RouteMatch, B: RouteMatch, C: RouteMatch, D: RouteMatch, E: RouteMatch>(t: &(A, B, C, D, E), path: Seq<char>)
    ensures
        chooses_first_complete(
            seq![t.0.spec_test(path), t.1.spec_test(path), t.2.spec_test(path), t.3.spec_test(path), t.4.spec_test(path)],
            t.spec_choose(path),
        ),
{
    let tests = seq![t.0.spec_test(path), t.1.spec_test(path), t.2.spec_test(path), t.3.spec_test(path), t.4.spec_test(path)];
    let s = seq![complete_match(&t.0, path), complete_match(&t.1, path), complete_match(&t.2, path), complete_match(&t.3, path), complete_match(&t.4, path)];
    assert forall|i: int| 0 <= i < 5 implies #[trigger] s[i] == keep_complete(tests[i]) by {
        if i == 0 {} else if i == 1 {} else if i == 2 {} else if i == 3 {} else if i == 4 {}
    }
    lemma_chooses_first_complete(tests, s, t.spec_choose(path));
}

/// Choosing among 6 alternatives gives the match of the first whose own
/// test matches the path completely, or none when none does.
pub proof fn lemma_choose_6<A: RouteMatch, B: RouteMatch, C: RouteMatch, D: RouteMatch, E: RouteMatch, F: RouteMatch>(t: &(A, B, C, D, E, F), path: Seq<char>)
    ensures
        chooses_first_complete(
            seq![t.0.spec_test(path), t.1.spec_test(path), t.2.spec_test(path), t.3.spec_test(path), t.4.spec_test(path), t.5.spec_test(path)],
            t.spec_choose(path),
        ),
{
    let tests = seq![t.0.spec_test(path), t.1.spec_test(path), t.2.spec_test(path), t.3.spec_test(path), t.4.spec_test(path), t.5.spec_test(path)];
    let s = seq![complete_match(&t.0, path), complete_match(&t.1, path), complete_match(&t.2, path), complete_match(&t.3, path), complete_match(&t.4, path), complete_match(&t.5, path)];
    assert forall|i: int| 0 <= i < 6 implies #[trigger] s[i] == keep_complete(tests[i]) by {
        if i == 0 {} else if i == 1 {} else if i == 2 {} else if i == 3 {} else if i == 4 {} else if i == 5 {}
    }
    lemma_chooses_first_complete(tests, s, t.spec_choose(path));
}

/// Choosing among 7 alternatives gives the match of the first whose own
/// test matches the path completely, or none when none does.
pub proof fn lemma_choose_7<A: RouteMatch, B: RouteMatch, C: RouteMatch, D: RouteMatch, E: RouteMatch, F: RouteMatch, G: RouteMatch>(t: &(A, B, C, D, E, F, G), path: Seq<char>)
    ensures
        chooses_first_complete(
            seq![t.0.spec_test(path), t.1.spec_test(path), t.2.spec_test(path), t.3.spec_test(path), t.4.spec_test(path), t.5.spec_test(path), t.6.spec_test(path)],
            t.spec_choose(path),
        ),
{
    let tests = seq![t.0.spec_test(path), t.1.spec_test(path), t.2.spec_test(path), t.3.spec_test(path), t.4.spec_test(path), t.5.spec_test(path), t.6.spec_test(path)];
    let s = seq![complete_match(&t.0, path), complete_match(&t.1, path), complete_match(&t.2, path), complete_match(&t.3, path), complete_match(&t.4, path), complete_match(&t.5, path), complete_match(&t.6, path)];
    assert forall|i: int| 0 <= i < 7 implies #[trigger] s[i] == keep_complete(tests[i]) by {
        if i == 0 {} else if i == 1 {} else if i == 2 {} else if i == 3 {} else if i == 4 {} else if i == 5 {} else if i == 6 {}
    }
    lemma_chooses_first_complete(tests, s, t.spec_choose(path));
}

/// Choosing among 8 alternatives gives the match of the first whose own
/// test matches the path completely, or none when none does.
pub proof fn lemma_choose_8<A: RouteMatch, B: RouteMatch, C: RouteMatch, D: RouteMatch, E: RouteMatch, F: RouteMatch, G: RouteMatch, H: RouteMatch>(t: &(A, B, C, D, E, F, G, H), path: Seq<char>)
    ensures
        chooses_first_complete(
            seq![t.0.spec_test(path), t.1.spec_test(path), t.2.spec_test(path), t.3.spec_test(path), t.4.spec_test(path), t.5.spec_test(path), t.6.spec_test(path), t.7.spec_test(path)],
            t.spec_choose(path),
        ),
{
    let tests = seq![t.0.spec_test(path), t.1.spec_test(path), t.2.spec_test(path), t.3.spec_test(path), t.4.spec_test(path), t.5.spec_test(path), t.6.spec_test(path), t.7.spec_test(path)];
    let s = seq![complete_match(&t.0, path), complete_match(&t.1, path), complete_match(&t.2, path), complete_match(&t.3, path), complete_match(&t.4, path), complete_match(&t.5, path), complete_match(&t.6, path), complete_match(&t.7, path)];
    assert forall|i: int| 0 <= i < 8 implies #[trigger] s[i] == keep_complete(tests[i]) by {
        if i == 0 {} else if i == 1 {} else if i == 2 {} else if i == 3 {} else if i == 4 {} else if i == 5 {} else if i == 6 {} else if i == 7 {}
    }
    lemma_chooses_first_complete(tests, s, t.spec_choose(path));
}

/// Choosing among 9 alternatives gives the match of the first whose own
/// test matches the path completely, or none when none does.
pub proof fn lemma_choose_9<A: RouteMatch, B: RouteMatch, C: RouteMatch, D: RouteMatch, E: RouteMatch, F: RouteMatch, G: RouteMatch, H: RouteMatch, I: RouteMatch>(t: &(A, B, C, D, E, F, G, H, I), path: Seq<char>)
    ensures
        chooses_first_complete(
            seq![t.0.spec_test(path), t.1.spec_test(path), t.2.spec_test(path), t.3.spec_test(path), t.4.spec_test(path), t.5.spec_test(path), t.6.spec_test(path), t.7.spec_test(path), t.8.spec_test(path)],
            t.spec_choose(path),
        ),
{
    let tests = seq![t.0.spec_test(path), t.1.spec_test(path), t.2.spec_test(path), t.3.spec_test(path), t.4.spec_test(path), t.5.spec_test(path), t.6.spec_test(path), t.7.spec_test(path), t.8.spec_test(path)];
    let s = seq![complete_match(&t.0, path), complete_match(&t.1, path), complete_match(&t.2, path), complete_match(&t.3, path), complete_match(&t.4, path), complete_match(&t.5, path), complete_match(&t.6, path), complete_match(&t.7, path), complete_match(&t.8, path)];
    assert forall|i: int| 0 <= i < 9 implies #[trigger] s[i] == keep_complete(tests[i]) by {
        if i == 0 {} else if i == 1 {} else if i == 2 {} else if i == 3 {} else if i == 4 {} else if i == 5 {} else if i == 6 {} else if i == 7 {} else if i == 8 {}
    }
    lemma_chooses_first_complete(tests, s, t.spec_choose(path));
}

/// Choosing among 10 alternatives gives the match of the first whose own
/// test matches the path completely, or none when none does.
pub proof fn lemma_choose_10<A: RouteMatch, B: RouteMatch, C: RouteMatch, D: RouteMatch, E: RouteMatch, F: RouteMatch, G: RouteMatch, H: RouteMatch, I: RouteMatch, J: RouteMatch>(t: &(A, B, C, D, E, F, G, H, I, J), path: Seq<char>)
    ensures
        chooses_first_complete(
            seq![t.0.spec_test(path), t.1.spec_test(path), t.2.spec_test(path), t.3.spec_test(path), t.4.spec_test(path), t.5.spec_test(path), t.6.spec_test(path), t.7.spec_test(path), t.8.spec_test(path), t.9.spec_test(path)],
            t.spec_choose(path),
        ),
{
    let tests = seq![t.0.spec_test(path), t.1.spec_test(path), t.2.spec_test(path), t.3.spec_test(path), t.4.spec_test(path), t.5.spec_test(path), t.6.spec_test(path), t.7.spec_test(path), t.8.spec_test(path), t.9.spec_test(path)];
    let s = seq![complete_match(&t.0, path), complete_match(&t.1, path), complete_match(&t.2, path), complete_match(&t.3, path), complete_match(&t.4, path), complete_match(&t.5, path), complete_match(&t.6, path), complete_match(&t.7, path), complete_match(&t.8, path), complete_match(&t.9, path)];
    assert forall|i: int| 0 <= i < 10 implies #[trigger] s[i] == keep_complete(tests[i]) by {
        if i == 0 {} else if i == 1 {} else if i == 2 {} else if i == 3 {} else if i == 4 {} else if i == 5 {} else if i == 6 {} else if i == 7 {} else if i == 8 {} else if i == 9 {}
    }
    lemma_chooses_first_complete(tests, s, t.spec_choose(path));
}

/// Choosing among 11 alternatives gives the match of the first whose own
/// test matches the path completely, or none when none does.
pub proof fn lemma_choose_11<A: RouteMatch, B: RouteMatch, C: RouteMatch, D: RouteMatch, E: RouteMatch, F: RouteMatch, G: RouteMatch, H: RouteMatch, I: RouteMatch, J: RouteMatch, K: RouteMatch>(t: &(A, B, C, D, E, F, G, H, I, J, K), path: Seq<char>)
    ensures
        chooses_first_complete(
            seq![t.0.spec_test(path), t.1.spec_test(path), t.2.spec_test(path), t.3.spec_test(path), t.4.spec_test(path), t.5.spec_test(path), t.6.spec_test(path), t.7.spec_test(path), t.8.spec_test(path), t.9.spec_test(path), t.10.spec_test(path)],
            t.spec_choose(path),
        ),
{
    let tests = seq![t.0.spec_test(path), t.1.spec_test(path), t.2.spec_test(path), t.3.spec_test(path), t.4.spec_test(path), t.5.spec_test(path), t.6.spec_test(path), t.7.spec_test(path), t.8.spec_test(path), t.9.spec_test(path), t.10.spec_test(path)];
    let s = seq![complete_match(&t.0, path), complete_match(&t.1, path), complete_match(&t.2, path), complete_match(&t.3, path), complete_match(&t.4, path), complete_match(&t.5, path), complete_match(&t.6, path), complete_match(&t.7, path), complete_match(&t.8, path), complete_match(&t.9, path), complete_match(&t.10, path)];
    assert forall|i: int| 0 <= i < 11 implies #[trigger] s[i] == keep_complete(tests[i]) by {
        if i == 0 {} else if i == 1 {} else if i == 2 {} else if i == 3 {} else if i == 4 {} else if i == 5 {} else if i == 6 {} else if i == 7 {} else if i == 8 {} else if i == 9 {} else if i == 10 {}
    }
    lemma_chooses_first_complete(tests, s, t.spec_choose(path));
}

/// Choosing among 12 alternatives gives the match of the first whose own
/// test matches the path completely, or none when none does.
pub proof fn lemma_choose_12<A: RouteMatch, B: RouteMatch, C: RouteMatch, D: RouteMatch, E: RouteMatch, F: RouteMatch, G: RouteMatch, H: RouteMatch, I: RouteMatch, J: RouteMatch, K: RouteMatch, L: RouteMatch>(t: &(A, B, C, D, E, F, G, H, I, J, K, L), path: Seq<char>)
    ensures
        chooses_first_complete(
            seq![t.0.spec_test(path), t.1.spec_test(path), t.2.spec_test(path), t.3.spec_test(path), t.4.spec_test(path), t.5.spec_test(path), t.6.spec_test(path), t.7.spec_test(path), t.8.spec_test(path), t.9.spec_test(path), t.10.spec_test(path), t.11.spec_test(path)],
            t.spec_choose(path),
        ),
{
    let tests = seq![t.0.spec_test(path), t.1.spec_test(path), t.2.spec_test(path), t.3.spec_test(path), t.4.spec_test(path), t.5.spec_test(path), t.6.spec_test(path), t.7.spec_test(path), t.8.spec_test(path), t.9.spec_test(path), t.10.spec_test(path), t.11.spec_test(path)];
    let s = seq![complete_match(&t.0, path), complete_match(&t.1, path), complete_match(&t.2, path), complete_match(&t.3, path), complete_match(&t.4, path), complete_match(&t.5, path), complete_match(&t.6, path), complete_match(&t.7, path), complete_match(&t.8, path), complete_match(&t.9, path), complete_match(&t.10, path), complete_match(&t.11, path)];
    assert forall|i: int| 0 <= i < 12 implies #[trigger] s[i] == keep_complete(tests[i]) by {
        if i == 0 {} else if i == 1 {} else if i == 2 {} else if i == 3 {} else if i == 4 {} else if i == 5 {} else if i == 6 {} else if i == 7 {} else if i == 8 {} else if i == 9 {} else if i == 10 {} else if i == 11 {}
    }
    lemma_chooses_first_complete(tests, s, t.spec_choose(path));
}

/// Choosing among 13 alternatives gives the match of the first whose own
/// test matches the path completely, or none when none does.
pub proof fn lemma_choose_13<A: RouteMatch, B: RouteMatch, C: RouteMatch, D: RouteMatch, E: RouteMatch, F: RouteMatch, G: RouteMatch, H: RouteMatch, I: RouteMatch, J: RouteMatch, K: RouteMatch, L: RouteMatch, M: RouteMatch>(t: &(A, B, C, D, E, F, G, H, I, J, K, L, M), path: Seq<char>)
    ensures
        chooses_first_complete(
            seq![t.0.spec_test(path), t.1.spec_test(path), t.2.spec_test(path), t.3.spec_test(path), t.4.spec_test(path), t.5.spec_test(path), t.6.spec_test(path), t.7.spec_test(path), t.8.spec_test(path), t.9.spec_test(path), t.10.spec_test(path), t.11.spec_test(path), t.12.spec_test(path)],
            t.spec_choose(path),
        ),
{
    let tests = seq![t.0.spec_test(path), t.1.spec_test(path), t.2.spec_test(path), t.3.spec_test(path), t.4.spec_test(path), t.5.spec_test(path), t.6.spec_test(path), t.7.spec_test(path), t.8.spec_test(path), t.9.spec_test(path), t.10.spec_test(path), t.11.spec_test(path), t.12.spec_test(path)];
    let s = seq![complete_match(&t.0, path), complete_match(&t.1, path), complete_match(&t.2, path), complete_match(&t.3, path), complete_match(&t.4, path), complete_match(&t.5, path), complete_match(&t.6, path), complete_match(&t.7, path), complete_match(&t.8, path), complete_match(&t.9, path), complete_match(&t.10, path), complete_match(&t.11, path), complete_match(&t.12, path)];
    assert forall|i: int| 0 <= i < 13 implies #[trigger] s[i] == keep_complete(tests[i]) by {
        if i == 0 {} else if i == 1 {} else if i == 2 {} else if i == 3 {} else if i == 4 {} else if i == 5 {} else if i == 6 {} else if i == 7 {} else if i == 8 {} else if i == 9 {} else if i == 10 {} else if i == 11 {} else if i == 12 {}
    }
    lemma_chooses_first_complete(tests, s, t.spec_choose(path));
}

/// Choosing among 14 alternatives gives the match of the first whose own
/// test matches the path completely, or none when none does.
pub proof fn lemma_choose_14<A: RouteMatch, B: RouteMatch, C: RouteMatch, D: RouteMatch, E: RouteMatch, F: RouteMatch, G: RouteMatch, H: RouteMatch, I: RouteMatch, J: RouteMatch, K: RouteMatch, L: RouteMatch, M: RouteMatch, N: RouteMatch>(t: &(A, B, C, D, E, F, G, H, I, J, K, L, M, N), path: Seq<char>)
    ensures
        chooses_first_complete(
            seq![t.0.spec_test(path), t.1.spec_test(path), t.2.spec_test(path), t.3.spec_test(path), t.4.spec_test(path), t.5.spec_test(path), t.6.spec_test(path), t.7.spec_test(path), t.8.spec_test(path), t.9.spec_test(path), t.10.spec_test(path), t.11.spec_test(path), t.12.spec_test(path), t.13.spec_test(path)],
            t.spec_choose(path),
        ),
{
    let tests = seq![t.0.spec_test(path), t.1.spec_test(path), t.2.spec_test(path), t.3.spec_test(path), t.4.spec_test(path), t.5.spec_test(path), t.6.spec_test(path), t.7.spec_test(path), t.8.spec_test(path), t.9.spec_test(path), t.10.spec_test(path), t.11.spec_test(path), t.12.spec_test(path), t.13.spec_test(path)];
    let s = seq![complete_match(&t.0, path), complete_match(&t.1, path), complete_match(&t.2, path), complete_match(&t.3, path), complete_match(&t.4, path), complete_match(&t.5, path), complete_match(&t.6, path), complete_match(&t.7, path), complete_match(&t.8, path), complete_match(&t.9, path), complete_match(&t.10, path), complete_match(&t.11, path), complete_match(&t.12, path), complete_match(&t.13, path)];
    assert forall|i: int| 0 <= i < 14 implies #[trigger] s[i] == keep_complete(tests[i]) by {
        if i == 0 {} else if i == 1 {} else if i == 2 {} else if i == 3 {} else if i == 4 {} else if i == 5 {} else if i == 6 {} else if i == 7 {} else if i == 8 {} else if i == 9 {} else if i == 10 {} else if i == 11 {} else if i == 12 {} else if i == 13 {}
    }
    lemma_chooses_first_complete(tests, s, t.spec_choose(path));
}

/// Choosing among 15 alternatives gives the match of the first whose own
/// test matches the path completely, or none when none does.
pub proof fn lemma_choose_15<A: RouteMatch, B: RouteMatch, C: RouteMatch, D: RouteMatch, E: RouteMatch, F: RouteMatch, G: RouteMatch, H: RouteMatch, I: RouteMatch, J: RouteMatch, K: RouteMatch, L: RouteMatch, M: RouteMatch, N: RouteMatch, O: RouteMatch>(t: &(A, B, C, D, E, F, G, H, I, J, K, L, M, N, O), path: Seq<char>)
    ensures
        chooses_first_complete(
            seq![t.0.spec_test(path), t.1.spec_test(path), t.2.spec_test(path), t.3.spec_test(path), t.4.spec_test(path), t.5.spec_test(path), t.6.spec_test(path), t.7.spec_test(path), t.8.spec_test(path), t.9.spec_test(path), t.10.spec_test(path), t.11.spec_test(path), t.12.spec_test(path), t.13.spec_test(path), t.14.spec_test(path)],
            t.spec_choose(path),
        ),
{
    let tests = seq![t.0.spec_test(path), t.1.spec_test(path), t.2.spec_test(path), t.3.spec_test(path), t.4.spec_test(path), t.5.spec_test(path), t.6.spec_test(path), t.7.spec_test(path), t.8.spec_test(path), t.9.spec_test(path), t.10.spec_test(path), t.11.spec_test(path), t.12.spec_test(path), t.13.spec_test(path), t.14.spec_test(path)];
    let s = seq![complete_match(&t.0, path), complete_match(&t.1, path), complete_match(&t.2, path), complete_match(&t.3, path), complete_match(&t.4, path), complete_match(&t.5, path), complete_match(&t.6, path), complete_match(&t.7, path), complete_match(&t.8, path), complete_match(&t.9, path), complete_match(&t.10, path), complete_match(&t.11, path), complete_match(&t.12, path), complete_match(&t.13, path), complete_match(&t.14, path)];
    assert forall|i: int| 0 <= i < 15 implies #[trigger] s[i] == keep_complete(tests[i]) by {
        if i == 0 {} else if i == 1 {} else if i == 2 {} else if i == 3 {} else if i == 4 {} else if i == 5 {} else if i == 6 {} else if i == 7 {} else if i == 8 {} else if i == 9 {} else if i == 10 {} else if i == 11 {} else if i == 12 {} else if i == 13 {} else if i == 14 {}
    }
    lemma_chooses_first_complete(tests, s, t.spec_choose(path));
}

/// Choosing among 16 alternatives gives the match of the first whose own
/// test matches the path completely, or none when none does.
pub proof fn lemma_choose_16<A: RouteMatch, B: RouteMatch, C: RouteMatch, D: RouteMatch, E: RouteMatch, F: RouteMatch, G: RouteMatch, H: RouteMatch, I: RouteMatch, J: RouteMatch, K: RouteMatch, L: RouteMatch, M: RouteMatch, N: RouteMatch, O: RouteMatch, P: RouteMatch>(t: &(A, B, C, D, E, F, G, H, I, J, K, L, M, N, O, P), path: Seq<char>)
    ensures
        chooses_first_complete(
            seq![t.0.spec_test(path), t.1.spec_test(path), t.2.spec_test(path), t.3.spec_test(path), t.4.spec_test(path), t.5.spec_test(path), t.6.spec_test(path), t.7.spec_test(path), t.8.spec_test(path), t.9.spec_test(path), t.10.spec_test(path), t.11.spec_test(path), t.12.spec_test(path), t.13.spec_test(path), t.14.spec_test(path), t.15.spec_test(path)],
            t.spec_choose(path),
        ),
{
    let tests = seq![t.0.spec_test(path), t.1.spec_test(path), t.2.spec_test(path), t.3.spec_test(path), t.4.spec_test(path), t.5.spec_test(path), t.6.spec_test(path), t.7.spec_test(path), t.8.spec_test(path), t.9.spec_test(path), t.10.spec_test(path), t.11.spec_test(path), t.12.spec_test(path), t.13.spec_test(path), t.14.spec_test(path), t.15.spec_test(path)];
    let s = seq![complete_match(&t.0, path), complete_match(&t.1, path), complete_match(&t.2, path), complete_match(&t.3, path), complete_match(&t.4, path), complete_match(&t.5, path), complete_match(&t.6, path), complete_match(&t.7, path), complete_match(&t.8, path), complete_match(&t.9, path), complete_match(&t.10, path), complete_match(&t.11, path), complete_match(&t.12, path), complete_match(&t.13, path), complete_match(&t.14, path), complete_match(&t.15, path)];
    assert forall|i: int| 0 <= i < 16 implies #[trigger] s[i] == keep_complete(tests[i]) by {
        if i == 0 {} else if i == 1 {} else if i == 2 {} else if i == 3 {} else if i == 4 {} else if i == 5 {} else if i == 6 {} else if i == 7 {} else if i == 8 {} else if i == 9 {} else if i == 10 {} else if i == 11 {} else if i == 12 {} else if i == 13 {} else if i == 14 {} else if i == 15 {}
    }
    lemma_chooses_first_complete(tests, s, t.spec_choose(path));
}

/// Choosing among 17 alternatives gives the match of the first whose own
/// test matches the path completely, or none when none does.
pub proof fn lemma_choose_17<A: RouteMatch, B: RouteMatch, C: RouteMatch, D: RouteMatch, E: RouteMatch, F: RouteMatch, G: RouteMatch, H: RouteMatch, I: RouteMatch, J: RouteMatch, K: RouteMatch, L: RouteMatch, M: RouteMatch, N: RouteMatch, O: RouteMatch, P: RouteMatch, Q: RouteMatch>(t: &(A, B, C, D, E, F, G, H, I, J, K, L, M, N, O, P, Q), path: Seq<char>)
    ensures
        chooses_first_complete(
            seq![t.0.spec_test(path), t.1.spec_test(path), t.2.spec_test(path), t.3.spec_test(path), t.4.spec_test(path), t.5.spec_test(path), t.6.spec_test(path), t.7.spec_test(path), t.8.spec_test(path), t.9.spec_test(path), t.10.spec_test(path), t.11.spec_test(path), t.12.spec_test(path), t.13.spec_test(path), t.14.spec_test(path), t.15.spec_test(path), t.16.spec_test(path)],
            t.spec_choose(path),
        ),
{
    let tests = seq![t.0.spec_test(path), t.1.spec_test(path), t.2.spec_test(path), t.3.spec_test(path), t.4.spec_test(path), t.5.spec_test(path), t.6.spec_test(path), t.7.spec_test(path), t.8.spec_test(path), t.9.spec_test(path), t.10.spec_test(path), t.11.spec_test(path), t.12.spec_test(path), t.13.spec_test(path), t.14.spec_test(path), t.15.spec_test(path), t.16.spec_test(path)];
    let s = seq![complete_match(&t.0, path), complete_match(&t.1, path), complete_match(&t.2, path), complete_match(&t.3, path), complete_match(&t.4, path), complete_match(&t.5, path), complete_match(&t.6, path), complete_match(&t.7, path), complete_match(&t.8, path), complete_match(&t.9, path), complete_match(&t.10, path), complete_match(&t.11, path), complete_match(&t.12, path), complete_match(&t.13, path), complete_match(&t.14, path), complete_match(&t.15, path), complete_match(&t.16, path)];
    assert forall|i: int| 0 <= i < 17 implies #[trigger] s[i] == keep_complete(tests[i]) by {
        if i == 0 {} else if i == 1 {} else if i == 2 {} else if i == 3 {} else if i == 4 {} else if i == 5 {} else if i == 6 {} else if i == 7 {} else if i == 8 {} else if i == 9 {} else if i == 10 {} else if i == 11 {} else if i == 12 {} else if i == 13 {} else if i == 14 {} else if i == 15 {} else if i == 16 {}
    }
    lemma_chooses_first_complete(tests, s, t.spec_choose(path));
}

/// Choosing among 18 alternatives gives the match of the first whose own
/// test matches the path completely, or none when none does.
pub proof fn lemma_choose_18<A: RouteMatch, B: RouteMatch, C: RouteMatch, D: RouteMatch, E: RouteMatch, F: RouteMatch, G: RouteMatch, H: RouteMatch, I: RouteMatch, J: RouteMatch, K: RouteMatch, L: RouteMatch, M: RouteMatch, N: RouteMatch, O: RouteMatch, P: RouteMatch, Q: RouteMatch, R: RouteMatch>(t: &(A, B, C, D, E, F, G, H, I, J, K, L, M, N, O, P, Q, R), path: Seq<char>)
    ensures
        chooses_first_complete(
            seq![t.0.spec_test(path), t.1.spec_test(path), t.2.spec_test(path), t.3.spec_test(path), t.4.spec_test(path), t.5.spec_test(path), t.6.spec_test(path), t.7.spec_test(path), t.8.spec_test(path), t.9.spec_test(path), t.10.spec_test(path), t.11.spec_test(path), t.12.spec_test(path), t.13.spec_test(path), t.14.spec_test(path), t.15.spec_test(path), t.16.spec_test(path), t.17.spec_test(path)],
            t.spec_choose(path),
        ),
{
    let tests = seq![t.0.spec_test(path), t.1.spec_test(path), t.2.spec_test(path), t.3.spec_test(path), t.4.spec_test(path), t.5.spec_test(path), t.6.spec_test(path), t.7.spec_test(path), t.8.spec_test(path), t.9.spec_test(path), t.10.spec_test(path), t.11.spec_test(path), t.12.spec_test(path), t.13.spec_test(path), t.14.spec_test(path), t.15.spec_test(path), t.16.spec_test(path), t.17.spec_test(path)];
    let s = seq![complete_match(&t.0, path), complete_match(&t.1, path), complete_match(&t.2, path), complete_match(&t.3, path), complete_match(&t.4, path), complete_match(&t.5, path), complete_match(&t.6, path), complete_match(&t.7, path), complete_match(&t.8, path), complete_match(&t.9, path), complete_match(&t.10, path), complete_match(&t.11, path), complete_match(&t.12, path), complete_match(&t.13, path), complete_match(&t.14, path), complete_match(&t.15, path), complete_match(&t.16, path), complete_match(&t.17, path)];
    assert forall|i: int| 0 <= i < 18 implies #[trigger] s[i] == keep_complete(tests[i]) by {
        if i == 0 {} else if i == 1 {} else if i == 2 {} else if i == 3 {} else if i == 4 {} else if i == 5 {} else if i == 6 {} else if i == 7 {} else if i == 8 {} else if i == 9 {} else if i == 10 {} else if i == 11 {} else if i == 12 {} else if i == 13 {} else if i == 14 {} else if i == 15 {} else if i == 16 {} else if i == 17 {}
    }
    lemma_chooses_first_complete(tests, s, t.spec_choose(path));
}

/// Choosing among 19 alternatives gives the match of the first whose own
/// test matches the path completely, or none when none does.
pub proof fn lemma_choose_19<A: RouteMatch, B: RouteMatch, C: RouteMatch, D: RouteMatch, E: RouteMatch, F: RouteMatch, G: RouteMatch, H: RouteMatch, I: RouteMatch, J: RouteMatch, K: RouteMatch, L: RouteMatch, M: RouteMatch, N: RouteMatch, O: RouteMatch, P: RouteMatch, Q: RouteMatch, R: RouteMatch, S: RouteMatch>(t: &(A, B, C, D, E, F, G, H, I, J, K, L, M, N, O, P, Q, R, S), path: Seq<char>)
    ensures
        chooses_first_complete(
            seq![t.0.spec_test(path), t.1.spec_test(path), t.2.spec_test(path), t.3.spec_test(path), t.4.spec_test(path), t.5.spec_test(path), t.6.spec_test(path), t.7.spec_test(path), t.8.spec_test(path), t.9.spec_test(path), t.10.spec_test(path), t.11.spec_test(path), t.12.spec_test(path), t.13.spec_test(path), t.14.spec_test(path), t.15.spec_test(path), t.16.spec_test(path), t.17.spec_test(path), t.18.spec_test(path)],
            t.spec_choose(path),
        ),
{
    let tests = seq![t.0.spec_test(path), t.1.spec_test(path), t.2.spec_test(path), t.3.spec_test(path), t.4.spec_test(path), t.5.spec_test(path), t.6.spec_test(path), t.7.spec_test(path), t.8.spec_test(path), t.9.spec_test(path), t.10.spec_test(path), t.11.spec_test(path), t.12.spec_test(path), t.13.spec_test(path), t.14.spec_test(path), t.15.spec_test(path), t.16.spec_test(path), t.17.spec_test(path), t.18.spec_test(path)];
    let s = seq![complete_match(&t.0, path), complete_match(&t.1, path), complete_match(&t.2, path), complete_match(&t.3, path), complete_match(&t.4, path), complete_match(&t.5, path), complete_match(&t.6, path), complete_match(&t.7, path), complete_match(&t.8, path), complete_match(&t.9, path), complete_match(&t.10, path), complete_match(&t.11, path), complete_match(&t.12, path), complete_match(&t.13, path), complete_match(&t.14, path), complete_match(&t.15, path), complete_match(&t.16, path), complete_match(&t.17, path), complete_match(&t.18, path)];
    assert forall|i: int| 0 <= i < 19 implies #[trigger] s[i] == keep_complete(tests[i]) by {
        if i == 0 {} else if i == 1 {} else if i == 2 {} else if i == 3 {} else if i == 4 {} else if i == 5 {} else if i == 6 {} else if i == 7 {} else if i == 8 {} else if i == 9 {} else if i == 10 {} else if i == 11 {} else if i == 12 {} else if i == 13 {} else if i == 14 {} else if i == 15 {} else if i == 16 {} else if i == 17 {} else if i == 18 {}
    }
    lemma_chooses_first_complete(tests, s, t.spec_choose(path));
}

/// Choosing among 20 alternatives gives the match of the first whose own
/// test matches the path completely, or none when none does.
pub proof fn lemma_choose_20<A: RouteMatch, B: RouteMatch, C: RouteMatch, D: RouteMatch, E: RouteMatch, F: RouteMatch, G: RouteMatch, H: RouteMatch, I: RouteMatch, J: RouteMatch, K: RouteMatch, L: RouteMatch, M: RouteMatch, N: RouteMatch, O: RouteMatch, P: RouteMatch, Q: RouteMatch, R: RouteMatch, S: RouteMatch, T: RouteMatch>(t: &(A, B, C, D, E, F, G, H, I, J, K, L, M, N, O, P, Q, R, S, T), path: Seq<char>)
    ensures
        chooses_first_complete(
            seq![t.0.spec_test(path), t.1.spec_test(path), t.2.spec_test(path), t.3.spec_test(path), t.4.spec_test(path), t.5.spec_test(path), t.6.spec_test(path), t.7.spec_test(path), t.8.spec_test(path), t.9.spec_test(path), t.10.spec_test(path), t.11.spec_test(path), t.12.spec_test(path), t.13.spec_test(path), t.14.spec_test(path), t.15.spec_test(path), t.16.spec_test(path), t.17.spec_test(path), t.18.spec_test(path), t.19.spec_test(path)],
            t.spec_choose(path),
        ),
{
    let tests = seq![t.0.spec_test(path), t.1.spec_test(path), t.2.spec_test(path), t.3.spec_test(path), t.4.spec_test(path), t.5.spec_test(path), t.6.spec_test(path), t.7.spec_test(path), t.8.spec_test(path), t.9.spec_test(path), t.10.spec_test(path), t.11.spec_test(path), t.12.spec_test(path), t.13.spec_test(path), t.14.spec_test(path), t.15.spec_test(path), t.16.spec_test(path), t.17.spec_test(path), t.18.spec_test(path), t.19.spec_test(path)];
    let s = seq![complete_match(&t.0, path), complete_match(&t.1, path), complete_match(&t.2, path), complete_match(&t.3, path), complete_match(&t.4, path), complete_match(&t.5, path), complete_match(&t.6, path), complete_match(&t.7, path), complete_match(&t.8, path), complete_match(&t.9, path), complete_match(&t.10, path), complete_match(&t.11, path), complete_match(&t.12, path), complete_match(&t.13, path), complete_match(&t.14, path), complete_match(&t.15, path), complete_match(&t.16, path), complete_match(&t.17, path), complete_match(&t.18, path), complete_match(&t.19, path)];
    assert forall|i: int| 0 <= i < 20 implies #[trigger] s[i] == keep_complete(tests[i]) by {
        if i == 0 {} else if i == 1 {} else if i == 2 {} else if i == 3 {} else if i == 4 {} else if i == 5 {} else if i == 6 {} else if i == 7 {} else if i == 8 {} else if i == 9 {} else if i == 10 {} else if i == 11 {} else if i == 12 {} else if i == 13 {} else if i == 14 {} else if i == 15 {} else if i == 16 {} else if i == 17 {} else if i == 18 {} else if i == 19 {}
    }
    lemma_chooses_first_complete(tests, s, t.spec_choose(path));
}

/// Choosing among 21 alternatives gives the match of the first whose own
/// test matches the path completely, or none when none does.
pub proof fn lemma_choose_21<A: RouteMatch, B: RouteMatch, C: RouteMatch, D: RouteMatch, E: RouteMatch, F: RouteMatch, G: RouteMatch, H: RouteMatch, I: RouteMatch, J: RouteMatch, K: RouteMatch, L: RouteMatch, M: RouteMatch, N: RouteMatch, O: RouteMatch, P: RouteMatch, Q: RouteMatch, R: RouteMatch, S: RouteMatch, T: RouteMatch, U: RouteMatch>(t: &(A, B, C, D, E, F, G, H, I, J, K, L, M, N, O, P, Q, R, S, T, U), path: Seq<char>)
    ensures
        chooses_first_complete(
            seq![t.0.spec_test(path), t.1.spec_test(path), t.2.spec_test(path), t.3.spec_test(path), t.4.spec_test(path), t.5.spec_test(path), t.6.spec_test(path), t.7.spec_test(path), t.8.spec_test(path), t.9.spec_test(path), t.10.spec_test(path), t.11.spec_test(path), t.12.spec_test(path), t.13.spec_test(path), t.14.spec_test(path), t.15.spec_test(path), t.16.spec_test(path), t.17.spec_test(path), t.18.spec_test(path), t.19.spec_test(path), t.20.spec_test(path)],
            t.spec_choose(path),
        ),
{
    let tests = seq![t.0.spec_test(path), t.1.spec_test(path), t.2.spec_test(path), t.3.spec_test(path), t.4.spec_test(path), t.5.spec_test(path), t.6.spec_test(path), t.7.spec_test(path), t.8.spec_test(path), t.9.spec_test(path), t.10.spec_test(path), t.11.spec_test(path), t.12.spec_test(path), t.13.spec_test(path), t.14.spec_test(path), t.15.spec_test(path), t.16.spec_test(path), t.17.spec_test(path), t.18.spec_test(path), t.19.spec_test(path), t.20.spec_test(path)];
    let s = seq![complete_match(&t.0, path), complete_match(&t.1, path), complete_match(&t.2, path), complete_match(&t.3, path), complete_match(&t.4, path), complete_match(&t.5, path), complete_match(&t.6, path), complete_match(&t.7, path), complete_match(&t.8, path), complete_match(&t.9, path), complete_match(&t.10, path), complete_match(&t.11, path), complete_match(&t.12, path), complete_match(&t.13, path), complete_match(&t.14, path), complete_match(&t.15, path), complete_match(&t.16, path), complete_match(&t.17, path), complete_match(&t.18, path), complete_match(&t.19, path), complete_match(&t.20, path)];
    assert forall|i: int| 0 <= i < 21 implies #[trigger] s[i] == keep_complete(tests[i]) by {
        if i == 0 {} else if i == 1 {} else if i == 2 {} else if i == 3 {} else if i == 4 {} else if i == 5 {} else if i == 6 {} else if i == 7 {} else if i == 8 {} else if i == 9 {} else if i == 10 {} else if i == 11 {} else if i == 12 {} else if i == 13 {} else if i == 14 {} else if i == 15 {} else if i == 16 {} else if i == 17 {} else if i == 18 {} else if i == 19 {} else if i == 20 {}
    }
    lemma_chooses_first_complete(tests, s, t.spec_choose(path));
}

/// Choosing among 22 alternatives gives the match of the first whose own
/// test matches the path completely, or none when none does.
pub proof fn lemma_choose_22<A: RouteMatch, B: RouteMatch, C: RouteMatch, D: RouteMatch, E: RouteMatch, F: RouteMatch, G: RouteMatch, H: RouteMatch, I: RouteMatch, J: RouteMatch, K: RouteMatch, L: RouteMatch, M: RouteMatch, N: RouteMatch, O: RouteMatch, P: RouteMatch, Q: RouteMatch, R: RouteMatch, S: RouteMatch, T: RouteMatch, U: RouteMatch, V: RouteMatch>(t: &(A, B, C, D, E, F, G, H, I, J, K, L, M, N, O, P, Q, R, S, T, U, V), path: Seq<char>)
    ensures
        chooses_first_complete(
            seq![t.0.spec_test(path), t.1.spec_test(path), t.2.spec_test(path), t.3.spec_test(path), t.4.spec_test(path), t.5.spec_test(path), t.6.spec_test(path), t.7.spec_test(path), t.8.spec_test(path), t.9.spec_test(path), t.10.spec_test(path), t.11.spec_test(path), t.12.spec_test(path), t.13.spec_test(path), t.14.spec_test(path), t.15.spec_test(path), t.16.spec_test(path), t.17.spec_test(path), t.18.spec_test(path), t.19.spec_test(path), t.20.spec_test(path), t.21.spec_test(path)],
            t.spec_choose(path),
        ),
{
    let tests = seq![t.0.spec_test(path), t.1.spec_test(path), t.2.spec_test(path), t.3.spec_test(path), t.4.spec_test(path), t.5.spec_test(path), t.6.spec_test(path), t.7.spec_test(path), t.8.spec_test(path), t.9.spec_test(path), t.10.spec_test(path), t.11.spec_test(path), t.12.spec_test(path), t.13.spec_test(path), t.14.spec_test(path), t.15.spec_test(path), t.16.spec_test(path), t.17.spec_test(path), t.18.spec_test(path), t.19.spec_test(path), t.20.spec_test(path), t.21.spec_test(path)];
    let s = seq![complete_match(&t.0, path), complete_match(&t.1, path), complete_match(&t.2, path), complete_match(&t.3, path), complete_match(&t.4, path), complete_match(&t.5, path), complete_match(&t.6, path), complete_match(&t.7, path), complete_match(&t.8, path), complete_match(&t.9, path), complete_match(&t.10, path), complete_match(&t.11, path), complete_match(&t.12, path), complete_match(&t.13, path), complete_match(&t.14, path), complete_match(&t.15, path), complete_match(&t.16, path), complete_match(&t.17, path), complete_match(&t.18, path), complete_match(&t.19, path), complete_match(&t.20, path), complete_match(&t.21, path)];
    assert forall|i: int| 0 <= i < 22 implies #[trigger] s[i] == keep_complete(tests[i]) by {
        if i == 0 {} else if i == 1 {} else if i == 2 {} else if i == 3 {} else if i == 4 {} else if i == 5 {} else if i == 6 {} else if i == 7 {} else if i == 8 {} else if i == 9 {} else if i == 10 {} else if i == 11 {} else if i == 12 {} else if i == 13 {} else if i == 14 {} else if i == 15 {} else if i == 16 {} else if i == 17 {} else if i == 18 {} else if i == 19 {} else if i == 20 {} else if i == 21 {}
    }
    lemma_chooses_first_complete(tests, s, t.spec_choose(path));
}

/// Choosing among 23 alternatives gives the match of the first whose own
/// test matches the path completely, or none when none does.
pub proof fn lemma_choose_23<A: RouteMatch, B: RouteMatch, C: RouteMatch, D: RouteMatch, E: RouteMatch, F: RouteMatch, G: RouteMatch, H: RouteMatch, I: RouteMatch, J: RouteMatch, K: RouteMatch, L: RouteMatch, M: RouteMatch, N: RouteMatch, O: RouteMatch, P: RouteMatch, Q: RouteMatch, R: RouteMatch, S: RouteMatch, T: RouteMatch, U: RouteMatch, V: RouteMatch, W: RouteMatch>(t: &(A, B, C, D, E, F, G, H, I, J, K, L, M, N, O, P, Q, R, S, T, U, V, W), path: Seq<char>)
    ensures
        chooses_first_complete(
            seq![t.0.spec_test(path), t.1.spec_test(path), t.2.spec_test(path), t.3.spec_test(path), t.4.spec_test(path), t.5.spec_test(path), t.6.spec_test(path), t.7.spec_test(path), t.8.spec_test(path), t.9.spec_test(path), t.10.spec_test(path), t.11.spec_test(path), t.12.spec_test(path), t.13.spec_test(path), t.14.spec_test(path), t.15.spec_test(path), t.16.spec_test(path), t.17.spec_test(path), t.18.spec_test(path), t.19.spec_test(path), t.20.spec_test(path), t.21.spec_test(path), t.22.spec_test(path)],
            t.spec_choose(path),
        ),
{
    let tests = seq![t.0.spec_test(path), t.1.spec_test(path), t.2.spec_test(path), t.3.spec_test(path), t.4.spec_test(path), t.5.spec_test(path), t.6.spec_test(path), t.7.spec_test(path), t.8.spec_test(path), t.9.spec_test(path), t.10.spec_test(path), t.11.spec_test(path), t.12.spec_test(path), t.13.spec_test(path), t.14.spec_test(path), t.15.spec_test(path), t.16.spec_test(path), t.17.spec_test(path), t.18.spec_test(path), t.19.spec_test(path), t.20.spec_test(path), t.21.spec_test(path), t.22.spec_test(path)];
    let s = seq![complete_match(&t.0, path), complete_match(&t.1, path), complete_match(&t.2, path), complete_match(&t.3, path), complete_match(&t.4, path), complete_match(&t.5, path), complete_match(&t.6, path), complete_match(&t.7, path), complete_match(&t.8, path), complete_match(&t.9, path), complete_match(&t.10, path), complete_match(&t.11, path), complete_match(&t.12, path), complete_match(&t.13, path), complete_match(&t.14, path), complete_match(&t.15, path), complete_match(&t.16, path), complete_match(&t.17, path), complete_match(&t.18, path), complete_match(&t.19, path), complete_match(&t.20, path), complete_match(&t.21, path), complete_match(&t.22, path)];
    assert forall|i: int| 0 <= i < 23 implies #[trigger] s[i] == keep_complete(tests[i]) by {
        if i == 0 {} else if i == 1 {} else if i == 2 {} else if i == 3 {} else if i == 4 {} else if i == 5 {} else if i == 6 {} else if i == 7 {} else if i == 8 {} else if i == 9 {} else if i == 10 {} else if i == 11 {} else if i == 12 {} else if i == 13 {} else if i == 14 {} else if i == 15 {} else if i == 16 {} else if i == 17 {} else if i == 18 {} else if i == 19 {} else if i == 20 {} else if i == 21 {} else if i == 22 {}
    }
    lemma_chooses_first_complete(tests, s, t.spec_choose(path));
}

/// Choosing among 24 alternatives gives the match of the first whose own
/// test matches the path completely, or none when none does.
pub proof fn lemma_choose_24<A: RouteMatch, B: RouteMatch, C: RouteMatch, D: RouteMatch, E: RouteMatch, F: RouteMatch, G: RouteMatch, H: RouteMatch, I: RouteMatch, J: RouteMatch, K: RouteMatch, L: RouteMatch, M: RouteMatch, N: RouteMatch, O: RouteMatch, P: RouteMatch, Q: RouteMatch, R: RouteMatch, S: RouteMatch, T: RouteMatch, U: RouteMatch, V: RouteMatch, W: RouteMatch, X: RouteMatch>(t: &(A, B, C, D, E, F, G, H, I, J, K, L, M, N, O, P, Q, R, S, T, U, V, W, X), path: Seq<char>)
    ensures
        chooses_first_complete(
            seq![t.0.spec_test(path), t.1.spec_test(path), t.2.spec_test(path), t.3.spec_test(path), t.4.spec_test(path), t.5.spec_test(path), t.6.spec_test(path), t.7.spec_test(path), t.8.spec_test(path), t.9.spec_test(path), t.10.spec_test(path), t.11.spec_test(path), t.12.spec_test(path), t.13.spec_test(path), t.14.spec_test(path), t.15.spec_test(path), t.16.spec_test(path), t.17.spec_test(path), t.18.spec_test(path), t.19.spec_test(path), t.20.spec_test(path), t.21.spec_test(path), t.22.spec_test(path), t.23.spec_test(path)],
            t.spec_choose(path),
        ),
{
    let tests = seq![t.0.spec_test(path), t.1.spec_test(path), t.2.spec_test(path), t.3.spec_test(path), t.4.spec_test(path), t.5.spec_test(path), t.6.spec_test(path), t.7.spec_test(path), t.8.spec_test(path), t.9.spec_test(path), t.10.spec_test(path), t.11.spec_test(path), t.12.spec_test(path), t.13.spec_test(path), t.14.spec_test(path), t.15.spec_test(path), t.16.spec_test(path), t.17.spec_test(path), t.18.spec_test(path), t.19.spec_test(path), t.20.spec_test(path), t.21.spec_test(path), t.22.spec_test(path), t.23.spec_test(path)];
    let s = seq![complete_match(&t.0, path), complete_match(&t.1, path), complete_match(&t.2, path), complete_match(&t.3, path), complete_match(&t.4, path), complete_match(&t.5, path), complete_match(&t.6, path), complete_match(&t.7, path), complete_match(&t.8, path), complete_match(&t.9, path), complete_match(&t.10, path), complete_match(&t.11, path), complete_match(&t.12, path), complete_match(&t.13, path), complete_match(&t.14, path), complete_match(&t.15, path), complete_match(&t.16, path), complete_match(&t.17, path), complete_match(&t.18, path), complete_match(&t.19, path), complete_match(&t.20, path), complete_match(&t.21, path), complete_match(&t.22, path), complete_match(&t.23, path)];
    assert forall|i: int| 0 <= i < 24 implies #[trigger] s[i] == keep_complete(tests[i]) by {
        if i == 0 {} else if i == 1 {} else if i == 2 {} else if i == 3 {} else if i == 4 {} else if i == 5 {} else if i == 6 {} else if i == 7 {} else if i == 8 {} else if i == 9 {} else if i == 10 {} else if i == 11 {} else if i == 12 {} else if i == 13 {} else if i == 14 {} else if i == 15 {} else if i == 16 {} else if i == 17 {} else if i == 18 {} else if i == 19 {} else if i == 20 {} else if i == 21 {} else if i == 22 {} else if i == 23 {}
    }
    lemma_chooses_first_complete(tests, s, t.spec_choose(path));
}

/// Choosing among 25 alternatives gives the match of the first whose own
/// test matches the path completely, or none when none does.
pub proof fn lemma_choose_25<A: RouteMatch, B: RouteMatch, C: RouteMatch, D: RouteMatch, E: RouteMatch, F: RouteMatch, G: RouteMatch, H: RouteMatch, I: RouteMatch, J: RouteMatch, K: RouteMatch, L: RouteMatch, M: RouteMatch, N: RouteMatch, O: RouteMatch, P: RouteMatch, Q: RouteMatch, R: RouteMatch, S: RouteMatch, T: RouteMatch, U: RouteMatch, V: RouteMatch, W: RouteMatch, X: RouteMatch, Y: RouteMatch>(t: &(A, B, C, D, E, F, G, H, I, J, K, L, M, N, O, P, Q, R, S, T, U, V, W, X, Y), path: Seq<char>)
    ensures
        chooses_first_complete(
            seq![t.0.spec_test(path), t.1.spec_test(path), t.2.spec_test(path), t.3.spec_test(path), t.4.spec_test(path), t.5.spec_test(path), t.6.spec_test(path), t.7.spec_test(path), t.8.spec_test(path), t.9.spec_test(path), t.10.spec_test(path), t.11.spec_test(path), t.12.spec_test(path), t.13.spec_test(path), t.14.spec_test(path), t.15.spec_test(path), t.16.spec_test(path), t.17.spec_test(path), t.18.spec_test(path), t.19.spec_test(path), t.20.spec_test(path), t.21.spec_test(path), t.22.spec_test(path), t.23.spec_test(path), t.24.spec_test(path)],
            t.spec_choose(path),
        ),
{
    let tests = seq![t.0.spec_test(path), t.1.spec_test(path), t.2.spec_test(path), t.3.spec_test(path), t.4.spec_test(path), t.5.spec_test(path), t.6.spec_test(path), t.7.spec_test(path), t.8.spec_test(path), t.9.spec_test(path), t.10.spec_test(path), t.11.spec_test(path), t.12.spec_test(path), t.13.spec_test(path), t.14.spec_test(path), t.15.spec_test(path), t.16.spec_test(path), t.17.spec_test(path), t.18.spec_test(path), t.19.spec_test(path), t.20.spec_test(path), t.21.spec_test(path), t.22.spec_test(path), t.23.spec_test(path), t.24.spec_test(path)];
    let s = seq![complete_match(&t.0, path), complete_match(&t.1, path), complete_match(&t.2, path), complete_match(&t.3, path), complete_match(&t.4, path), complete_match(&t.5, path), complete_match(&t.6, path), complete_match(&t.7, path), complete_match(&t.8, path), complete_match(&t.9, path), complete_match(&t.10, path), complete_match(&t.11, path), complete_match(&t.12, path), complete_match(&t.13, path), complete_match(&t.14, path), complete_match(&t.15, path), complete_match(&t.16, path), complete_match(&t.17, path), complete_match(&t.18, path), complete_match(&t.19, path), complete_match(&t.20, path), complete_match(&t.21, path), complete_match(&t.22, path), complete_match(&t.23, path), complete_match(&t.24, path)];
    assert forall|i: int| 0 <= i < 25 implies #[trigger] s[i] == keep_complete(tests[i]) by {
        if i == 0 {} else if i == 1 {} else if i == 2 {} else if i == 3 {} else if i == 4 {} else if i == 5 {} else if i == 6 {} else if i == 7 {} else if i == 8 {} else if i == 9 {} else if i == 10 {} else if i == 11 {} else if i == 12 {} else if i == 13 {} else if i == 14 {} else if i == 15 {} else if i == 16 {} else if i == 17 {} else if i == 18 {} else if i == 19 {} else if i == 20 {} else if i == 21 {} else if i == 22 {} else if i == 23 {} else if i == 24 {}
    }
    lemma_chooses_first_complete(tests, s, t.spec_choose(path));
}

/// Choosing among 26 alternatives gives the match of the first whose own
/// test matches the path completely, or none when none does.
pub proof fn lemma_choose_26<A: RouteMatch, B: RouteMatch, C: RouteMatch, D: RouteMatch, E: RouteMatch, F: RouteMatch, G: RouteMatch, H: RouteMatch, I: RouteMatch, J: RouteMatch, K: RouteMatch, L: RouteMatch, M: RouteMatch, N: RouteMatch, O: RouteMatch, P: RouteMatch, Q: RouteMatch, R: RouteMatch, S: RouteMatch, T: RouteMatch, U: RouteMatch, V: RouteMatch, W: RouteMatch, X: RouteMatch, Y: RouteMatch, Z: RouteMatch>(t: &(A, B, C, D, E, F, G, H, I, J, K, L, M, N, O, P, Q, R, S, T, U, V, W, X, Y, Z), path: Seq<char>)
    ensures
        chooses_first_complete(
            seq![t.0.spec_test(path), t.1.spec_test(path), t.2.spec_test(path), t.3.spec_test(path), t.4.spec_test(path), t.5.spec_test(path), t.6.spec_test(path), t.7.spec_test(path), t.8.spec_test(path), t.9.spec_test(path), t.10.spec_test(path), t.11.spec_test(path), t.12.spec_test(path), t.13.spec_test(path), t.14.spec_test(path), t.15.spec_test(path), t.16.spec_test(path), t.17.spec_test(path), t.18.spec_test(path), t.19.spec_test(path), t.20.spec_test(path), t.21.spec_test(path), t.22.spec_test(path), t.23.spec_test(path), t.24.spec_test(path), t.25.spec_test(path)],
            t.spec_choose(path),
        ),
{
    let tests = seq![t.0.spec_test(path), t.1.spec_test(path), t.2.spec_test(path), t.3.spec_test(path), t.4.spec_test(path), t.5.spec_test(path), t.6.spec_test(path), t.7.spec_test(path), t.8.spec_test(path), t.9.spec_test(path), t.10.spec_test(path), t.11.spec_test(path), t.12.spec_test(path), t.13.spec_test(path), t.14.spec_test(path), t.15.spec_test(path), t.16.spec_test(path), t.17.spec_test(path), t.18.spec_test(path), t.19.spec_test(path), t.20.spec_test(path), t.21.spec_test(path), t.22.spec_test(path), t.23.spec_test(path), t.24.spec_test(path), t.25.spec_test(path)];
    let s = seq![complete_match(&t.0, path), complete_match(&t.1, path), complete_match(&t.2, path), complete_match(&t.3, path), complete_match(&t.4, path), complete_match(&t.5, path), complete_match(&t.6, path), complete_match(&t.7, path), complete_match(&t.8, path), complete_match(&t.9, path), complete_match(&t.10, path), complete_match(&t.11, path), complete_match(&t.12, path), complete_match(&t.13, path), complete_match(&t.14, path), complete_match(&t.15, path), complete_match(&t.16, path), complete_match(&t.17, path), complete_match(&t.18, path), complete_match(&t.19, path), complete_match(&t.20, path), complete_match(&t.21, path), complete_match(&t.22, path), complete_match(&t.23, path), complete_match(&t.24, path), complete_match(&t.25, path)];
    assert forall|i: int| 0 <= i < 26 implies #[trigger] s[i] == keep_complete(tests[i]) by {
        if i == 0 {} else if i == 1 {} else if i == 2 {} else if i == 3 {} else if i == 4 {} else if i == 5 {} else if i == 6 {} else if i == 7 {} else if i == 8 {} else if i == 9 {} else if i == 10 {} else if i == 11 {} else if i == 12 {} else if i == 13 {} else if i == 14 {} else if i == 15 {} else if i == 16 {} else if i == 17 {} else if i == 18 {} else if i == 19 {} else if i == 20 {} else if i == 21 {} else if i == 22 {} else if i == 23 {} else if i == 24 {} else if i == 25 {}
    }
    lemma_chooses_first_complete(tests, s, t.spec_choose(path));
}

} // verus!
