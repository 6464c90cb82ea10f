//! Routes nested within another route.
use crate::route::path_segment::{empty_match, opt_path_match_view, PathMatch, PathMatchView};
use crate::route::route_child::{first_some, lemma_first_some};
use crate::strs::{path_segments, split_segments, strings_view};
use vstd::prelude::*;

verus! {

/// A set of alternative nested routes, each tried on the segments of a path.
pub trait RouteChild {
    /// The match of the first alternative that matches the given segments.
    spec fn spec_child_test(&self, segs: Seq<Seq<char>>) -> Option<PathMatchView>;

    fn matches(&self, segs: &Vec<String>, pos: usize) -> (b: bool)
        requires
            pos <= segs@.len(),
        ensures
            b == self.spec_child_test(strings_view(segs@).skip(pos as int)) is Some,
    ;

    fn test(&self, segs: &Vec<String>, pos: usize) -> (r: Option<PathMatch>)
        requires
            pos <= segs@.len(),
        ensures
            opt_path_match_view(r) == self.spec_child_test(strings_view(segs@).skip(pos as int)),
    ;

    fn matches_path(&self, path: &str) -> (b: bool)
        ensures
            b == self.spec_child_test(path_segments(path@)) is Some,
    {
        let segs = split_segments(path);
        proof {
            assert(strings_view(segs@).skip(0) =~= strings_view(segs@));
        }
        self.matches(&segs, 0)
    }

    fn test_path(&self, path: &str) -> (r: Option<PathMatch>)
        ensures
            opt_path_match_view(r) == self.spec_child_test(path_segments(path@)),
    {
        let segs = split_segments(path);
        proof {
            assert(strings_view(segs@).skip(0) =~= strings_view(segs@));
        }
        self.test(&segs, 0)
    }
}

/// No nested routes: everything matches, capturing nothing.
impl RouteChild for () {
    open spec fn spec_child_test(&self, segs: Seq<Seq<char>>) -> Option<PathMatchView> {
        Some(empty_match())
    }

    fn matches(&self, segs: &Vec<String>, pos: usize) -> (b: bool) {
        true
    }

    fn test(&self, segs: &Vec<String>, pos: usize) -> (r: Option<PathMatch>) {
        Some(PathMatch::default())
    }
}

impl<A: RouteChild> RouteChild for (A,) {
    open spec fn spec_child_test(&self, segs: Seq<Seq<char>>) -> Option<PathMatchView> {
        self.0.spec_child_test(segs)
    }

    fn matches(&self, segs: &Vec<String>, pos: usize) -> (b: bool) {
        self.0.matches(segs, pos)
    }

    fn test(&self, segs: &Vec<String>, pos: usize) -> (r: Option<PathMatch>) {
        self.0.test(segs, pos)
    }
}

/// Alternatives, tried in order on the same segments: the first that
/// matches gives the match (`first_some`, `lemma_first_some`).
impl<A: RouteChild, B: RouteChild> RouteChild for (A, B) {
    open spec fn spec_child_test(&self, segs: Seq<Seq<char>>) -> Option<PathMatchView> {
        first_some(seq![self.0.spec_child_test(segs), self.1.spec_child_test(segs)])
    }

    fn matches(&self, segs: &Vec<String>, pos: usize) -> (b: bool) {
        let ghost s = seq![
            self.0.spec_child_test(strings_view(segs@).skip(pos as int)),
            self.1.spec_child_test(strings_view(segs@).skip(pos as int)),
        ];
        if self.0.matches(segs, pos) {
            proof {
                lemma_first_some(s, 0);
            }
            return true;
        }
        assert(s[0] is None);
        if self.1.matches(segs, pos) {
            proof {
                lemma_first_some(s, 1);
            }
            return true;
        }
        assert(s[1] is None);
        proof {
            lemma_first_some(s, 2);
        }
        false
    }

    fn test(&self, segs: &Vec<String>, pos: usize) -> (r: Option<PathMatch>) {
        let ghost s = seq![
            self.0.spec_child_test(strings_view(segs@).skip(pos as int)),
            self.1.spec_child_test(strings_view(segs@).skip(pos as int)),
        ];
        if let Some(m) = self.0.test(segs, pos) {
            proof {
                lemma_first_some(s, 0);
            }
            return Some(m);
        }
        assert(s[0] is None);
        if let Some(m) = self.1.test(segs, pos) {
            proof {
                lemma_first_some(s, 1);
            }
            return Some(m);
        }
        assert(s[1] is None);
        proof {
            lemma_first_some(s, 2);
        }
        None
    }
}

impl<A: RouteChild, B: RouteChild, C: RouteChild> RouteChild for (A, B, C) {
    open spec fn spec_child_test(&self, segs: Seq<Seq<char>>) -> Option<PathMatchView> {
        first_some(seq![self.0.spec_child_test(segs), self.1.spec_child_test(segs), self.2.spec_child_test(segs)])
    }

    fn matches(&self, segs: &Vec<String>, pos: usize) -> (b: bool) {
        let ghost s = seq![
            self.0.spec_child_test(strings_view(segs@).skip(pos as int)),
            self.1.spec_child_test(strings_view(segs@).skip(pos as int)),
            self.2.spec_child_test(strings_view(segs@).skip(pos as int)),
        ];
        if self.0.matches(segs, pos) {
            proof {
                lemma_first_some(s, 0);
            }
            return true;
        }
        assert(s[0] is None);
        if self.1.matches(segs, pos) {
            proof {
                lemma_first_some(s, 1);
            }
            return true;
        }
        assert(s[1] is None);
        if self.2.matches(segs, pos) {
            proof {
                lemma_first_some(s, 2);
            }
            return true;
        }
        assert(s[2] is None);
        proof {
            lemma_first_some(s, 3);
        }
        false
    }

    fn test(&self, segs: &Vec<String>, pos: usize) -> (r: Option<PathMatch>) {
        let ghost s = seq![
            self.0.spec_child_test(strings_view(segs@).skip(pos as int)),
            self.1.spec_child_test(strings_view(segs@).skip(pos as int)),
            self.2.spec_child_test(strings_view(segs@).skip(pos as int)),
        ];
        if let Some(m) = self.0.test(segs, pos) {
            proof {
                lemma_first_some(s, 0);
            }
            return Some(m);
        }
        assert(s[0] is None);
        if let Some(m) = self.1.test(segs, pos) {
            proof {
                lemma_first_some(s, 1);
            }
            return Some(m);
        }
        assert(s[1] is None);
        if let Some(m) = self.2.test(segs, pos) {
            proof {
                lemma_first_some(s, 2);
            }
            return Some(m);
        }
        assert(s[2] is None);
        proof {
            lemma_first_some(s, 3);
        }
        None
    }
}

impl<A: RouteChild, B: RouteChild, C: RouteChild, D: RouteChild> RouteChild for (A, B, C, D) {
    open spec fn spec_child_test(&self, segs: Seq<Seq<char>>) -> Option<PathMatchView> {
        first_some(seq![self.0.spec_child_test(segs), self.1.spec_child_test(segs), self.2.spec_child_test(segs), self.3.spec_child_test(segs)])
    }

    fn matches(&self, segs: &Vec<String>, pos: usize) -> (b: bool) {
        let ghost s = seq![
            self.0.spec_child_test(strings_view(segs@).skip(pos as int)),
            self.1.spec_child_test(strings_view(segs@).skip(pos as int)),
            self.2.spec_child_test(strings_view(segs@).skip(pos as int)),
            self.3.spec_child_test(strings_view(segs@).skip(pos as int)),
        ];
        if self.0.matches(segs, pos) {
            proof {
                lemma_first_some(s, 0);
            }
            return true;
        }
        assert(s[0] is None);
        if self.1.matches(segs, pos) {
            proof {
                lemma_first_some(s, 1);
            }
            return true;
        }
        assert(s[1] is None);
        if self.2.matches(segs, pos) {
            proof {
                lemma_first_some(s, 2);
            }
            return true;
        }
        assert(s[2] is None);
        if self.3.matches(segs, pos) {
            proof {
                lemma_first_some(s, 3);
            }
            return true;
        }
        assert(s[3] is None);
        proof {
            lemma_first_some(s, 4);
        }
        false
    }

    fn test(&self, segs: &Vec<String>, pos: usize) -> (r: Option<PathMatch>) {
        let ghost s = seq![
            self.0.spec_child_test(strings_view(segs@).skip(pos as int)),
            self.1.spec_child_test(strings_view(segs@).skip(pos as int)),
            self.2.spec_child_test(strings_view(segs@).skip(pos as int)),
            self.3.spec_child_test(strings_view(segs@).skip(pos as int)),
        ];
        if let Some(m) = self.0.test(segs, pos) {
            proof {
                lemma_first_some(s, 0);
            }
            return Some(m);
        }
        assert(s[0] is None);
        if let Some(m) = self.1.test(segs, pos) {
            proof {
                lemma_first_some(s, 1);
            }
            return Some(m);
        }
        assert(s[1] is None);
        if let Some(m) = self.2.test(segs, pos) {
            proof {
                lemma_first_some(s, 2);
            }
            return Some(m);
        }
        assert(s[2] is None);
        if let Some(m) = self.3.test(segs, pos) {
            proof {
                lemma_first_some(s, 3);
            }
            return Some(m);
        }
        assert(s[3] is None);
        proof {
            lemma_first_some(s, 4);
        }
        None
    }
}

impl<A: RouteChild, B: RouteChild, C: RouteChild, D: RouteChild, E: RouteChild> RouteChild for (A, B, C, D, E) {
    open spec fn spec_child_test(&self, segs: Seq<Seq<char>>) -> Option<PathMatchView> {
        first_some(seq![self.0.spec_child_test(segs), self.1.spec_child_test(segs), self.2.spec_child_test(segs), self.3.spec_child_test(segs), self.4.spec_child_test(segs)])
    }

    fn matches(&self, segs: &Vec<String>, pos: usize) -> (b: bool) {
        let ghost s = seq![
            self.0.spec_child_test(strings_view(segs@).skip(pos as int)),
            self.1.spec_child_test(strings_view(segs@).skip(pos as int)),
            self.2.spec_child_test(strings_view(segs@).skip(pos as int)),
            self.3.spec_child_test(strings_view(segs@).skip(pos as int)),
            self.4.spec_child_test(strings_view(segs@).skip(pos as int)),
        ];
        if self.0.matches(segs, pos) {
            proof {
                lemma_first_some(s, 0);
            }
            return true;
        }
        assert(s[0] is None);
        if self.1.matches(segs, pos) {
            proof {
                lemma_first_some(s, 1);
            }
            return true;
        }
        assert(s[1] is None);
        if self.2.matches(segs, pos) {
            proof {
                lemma_first_some(s, 2);
            }
            return true;
        }
        assert(s[2] is None);
        if self.3.matches(segs, pos) {
            proof {
                lemma_first_some(s, 3);
            }
            return true;
        }
        assert(s[3] is None);
        if self.4.matches(segs, pos) {
            proof {
                lemma_first_some(s, 4);
            }
            return true;
        }
        assert(s[4] is None);
        proof {
            lemma_first_some(s, 5);
        }
        false
    }

    fn test(&self, segs: &Vec<String>, pos: usize) -> (r: Option<PathMatch>) {
        let ghost s = seq![
            self.0.spec_child_test(strings_view(segs@).skip(pos as int)),
            self.1.spec_child_test(strings_view(segs@).skip(pos as int)),
            self.2.spec_child_test(strings_view(segs@).skip(pos as int)),
            self.3.spec_child_test(strings_view(segs@).skip(pos as int)),
            self.4.spec_child_test(strings_view(segs@).skip(pos as int)),
        ];
        if let Some(m) = self.0.test(segs, pos) {
            proof {
                lemma_first_some(s, 0);
            }
            return Some(m);
        }
        assert(s[0] is None);
        if let Some(m) = self.1.test(segs, pos) {
            proof {
                lemma_first_some(s, 1);
            }
            return Some(m);
        }
        assert(s[1] is None);
        if let Some(m) = self.2.test(segs, pos) {
            proof {
                lemma_first_some(s, 2);
            }
            return Some(m);
        }
        assert(s[2] is None);
        if let Some(m) = self.3.test(segs, pos) {
            proof {
                lemma_first_some(s, 3);
            }
            return Some(m);
        }
        assert(s[3] is None);
        if let Some(m) = self.4.test(segs, pos) {
            proof {
                lemma_first_some(s, 4);
            }
            return Some(m);
        }
        assert(s[4] is None);
        proof {
            lemma_first_some(s, 5);
        }
        None
    }
}

impl<A: RouteChild, B: RouteChild, C: RouteChild, D: RouteChild, E: RouteChild, F: RouteChild> RouteChild for (A, B, C, D, E, F) {
    open spec fn spec_child_test(&self, segs: Seq<Seq<char>>) -> Option<PathMatchView> {
        first_some(seq![self.0.spec_child_test(segs), self.1.spec_child_test(segs), self.2.spec_child_test(segs), self.3.spec_child_test(segs), self.4.spec_child_test(segs), self.5.spec_child_test(segs)])
    }

    fn matches(&self, segs: &Vec<String>, pos: usize) -> (b: bool) {
        let ghost s = seq![
            self.0.spec_child_test(strings_view(segs@).skip(pos as int)),
            self.1.spec_child_test(strings_view(segs@).skip(pos as int)),
            self.2.spec_child_test(strings_view(segs@).skip(pos as int)),
            self.3.spec_child_test(strings_view(segs@).skip(pos as int)),
            self.4.spec_child_test(strings_view(segs@).skip(pos as int)),
            self.5.spec_child_test(strings_view(segs@).skip(pos as int)),
        ];
        if self.0.matches(segs, pos) {
            proof {
                lemma_first_some(s, 0);
            }
            return true;
        }
        assert(s[0] is None);
        if self.1.matches(segs, pos) {
            proof {
                lemma_first_some(s, 1);
            }
            return true;
        }
        assert(s[1] is None);
        if self.2.matches(segs, pos) {
            proof {
                lemma_first_some(s, 2);
            }
            return true;
        }
        assert(s[2] is None);
        if self.3.matches(segs, pos) {
            proof {
                lemma_first_some(s, 3);
            }
            return true;
        }
        assert(s[3] is None);
        if self.4.matches(segs, pos) {
            proof {
                lemma_first_some(s, 4);
            }
            return true;
        }
        assert(s[4] is None);
        if self.5.matches(segs, pos) {
            proof {
                lemma_first_some(s, 5);
            }
            return true;
        }
        assert(s[5] is None);
        proof {
            lemma_first_some(s, 6);
        }
        false
    }

    fn test(&self, segs: &Vec<String>, pos: usize) -> (r: Option<PathMatch>) {
        let ghost s = seq![
            self.0.spec_child_test(strings_view(segs@).skip(pos as int)),
            self.1.spec_child_test(strings_view(segs@).skip(pos as int)),
            self.2.spec_child_test(strings_view(segs@).skip(pos as int)),
            self.3.spec_child_test(strings_view(segs@).skip(pos as int)),
            self.4.spec_child_test(strings_view(segs@).skip(pos as int)),
            self.5.spec_child_test(strings_view(segs@).skip(pos as int)),
        ];
        if let Some(m) = self.0.test(segs, pos) {
            proof {
                lemma_first_some(s, 0);
            }
            return Some(m);
        }
        assert(s[0] is None);
        if let Some(m) = self.1.test(segs, pos) {
            proof {
                lemma_first_some(s, 1);
            }
            return Some(m);
        }
        assert(s[1] is None);
        if let Some(m) = self.2.test(segs, pos) {
            proof {
                lemma_first_some(s, 2);
            }
            return Some(m);
        }
        assert(s[2] is None);
        if let Some(m) = self.3.test(segs, pos) {
            proof {
                lemma_first_some(s, 3);
            }
            return Some(m);
        }
        assert(s[3] is None);
        if let Some(m) = self.4.test(segs, pos) {
            proof {
                lemma_first_some(s, 4);
            }
            return Some(m);
        }
        assert(s[4] is None);
        if let Some(m) = self.5.test(segs, pos) {
            proof {
                lemma_first_some(s, 5);
            }
            return Some(m);
        }
        assert(s[5] is None);
        proof {
            lemma_first_some(s, 6);
        }
        None
    }
}

impl<A: RouteChild, B: RouteChild, C: RouteChild, D: RouteChild, E: RouteChild, F: RouteChild, G: RouteChild> RouteChild for (A, B, C, D, E, F, G) {
    open spec fn spec_child_test(&self, segs: Seq<Seq<char>>) -> Option<PathMatchView> {
        first_some(seq![self.0.spec_child_test(segs), self.1.spec_child_test(segs), self.2.spec_child_test(segs), self.3.spec_child_test(segs), self.4.spec_child_test(segs), self.5.spec_child_test(segs), self.6.spec_child_test(segs)])
    }

    fn matches(&self, segs: &Vec<String>, pos: usize) -> (b: bool) {
        let ghost s = seq![
            self.0.spec_child_test(strings_view(segs@).skip(pos as int)),
            self.1.spec_child_test(strings_view(segs@).skip(pos as int)),
            self.2.spec_child_test(strings_view(segs@).skip(pos as int)),
            self.3.spec_child_test(strings_view(segs@).skip(pos as int)),
            self.4.spec_child_test(strings_view(segs@).skip(pos as int)),
            self.5.spec_child_test(strings_view(segs@).skip(pos as int)),
            self.6.spec_child_test(strings_view(segs@).skip(pos as int)),
        ];
        if self.0.matches(segs, pos) {
            proof {
                lemma_first_some(s, 0);
            }
            return true;
        }
        assert(s[0] is None);
        if self.1.matches(segs, pos) {
            proof {
                lemma_first_some(s, 1);
            }
            return true;
        }
        assert(s[1] is None);
        if self.2.matches(segs, pos) {
            proof {
                lemma_first_some(s, 2);
            }
            return true;
        }
        assert(s[2] is None);
        if self.3.matches(segs, pos) {
            proof {
                lemma_first_some(s, 3);
            }
            return true;
        }
        assert(s[3] is None);
        if self.4.matches(segs, pos) {
            proof {
                lemma_first_some(s, 4);
            }
            return true;
        }
        assert(s[4] is None);
        if self.5.matches(segs, pos) {
            proof {
                lemma_first_some(s, 5);
            }
            return true;
        }
        assert(s[5] is None);
        if self.6.matches(segs, pos) {
            proof {
                lemma_first_some(s, 6);
            }
            return true;
        }
        assert(s[6] is None);
        proof {
            lemma_first_some(s, 7);
        }
        false
    }

    fn test(&self, segs: &Vec<String>, pos: usize) -> (r: Option<PathMatch>) {
        let ghost s = seq![
            self.0.spec_child_test(strings_view(segs@).skip(pos as int)),
            self.1.spec_child_test(strings_view(segs@).skip(pos as int)),
            self.2.spec_child_test(strings_view(segs@).skip(pos as int)),
            self.3.spec_child_test(strings_view(segs@).skip(pos as int)),
            self.4.spec_child_test(strings_view(segs@).skip(pos as int)),
            self.5.spec_child_test(strings_view(segs@).skip(pos as int)),
            self.6.spec_child_test(strings_view(segs@).skip(pos as int)),
        ];
        if let Some(m) = self.0.test(segs, pos) {
            proof {
                lemma_first_some(s, 0);
            }
            return Some(m);
        }
        assert(s[0] is None);
        if let Some(m) = self.1.test(segs, pos) {
            proof {
                lemma_first_some(s, 1);
            }
            return Some(m);
        }
        assert(s[1] is None);
        if let Some(m) = self.2.test(segs, pos) {
            proof {
                lemma_first_some(s, 2);
            }
            return Some(m);
        }
        assert(s[2] is None);
        if let Some(m) = self.3.test(segs, pos) {
            proof {
                lemma_first_some(s, 3);
            }
            return Some(m);
        }
        assert(s[3] is None);
        if let Some(m) = self.4.test(segs, pos) {
            proof {
                lemma_first_some(s, 4);
            }
            return Some(m);
        }
        assert(s[4] is None);
        if let Some(m) = self.5.test(segs, pos) {
            proof {
                lemma_first_some(s, 5);
            }
            return Some(m);
        }
        assert(s[5] is None);
        if let Some(m) = self.6.test(segs, pos) {
            proof {
                lemma_first_some(s, 6);
            }
            return Some(m);
        }
        assert(s[6] is None);
        proof {
            lemma_first_some(s, 7);
        }
        None
    }
}

impl<A: RouteChild, B: RouteChild, C: RouteChild, D: RouteChild, E: RouteChild, F: RouteChild, G: RouteChild, H: RouteChild> RouteChild for (A, B, C, D, E, F, G, H) {
    open spec fn spec_child_test(&self, segs: Seq<Seq<char>>) -> Option<PathMatchView> {
        first_some(seq![self.0.spec_child_test(segs), self.1.spec_child_test(segs), self.2.spec_child_test(segs), self.3.spec_child_test(segs), self.4.spec_child_test(segs), self.5.spec_child_test(segs), self.6.spec_child_test(segs), self.7.spec_child_test(segs)])
    }

    fn matches(&self, segs: &Vec<String>, pos: usize) -> (b: bool) {
        let ghost s = seq![
            self.0.spec_child_test(strings_view(segs@).skip(pos as int)),
            self.1.spec_child_test(strings_view(segs@).skip(pos as int)),
            self.2.spec_child_test(strings_view(segs@).skip(pos as int)),
            self.3.spec_child_test(strings_view(segs@).skip(pos as int)),
            self.4.spec_child_test(strings_view(segs@).skip(pos as int)),
            self.5.spec_child_test(strings_view(segs@).skip(pos as int)),
            self.6.spec_child_test(strings_view(segs@).skip(pos as int)),
            self.7.spec_child_test(strings_view(segs@).skip(pos as int)),
        ];
        if self.0.matches(segs, pos) {
            proof {
                lemma_first_some(s, 0);
            }
            return true;
        }
        assert(s[0] is None);
        if self.1.matches(segs, pos) {
            proof {
                lemma_first_some(s, 1);
            }
            return true;
        }
        assert(s[1] is None);
        if self.2.matches(segs, pos) {
            proof {
                lemma_first_some(s, 2);
            }
            return true;
        }
        assert(s[2] is None);
        if self.3.matches(segs, pos) {
            proof {
                lemma_first_some(s, 3);
            }
            return true;
        }
        assert(s[3] is None);
        if self.4.matches(segs, pos) {
            proof {
                lemma_first_some(s, 4);
            }
            return true;
        }
        assert(s[4] is None);
        if self.5.matches(segs, pos) {
            proof {
                lemma_first_some(s, 5);
            }
            return true;
        }
        assert(s[5] is None);
        if self.6.matches(segs, pos) {
            proof {
                lemma_first_some(s, 6);
            }
            return true;
        }
        assert(s[6] is None);
        if self.7.matches(segs, pos) {
            proof {
                lemma_first_some(s, 7);
            }
            return true;
        }
        assert(s[7] is None);
        proof {
            lemma_first_some(s, 8);
        }
        false
    }

    fn test(&self, segs: &Vec<String>, pos: usize) -> (r: Option<PathMatch>) {
        let ghost s = seq![
            self.0.spec_child_test(strings_view(segs@).skip(pos as int)),
            self.1.spec_child_test(strings_view(segs@).skip(pos as int)),
            self.2.spec_child_test(strings_view(segs@).skip(pos as int)),
            self.3.spec_child_test(strings_view(segs@).skip(pos as int)),
            self.4.spec_child_test(strings_view(segs@).skip(pos as int)),
            self.5.spec_child_test(strings_view(segs@).skip(pos as int)),
            self.6.spec_child_test(strings_view(segs@).skip(pos as int)),
            self.7.spec_child_test(strings_view(segs@).skip(pos as int)),
        ];
        if let Some(m) = self.0.test(segs, pos) {
            proof {
                lemma_first_some(s, 0);
            }
            return Some(m);
        }
        assert(s[0] is None);
        if let Some(m) = self.1.test(segs, pos) {
            proof {
                lemma_first_some(s, 1);
            }
            return Some(m);
        }
        assert(s[1] is None);
        if let Some(m) = self.2.test(segs, pos) {
            proof {
                lemma_first_some(s, 2);
            }
            return Some(m);
        }
        assert(s[2] is None);
        if let Some(m) = self.3.test(segs, pos) {
            proof {
                lemma_first_some(s, 3);
            }
            return Some(m);
        }
        assert(s[3] is None);
        if let Some(m) = self.4.test(segs, pos) {
            proof {
                lemma_first_some(s, 4);
            }
            return Some(m);
        }
        assert(s[4] is None);
        if let Some(m) = self.5.test(segs, pos) {
            proof {
                lemma_first_some(s, 5);
            }
            return Some(m);
        }
        assert(s[5] is None);
        if let Some(m) = self.6.test(segs, pos) {
            proof {
                lemma_first_some(s, 6);
            }
            return Some(m);
        }
        assert(s[6] is None);
        if let Some(m) = self.7.test(segs, pos) {
            proof {
                lemma_first_some(s, 7);
            }
            return Some(m);
        }
        assert(s[7] is None);
        proof {
            lemma_first_some(s, 8);
        }
        None
    }
}

impl<A: RouteChild, B: RouteChild, C: RouteChild, D: RouteChild, E: RouteChild, F: RouteChild, G: RouteChild, H: RouteChild, I: RouteChild> RouteChild for (A, B, C, D, E, F, G, H, I) {
    open spec fn spec_child_test(&self, segs: Seq<Seq<char>>) -> Option<PathMatchView> {
        first_some(seq![self.0.spec_child_test(segs), self.1.spec_child_test(segs), self.2.spec_child_test(segs), self.3.spec_child_test(segs), self.4.spec_child_test(segs), self.5.spec_child_test(segs), self.6.spec_child_test(segs), self.7.spec_child_test(segs), self.8.spec_child_test(segs)])
    }

    fn matches(&self, segs: &Vec<String>, pos: usize) -> (b: bool) {
        let ghost s = seq![
            self.0.spec_child_test(strings_view(segs@).skip(pos as int)),
            self.1.spec_child_test(strings_view(segs@).skip(pos as int)),
            self.2.spec_child_test(strings_view(segs@).skip(pos as int)),
            self.3.spec_child_test(strings_view(segs@).skip(pos as int)),
            self.4.spec_child_test(strings_view(segs@).skip(pos as int)),
            self.5.spec_child_test(strings_view(segs@).skip(pos as int)),
            self.6.spec_child_test(strings_view(segs@).skip(pos as int)),
            self.7.spec_child_test(strings_view(segs@).skip(pos as int)),
            self.8.spec_child_test(strings_view(segs@).skip(pos as int)),
        ];
        if self.0.matches(segs, pos) {
            proof {
                lemma_first_some(s, 0);
            }
            return true;
        }
        assert(s[0] is None);
        if self.1.matches(segs, pos) {
            proof {
                lemma_first_some(s, 1);
            }
            return true;
        }
        assert(s[1] is None);
        if self.2.matches(segs, pos) {
            proof {
                lemma_first_some(s, 2);
            }
            return true;
        }
        assert(s[2] is None);
        if self.3.matches(segs, pos) {
            proof {
                lemma_first_some(s, 3);
            }
            return true;
        }
        assert(s[3] is None);
        if self.4.matches(segs, pos) {
            proof {
                lemma_first_some(s, 4);
            }
            return true;
        }
        assert(s[4] is None);
        if self.5.matches(segs, pos) {
            proof {
                lemma_first_some(s, 5);
            }
            return true;
        }
        assert(s[5] is None);
        if self.6.matches(segs, pos) {
            proof {
                lemma_first_some(s, 6);
            }
            return true;
        }
        assert(s[6] is None);
        if self.7.matches(segs, pos) {
            proof {
                lemma_first_some(s, 7);
            }
            return true;
        }
        assert(s[7] is None);
        if self.8.matches(segs, pos) {
            proof {
                lemma_first_some(s, 8);
            }
            return true;
        }
        assert(s[8] is None);
        proof {
            lemma_first_some(s, 9);
        }
        false
    }

    fn test(&self, segs: &Vec<String>, pos: usize) -> (r: Option<PathMatch>) {
        let ghost s = seq![
            self.0.spec_child_test(strings_view(segs@).skip(pos as int)),
            self.1.spec_child_test(strings_view(segs@).skip(pos as int)),
            self.2.spec_child_test(strings_view(segs@).skip(pos as int)),
            self.3.spec_child_test(strings_view(segs@).skip(pos as int)),
            self.4.spec_child_test(strings_view(segs@).skip(pos as int)),
            self.5.spec_child_test(strings_view(segs@).skip(pos as int)),
            self.6.spec_child_test(strings_view(segs@).skip(pos as int)),
            self.7.spec_child_test(strings_view(segs@).skip(pos as int)),
            self.8.spec_child_test(strings_view(segs@).skip(pos as int)),
        ];
        if let Some(m) = self.0.test(segs, pos) {
            proof {
                lemma_first_some(s, 0);
            }
            return Some(m);
        }
        assert(s[0] is None);
        if let Some(m) = self.1.test(segs, pos) {
            proof {
                lemma_first_some(s, 1);
            }
            return Some(m);
        }
        assert(s[1] is None);
        if let Some(m) = self.2.test(segs, pos) {
            proof {
                lemma_first_some(s, 2);
            }
            return Some(m);
        }
        assert(s[2] is None);
        if let Some(m) = self.3.test(segs, pos) {
            proof {
                lemma_first_some(s, 3);
            }
            return Some(m);
        }
        assert(s[3] is None);
        if let Some(m) = self.4.test(segs, pos) {
            proof {
                lemma_first_some(s, 4);
            }
            return Some(m);
        }
        assert(s[4] is None);
        if let Some(m) = self.5.test(segs, pos) {
            proof {
                lemma_first_some(s, 5);
            }
            return Some(m);
        }
        assert(s[5] is None);
        if let Some(m) = self.6.test(segs, pos) {
            proof {
                lemma_first_some(s, 6);
            }
            return Some(m);
        }
        assert(s[6] is None);
        if let Some(m) = self.7.test(segs, pos) {
            proof {
                lemma_first_some(s, 7);
            }
            return Some(m);
        }
        assert(s[7] is None);
        if let Some(m) = self.8.test(segs, pos) {
            proof {
                lemma_first_some(s, 8);
            }
            return Some(m);
        }
        assert(s[8] is None);
        proof {
            lemma_first_some(s, 9);
        }
        None
    }
}

impl<A: RouteChild, B: RouteChild, C: RouteChild, D: RouteChild, E: RouteChild, F: RouteChild, G: RouteChild, H: RouteChild, I: RouteChild, J: RouteChild> RouteChild for (A, B, C, D, E, F, G, H, I, J) {
    open spec fn spec_child_test(&self, segs: Seq<Seq<char>>) -> Option<PathMatchView> {
        first_some(seq![self.0.spec_child_test(segs), self.1.spec_child_test(segs), self.2.spec_child_test(segs), self.3.spec_child_test(segs), self.4.spec_child_test(segs), self.5.spec_child_test(segs), self.6.spec_child_test(segs), self.7.spec_child_test(segs), self.8.spec_child_test(segs), self.9.spec_child_test(segs)])
    }

    fn matches(&self, segs: &Vec<String>, pos: usize) -> (b: bool) {
        let ghost s = seq![
            self.0.spec_child_test(strings_view(segs@).skip(pos as int)),
            self.1.spec_child_test(strings_view(segs@).skip(pos as int)),
            self.2.spec_child_test(strings_view(segs@).skip(pos as int)),
            self.3.spec_child_test(strings_view(segs@).skip(pos as int)),
            self.4.spec_child_test(strings_view(segs@).skip(pos as int)),
            self.5.spec_child_test(strings_view(segs@).skip(pos as int)),
            self.6.spec_child_test(strings_view(segs@).skip(pos as int)),
            self.7.spec_child_test(strings_view(segs@).skip(pos as int)),
            self.8.spec_child_test(strings_view(segs@).skip(pos as int)),
            self.9.spec_child_test(strings_view(segs@).skip(pos as int)),
        ];
        if self.0.matches(segs, pos) {
            proof {
                lemma_first_some(s, 0);
            }
            return true;
        }
        assert(s[0] is None);
        if self.1.matches(segs, pos) {
            proof {
                lemma_first_some(s, 1);
            }
            return true;
        }
        assert(s[1] is None);
        if self.2.matches(segs, pos) {
            proof {
                lemma_first_some(s, 2);
            }
            return true;
        }
        assert(s[2] is None);
        if self.3.matches(segs, pos) {
            proof {
                lemma_first_some(s, 3);
            }
            return true;
        }
        assert(s[3] is None);
        if self.4.matches(segs, pos) {
            proof {
                lemma_first_some(s, 4);
            }
            return true;
        }
        assert(s[4] is None);
        if self.5.matches(segs, pos) {
            proof {
                lemma_first_some(s, 5);
            }
            return true;
        }
        assert(s[5] is None);
        if self.6.matches(segs, pos) {
            proof {
                lemma_first_some(s, 6);
            }
            return true;
        }
        assert(s[6] is None);
        if self.7.matches(segs, pos) {
            proof {
                lemma_first_some(s, 7);
            }
            return true;
        }
        assert(s[7] is None);
        if self.8.matches(segs, pos) {
            proof {
                lemma_first_some(s, 8);
            }
            return true;
        }
        assert(s[8] is None);
        if self.9.matches(segs, pos) {
            proof {
                lemma_first_some(s, 9);
            }
            return true;
        }
        assert(s[9] is None);
        proof {
            lemma_first_some(s, 10);
        }
        false
    }

    fn test(&self, segs: &Vec<String>, pos: usize) -> (r: Option<PathMatch>) {
        let ghost s = seq![
            self.0.spec_child_test(strings_view(segs@).skip(pos as int)),
            self.1.spec_child_test(strings_view(segs@).skip(pos as int)),
            self.2.spec_child_test(strings_view(segs@).skip(pos as int)),
            self.3.spec_child_test(strings_view(segs@).skip(pos as int)),
            self.4.spec_child_test(strings_view(segs@).skip(pos as int)),
            self.5.spec_child_test(strings_view(segs@).skip(pos as int)),
            self.6.spec_child_test(strings_view(segs@).skip(pos as int)),
            self.7.spec_child_test(strings_view(segs@).skip(pos as int)),
            self.8.spec_child_test(strings_view(segs@).skip(pos as int)),
            self.9.spec_child_test(strings_view(segs@).skip(pos as int)),
        ];
        if let Some(m) = self.0.test(segs, pos) {
            proof {
                lemma_first_some(s, 0);
            }
            return Some(m);
        }
        assert(s[0] is None);
        if let Some(m) = self.1.test(segs, pos) {
            proof {
                lemma_first_some(s, 1);
            }
            return Some(m);
        }
        assert(s[1] is None);
        if let Some(m) = self.2.test(segs, pos) {
            proof {
                lemma_first_some(s, 2);
            }
            return Some(m);
        }
        assert(s[2] is None);
        if let Some(m) = self.3.test(segs, pos) {
            proof {
                lemma_first_some(s, 3);
            }
            return Some(m);
        }
        assert(s[3] is None);
        if let Some(m) = self.4.test(segs, pos) {
            proof {
                lemma_first_some(s, 4);
            }
            return Some(m);
        }
        assert(s[4] is None);
        if let Some(m) = self.5.test(segs, pos) {
            proof {
                lemma_first_some(s, 5);
            }
            return Some(m);
        }
        assert(s[5] is None);
        if let Some(m) = self.6.test(segs, pos) {
            proof {
                lemma_first_some(s, 6);
            }
            return Some(m);
        }
        assert(s[6] is None);
        if let Some(m) = self.7.test(segs, pos) {
            proof {
                lemma_first_some(s, 7);
            }
            return Some(m);
        }
        assert(s[7] is None);
        if let Some(m) = self.8.test(segs, pos) {
            proof {
                lemma_first_some(s, 8);
            }
            return Some(m);
        }
        assert(s[8] is None);
        if let Some(m) = self.9.test(segs, pos) {
            proof {
                lemma_first_some(s, 9);
            }
            return Some(m);
        }
        assert(s[9] is None);
        proof {
            lemma_first_some(s, 10);
        }
        None
    }
}

impl<A: RouteChild, B: RouteChild, C: RouteChild, D: RouteChild, E: RouteChild, F: RouteChild, G: RouteChild, H: RouteChild, I: RouteChild, J: RouteChild, K: RouteChild> RouteChild for (A, B, C, D, E, F, G, H, I, J, K) {
    open spec fn spec_child_test(&self, segs: Seq<Seq<char>>) -> Option<PathMatchView> {
        first_some(seq![self.0.spec_child_test(segs), self.1.spec_child_test(segs), self.2.spec_child_test(segs), self.3.spec_child_test(segs), self.4.spec_child_test(segs), self.5.spec_child_test(segs), self.6.spec_child_test(segs), self.7.spec_child_test(segs), self.8.spec_child_test(segs), self.9.spec_child_test(segs), self.10.spec_child_test(segs)])
    }

    fn matches(&self, segs: &Vec<String>, pos: usize) -> (b: bool) {
        let ghost s = seq![
            self.0.spec_child_test(strings_view(segs@).skip(pos as int)),
            self.1.spec_child_test(strings_view(segs@).skip(pos as int)),
            self.2.spec_child_test(strings_view(segs@).skip(pos as int)),
            self.3.spec_child_test(strings_view(segs@).skip(pos as int)),
            self.4.spec_child_test(strings_view(segs@).skip(pos as int)),
            self.5.spec_child_test(strings_view(segs@).skip(pos as int)),
            self.6.spec_child_test(strings_view(segs@).skip(pos as int)),
            self.7.spec_child_test(strings_view(segs@).skip(pos as int)),
            self.8.spec_child_test(strings_view(segs@).skip(pos as int)),
            self.9.spec_child_test(strings_view(segs@).skip(pos as int)),
            self.10.spec_child_test(strings_view(segs@).skip(pos as int)),
        ];
        if self.0.matches(segs, pos) {
            proof {
                lemma_first_some(s, 0);
            }
            return true;
        }
        assert(s[0] is None);
        if self.1.matches(segs, pos) {
            proof {
                lemma_first_some(s, 1);
            }
            return true;
        }
        assert(s[1] is None);
        if self.2.matches(segs, pos) {
            proof {
                lemma_first_some(s, 2);
            }
            return true;
        }
        assert(s[2] is None);
        if self.3.matches(segs, pos) {
            proof {
                lemma_first_some(s, 3);
            }
            return true;
        }
        assert(s[3] is None);
        if self.4.matches(segs, pos) {
            proof {
                lemma_first_some(s, 4);
            }
            return true;
        }
        assert(s[4] is None);
        if self.5.matches(segs, pos) {
            proof {
                lemma_first_some(s, 5);
            }
            return true;
        }
        assert(s[5] is None);
        if self.6.matches(segs, pos) {
            proof {
                lemma_first_some(s, 6);
            }
            return true;
        }
        assert(s[6] is None);
        if self.7.matches(segs, pos) {
            proof {
                lemma_first_some(s, 7);
            }
            return true;
        }
        assert(s[7] is None);
        if self.8.matches(segs, pos) {
            proof {
                lemma_first_some(s, 8);
            }
            return true;
        }
        assert(s[8] is None);
        if self.9.matches(segs, pos) {
            proof {
                lemma_first_some(s, 9);
            }
            return true;
        }
        assert(s[9] is None);
        if self.10.matches(segs, pos) {
            proof {
                lemma_first_some(s, 10);
            }
            return true;
        }
        assert(s[10] is None);
        proof {
            lemma_first_some(s, 11);
        }
        false
    }

    fn test(&self, segs: &Vec<String>, pos: usize) -> (r: Option<PathMatch>) {
        let ghost s = seq![
            self.0.spec_child_test(strings_view(segs@).skip(pos as int)),
            self.1.spec_child_test(strings_view(segs@).skip(pos as int)),
            self.2.spec_child_test(strings_view(segs@).skip(pos as int)),
            self.3.spec_child_test(strings_view(segs@).skip(pos as int)),
            self.4.spec_child_test(strings_view(segs@).skip(pos as int)),
            self.5.spec_child_test(strings_view(segs@).skip(pos as int)),
            self.6.spec_child_test(strings_view(segs@).skip(pos as int)),
            self.7.spec_child_test(strings_view(segs@).skip(pos as int)),
            self.8.spec_child_test(strings_view(segs@).skip(pos as int)),
            self.9.spec_child_test(strings_view(segs@).skip(pos as int)),
            self.10.spec_child_test(strings_view(segs@).skip(pos as int)),
        ];
        if let Some(m) = self.0.test(segs, pos) {
            proof {
                lemma_first_some(s, 0);
            }
            return Some(m);
        }
        assert(s[0] is None);
        if let Some(m) = self.1.test(segs, pos) {
            proof {
                lemma_first_some(s, 1);
            }
            return Some(m);
        }
        assert(s[1] is None);
        if let Some(m) = self.2.test(segs, pos) {
            proof {
                lemma_first_some(s, 2);
            }
            return Some(m);
        }
        assert(s[2] is None);
        if let Some(m) = self.3.test(segs, pos) {
            proof {
                lemma_first_some(s, 3);
            }
            return Some(m);
        }
        assert(s[3] is None);
        if let Some(m) = self.4.test(segs, pos) {
            proof {
                lemma_first_some(s, 4);
            }
            return Some(m);
        }
        assert(s[4] is None);
        if let Some(m) = self.5.test(segs, pos) {
            proof {
                lemma_first_some(s, 5);
            }
            return Some(m);
        }
        assert(s[5] is None);
        if let Some(m) = self.6.test(segs, pos) {
            proof {
                lemma_first_some(s, 6);
            }
            return Some(m);
        }
        assert(s[6] is None);
        if let Some(m) = self.7.test(segs, pos) {
            proof {
                lemma_first_some(s, 7);
            }
            return Some(m);
        }
        assert(s[7] is None);
        if let Some(m) = self.8.test(segs, pos) {
            proof {
                lemma_first_some(s, 8);
            }
            return Some(m);
        }
        assert(s[8] is None);
        if let Some(m) = self.9.test(segs, pos) {
            proof {
                lemma_first_some(s, 9);
            }
            return Some(m);
        }
        assert(s[9] is None);
        if let Some(m) = self.10.test(segs, pos) {
            proof {
                lemma_first_some(s, 10);
            }
            return Some(m);
        }
        assert(s[10] is None);
        proof {
            lemma_first_some(s, 11);
        }
        None
    }
}

impl<A: RouteChild, B: RouteChild, C: RouteChild, D: RouteChild, E: RouteChild, F: RouteChild, G: RouteChild, H: RouteChild, I: RouteChild, J: RouteChild, K: RouteChild, L: RouteChild> RouteChild for (A, B, C, D, E, F, G, H, I, J, K, L) {
    open spec fn spec_child_test(&self, segs: Seq<Seq<char>>) -> Option<PathMatchView> {
        first_some(seq![self.0.spec_child_test(segs), self.1.spec_child_test(segs), self.2.spec_child_test(segs), self.3.spec_child_test(segs), self.4.spec_child_test(segs), self.5.spec_child_test(segs), self.6.spec_child_test(segs), self.7.spec_child_test(segs), self.8.spec_child_test(segs), self.9.spec_child_test(segs), self.10.spec_child_test(segs), self.11.spec_child_test(segs)])
    }

    fn matches(&self, segs: &Vec<String>, pos: usize) -> (b: bool) {
        let ghost s = seq![
            self.0.spec_child_test(strings_view(segs@).skip(pos as int)),
            self.1.spec_child_test(strings_view(segs@).skip(pos as int)),
            self.2.spec_child_test(strings_view(segs@).skip(pos as int)),
            self.3.spec_child_test(strings_view(segs@).skip(pos as int)),
            self.4.spec_child_test(strings_view(segs@).skip(pos as int)),
            self.5.spec_child_test(strings_view(segs@).skip(pos as int)),
            self.6.spec_child_test(strings_view(segs@).skip(pos as int)),
            self.7.spec_child_test(strings_view(segs@).skip(pos as int)),
            self.8.spec_child_test(strings_view(segs@).skip(pos as int)),
            self.9.spec_child_test(strings_view(segs@).skip(pos as int)),
            self.10.spec_child_test(strings_view(segs@).skip(pos as int)),
            self.11.spec_child_test(strings_view(segs@).skip(pos as int)),
        ];
        if self.0.matches(segs, pos) {
            proof {
                lemma_first_some(s, 0);
            }
            return true;
        }
        assert(s[0] is None);
        if self.1.matches(segs, pos) {
            proof {
                lemma_first_some(s, 1);
            }
            return true;
        }
        assert(s[1] is None);
        if self.2.matches(segs, pos) {
            proof {
                lemma_first_some(s, 2);
            }
            return true;
        }
        assert(s[2] is None);
        if self.3.matches(segs, pos) {
            proof {
                lemma_first_some(s, 3);
            }
            return true;
        }
        assert(s[3] is None);
        if self.4.matches(segs, pos) {
            proof {
                lemma_first_some(s, 4);
            }
            return true;
        }
        assert(s[4] is None);
        if self.5.matches(segs, pos) {
            proof {
                lemma_first_some(s, 5);
            }
            return true;
        }
        assert(s[5] is None);
        if self.6.matches(segs, pos) {
            proof {
                lemma_first_some(s, 6);
            }
            return true;
        }
        assert(s[6] is None);
        if self.7.matches(segs, pos) {
            proof {
                lemma_first_some(s, 7);
            }
            return true;
        }
        assert(s[7] is None);
        if self.8.matches(segs, pos) {
            proof {
                lemma_first_some(s, 8);
            }
            return true;
        }
        assert(s[8] is None);
        if self.9.matches(segs, pos) {
            proof {
                lemma_first_some(s, 9);
            }
            return true;
        }
        assert(s[9] is None);
        if self.10.matches(segs, pos) {
            proof {
                lemma_first_some(s, 10);
            }
            return true;
        }
        assert(s[10] is None);
        if self.11.matches(segs, pos) {
            proof {
                lemma_first_some(s, 11);
            }
            return true;
        }
        assert(s[11] is None);
        proof {
            lemma_first_some(s, 12);
        }
        false
    }

    fn test(&self, segs: &Vec<String>, pos: usize) -> (r: Option<PathMatch>) {
        let ghost s = seq![
            self.0.spec_child_test(strings_view(segs@).skip(pos as int)),
            self.1.spec_child_test(strings_view(segs@).skip(pos as int)),
            self.2.spec_child_test(strings_view(segs@).skip(pos as int)),
            self.3.spec_child_test(strings_view(segs@).skip(pos as int)),
            self.4.spec_child_test(strings_view(segs@).skip(pos as int)),
            self.5.spec_child_test(strings_view(segs@).skip(pos as int)),
            self.6.spec_child_test(strings_view(segs@).skip(pos as int)),
            self.7.spec_child_test(strings_view(segs@).skip(pos as int)),
            self.8.spec_child_test(strings_view(segs@).skip(pos as int)),
            self.9.spec_child_test(strings_view(segs@).skip(pos as int)),
            self.10.spec_child_test(strings_view(segs@).skip(pos as int)),
            self.11.spec_child_test(strings_view(segs@).skip(pos as int)),
        ];
        if let Some(m) = self.0.test(segs, pos) {
            proof {
                lemma_first_some(s, 0);
            }
            return Some(m);
        }
        assert(s[0] is None);
        if let Some(m) = self.1.test(segs, pos) {
            proof {
                lemma_first_some(s, 1);
            }
            return Some(m);
        }
        assert(s[1] is None);
        if let Some(m) = self.2.test(segs, pos) {
            proof {
                lemma_first_some(s, 2);
            }
            return Some(m);
        }
        assert(s[2] is None);
        if let Some(m) = self.3.test(segs, pos) {
            proof {
                lemma_first_some(s, 3);
            }
            return Some(m);
        }
        assert(s[3] is None);
        if let Some(m) = self.4.test(segs, pos) {
            proof {
                lemma_first_some(s, 4);
            }
            return Some(m);
        }
        assert(s[4] is None);
        if let Some(m) = self.5.test(segs, pos) {
            proof {
                lemma_first_some(s, 5);
            }
            return Some(m);
        }
        assert(s[5] is None);
        if let Some(m) = self.6.test(segs, pos) {
            proof {
                lemma_first_some(s, 6);
            }
            return Some(m);
        }
        assert(s[6] is None);
        if let Some(m) = self.7.test(segs, pos) {
            proof {
                lemma_first_some(s, 7);
            }
            return Some(m);
        }
        assert(s[7] is None);
        if let Some(m) = self.8.test(segs, pos) {
            proof {
                lemma_first_some(s, 8);
            }
            return Some(m);
        }
        assert(s[8] is None);
        if let Some(m) = self.9.test(segs, pos) {
            proof {
                lemma_first_some(s, 9);
            }
            return Some(m);
        }
        assert(s[9] is None);
        if let Some(m) = self.10.test(segs, pos) {
            proof {
                lemma_first_some(s, 10);
            }
            return Some(m);
        }
        assert(s[10] is None);
        if let Some(m) = self.11.test(segs, pos) {
            proof {
                lemma_first_some(s, 11);
            }
            return Some(m);
        }
        assert(s[11] is None);
        proof {
            lemma_first_some(s, 12);
        }
        None
    }
}

impl<A: RouteChild, B: RouteChild, C: RouteChild, D: RouteChild, E: RouteChild, F: RouteChild, G: RouteChild, H: RouteChild, I: RouteChild, J: RouteChild, K: RouteChild, L: RouteChild, M: RouteChild> RouteChild for (A, B, C, D, E, F, G, H, I, J, K, L, M) {
    open spec fn spec_child_test(&self, segs: Seq<Seq<char>>) -> Option<PathMatchView> {
        first_some(seq![self.0.spec_child_test(segs), self.1.spec_child_test(segs), self.2.spec_child_test(segs), self.3.spec_child_test(segs), self.4.spec_child_test(segs), self.5.spec_child_test(segs), self.6.spec_child_test(segs), self.7.spec_child_test(segs), self.8.spec_child_test(segs), self.9.spec_child_test(segs), self.10.spec_child_test(segs), self.11.spec_child_test(segs), self.12.spec_child_test(segs)])
    }

    fn matches(&self, segs: &Vec<String>, pos: usize) -> (b: bool) {
        let ghost s = seq![
            self.0.spec_child_test(strings_view(segs@).skip(pos as int)),
            self.1.spec_child_test(strings_view(segs@).skip(pos as int)),
            self.2.spec_child_test(strings_view(segs@).skip(pos as int)),
            self.3.spec_child_test(strings_view(segs@).skip(pos as int)),
            self.4.spec_child_test(strings_view(segs@).skip(pos as int)),
            self.5.spec_child_test(strings_view(segs@).skip(pos as int)),
            self.6.spec_child_test(strings_view(segs@).skip(pos as int)),
            self.7.spec_child_test(strings_view(segs@).skip(pos as int)),
            self.8.spec_child_test(strings_view(segs@).skip(pos as int)),
            self.9.spec_child_test(strings_view(segs@).skip(pos as int)),
            self.10.spec_child_test(strings_view(segs@).skip(pos as int)),
            self.11.spec_child_test(strings_view(segs@).skip(pos as int)),
            self.12.spec_child_test(strings_view(segs@).skip(pos as int)),
        ];
        if self.0.matches(segs, pos) {
            proof {
                lemma_first_some(s, 0);
            }
            return true;
        }
        assert(s[0] is None);
        if self.1.matches(segs, pos) {
            proof {
                lemma_first_some(s, 1);
            }
            return true;
        }
        assert(s[1] is None);
        if self.2.matches(segs, pos) {
            proof {
                lemma_first_some(s, 2);
            }
            return true;
        }
        assert(s[2] is None);
        if self.3.matches(segs, pos) {
            proof {
                lemma_first_some(s, 3);
            }
            return true;
        }
        assert(s[3] is None);
        if self.4.matches(segs, pos) {
            proof {
                lemma_first_some(s, 4);
            }
            return true;
        }
        assert(s[4] is None);
        if self.5.matches(segs, pos) {
            proof {
                lemma_first_some(s, 5);
            }
            return true;
        }
        assert(s[5] is None);
        if self.6.matches(segs, pos) {
            proof {
                lemma_first_some(s, 6);
            }
            return true;
        }
        assert(s[6] is None);
        if self.7.matches(segs, pos) {
            proof {
                lemma_first_some(s, 7);
            }
            return true;
        }
        assert(s[7] is None);
        if self.8.matches(segs, pos) {
            proof {
                lemma_first_some(s, 8);
            }
            return true;
        }
        assert(s[8] is None);
        if self.9.matches(segs, pos) {
            proof {
                lemma_first_some(s, 9);
            }
            return true;
        }
        assert(s[9] is None);
        if self.10.matches(segs, pos) {
            proof {
                lemma_first_some(s, 10);
            }
            return true;
        }
        assert(s[10] is None);
        if self.11.matches(segs, pos) {
            proof {
                lemma_first_some(s, 11);
            }
            return true;
        }
        assert(s[11] is None);
        if self.12.matches(segs, pos) {
            proof {
                lemma_first_some(s, 12);
            }
            return true;
        }
        assert(s[12] is None);
        proof {
            lemma_first_some(s, 13);
        }
        false
    }

    fn test(&self, segs: &Vec<String>, pos: usize) -> (r: Option<PathMatch>) {
        let ghost s = seq![
            self.0.spec_child_test(strings_view(segs@).skip(pos as int)),
            self.1.spec_child_test(strings_view(segs@).skip(pos as int)),
            self.2.spec_child_test(strings_view(segs@).skip(pos as int)),
            self.3.spec_child_test(strings_view(segs@).skip(pos as int)),
            self.4.spec_child_test(strings_view(segs@).skip(pos as int)),
            self.5.spec_child_test(strings_view(segs@).skip(pos as int)),
            self.6.spec_child_test(strings_view(segs@).skip(pos as int)),
            self.7.spec_child_test(strings_view(segs@).skip(pos as int)),
            self.8.spec_child_test(strings_view(segs@).skip(pos as int)),
            self.9.spec_child_test(strings_view(segs@).skip(pos as int)),
            self.10.spec_child_test(strings_view(segs@).skip(pos as int)),
            self.11.spec_child_test(strings_view(segs@).skip(pos as int)),
            self.12.spec_child_test(strings_view(segs@).skip(pos as int)),
        ];
        if let Some(m) = self.0.test(segs, pos) {
            proof {
                lemma_first_some(s, 0);
            }
            return Some(m);
        }
        assert(s[0] is None);
        if let Some(m) = self.1.test(segs, pos) {
            proof {
                lemma_first_some(s, 1);
            }
            return Some(m);
        }
        assert(s[1] is None);
        if let Some(m) = self.2.test(segs, pos) {
            proof {
                lemma_first_some(s, 2);
            }
            return Some(m);
        }
        assert(s[2] is None);
        if let Some(m) = self.3.test(segs, pos) {
            proof {
                lemma_first_some(s, 3);
            }
            return Some(m);
        }
        assert(s[3] is None);
        if let Some(m) = self.4.test(segs, pos) {
            proof {
                lemma_first_some(s, 4);
            }
            return Some(m);
        }
        assert(s[4] is None);
        if let Some(m) = self.5.test(segs, pos) {
            proof {
                lemma_first_some(s, 5);
            }
            return Some(m);
        }
        assert(s[5] is None);
        if let Some(m) = self.6.test(segs, pos) {
            proof {
                lemma_first_some(s, 6);
            }
            return Some(m);
        }
        assert(s[6] is None);
        if let Some(m) = self.7.test(segs, pos) {
            proof {
                lemma_first_some(s, 7);
            }
            return Some(m);
        }
        assert(s[7] is None);
        if let Some(m) = self.8.test(segs, pos) {
            proof {
                lemma_first_some(s, 8);
            }
            return Some(m);
        }
        assert(s[8] is None);
        if let Some(m) = self.9.test(segs, pos) {
            proof {
                lemma_first_some(s, 9);
            }
            return Some(m);
        }
        assert(s[9] is None);
        if let Some(m) = self.10.test(segs, pos) {
            proof {
                lemma_first_some(s, 10);
            }
            return Some(m);
        }
        assert(s[10] is None);
        if let Some(m) = self.11.test(segs, pos) {
            proof {
                lemma_first_some(s, 11);
            }
            return Some(m);
        }
        assert(s[11] is None);
        if let Some(m) = self.12.test(segs, pos) {
            proof {
                lemma_first_some(s, 12);
            }
            return Some(m);
        }
        assert(s[12] is None);
        proof {
            lemma_first_some(s, 13);
        }
        None
    }
}

impl<A: RouteChild, B: RouteChild, C: RouteChild, D: RouteChild, E: RouteChild, F: RouteChild, G: RouteChild, H: RouteChild, I: RouteChild, J: RouteChild, K: RouteChild, L: RouteChild, M: RouteChild, N: RouteChild> RouteChild for (A, B, C, D, E, F, G, H, I, J, K, L, M, N) {
    open spec fn spec_child_test(&self, segs: Seq<Seq<char>>) -> Option<PathMatchView> {
        first_some(seq![self.0.spec_child_test(segs), self.1.spec_child_test(segs), self.2.spec_child_test(segs), self.3.spec_child_test(segs), self.4.spec_child_test(segs), self.5.spec_child_test(segs), self.6.spec_child_test(segs), self.7.spec_child_test(segs), self.8.spec_child_test(segs), self.9.spec_child_test(segs), self.10.spec_child_test(segs), self.11.spec_child_test(segs), self.12.spec_child_test(segs), self.13.spec_child_test(segs)])
    }

    fn matches(&self, segs: &Vec<String>, pos: usize) -> (b: bool) {
        let ghost s = seq![
            self.0.spec_child_test(strings_view(segs@).skip(pos as int)),
            self.1.spec_child_test(strings_view(segs@).skip(pos as int)),
            self.2.spec_child_test(strings_view(segs@).skip(pos as int)),
            self.3.spec_child_test(strings_view(segs@).skip(pos as int)),
            self.4.spec_child_test(strings_view(segs@).skip(pos as int)),
            self.5.spec_child_test(strings_view(segs@).skip(pos as int)),
            self.6.spec_child_test(strings_view(segs@).skip(pos as int)),
            self.7.spec_child_test(strings_view(segs@).skip(pos as int)),
            self.8.spec_child_test(strings_view(segs@).skip(pos as int)),
            self.9.spec_child_test(strings_view(segs@).skip(pos as int)),
            self.10.spec_child_test(strings_view(segs@).skip(pos as int)),
            self.11.spec_child_test(strings_view(segs@).skip(pos as int)),
            self.12.spec_child_test(strings_view(segs@).skip(pos as int)),
            self.13.spec_child_test(strings_view(segs@).skip(pos as int)),
        ];
        if self.0.matches(segs, pos) {
            proof {
                lemma_first_some(s, 0);
            }
            return true;
        }
        assert(s[0] is None);
        if self.1.matches(segs, pos) {
            proof {
                lemma_first_some(s, 1);
            }
            return true;
        }
        assert(s[1] is None);
        if self.2.matches(segs, pos) {
            proof {
                lemma_first_some(s, 2);
            }
            return true;
        }
        assert(s[2] is None);
        if self.3.matches(segs, pos) {
            proof {
                lemma_first_some(s, 3);
            }
            return true;
        }
        assert(s[3] is None);
        if self.4.matches(segs, pos) {
            proof {
                lemma_first_some(s, 4);
            }
            return true;
        }
        assert(s[4] is None);
        if self.5.matches(segs, pos) {
            proof {
                lemma_first_some(s, 5);
            }
            return true;
        }
        assert(s[5] is None);
        if self.6.matches(segs, pos) {
            proof {
                lemma_first_some(s, 6);
            }
            return true;
        }
        assert(s[6] is None);
        if self.7.matches(segs, pos) {
            proof {
                lemma_first_some(s, 7);
            }
            return true;
        }
        assert(s[7] is None);
        if self.8.matches(segs, pos) {
            proof {
                lemma_first_some(s, 8);
            }
            return true;
        }
        assert(s[8] is None);
        if self.9.matches(segs, pos) {
            proof {
                lemma_first_some(s, 9);
            }
            return true;
        }
        assert(s[9] is None);
        if self.10.matches(segs, pos) {
            proof {
                lemma_first_some(s, 10);
            }
            return true;
        }
        assert(s[10] is None);
        if self.11.matches(segs, pos) {
            proof {
                lemma_first_some(s, 11);
            }
            return true;
        }
        assert(s[11] is None);
        if self.12.matches(segs, pos) {
            proof {
                lemma_first_some(s, 12);
            }
            return true;
        }
        assert(s[12] is None);
        if self.13.matches(segs, pos) {
            proof {
                lemma_first_some(s, 13);
            }
            return true;
        }
        assert(s[13] is None);
        proof {
            lemma_first_some(s, 14);
        }
        false
    }

    fn test(&self, segs: &Vec<String>, pos: usize) -> (r: Option<PathMatch>) {
        let ghost s = seq![
            self.0.spec_child_test(strings_view(segs@).skip(pos as int)),
            self.1.spec_child_test(strings_view(segs@).skip(pos as int)),
            self.2.spec_child_test(strings_view(segs@).skip(pos as int)),
            self.3.spec_child_test(strings_view(segs@).skip(pos as int)),
            self.4.spec_child_test(strings_view(segs@).skip(pos as int)),
            self.5.spec_child_test(strings_view(segs@).skip(pos as int)),
            self.6.spec_child_test(strings_view(segs@).skip(pos as int)),
            self.7.spec_child_test(strings_view(segs@).skip(pos as int)),
            self.8.spec_child_test(strings_view(segs@).skip(pos as int)),
            self.9.spec_child_test(strings_view(segs@).skip(pos as int)),
            self.10.spec_child_test(strings_view(segs@).skip(pos as int)),
            self.11.spec_child_test(strings_view(segs@).skip(pos as int)),
            self.12.spec_child_test(strings_view(segs@).skip(pos as int)),
            self.13.spec_child_test(strings_view(segs@).skip(pos as int)),
        ];
        if let Some(m) = self.0.test(segs, pos) {
            proof {
                lemma_first_some(s, 0);
            }
            return Some(m);
        }
        assert(s[0] is None);
        if let Some(m) = self.1.test(segs, pos) {
            proof {
                lemma_first_some(s, 1);
            }
            return Some(m);
        }
        assert(s[1] is None);
        if let Some(m) = self.2.test(segs, pos) {
            proof {
                lemma_first_some(s, 2);
            }
            return Some(m);
        }
        assert(s[2] is None);
        if let Some(m) = self.3.test(segs, pos) {
            proof {
                lemma_first_some(s, 3);
            }
            return Some(m);
        }
        assert(s[3] is None);
        if let Some(m) = self.4.test(segs, pos) {
            proof {
                lemma_first_some(s, 4);
            }
            return Some(m);
        }
        assert(s[4] is None);
        if let Some(m) = self.5.test(segs, pos) {
            proof {
                lemma_first_some(s, 5);
            }
            return Some(m);
        }
        assert(s[5] is None);
        if let Some(m) = self.6.test(segs, pos) {
            proof {
                lemma_first_some(s, 6);
            }
            return Some(m);
        }
        assert(s[6] is None);
        if let Some(m) = self.7.test(segs, pos) {
            proof {
                lemma_first_some(s, 7);
            }
            return Some(m);
        }
        assert(s[7] is None);
        if let Some(m) = self.8.test(segs, pos) {
            proof {
                lemma_first_some(s, 8);
            }
            return Some(m);
        }
        assert(s[8] is None);
        if let Some(m) = self.9.test(segs, pos) {
            proof {
                lemma_first_some(s, 9);
            }
            return Some(m);
        }
        assert(s[9] is None);
        if let Some(m) = self.10.test(segs, pos) {
            proof {
                lemma_first_some(s, 10);
            }
            return Some(m);
        }
        assert(s[10] is None);
        if let Some(m) = self.11.test(segs, pos) {
            proof {
                lemma_first_some(s, 11);
            }
            return Some(m);
        }
        assert(s[11] is None);
        if let Some(m) = self.12.test(segs, pos) {
            proof {
                lemma_first_some(s, 12);
            }
            return Some(m);
        }
        assert(s[12] is None);
        if let Some(m) = self.13.test(segs, pos) {
            proof {
                lemma_first_some(s, 13);
            }
            return Some(m);
        }
        assert(s[13] is None);
        proof {
            lemma_first_some(s, 14);
        }
        None
    }
}

impl<A: RouteChild, B: RouteChild, C: RouteChild, D: RouteChild, E: RouteChild, F: RouteChild, G: RouteChild, H: RouteChild, I: RouteChild, J: RouteChild, K: RouteChild, L: RouteChild, M: RouteChild, N: RouteChild, O: RouteChild> RouteChild for (A, B, C, D, E, F, G, H, I, J, K, L, M, N, O) {
    open spec fn spec_child_test(&self, segs: Seq<Seq<char>>) -> Option<PathMatchView> {
        first_some(seq![self.0.spec_child_test(segs), self.1.spec_child_test(segs), self.2.spec_child_test(segs), self.3.spec_child_test(segs), self.4.spec_child_test(segs), self.5.spec_child_test(segs), self.6.spec_child_test(segs), self.7.spec_child_test(segs), self.8.spec_child_test(segs), self.9.spec_child_test(segs), self.10.spec_child_test(segs), self.11.spec_child_test(segs), self.12.spec_child_test(segs), self.13.spec_child_test(segs), self.14.spec_child_test(segs)])
    }

    fn matches(&self, segs: &Vec<String>, pos: usize) -> (b: bool) {
        let ghost s = seq![
            self.0.spec_child_test(strings_view(segs@).skip(pos as int)),
            self.1.spec_child_test(strings_view(segs@).skip(pos as int)),
            self.2.spec_child_test(strings_view(segs@).skip(pos as int)),
            self.3.spec_child_test(strings_view(segs@).skip(pos as int)),
            self.4.spec_child_test(strings_view(segs@).skip(pos as int)),
            self.5.spec_child_test(strings_view(segs@).skip(pos as int)),
            self.6.spec_child_test(strings_view(segs@).skip(pos as int)),
            self.7.spec_child_test(strings_view(segs@).skip(pos as int)),
            self.8.spec_child_test(strings_view(segs@).skip(pos as int)),
            self.9.spec_child_test(strings_view(segs@).skip(pos as int)),
            self.10.spec_child_test(strings_view(segs@).skip(pos as int)),
            self.11.spec_child_test(strings_view(segs@).skip(pos as int)),
            self.12.spec_child_test(strings_view(segs@).skip(pos as int)),
            self.13.spec_child_test(strings_view(segs@).skip(pos as int)),
            self.14.spec_child_test(strings_view(segs@).skip(pos as int)),
        ];
        if self.0.matches(segs, pos) {
            proof {
                lemma_first_some(s, 0);
            }
            return true;
        }
        assert(s[0] is None);
        if self.1.matches(segs, pos) {
            proof {
                lemma_first_some(s, 1);
            }
            return true;
        }
        assert(s[1] is None);
        if self.2.matches(segs, pos) {
            proof {
                lemma_first_some(s, 2);
            }
            return true;
        }
        assert(s[2] is None);
        if self.3.matches(segs, pos) {
            proof {
                lemma_first_some(s, 3);
            }
            return true;
        }
        assert(s[3] is None);
        if self.4.matches(segs, pos) {
            proof {
                lemma_first_some(s, 4);
            }
            return true;
        }
        assert(s[4] is None);
        if self.5.matches(segs, pos) {
            proof {
                lemma_first_some(s, 5);
            }
            return true;
        }
        assert(s[5] is None);
        if self.6.matches(segs, pos) {
            proof {
                lemma_first_some(s, 6);
            }
            return true;
        }
        assert(s[6] is None);
        if self.7.matches(segs, pos) {
            proof {
                lemma_first_some(s, 7);
            }
            return true;
        }
        assert(s[7] is None);
        if self.8.matches(segs, pos) {
            proof {
                lemma_first_some(s, 8);
            }
            return true;
        }
        assert(s[8] is None);
        if self.9.matches(segs, pos) {
            proof {
                lemma_first_some(s, 9);
            }
            return true;
        }
        assert(s[9] is None);
        if self.10.matches(segs, pos) {
            proof {
                lemma_first_some(s, 10);
            }
            return true;
        }
        assert(s[10] is None);
        if self.11.matches(segs, pos) {
            proof {
                lemma_first_some(s, 11);
            }
            return true;
        }
        assert(s[11] is None);
        if self.12.matches(segs, pos) {
            proof {
                lemma_first_some(s, 12);
            }
            return true;
        }
        assert(s[12] is None);
        if self.13.matches(segs, pos) {
            proof {
                lemma_first_some(s, 13);
            }
            return true;
        }
        assert(s[13] is None);
        if self.14.matches(segs, pos) {
            proof {
                lemma_first_some(s, 14);
            }
            return true;
        }
        assert(s[14] is None);
        proof {
            lemma_first_some(s, 15);
        }
        false
    }

    fn test(&self, segs: &Vec<String>, pos: usize) -> (r: Option<PathMatch>) {
        let ghost s = seq![
            self.0.spec_child_test(strings_view(segs@).skip(pos as int)),
            self.1.spec_child_test(strings_view(segs@).skip(pos as int)),
            self.2.spec_child_test(strings_view(segs@).skip(pos as int)),
            self.3.spec_child_test(strings_view(segs@).skip(pos as int)),
            self.4.spec_child_test(strings_view(segs@).skip(pos as int)),
            self.5.spec_child_test(strings_view(segs@).skip(pos as int)),
            self.6.spec_child_test(strings_view(segs@).skip(pos as int)),
            self.7.spec_child_test(strings_view(segs@).skip(pos as int)),
            self.8.spec_child_test(strings_view(segs@).skip(pos as int)),
            self.9.spec_child_test(strings_view(segs@).skip(pos as int)),
            self.10.spec_child_test(strings_view(segs@).skip(pos as int)),
            self.11.spec_child_test(strings_view(segs@).skip(pos as int)),
            self.12.spec_child_test(strings_view(segs@).skip(pos as int)),
            self.13.spec_child_test(strings_view(segs@).skip(pos as int)),
            self.14.spec_child_test(strings_view(segs@).skip(pos as int)),
        ];
        if let Some(m) = self.0.test(segs, pos) {
            proof {
                lemma_first_some(s, 0);
            }
            return Some(m);
        }
        assert(s[0] is None);
        if let Some(m) = self.1.test(segs, pos) {
            proof {
                lemma_first_some(s, 1);
            }
            return Some(m);
        }
        assert(s[1] is None);
        if let Some(m) = self.2.test(segs, pos) {
            proof {
                lemma_first_some(s, 2);
            }
            return Some(m);
        }
        assert(s[2] is None);
        if let Some(m) = self.3.test(segs, pos) {
            proof {
                lemma_first_some(s, 3);
            }
            return Some(m);
        }
        assert(s[3] is None);
        if let Some(m) = self.4.test(segs, pos) {
            proof {
                lemma_first_some(s, 4);
            }
            return Some(m);
        }
        assert(s[4] is None);
        if let Some(m) = self.5.test(segs, pos) {
            proof {
                lemma_first_some(s, 5);
            }
            return Some(m);
        }
        assert(s[5] is None);
        if let Some(m) = self.6.test(segs, pos) {
            proof {
                lemma_first_some(s, 6);
            }
            return Some(m);
        }
        assert(s[6] is None);
        if let Some(m) = self.7.test(segs, pos) {
            proof {
                lemma_first_some(s, 7);
            }
            return Some(m);
        }
        assert(s[7] is None);
        if let Some(m) = self.8.test(segs, pos) {
            proof {
                lemma_first_some(s, 8);
            }
            return Some(m);
        }
        assert(s[8] is None);
        if let Some(m) = self.9.test(segs, pos) {
            proof {
                lemma_first_some(s, 9);
            }
            return Some(m);
        }
        assert(s[9] is None);
        if let Some(m) = self.10.test(segs, pos) {
            proof {
                lemma_first_some(s, 10);
            }
            return Some(m);
        }
        assert(s[10] is None);
        if let Some(m) = self.11.test(segs, pos) {
            proof {
                lemma_first_some(s, 11);
            }
            return Some(m);
        }
        assert(s[11] is None);
        if let Some(m) = self.12.test(segs, pos) {
            proof {
                lemma_first_some(s, 12);
            }
            return Some(m);
        }
        assert(s[12] is None);
        if let Some(m) = self.13.test(segs, pos) {
            proof {
                lemma_first_some(s, 13);
            }
            return Some(m);
        }
        assert(s[13] is None);
        if let Some(m) = self.14.test(segs, pos) {
            proof {
                lemma_first_some(s, 14);
            }
            return Some(m);
        }
        assert(s[14] is None);
        proof {
            lemma_first_some(s, 15);
        }
        None
    }
}

impl<A: RouteChild, B: RouteChild, C: RouteChild, D: RouteChild, E: RouteChild, F: RouteChild, G: RouteChild, H: RouteChild, I: RouteChild, J: RouteChild, K: RouteChild, L: RouteChild, M: RouteChild, N: RouteChild, O: RouteChild, P: RouteChild> RouteChild for (A, B, C, D, E, F, G, H, I, J, K, L, M, N, O, P) {
    open spec fn spec_child_test(&self, segs: Seq<Seq<char>>) -> Option<PathMatchView> {
        first_some(seq![self.0.spec_child_test(segs), self.1.spec_child_test(segs), self.2.spec_child_test(segs), self.3.spec_child_test(segs), self.4.spec_child_test(segs), self.5.spec_child_test(segs), self.6.spec_child_test(segs), self.7.spec_child_test(segs), self.8.spec_child_test(segs), self.9.spec_child_test(segs), self.10.spec_child_test(segs), self.11.spec_child_test(segs), self.12.spec_child_test(segs), self.13.spec_child_test(segs), self.14.spec_child_test(segs), self.15.spec_child_test(segs)])
    }

    fn matches(&self, segs: &Vec<String>, pos: usize) -> (b: bool) {
        let ghost s = seq![
            self.0.spec_child_test(strings_view(segs@).skip(pos as int)),
            self.1.spec_child_test(strings_view(segs@).skip(pos as int)),
            self.2.spec_child_test(strings_view(segs@).skip(pos as int)),
            self.3.spec_child_test(strings_view(segs@).skip(pos as int)),
            self.4.spec_child_test(strings_view(segs@).skip(pos as int)),
            self.5.spec_child_test(strings_view(segs@).skip(pos as int)),
            self.6.spec_child_test(strings_view(segs@).skip(pos as int)),
            self.7.spec_child_test(strings_view(segs@).skip(pos as int)),
            self.8.spec_child_test(strings_view(segs@).skip(pos as int)),
            self.9.spec_child_test(strings_view(segs@).skip(pos as int)),
            self.10.spec_child_test(strings_view(segs@).skip(pos as int)),
            self.11.spec_child_test(strings_view(segs@).skip(pos as int)),
            self.12.spec_child_test(strings_view(segs@).skip(pos as int)),
            self.13.spec_child_test(strings_view(segs@).skip(pos as int)),
            self.14.spec_child_test(strings_view(segs@).skip(pos as int)),
            self.15.spec_child_test(strings_view(segs@).skip(pos as int)),
        ];
        if self.0.matches(segs, pos) {
            proof {
                lemma_first_some(s, 0);
            }
            return true;
        }
        assert(s[0] is None);
        if self.1.matches(segs, pos) {
            proof {
                lemma_first_some(s, 1);
            }
            return true;
        }
        assert(s[1] is None);
        if self.2.matches(segs, pos) {
            proof {
                lemma_first_some(s, 2);
            }
            return true;
        }
        assert(s[2] is None);
        if self.3.matches(segs, pos) {
            proof {
                lemma_first_some(s, 3);
            }
            return true;
        }
        assert(s[3] is None);
        if self.4.matches(segs, pos) {
            proof {
                lemma_first_some(s, 4);
            }
            return true;
        }
        assert(s[4] is None);
        if self.5.matches(segs, pos) {
            proof {
                lemma_first_some(s, 5);
            }
            return true;
        }
        assert(s[5] is None);
        if self.6.matches(segs, pos) {
            proof {
                lemma_first_some(s, 6);
            }
            return true;
        }
        assert(s[6] is None);
        if self.7.matches(segs, pos) {
            proof {
                lemma_first_some(s, 7);
            }
            return true;
        }
        assert(s[7] is None);
        if self.8.matches(segs, pos) {
            proof {
                lemma_first_some(s, 8);
            }
            return true;
        }
        assert(s[8] is None);
        if self.9.matches(segs, pos) {
            proof {
                lemma_first_some(s, 9);
            }
            return true;
        }
        assert(s[9] is None);
        if self.10.matches(segs, pos) {
            proof {
                lemma_first_some(s, 10);
            }
            return true;
        }
        assert(s[10] is None);
        if self.11.matches(segs, pos) {
            proof {
                lemma_first_some(s, 11);
            }
            return true;
        }
        assert(s[11] is None);
        if self.12.matches(segs, pos) {
            proof {
                lemma_first_some(s, 12);
            }
            return true;
        }
        assert(s[12] is None);
        if self.13.matches(segs, pos) {
            proof {
                lemma_first_some(s, 13);
            }
            return true;
        }
        assert(s[13] is None);
        if self.14.matches(segs, pos) {
            proof {
                lemma_first_some(s, 14);
            }
            return true;
        }
        assert(s[14] is None);
        if self.15.matches(segs, pos) {
            proof {
                lemma_first_some(s, 15);
            }
            return true;
        }
        assert(s[15] is None);
        proof {
            lemma_first_some(s, 16);
        }
        false
    }

    fn test(&self, segs: &Vec<String>, pos: usize) -> (r: Option<PathMatch>) {
        let ghost s = seq![
            self.0.spec_child_test(strings_view(segs@).skip(pos as int)),
            self.1.spec_child_test(strings_view(segs@).skip(pos as int)),
            self.2.spec_child_test(strings_view(segs@).skip(pos as int)),
            self.3.spec_child_test(strings_view(segs@).skip(pos as int)),
            self.4.spec_child_test(strings_view(segs@).skip(pos as int)),
            self.5.spec_child_test(strings_view(segs@).skip(pos as int)),
            self.6.spec_child_test(strings_view(segs@).skip(pos as int)),
            self.7.spec_child_test(strings_view(segs@).skip(pos as int)),
            self.8.spec_child_test(strings_view(segs@).skip(pos as int)),
            self.9.spec_child_test(strings_view(segs@).skip(pos as int)),
            self.10.spec_child_test(strings_view(segs@).skip(pos as int)),
            self.11.spec_child_test(strings_view(segs@).skip(pos as int)),
            self.12.spec_child_test(strings_view(segs@).skip(pos as int)),
            self.13.spec_child_test(strings_view(segs@).skip(pos as int)),
            self.14.spec_child_test(strings_view(segs@).skip(pos as int)),
            self.15.spec_child_test(strings_view(segs@).skip(pos as int)),
        ];
        if let Some(m) = self.0.test(segs, pos) {
            proof {
                lemma_first_some(s, 0);
            }
            return Some(m);
        }
        assert(s[0] is None);
        if let Some(m) = self.1.test(segs, pos) {
            proof {
                lemma_first_some(s, 1);
            }
            return Some(m);
        }
        assert(s[1] is None);
        if let Some(m) = self.2.test(segs, pos) {
            proof {
                lemma_first_some(s, 2);
            }
            return Some(m);
        }
        assert(s[2] is None);
        if let Some(m) = self.3.test(segs, pos) {
            proof {
                lemma_first_some(s, 3);
            }
            return Some(m);
        }
        assert(s[3] is None);
        if let Some(m) = self.4.test(segs, pos) {
            proof {
                lemma_first_some(s, 4);
            }
            return Some(m);
        }
        assert(s[4] is None);
        if let Some(m) = self.5.test(segs, pos) {
            proof {
                lemma_first_some(s, 5);
            }
            return Some(m);
        }
        assert(s[5] is None);
        if let Some(m) = self.6.test(segs, pos) {
            proof {
                lemma_first_some(s, 6);
            }
            return Some(m);
        }
        assert(s[6] is None);
        if let Some(m) = self.7.test(segs, pos) {
            proof {
                lemma_first_some(s, 7);
            }
            return Some(m);
        }
        assert(s[7] is None);
        if let Some(m) = self.8.test(segs, pos) {
            proof {
                lemma_first_some(s, 8);
            }
            return Some(m);
        }
        assert(s[8] is None);
        if let Some(m) = self.9.test(segs, pos) {
            proof {
                lemma_first_some(s, 9);
            }
            return Some(m);
        }
        assert(s[9] is None);
        if let Some(m) = self.10.test(segs, pos) {
            proof {
                lemma_first_some(s, 10);
            }
            return Some(m);
        }
        assert(s[10] is None);
        if let Some(m) = self.11.test(segs, pos) {
            proof {
                lemma_first_some(s, 11);
            }
            return Some(m);
        }
        assert(s[11] is None);
        if let Some(m) = self.12.test(segs, pos) {
            proof {
                lemma_first_some(s, 12);
            }
            return Some(m);
        }
        assert(s[12] is None);
        if let Some(m) = self.13.test(segs, pos) {
            proof {
                lemma_first_some(s, 13);
            }
            return Some(m);
        }
        assert(s[13] is None);
        if let Some(m) = self.14.test(segs, pos) {
            proof {
                lemma_first_some(s, 14);
            }
            return Some(m);
        }
        assert(s[14] is None);
        if let Some(m) = self.15.test(segs, pos) {
            proof {
                lemma_first_some(s, 15);
            }
            return Some(m);
        }
        assert(s[15] is None);
        proof {
            lemma_first_some(s, 16);
        }
        None
    }
}

impl<A: RouteChild, B: RouteChild, C: RouteChild, D: RouteChild, E: RouteChild, F: RouteChild, G: RouteChild, H: RouteChild, I: RouteChild, J: RouteChild, K: RouteChild, L: RouteChild, M: RouteChild, N: RouteChild, O: RouteChild, P: RouteChild, Q: RouteChild> RouteChild for (A, B, C, D, E, F, G, H, I, J, K, L, M, N, O, P, Q) {
    open spec fn spec_child_test(&self, segs: Seq<Seq<char>>) -> Option<PathMatchView> {
        first_some(seq![self.0.spec_child_test(segs), self.1.spec_child_test(segs), self.2.spec_child_test(segs), self.3.spec_child_test(segs), self.4.spec_child_test(segs), self.5.spec_child_test(segs), self.6.spec_child_test(segs), self.7.spec_child_test(segs), self.8.spec_child_test(segs), self.9.spec_child_test(segs), self.10.spec_child_test(segs), self.11.spec_child_test(segs), self.12.spec_child_test(segs), self.13.spec_child_test(segs), self.14.spec_child_test(segs), self.15.spec_child_test(segs), self.16.spec_child_test(segs)])
    }

    fn matches(&self, segs: &Vec<String>, pos: usize) -> (b: bool) {
        let ghost s = seq![
            self.0.spec_child_test(strings_view(segs@).skip(pos as int)),
            self.1.spec_child_test(strings_view(segs@).skip(pos as int)),
            self.2.spec_child_test(strings_view(segs@).skip(pos as int)),
            self.3.spec_child_test(strings_view(segs@).skip(pos as int)),
            self.4.spec_child_test(strings_view(segs@).skip(pos as int)),
            self.5.spec_child_test(strings_view(segs@).skip(pos as int)),
            self.6.spec_child_test(strings_view(segs@).skip(pos as int)),
            self.7.spec_child_test(strings_view(segs@).skip(pos as int)),
            self.8.spec_child_test(strings_view(segs@).skip(pos as int)),
            self.9.spec_child_test(strings_view(segs@).skip(pos as int)),
            self.10.spec_child_test(strings_view(segs@).skip(pos as int)),
            self.11.spec_child_test(strings_view(segs@).skip(pos as int)),
            self.12.spec_child_test(strings_view(segs@).skip(pos as int)),
            self.13.spec_child_test(strings_view(segs@).skip(pos as int)),
            self.14.spec_child_test(strings_view(segs@).skip(pos as int)),
            self.15.spec_child_test(strings_view(segs@).skip(pos as int)),
            self.16.spec_child_test(strings_view(segs@).skip(pos as int)),
        ];
        if self.0.matches(segs, pos) {
            proof {
                lemma_first_some(s, 0);
            }
            return true;
        }
        assert(s[0] is None);
        if self.1.matches(segs, pos) {
            proof {
                lemma_first_some(s, 1);
            }
            return true;
        }
        assert(s[1] is None);
        if self.2.matches(segs, pos) {
            proof {
                lemma_first_some(s, 2);
            }
            return true;
        }
        assert(s[2] is None);
        if self.3.matches(segs, pos) {
            proof {
                lemma_first_some(s, 3);
            }
            return true;
        }
        assert(s[3] is None);
        if self.4.matches(segs, pos) {
            proof {
                lemma_first_some(s, 4);
            }
            return true;
        }
        assert(s[4] is None);
        if self.5.matches(segs, pos) {
            proof {
                lemma_first_some(s, 5);
            }
            return true;
        }
        assert(s[5] is None);
        if self.6.matches(segs, pos) {
            proof {
                lemma_first_some(s, 6);
            }
            return true;
        }
        assert(s[6] is None);
        if self.7.matches(segs, pos) {
            proof {
                lemma_first_some(s, 7);
            }
            return true;
        }
        assert(s[7] is None);
        if self.8.matches(segs, pos) {
            proof {
                lemma_first_some(s, 8);
            }
            return true;
        }
        assert(s[8] is None);
        if self.9.matches(segs, pos) {
            proof {
                lemma_first_some(s, 9);
            }
            return true;
        }
        assert(s[9] is None);
        if self.10.matches(segs, pos) {
            proof {
                lemma_first_some(s, 10);
            }
            return true;
        }
        assert(s[10] is None);
        if self.11.matches(segs, pos) {
            proof {
                lemma_first_some(s, 11);
            }
            return true;
        }
        assert(s[11] is None);
        if self.12.matches(segs, pos) {
            proof {
                lemma_first_some(s, 12);
            }
            return true;
        }
        assert(s[12] is None);
        if self.13.matches(segs, pos) {
            proof {
                lemma_first_some(s, 13);
            }
            return true;
        }
        assert(s[13] is None);
        if self.14.matches(segs, pos) {
            proof {
                lemma_first_some(s, 14);
            }
            return true;
        }
        assert(s[14] is None);
        if self.15.matches(segs, pos) {
            proof {
                lemma_first_some(s, 15);
            }
            return true;
        }
        assert(s[15] is None);
        if self.16.matches(segs, pos) {
            proof {
                lemma_first_some(s, 16);
            }
            return true;
        }
        assert(s[16] is None);
        proof {
            lemma_first_some(s, 17);
        }
        false
    }

    fn test(&self, segs: &Vec<String>, pos: usize) -> (r: Option<PathMatch>) {
        let ghost s = seq![
            self.0.spec_child_test(strings_view(segs@).skip(pos as int)),
            self.1.spec_child_test(strings_view(segs@).skip(pos as int)),
            self.2.spec_child_test(strings_view(segs@).skip(pos as int)),
            self.3.spec_child_test(strings_view(segs@).skip(pos as int)),
            self.4.spec_child_test(strings_view(segs@).skip(pos as int)),
            self.5.spec_child_test(strings_view(segs@).skip(pos as int)),
            self.6.spec_child_test(strings_view(segs@).skip(pos as int)),
            self.7.spec_child_test(strings_view(segs@).skip(pos as int)),
            self.8.spec_child_test(strings_view(segs@).skip(pos as int)),
            self.9.spec_child_test(strings_view(segs@).skip(pos as int)),
            self.10.spec_child_test(strings_view(segs@).skip(pos as int)),
            self.11.spec_child_test(strings_view(segs@).skip(pos as int)),
            self.12.spec_child_test(strings_view(segs@).skip(pos as int)),
            self.13.spec_child_test(strings_view(segs@).skip(pos as int)),
            self.14.spec_child_test(strings_view(segs@).skip(pos as int)),
            self.15.spec_child_test(strings_view(segs@).skip(pos as int)),
            self.16.spec_child_test(strings_view(segs@).skip(pos as int)),
        ];
        if let Some(m) = self.0.test(segs, pos) {
            proof {
                lemma_first_some(s, 0);
            }
            return Some(m);
        }
        assert(s[0] is None);
        if let Some(m) = self.1.test(segs, pos) {
            proof {
                lemma_first_some(s, 1);
            }
            return Some(m);
        }
        assert(s[1] is None);
        if let Some(m) = self.2.test(segs, pos) {
            proof {
                lemma_first_some(s, 2);
            }
            return Some(m);
        }
        assert(s[2] is None);
        if let Some(m) = self.3.test(segs, pos) {
            proof {
                lemma_first_some(s, 3);
            }
            return Some(m);
        }
        assert(s[3] is None);
        if let Some(m) = self.4.test(segs, pos) {
            proof {
                lemma_first_some(s, 4);
            }
            return Some(m);
        }
        assert(s[4] is None);
        if let Some(m) = self.5.test(segs, pos) {
            proof {
                lemma_first_some(s, 5);
            }
            return Some(m);
        }
        assert(s[5] is None);
        if let Some(m) = self.6.test(segs, pos) {
            proof {
                lemma_first_some(s, 6);
            }
            return Some(m);
        }
        assert(s[6] is None);
        if let Some(m) = self.7.test(segs, pos) {
            proof {
                lemma_first_some(s, 7);
            }
            return Some(m);
        }
        assert(s[7] is None);
        if let Some(m) = self.8.test(segs, pos) {
            proof {
                lemma_first_some(s, 8);
            }
            return Some(m);
        }
        assert(s[8] is None);
        if let Some(m) = self.9.test(segs, pos) {
            proof {
                lemma_first_some(s, 9);
            }
            return Some(m);
        }
        assert(s[9] is None);
        if let Some(m) = self.10.test(segs, pos) {
            proof {
                lemma_first_some(s, 10);
            }
            return Some(m);
        }
        assert(s[10] is None);
        if let Some(m) = self.11.test(segs, pos) {
            proof {
                lemma_first_some(s, 11);
            }
            return Some(m);
        }
        assert(s[11] is None);
        if let Some(m) = self.12.test(segs, pos) {
            proof {
                lemma_first_some(s, 12);
            }
            return Some(m);
        }
        assert(s[12] is None);
        if let Some(m) = self.13.test(segs, pos) {
            proof {
                lemma_first_some(s, 13);
            }
            return Some(m);
        }
        assert(s[13] is None);
        if let Some(m) = self.14.test(segs, pos) {
            proof {
                lemma_first_some(s, 14);
            }
            return Some(m);
        }
        assert(s[14] is None);
        if let Some(m) = self.15.test(segs, pos) {
            proof {
                lemma_first_some(s, 15);
            }
            return Some(m);
        }
        assert(s[15] is None);
        if let Some(m) = self.16.test(segs, pos) {
            proof {
                lemma_first_some(s, 16);
            }
            return Some(m);
        }
        assert(s[16] is None);
        proof {
            lemma_first_some(s, 17);
        }
        None
    }
}

impl<A: RouteChild, B: RouteChild, C: RouteChild, D: RouteChild, E: RouteChild, F: RouteChild, G: RouteChild, H: RouteChild, I: RouteChild, J: RouteChild, K: RouteChild, L: RouteChild, M: RouteChild, N: RouteChild, O: RouteChild, P: RouteChild, Q: RouteChild, R: RouteChild> RouteChild for (A, B, C, D, E, F, G, H, I, J, K, L, M, N, O, P, Q, R) {
    open spec fn spec_child_test(&self, segs: Seq<Seq<char>>) -> Option<PathMatchView> {
        first_some(seq![self.0.spec_child_test(segs), self.1.spec_child_test(segs), self.2.spec_child_test(segs), self.3.spec_child_test(segs), self.4.spec_child_test(segs), self.5.spec_child_test(segs), self.6.spec_child_test(segs), self.7.spec_child_test(segs), self.8.spec_child_test(segs), self.9.spec_child_test(segs), self.10.spec_child_test(segs), self.11.spec_child_test(segs), self.12.spec_child_test(segs), self.13.spec_child_test(segs), self.14.spec_child_test(segs), self.15.spec_child_test(segs), self.16.spec_child_test(segs), self.17.spec_child_test(segs)])
    }

    fn matches(&self, segs: &Vec<String>, pos: usize) -> (b: bool) {
        let ghost s = seq![
            self.0.spec_child_test(strings_view(segs@).skip(pos as int)),
            self.1.spec_child_test(strings_view(segs@).skip(pos as int)),
            self.2.spec_child_test(strings_view(segs@).skip(pos as int)),
            self.3.spec_child_test(strings_view(segs@).skip(pos as int)),
            self.4.spec_child_test(strings_view(segs@).skip(pos as int)),
            self.5.spec_child_test(strings_view(segs@).skip(pos as int)),
            self.6.spec_child_test(strings_view(segs@).skip(pos as int)),
            self.7.spec_child_test(strings_view(segs@).skip(pos as int)),
            self.8.spec_child_test(strings_view(segs@).skip(pos as int)),
            self.9.spec_child_test(strings_view(segs@).skip(pos as int)),
            self.10.spec_child_test(strings_view(segs@).skip(pos as int)),
            self.11.spec_child_test(strings_view(segs@).skip(pos as int)),
            self.12.spec_child_test(strings_view(segs@).skip(pos as int)),
            self.13.spec_child_test(strings_view(segs@).skip(pos as int)),
            self.14.spec_child_test(strings_view(segs@).skip(pos as int)),
            self.15.spec_child_test(strings_view(segs@).skip(pos as int)),
            self.16.spec_child_test(strings_view(segs@).skip(pos as int)),
            self.17.spec_child_test(strings_view(segs@).skip(pos as int)),
        ];
        if self.0.matches(segs, pos) {
            proof {
                lemma_first_some(s, 0);
            }
            return true;
        }
        assert(s[0] is None);
        if self.1.matches(segs, pos) {
            proof {
                lemma_first_some(s, 1);
            }
            return true;
        }
        assert(s[1] is None);
        if self.2.matches(segs, pos) {
            proof {
                lemma_first_some(s, 2);
            }
            return true;
        }
        assert(s[2] is None);
        if self.3.matches(segs, pos) {
            proof {
                lemma_first_some(s, 3);
            }
            return true;
        }
        assert(s[3] is None);
        if self.4.matches(segs, pos) {
            proof {
                lemma_first_some(s, 4);
            }
            return true;
        }
        assert(s[4] is None);
        if self.5.matches(segs, pos) {
            proof {
                lemma_first_some(s, 5);
            }
            return true;
        }
        assert(s[5] is None);
        if self.6.matches(segs, pos) {
            proof {
                lemma_first_some(s, 6);
            }
            return true;
        }
        assert(s[6] is None);
        if self.7.matches(segs, pos) {
            proof {
                lemma_first_some(s, 7);
            }
            return true;
        }
        assert(s[7] is None);
        if self.8.matches(segs, pos) {
            proof {
                lemma_first_some(s, 8);
            }
            return true;
        }
        assert(s[8] is None);
        if self.9.matches(segs, pos) {
            proof {
                lemma_first_some(s, 9);
            }
            return true;
        }
        assert(s[9] is None);
        if self.10.matches(segs, pos) {
            proof {
                lemma_first_some(s, 10);
            }
            return true;
        }
        assert(s[10] is None);
        if self.11.matches(segs, pos) {
            proof {
                lemma_first_some(s, 11);
            }
            return true;
        }
        assert(s[11] is None);
        if self.12.matches(segs, pos) {
            proof {
                lemma_first_some(s, 12);
            }
            return true;
        }
        assert(s[12] is None);
        if self.13.matches(segs, pos) {
            proof {
                lemma_first_some(s, 13);
            }
            return true;
        }
        assert(s[13] is None);
        if self.14.matches(segs, pos) {
            proof {
                lemma_first_some(s, 14);
            }
            return true;
        }
        assert(s[14] is None);
        if self.15.matches(segs, pos) {
            proof {
                lemma_first_some(s, 15);
            }
            return true;
        }
        assert(s[15] is None);
        if self.16.matches(segs, pos) {
            proof {
                lemma_first_some(s, 16);
            }
            return true;
        }
        assert(s[16] is None);
        if self.17.matches(segs, pos) {
            proof {
                lemma_first_some(s, 17);
            }
            return true;
        }
        assert(s[17] is None);
        proof {
            lemma_first_some(s, 18);
        }
        false
    }

    fn test(&self, segs: &Vec<String>, pos: usize) -> (r: Option<PathMatch>) {
        let ghost s = seq![
            self.0.spec_child_test(strings_view(segs@).skip(pos as int)),
            self.1.spec_child_test(strings_view(segs@).skip(pos as int)),
            self.2.spec_child_test(strings_view(segs@).skip(pos as int)),
            self.3.spec_child_test(strings_view(segs@).skip(pos as int)),
            self.4.spec_child_test(strings_view(segs@).skip(pos as int)),
            self.5.spec_child_test(strings_view(segs@).skip(pos as int)),
            self.6.spec_child_test(strings_view(segs@).skip(pos as int)),
            self.7.spec_child_test(strings_view(segs@).skip(pos as int)),
            self.8.spec_child_test(strings_view(segs@).skip(pos as int)),
            self.9.spec_child_test(strings_view(segs@).skip(pos as int)),
            self.10.spec_child_test(strings_view(segs@).skip(pos as int)),
            self.11.spec_child_test(strings_view(segs@).skip(pos as int)),
            self.12.spec_child_test(strings_view(segs@).skip(pos as int)),
            self.13.spec_child_test(strings_view(segs@).skip(pos as int)),
            self.14.spec_child_test(strings_view(segs@).skip(pos as int)),
            self.15.spec_child_test(strings_view(segs@).skip(pos as int)),
            self.16.spec_child_test(strings_view(segs@).skip(pos as int)),
            self.17.spec_child_test(strings_view(segs@).skip(pos as int)),
        ];
        if let Some(m) = self.0.test(segs, pos) {
            proof {
                lemma_first_some(s, 0);
            }
            return Some(m);
        }
        assert(s[0] is None);
        if let Some(m) = self.1.test(segs, pos) {
            proof {
                lemma_first_some(s, 1);
            }
            return Some(m);
        }
        assert(s[1] is None);
        if let Some(m) = self.2.test(segs, pos) {
            proof {
                lemma_first_some(s, 2);
            }
            return Some(m);
        }
        assert(s[2] is None);
        if let Some(m) = self.3.test(segs, pos) {
            proof {
                lemma_first_some(s, 3);
            }
            return Some(m);
        }
        assert(s[3] is None);
        if let Some(m) = self.4.test(segs, pos) {
            proof {
                lemma_first_some(s, 4);
            }
            return Some(m);
        }
        assert(s[4] is None);
        if let Some(m) = self.5.test(segs, pos) {
            proof {
                lemma_first_some(s, 5);
            }
            return Some(m);
        }
        assert(s[5] is None);
        if let Some(m) = self.6.test(segs, pos) {
            proof {
                lemma_first_some(s, 6);
            }
            return Some(m);
        }
        assert(s[6] is None);
        if let Some(m) = self.7.test(segs, pos) {
            proof {
                lemma_first_some(s, 7);
            }
            return Some(m);
        }
        assert(s[7] is None);
        if let Some(m) = self.8.test(segs, pos) {
            proof {
                lemma_first_some(s, 8);
            }
            return Some(m);
        }
        assert(s[8] is None);
        if let Some(m) = self.9.test(segs, pos) {
            proof {
                lemma_first_some(s, 9);
            }
            return Some(m);
        }
        assert(s[9] is None);
        if let Some(m) = self.10.test(segs, pos) {
            proof {
                lemma_first_some(s, 10);
            }
            return Some(m);
        }
        assert(s[10] is None);
        if let Some(m) = self.11.test(segs, pos) {
            proof {
                lemma_first_some(s, 11);
            }
            return Some(m);
        }
        assert(s[11] is None);
        if let Some(m) = self.12.test(segs, pos) {
            proof {
                lemma_first_some(s, 12);
            }
            return Some(m);
        }
        assert(s[12] is None);
        if let Some(m) = self.13.test(segs, pos) {
            proof {
                lemma_first_some(s, 13);
            }
            return Some(m);
        }
        assert(s[13] is None);
        if let Some(m) = self.14.test(segs, pos) {
            proof {
                lemma_first_some(s, 14);
            }
            return Some(m);
        }
        assert(s[14] is None);
        if let Some(m) = self.15.test(segs, pos) {
            proof {
                lemma_first_some(s, 15);
            }
            return Some(m);
        }
        assert(s[15] is None);
        if let Some(m) = self.16.test(segs, pos) {
            proof {
                lemma_first_some(s, 16);
            }
            return Some(m);
        }
        assert(s[16] is None);
        if let Some(m) = self.17.test(segs, pos) {
            proof {
                lemma_first_some(s, 17);
            }
            return Some(m);
        }
        assert(s[17] is None);
        proof {
            lemma_first_some(s, 18);
        }
        None
    }
}

impl<A: RouteChild, B: RouteChild, C: RouteChild, D: RouteChild, E: RouteChild, F: RouteChild, G: RouteChild, H: RouteChild, I: RouteChild, J: RouteChild, K: RouteChild, L: RouteChild, M: RouteChild, N: RouteChild, O: RouteChild, P: RouteChild, Q: RouteChild, R: RouteChild, S: RouteChild> RouteChild for (A, B, C, D, E, F, G, H, I, J, K, L, M, N, O, P, Q, R, S) {
    open spec fn spec_child_test(&self, segs: Seq<Seq<char>>) -> Option<PathMatchView> {
        first_some(seq![self.0.spec_child_test(segs), self.1.spec_child_test(segs), self.2.spec_child_test(segs), self.3.spec_child_test(segs), self.4.spec_child_test(segs), self.5.spec_child_test(segs), self.6.spec_child_test(segs), self.7.spec_child_test(segs), self.8.spec_child_test(segs), self.9.spec_child_test(segs), self.10.spec_child_test(segs), self.11.spec_child_test(segs), self.12.spec_child_test(segs), self.13.spec_child_test(segs), self.14.spec_child_test(segs), self.15.spec_child_test(segs), self.16.spec_child_test(segs), self.17.spec_child_test(segs), self.18.spec_child_test(segs)])
    }

    fn matches(&self, segs: &Vec<String>, pos: usize) -> (b: bool) {
        let ghost s = seq![
            self.0.spec_child_test(strings_view(segs@).skip(pos as int)),
            self.1.spec_child_test(strings_view(segs@).skip(pos as int)),
            self.2.spec_child_test(strings_view(segs@).skip(pos as int)),
            self.3.spec_child_test(strings_view(segs@).skip(pos as int)),
            self.4.spec_child_test(strings_view(segs@).skip(pos as int)),
            self.5.spec_child_test(strings_view(segs@).skip(pos as int)),
            self.6.spec_child_test(strings_view(segs@).skip(pos as int)),
            self.7.spec_child_test(strings_view(segs@).skip(pos as int)),
            self.8.spec_child_test(strings_view(segs@).skip(pos as int)),
            self.9.spec_child_test(strings_view(segs@).skip(pos as int)),
            self.10.spec_child_test(strings_view(segs@).skip(pos as int)),
            self.11.spec_child_test(strings_view(segs@).skip(pos as int)),
            self.12.spec_child_test(strings_view(segs@).skip(pos as int)),
            self.13.spec_child_test(strings_view(segs@).skip(pos as int)),
            self.14.spec_child_test(strings_view(segs@).skip(pos as int)),
            self.15.spec_child_test(strings_view(segs@).skip(pos as int)),
            self.16.spec_child_test(strings_view(segs@).skip(pos as int)),
            self.17.spec_child_test(strings_view(segs@).skip(pos as int)),
            self.18.spec_child_test(strings_view(segs@).skip(pos as int)),
        ];
        if self.0.matches(segs, pos) {
            proof {
                lemma_first_some(s, 0);
            }
            return true;
        }
        assert(s[0] is None);
        if self.1.matches(segs, pos) {
            proof {
                lemma_first_some(s, 1);
            }
            return true;
        }
        assert(s[1] is None);
        if self.2.matches(segs, pos) {
            proof {
                lemma_first_some(s, 2);
            }
            return true;
        }
        assert(s[2] is None);
        if self.3.matches(segs, pos) {
            proof {
                lemma_first_some(s, 3);
            }
            return true;
        }
        assert(s[3] is None);
        if self.4.matches(segs, pos) {
            proof {
                lemma_first_some(s, 4);
            }
            return true;
        }
        assert(s[4] is None);
        if self.5.matches(segs, pos) {
            proof {
                lemma_first_some(s, 5);
            }
            return true;
        }
        assert(s[5] is None);
        if self.6.matches(segs, pos) {
            proof {
                lemma_first_some(s, 6);
            }
            return true;
        }
        assert(s[6] is None);
        if self.7.matches(segs, pos) {
            proof {
                lemma_first_some(s, 7);
            }
            return true;
        }
        assert(s[7] is None);
        if self.8.matches(segs, pos) {
            proof {
                lemma_first_some(s, 8);
            }
            return true;
        }
        assert(s[8] is None);
        if self.9.matches(segs, pos) {
            proof {
                lemma_first_some(s, 9);
            }
            return true;
        }
        assert(s[9] is None);
        if self.10.matches(segs, pos) {
            proof {
                lemma_first_some(s, 10);
            }
            return true;
        }
        assert(s[10] is None);
        if self.11.matches(segs, pos) {
            proof {
                lemma_first_some(s, 11);
            }
            return true;
        }
        assert(s[11] is None);
        if self.12.matches(segs, pos) {
            proof {
                lemma_first_some(s, 12);
            }
            return true;
        }
        assert(s[12] is None);
        if self.13.matches(segs, pos) {
            proof {
                lemma_first_some(s, 13);
            }
            return true;
        }
        assert(s[13] is None);
        if self.14.matches(segs, pos) {
            proof {
                lemma_first_some(s, 14);
            }
            return true;
        }
        assert(s[14] is None);
        if self.15.matches(segs, pos) {
            proof {
                lemma_first_some(s, 15);
            }
            return true;
        }
        assert(s[15] is None);
        if self.16.matches(segs, pos) {
            proof {
                lemma_first_some(s, 16);
            }
            return true;
        }
        assert(s[16] is None);
        if self.17.matches(segs, pos) {
            proof {
                lemma_first_some(s, 17);
            }
            return true;
        }
        assert(s[17] is None);
        if self.18.matches(segs, pos) {
            proof {
                lemma_first_some(s, 18);
            }
            return true;
        }
        assert(s[18] is None);
        proof {
            lemma_first_some(s, 19);
        }
        false
    }

    fn test(&self, segs: &Vec<String>, pos: usize) -> (r: Option<PathMatch>) {
        let ghost s = seq![
            self.0.spec_child_test(strings_view(segs@).skip(pos as int)),
            self.1.spec_child_test(strings_view(segs@).skip(pos as int)),
            self.2.spec_child_test(strings_view(segs@).skip(pos as int)),
            self.3.spec_child_test(strings_view(segs@).skip(pos as int)),
            self.4.spec_child_test(strings_view(segs@).skip(pos as int)),
            self.5.spec_child_test(strings_view(segs@).skip(pos as int)),
            self.6.spec_child_test(strings_view(segs@).skip(pos as int)),
            self.7.spec_child_test(strings_view(segs@).skip(pos as int)),
            self.8.spec_child_test(strings_view(segs@).skip(pos as int)),
            self.9.spec_child_test(strings_view(segs@).skip(pos as int)),
            self.10.spec_child_test(strings_view(segs@).skip(pos as int)),
            self.11.spec_child_test(strings_view(segs@).skip(pos as int)),
            self.12.spec_child_test(strings_view(segs@).skip(pos as int)),
            self.13.spec_child_test(strings_view(segs@).skip(pos as int)),
            self.14.spec_child_test(strings_view(segs@).skip(pos as int)),
            self.15.spec_child_test(strings_view(segs@).skip(pos as int)),
            self.16.spec_child_test(strings_view(segs@).skip(pos as int)),
            self.17.spec_child_test(strings_view(segs@).skip(pos as int)),
            self.18.spec_child_test(strings_view(segs@).skip(pos as int)),
        ];
        if let Some(m) = self.0.test(segs, pos) {
            proof {
                lemma_first_some(s, 0);
            }
            return Some(m);
        }
        assert(s[0] is None);
        if let Some(m) = self.1.test(segs, pos) {
            proof {
                lemma_first_some(s, 1);
            }
            return Some(m);
        }
        assert(s[1] is None);
        if let Some(m) = self.2.test(segs, pos) {
            proof {
                lemma_first_some(s, 2);
            }
            return Some(m);
        }
        assert(s[2] is None);
        if let Some(m) = self.3.test(segs, pos) {
            proof {
                lemma_first_some(s, 3);
            }
            return Some(m);
        }
        assert(s[3] is None);
        if let Some(m) = self.4.test(segs, pos) {
            proof {
                lemma_first_some(s, 4);
            }
            return Some(m);
        }
        assert(s[4] is None);
        if let Some(m) = self.5.test(segs, pos) {
            proof {
                lemma_first_some(s, 5);
            }
            return Some(m);
        }
        assert(s[5] is None);
        if let Some(m) = self.6.test(segs, pos) {
            proof {
                lemma_first_some(s, 6);
            }
            return Some(m);
        }
        assert(s[6] is None);
        if let Some(m) = self.7.test(segs, pos) {
            proof {
                lemma_first_some(s, 7);
            }
            return Some(m);
        }
        assert(s[7] is None);
        if let Some(m) = self.8.test(segs, pos) {
            proof {
                lemma_first_some(s, 8);
            }
            return Some(m);
        }
        assert(s[8] is None);
        if let Some(m) = self.9.test(segs, pos) {
            proof {
                lemma_first_some(s, 9);
            }
            return Some(m);
        }
        assert(s[9] is None);
        if let Some(m) = self.10.test(segs, pos) {
            proof {
                lemma_first_some(s, 10);
            }
            return Some(m);
        }
        assert(s[10] is None);
        if let Some(m) = self.11.test(segs, pos) {
            proof {
                lemma_first_some(s, 11);
            }
            return Some(m);
        }
        assert(s[11] is None);
        if let Some(m) = self.12.test(segs, pos) {
            proof {
                lemma_first_some(s, 12);
            }
            return Some(m);
        }
        assert(s[12] is None);
        if let Some(m) = self.13.test(segs, pos) {
            proof {
                lemma_first_some(s, 13);
            }
            return Some(m);
        }
        assert(s[13] is None);
        if let Some(m) = self.14.test(segs, pos) {
            proof {
                lemma_first_some(s, 14);
            }
            return Some(m);
        }
        assert(s[14] is None);
        if let Some(m) = self.15.test(segs, pos) {
            proof {
                lemma_first_some(s, 15);
            }
            return Some(m);
        }
        assert(s[15] is None);
        if let Some(m) = self.16.test(segs, pos) {
            proof {
                lemma_first_some(s, 16);
            }
            return Some(m);
        }
        assert(s[16] is None);
        if let Some(m) = self.17.test(segs, pos) {
            proof {
                lemma_first_some(s, 17);
            }
            return Some(m);
        }
        assert(s[17] is None);
        if let Some(m) = self.18.test(segs, pos) {
            proof {
                lemma_first_some(s, 18);
            }
            return Some(m);
        }
        assert(s[18] is None);
        proof {
            lemma_first_some(s, 19);
        }
        None
    }
}

impl<A: RouteChild, B: RouteChild, C: RouteChild, D: RouteChild, E: RouteChild, F: RouteChild, G: RouteChild, H: RouteChild, I: RouteChild, J: RouteChild, K: RouteChild, L: RouteChild, M: RouteChild, N: RouteChild, O: RouteChild, P: RouteChild, Q: RouteChild, R: RouteChild, S: RouteChild, T: RouteChild> RouteChild for (A, B, C, D, E, F, G, H, I, J, K, L, M, N, O, P, Q, R, S, T) {
    open spec fn spec_child_test(&self, segs: Seq<Seq<char>>) -> Option<PathMatchView> {
        first_some(seq![self.0.spec_child_test(segs), self.1.spec_child_test(segs), self.2.spec_child_test(segs), self.3.spec_child_test(segs), self.4.spec_child_test(segs), self.5.spec_child_test(segs), self.6.spec_child_test(segs), self.7.spec_child_test(segs), self.8.spec_child_test(segs), self.9.spec_child_test(segs), self.10.spec_child_test(segs), self.11.spec_child_test(segs), self.12.spec_child_test(segs), self.13.spec_child_test(segs), self.14.spec_child_test(segs), self.15.spec_child_test(segs), self.16.spec_child_test(segs), self.17.spec_child_test(segs), self.18.spec_child_test(segs), self.19.spec_child_test(segs)])
    }

    fn matches(&self, segs: &Vec<String>, pos: usize) -> (b: bool) {
        let ghost s = seq![
            self.0.spec_child_test(strings_view(segs@).skip(pos as int)),
            self.1.spec_child_test(strings_view(segs@).skip(pos as int)),
            self.2.spec_child_test(strings_view(segs@).skip(pos as int)),
            self.3.spec_child_test(strings_view(segs@).skip(pos as int)),
            self.4.spec_child_test(strings_view(segs@).skip(pos as int)),
            self.5.spec_child_test(strings_view(segs@).skip(pos as int)),
            self.6.spec_child_test(strings_view(segs@).skip(pos as int)),
            self.7.spec_child_test(strings_view(segs@).skip(pos as int)),
            self.8.spec_child_test(strings_view(segs@).skip(pos as int)),
            self.9.spec_child_test(strings_view(segs@).skip(pos as int)),
            self.10.spec_child_test(strings_view(segs@).skip(pos as int)),
            self.11.spec_child_test(strings_view(segs@).skip(pos as int)),
            self.12.spec_child_test(strings_view(segs@).skip(pos as int)),
            self.13.spec_child_test(strings_view(segs@).skip(pos as int)),
            self.14.spec_child_test(strings_view(segs@).skip(pos as int)),
            self.15.spec_child_test(strings_view(segs@).skip(pos as int)),
            self.16.spec_child_test(strings_view(segs@).skip(pos as int)),
            self.17.spec_child_test(strings_view(segs@).skip(pos as int)),
            self.18.spec_child_test(strings_view(segs@).skip(pos as int)),
            self.19.spec_child_test(strings_view(segs@).skip(pos as int)),
        ];
        if self.0.matches(segs, pos) {
            proof {
                lemma_first_some(s, 0);
            }
            return true;
        }
        assert(s[0] is None);
        if self.1.matches(segs, pos) {
            proof {
                lemma_first_some(s, 1);
            }
            return true;
        }
        assert(s[1] is None);
        if self.2.matches(segs, pos) {
            proof {
                lemma_first_some(s, 2);
            }
            return true;
        }
        assert(s[2] is None);
        if self.3.matches(segs, pos) {
            proof {
                lemma_first_some(s, 3);
            }
            return true;
        }
        assert(s[3] is None);
        if self.4.matches(segs, pos) {
            proof {
                lemma_first_some(s, 4);
            }
            return true;
        }
        assert(s[4] is None);
        if self.5.matches(segs, pos) {
            proof {
                lemma_first_some(s, 5);
            }
            return true;
        }
        assert(s[5] is None);
        if self.6.matches(segs, pos) {
            proof {
                lemma_first_some(s, 6);
            }
            return true;
        }
        assert(s[6] is None);
        if self.7.matches(segs, pos) {
            proof {
                lemma_first_some(s, 7);
            }
            return true;
        }
        assert(s[7] is None);
        if self.8.matches(segs, pos) {
            proof {
                lemma_first_some(s, 8);
            }
            return true;
        }
        assert(s[8] is None);
        if self.9.matches(segs, pos) {
            proof {
                lemma_first_some(s, 9);
            }
            return true;
        }
        assert(s[9] is None);
        if self.10.matches(segs, pos) {
            proof {
                lemma_first_some(s, 10);
            }
            return true;
        }
        assert(s[10] is None);
        if self.11.matches(segs, pos) {
            proof {
                lemma_first_some(s, 11);
            }
            return true;
        }
        assert(s[11] is None);
        if self.12.matches(segs, pos) {
            proof {
                lemma_first_some(s, 12);
            }
            return true;
        }
        assert(s[12] is None);
        if self.13.matches(segs, pos) {
            proof {
                lemma_first_some(s, 13);
            }
            return true;
        }
        assert(s[13] is None);
        if self.14.matches(segs, pos) {
            proof {
                lemma_first_some(s, 14);
            }
            return true;
        }
        assert(s[14] is None);
        if self.15.matches(segs, pos) {
            proof {
                lemma_first_some(s, 15);
            }
            return true;
        }
        assert(s[15] is None);
        if self.16.matches(segs, pos) {
            proof {
                lemma_first_some(s, 16);
            }
            return true;
        }
        assert(s[16] is None);
        if self.17.matches(segs, pos) {
            proof {
                lemma_first_some(s, 17);
            }
            return true;
        }
        assert(s[17] is None);
        if self.18.matches(segs, pos) {
            proof {
                lemma_first_some(s, 18);
            }
            return true;
        }
        assert(s[18] is None);
        if self.19.matches(segs, pos) {
            proof {
                lemma_first_some(s, 19);
            }
            return true;
        }
        assert(s[19] is None);
        proof {
            lemma_first_some(s, 20);
        }
        false
    }

    fn test(&self, segs: &Vec<String>, pos: usize) -> (r: Option<PathMatch>) {
        let ghost s = seq![
            self.0.spec_child_test(strings_view(segs@).skip(pos as int)),
            self.1.spec_child_test(strings_view(segs@).skip(pos as int)),
            self.2.spec_child_test(strings_view(segs@).skip(pos as int)),
            self.3.spec_child_test(strings_view(segs@).skip(pos as int)),
            self.4.spec_child_test(strings_view(segs@).skip(pos as int)),
            self.5.spec_child_test(strings_view(segs@).skip(pos as int)),
            self.6.spec_child_test(strings_view(segs@).skip(pos as int)),
            self.7.spec_child_test(strings_view(segs@).skip(pos as int)),
            self.8.spec_child_test(strings_view(segs@).skip(pos as int)),
            self.9.spec_child_test(strings_view(segs@).skip(pos as int)),
            self.10.spec_child_test(strings_view(segs@).skip(pos as int)),
            self.11.spec_child_test(strings_view(segs@).skip(pos as int)),
            self.12.spec_child_test(strings_view(segs@).skip(pos as int)),
            self.13.spec_child_test(strings_view(segs@).skip(pos as int)),
            self.14.spec_child_test(strings_view(segs@).skip(pos as int)),
            self.15.spec_child_test(strings_view(segs@).skip(pos as int)),
            self.16.spec_child_test(strings_view(segs@).skip(pos as int)),
            self.17.spec_child_test(strings_view(segs@).skip(pos as int)),
            self.18.spec_child_test(strings_view(segs@).skip(pos as int)),
            self.19.spec_child_test(strings_view(segs@).skip(pos as int)),
        ];
        if let Some(m) = self.0.test(segs, pos) {
            proof {
                lemma_first_some(s, 0);
            }
            return Some(m);
        }
        assert(s[0] is None);
        if let Some(m) = self.1.test(segs, pos) {
            proof {
                lemma_first_some(s, 1);
            }
            return Some(m);
        }
        assert(s[1] is None);
        if let Some(m) = self.2.test(segs, pos) {
            proof {
                lemma_first_some(s, 2);
            }
            return Some(m);
        }
        assert(s[2] is None);
        if let Some(m) = self.3.test(segs, pos) {
            proof {
                lemma_first_some(s, 3);
            }
            return Some(m);
        }
        assert(s[3] is None);
        if let Some(m) = self.4.test(segs, pos) {
            proof {
                lemma_first_some(s, 4);
            }
            return Some(m);
        }
        assert(s[4] is None);
        if let Some(m) = self.5.test(segs, pos) {
            proof {
                lemma_first_some(s, 5);
            }
            return Some(m);
        }
        assert(s[5] is None);
        if let Some(m) = self.6.test(segs, pos) {
            proof {
                lemma_first_some(s, 6);
            }
            return Some(m);
        }
        assert(s[6] is None);
        if let Some(m) = self.7.test(segs, pos) {
            proof {
                lemma_first_some(s, 7);
            }
            return Some(m);
        }
        assert(s[7] is None);
        if let Some(m) = self.8.test(segs, pos) {
            proof {
                lemma_first_some(s, 8);
            }
            return Some(m);
        }
        assert(s[8] is None);
        if let Some(m) = self.9.test(segs, pos) {
            proof {
                lemma_first_some(s, 9);
            }
            return Some(m);
        }
        assert(s[9] is None);
        if let Some(m) = self.10.test(segs, pos) {
            proof {
                lemma_first_some(s, 10);
            }
            return Some(m);
        }
        assert(s[10] is None);
        if let Some(m) = self.11.test(segs, pos) {
            proof {
                lemma_first_some(s, 11);
            }
            return Some(m);
        }
        assert(s[11] is None);
        if let Some(m) = self.12.test(segs, pos) {
            proof {
                lemma_first_some(s, 12);
            }
            return Some(m);
        }
        assert(s[12] is None);
        if let Some(m) = self.13.test(segs, pos) {
            proof {
                lemma_first_some(s, 13);
            }
            return Some(m);
        }
        assert(s[13] is None);
        if let Some(m) = self.14.test(segs, pos) {
            proof {
                lemma_first_some(s, 14);
            }
            return Some(m);
        }
        assert(s[14] is None);
        if let Some(m) = self.15.test(segs, pos) {
            proof {
                lemma_first_some(s, 15);
            }
            return Some(m);
        }
        assert(s[15] is None);
        if let Some(m) = self.16.test(segs, pos) {
            proof {
                lemma_first_some(s, 16);
            }
            return Some(m);
        }
        assert(s[16] is None);
        if let Some(m) = self.17.test(segs, pos) {
            proof {
                lemma_first_some(s, 17);
            }
            return Some(m);
        }
        assert(s[17] is None);
        if let Some(m) = self.18.test(segs, pos) {
            proof {
                lemma_first_some(s, 18);
            }
            return Some(m);
        }
        assert(s[18] is None);
        if let Some(m) = self.19.test(segs, pos) {
            proof {
                lemma_first_some(s, 19);
            }
            return Some(m);
        }
        assert(s[19] is None);
        proof {
            lemma_first_some(s, 20);
        }
        None
    }
}

impl<A: RouteChild, B: RouteChild, C: RouteChild, D: RouteChild, E: RouteChild, F: RouteChild, G: RouteChild, H: RouteChild, I: RouteChild, J: RouteChild, K: RouteChild, L: RouteChild, M: RouteChild, N: RouteChild, O: RouteChild, P: RouteChild, Q: RouteChild, R: RouteChild, S: RouteChild, T: RouteChild, U: RouteChild> RouteChild for (A, B, C, D, E, F, G, H, I, J, K, L, M, N, O, P, Q, R, S, T, U) {
    open spec fn spec_child_test(&self, segs: Seq<Seq<char>>) -> Option<PathMatchView> {
        first_some(seq![self.0.spec_child_test(segs), self.1.spec_child_test(segs), self.2.spec_child_test(segs), self.3.spec_child_test(segs), self.4.spec_child_test(segs), self.5.spec_child_test(segs), self.6.spec_child_test(segs), self.7.spec_child_test(segs), self.8.spec_child_test(segs), self.9.spec_child_test(segs), self.10.spec_child_test(segs), self.11.spec_child_test(segs), self.12.spec_child_test(segs), self.13.spec_child_test(segs), self.14.spec_child_test(segs), self.15.spec_child_test(segs), self.16.spec_child_test(segs), self.17.spec_child_test(segs), self.18.spec_child_test(segs), self.19.spec_child_test(segs), self.20.spec_child_test(segs)])
    }

    fn matches(&self, segs: &Vec<String>, pos: usize) -> (b: bool) {
        let ghost s = seq![
            self.0.spec_child_test(strings_view(segs@).skip(pos as int)),
            self.1.spec_child_test(strings_view(segs@).skip(pos as int)),
            self.2.spec_child_test(strings_view(segs@).skip(pos as int)),
            self.3.spec_child_test(strings_view(segs@).skip(pos as int)),
            self.4.spec_child_test(strings_view(segs@).skip(pos as int)),
            self.5.spec_child_test(strings_view(segs@).skip(pos as int)),
            self.6.spec_child_test(strings_view(segs@).skip(pos as int)),
            self.7.spec_child_test(strings_view(segs@).skip(pos as int)),
            self.8.spec_child_test(strings_view(segs@).skip(pos as int)),
            self.9.spec_child_test(strings_view(segs@).skip(pos as int)),
            self.10.spec_child_test(strings_view(segs@).skip(pos as int)),
            self.11.spec_child_test(strings_view(segs@).skip(pos as int)),
            self.12.spec_child_test(strings_view(segs@).skip(pos as int)),
            self.13.spec_child_test(strings_view(segs@).skip(pos as int)),
            self.14.spec_child_test(strings_view(segs@).skip(pos as int)),
            self.15.spec_child_test(strings_view(segs@).skip(pos as int)),
            self.16.spec_child_test(strings_view(segs@).skip(pos as int)),
            self.17.spec_child_test(strings_view(segs@).skip(pos as int)),
            self.18.spec_child_test(strings_view(segs@).skip(pos as int)),
            self.19.spec_child_test(strings_view(segs@).skip(pos as int)),
            self.20.spec_child_test(strings_view(segs@).skip(pos as int)),
        ];
        if self.0.matches(segs, pos) {
            proof {
                lemma_first_some(s, 0);
            }
            return true;
        }
        assert(s[0] is None);
        if self.1.matches(segs, pos) {
            proof {
                lemma_first_some(s, 1);
            }
            return true;
        }
        assert(s[1] is None);
        if self.2.matches(segs, pos) {
            proof {
                lemma_first_some(s, 2);
            }
            return true;
        }
        assert(s[2] is None);
        if self.3.matches(segs, pos) {
            proof {
                lemma_first_some(s, 3);
            }
            return true;
        }
        assert(s[3] is None);
        if self.4.matches(segs, pos) {
            proof {
                lemma_first_some(s, 4);
            }
            return true;
        }
        assert(s[4] is None);
        if self.5.matches(segs, pos) {
            proof {
                lemma_first_some(s, 5);
            }
            return true;
        }
        assert(s[5] is None);
        if self.6.matches(segs, pos) {
            proof {
                lemma_first_some(s, 6);
            }
            return true;
        }
        assert(s[6] is None);
        if self.7.matches(segs, pos) {
            proof {
                lemma_first_some(s, 7);
            }
            return true;
        }
        assert(s[7] is None);
        if self.8.matches(segs, pos) {
            proof {
                lemma_first_some(s, 8);
            }
            return true;
        }
        assert(s[8] is None);
        if self.9.matches(segs, pos) {
            proof {
                lemma_first_some(s, 9);
            }
            return true;
        }
        assert(s[9] is None);
        if self.10.matches(segs, pos) {
            proof {
                lemma_first_some(s, 10);
            }
            return true;
        }
        assert(s[10] is None);
        if self.11.matches(segs, pos) {
            proof {
                lemma_first_some(s, 11);
            }
            return true;
        }
        assert(s[11] is None);
        if self.12.matches(segs, pos) {
            proof {
                lemma_first_some(s, 12);
            }
            return true;
        }
        assert(s[12] is None);
        if self.13.matches(segs, pos) {
            proof {
                lemma_first_some(s, 13);
            }
            return true;
        }
        assert(s[13] is None);
        if self.14.matches(segs, pos) {
            proof {
                lemma_first_some(s, 14);
            }
            return true;
        }
        assert(s[14] is None);
        if self.15.matches(segs, pos) {
            proof {
                lemma_first_some(s, 15);
            }
            return true;
        }
        assert(s[15] is None);
        if self.16.matches(segs, pos) {
            proof {
                lemma_first_some(s, 16);
            }
            return true;
        }
        assert(s[16] is None);
        if self.17.matches(segs, pos) {
            proof {
                lemma_first_some(s, 17);
            }
            return true;
        }
        assert(s[17] is None);
        if self.18.matches(segs, pos) {
            proof {
                lemma_first_some(s, 18);
            }
            return true;
        }
        assert(s[18] is None);
        if self.19.matches(segs, pos) {
            proof {
                lemma_first_some(s, 19);
            }
            return true;
        }
        assert(s[19] is None);
        if self.20.matches(segs, pos) {
            proof {
                lemma_first_some(s, 20);
            }
            return true;
        }
        assert(s[20] is None);
        proof {
            lemma_first_some(s, 21);
        }
        false
    }

    fn test(&self, segs: &Vec<String>, pos: usize) -> (r: Option<PathMatch>) {
        let ghost s = seq![
            self.0.spec_child_test(strings_view(segs@).skip(pos as int)),
            self.1.spec_child_test(strings_view(segs@).skip(pos as int)),
            self.2.spec_child_test(strings_view(segs@).skip(pos as int)),
            self.3.spec_child_test(strings_view(segs@).skip(pos as int)),
            self.4.spec_child_test(strings_view(segs@).skip(pos as int)),
            self.5.spec_child_test(strings_view(segs@).skip(pos as int)),
            self.6.spec_child_test(strings_view(segs@).skip(pos as int)),
            self.7.spec_child_test(strings_view(segs@).skip(pos as int)),
            self.8.spec_child_test(strings_view(segs@).skip(pos as int)),
            self.9.spec_child_test(strings_view(segs@).skip(pos as int)),
            self.10.spec_child_test(strings_view(segs@).skip(pos as int)),
            self.11.spec_child_test(strings_view(segs@).skip(pos as int)),
            self.12.spec_child_test(strings_view(segs@).skip(pos as int)),
            self.13.spec_child_test(strings_view(segs@).skip(pos as int)),
            self.14.spec_child_test(strings_view(segs@).skip(pos as int)),
            self.15.spec_child_test(strings_view(segs@).skip(pos as int)),
            self.16.spec_child_test(strings_view(segs@).skip(pos as int)),
            self.17.spec_child_test(strings_view(segs@).skip(pos as int)),
            self.18.spec_child_test(strings_view(segs@).skip(pos as int)),
            self.19.spec_child_test(strings_view(segs@).skip(pos as int)),
            self.20.spec_child_test(strings_view(segs@).skip(pos as int)),
        ];
        if let Some(m) = self.0.test(segs, pos) {
            proof {
                lemma_first_some(s, 0);
            }
            return Some(m);
        }
        assert(s[0] is None);
        if let Some(m) = self.1.test(segs, pos) {
            proof {
                lemma_first_some(s, 1);
            }
            return Some(m);
        }
        assert(s[1] is None);
        if let Some(m) = self.2.test(segs, pos) {
            proof {
                lemma_first_some(s, 2);
            }
            return Some(m);
        }
        assert(s[2] is None);
        if let Some(m) = self.3.test(segs, pos) {
            proof {
                lemma_first_some(s, 3);
            }
            return Some(m);
        }
        assert(s[3] is None);
        if let Some(m) = self.4.test(segs, pos) {
            proof {
                lemma_first_some(s, 4);
            }
            return Some(m);
        }
        assert(s[4] is None);
        if let Some(m) = self.5.test(segs, pos) {
            proof {
                lemma_first_some(s, 5);
            }
            return Some(m);
        }
        assert(s[5] is None);
        if let Some(m) = self.6.test(segs, pos) {
            proof {
                lemma_first_some(s, 6);
            }
            return Some(m);
        }
        assert(s[6] is None);
        if let Some(m) = self.7.test(segs, pos) {
            proof {
                lemma_first_some(s, 7);
            }
            return Some(m);
        }
        assert(s[7] is None);
        if let Some(m) = self.8.test(segs, pos) {
            proof {
                lemma_first_some(s, 8);
            }
            return Some(m);
        }
        assert(s[8] is None);
        if let Some(m) = self.9.test(segs, pos) {
            proof {
                lemma_first_some(s, 9);
            }
            return Some(m);
        }
        assert(s[9] is None);
        if let Some(m) = self.10.test(segs, pos) {
            proof {
                lemma_first_some(s, 10);
            }
            return Some(m);
        }
        assert(s[10] is None);
        if let Some(m) = self.11.test(segs, pos) {
            proof {
                lemma_first_some(s, 11);
            }
            return Some(m);
        }
        assert(s[11] is None);
        if let Some(m) = self.12.test(segs, pos) {
            proof {
                lemma_first_some(s, 12);
            }
            return Some(m);
        }
        assert(s[12] is None);
        if let Some(m) = self.13.test(segs, pos) {
            proof {
                lemma_first_some(s, 13);
            }
            return Some(m);
        }
        assert(s[13] is None);
        if let Some(m) = self.14.test(segs, pos) {
            proof {
                lemma_first_some(s, 14);
            }
            return Some(m);
        }
        assert(s[14] is None);
        if let Some(m) = self.15.test(segs, pos) {
            proof {
                lemma_first_some(s, 15);
            }
            return Some(m);
        }
        assert(s[15] is None);
        if let Some(m) = self.16.test(segs, pos) {
            proof {
                lemma_first_some(s, 16);
            }
            return Some(m);
        }
        assert(s[16] is None);
        if let Some(m) = self.17.test(segs, pos) {
            proof {
                lemma_first_some(s, 17);
            }
            return Some(m);
        }
        assert(s[17] is None);
        if let Some(m) = self.18.test(segs, pos) {
            proof {
                lemma_first_some(s, 18);
            }
            return Some(m);
        }
        assert(s[18] is None);
        if let Some(m) = self.19.test(segs, pos) {
            proof {
                lemma_first_some(s, 19);
            }
            return Some(m);
        }
        assert(s[19] is None);
        if let Some(m) = self.20.test(segs, pos) {
            proof {
                lemma_first_some(s, 20);
            }
            return Some(m);
        }
        assert(s[20] is None);
        proof {
            lemma_first_some(s, 21);
        }
        None
    }
}

impl<A: RouteChild, B: RouteChild, C: RouteChild, D: RouteChild, E: RouteChild, F: RouteChild, G: RouteChild, H: RouteChild, I: RouteChild, J: RouteChild, K: RouteChild, L: RouteChild, M: RouteChild, N: RouteChild, O: RouteChild, P: RouteChild, Q: RouteChild, R: RouteChild, S: RouteChild, T: RouteChild, U: RouteChild, V: RouteChild> RouteChild for (A, B, C, D, E, F, G, H, I, J, K, L, M, N, O, P, Q, R, S, T, U, V) {
    open spec fn spec_child_test(&self, segs: Seq<Seq<char>>) -> Option<PathMatchView> {
        first_some(seq![self.0.spec_child_test(segs), self.1.spec_child_test(segs), self.2.spec_child_test(segs), self.3.spec_child_test(segs), self.4.spec_child_test(segs), self.5.spec_child_test(segs), self.6.spec_child_test(segs), self.7.spec_child_test(segs), self.8.spec_child_test(segs), self.9.spec_child_test(segs), self.10.spec_child_test(segs), self.11.spec_child_test(segs), self.12.spec_child_test(segs), self.13.spec_child_test(segs), self.14.spec_child_test(segs), self.15.spec_child_test(segs), self.16.spec_child_test(segs), self.17.spec_child_test(segs), self.18.spec_child_test(segs), self.19.spec_child_test(segs), self.20.spec_child_test(segs), self.21.spec_child_test(segs)])
    }

    fn matches(&self, segs: &Vec<String>, pos: usize) -> (b: bool) {
        let ghost s = seq![
            self.0.spec_child_test(strings_view(segs@).skip(pos as int)),
            self.1.spec_child_test(strings_view(segs@).skip(pos as int)),
            self.2.spec_child_test(strings_view(segs@).skip(pos as int)),
            self.3.spec_child_test(strings_view(segs@).skip(pos as int)),
            self.4.spec_child_test(strings_view(segs@).skip(pos as int)),
            self.5.spec_child_test(strings_view(segs@).skip(pos as int)),
            self.6.spec_child_test(strings_view(segs@).skip(pos as int)),
            self.7.spec_child_test(strings_view(segs@).skip(pos as int)),
            self.8.spec_child_test(strings_view(segs@).skip(pos as int)),
            self.9.spec_child_test(strings_view(segs@).skip(pos as int)),
            self.10.spec_child_test(strings_view(segs@).skip(pos as int)),
            self.11.spec_child_test(strings_view(segs@).skip(pos as int)),
            self.12.spec_child_test(strings_view(segs@).skip(pos as int)),
            self.13.spec_child_test(strings_view(segs@).skip(pos as int)),
            self.14.spec_child_test(strings_view(segs@).skip(pos as int)),
            self.15.spec_child_test(strings_view(segs@).skip(pos as int)),
            self.16.spec_child_test(strings_view(segs@).skip(pos as int)),
            self.17.spec_child_test(strings_view(segs@).skip(pos as int)),
            self.18.spec_child_test(strings_view(segs@).skip(pos as int)),
            self.19.spec_child_test(strings_view(segs@).skip(pos as int)),
            self.20.spec_child_test(strings_view(segs@).skip(pos as int)),
            self.21.spec_child_test(strings_view(segs@).skip(pos as int)),
        ];
        if self.0.matches(segs, pos) {
            proof {
                lemma_first_some(s, 0);
            }
            return true;
        }
        assert(s[0] is None);
        if self.1.matches(segs, pos) {
            proof {
                lemma_first_some(s, 1);
            }
            return true;
        }
        assert(s[1] is None);
        if self.2.matches(segs, pos) {
            proof {
                lemma_first_some(s, 2);
            }
            return true;
        }
        assert(s[2] is None);
        if self.3.matches(segs, pos) {
            proof {
                lemma_first_some(s, 3);
            }
            return true;
        }
        assert(s[3] is None);
        if self.4.matches(segs, pos) {
            proof {
                lemma_first_some(s, 4);
            }
            return true;
        }
        assert(s[4] is None);
        if self.5.matches(segs, pos) {
            proof {
                lemma_first_some(s, 5);
            }
            return true;
        }
        assert(s[5] is None);
        if self.6.matches(segs, pos) {
            proof {
                lemma_first_some(s, 6);
            }
            return true;
        }
        assert(s[6] is None);
        if self.7.matches(segs, pos) {
            proof {
                lemma_first_some(s, 7);
            }
            return true;
        }
        assert(s[7] is None);
        if self.8.matches(segs, pos) {
            proof {
                lemma_first_some(s, 8);
            }
            return true;
        }
        assert(s[8] is None);
        if self.9.matches(segs, pos) {
            proof {
                lemma_first_some(s, 9);
            }
            return true;
        }
        assert(s[9] is None);
        if self.10.matches(segs, pos) {
            proof {
                lemma_first_some(s, 10);
            }
            return true;
        }
        assert(s[10] is None);
        if self.11.matches(segs, pos) {
            proof {
                lemma_first_some(s, 11);
            }
            return true;
        }
        assert(s[11] is None);
        if self.12.matches(segs, pos) {
            proof {
                lemma_first_some(s, 12);
            }
            return true;
        }
        assert(s[12] is None);
        if self.13.matches(segs, pos) {
            proof {
                lemma_first_some(s, 13);
            }
            return true;
        }
        assert(s[13] is None);
        if self.14.matches(segs, pos) {
            proof {
                lemma_first_some(s, 14);
            }
            return true;
        }
        assert(s[14] is None);
        if self.15.matches(segs, pos) {
            proof {
                lemma_first_some(s, 15);
            }
            return true;
        }
        assert(s[15] is None);
        if self.16.matches(segs, pos) {
            proof {
                lemma_first_some(s, 16);
            }
            return true;
        }
        assert(s[16] is None);
        if self.17.matches(segs, pos) {
            proof {
                lemma_first_some(s, 17);
            }
            return true;
        }
        assert(s[17] is None);
        if self.18.matches(segs, pos) {
            proof {
                lemma_first_some(s, 18);
            }
            return true;
        }
        assert(s[18] is None);
        if self.19.matches(segs, pos) {
            proof {
                lemma_first_some(s, 19);
            }
            return true;
        }
        assert(s[19] is None);
        if self.20.matches(segs, pos) {
            proof {
                lemma_first_some(s, 20);
            }
            return true;
        }
        assert(s[20] is None);
        if self.21.matches(segs, pos) {
            proof {
                lemma_first_some(s, 21);
            }
            return true;
        }
        assert(s[21] is None);
        proof {
            lemma_first_some(s, 22);
        }
        false
    }

    fn test(&self, segs: &Vec<String>, pos: usize) -> (r: Option<PathMatch>) {
        let ghost s = seq![
            self.0.spec_child_test(strings_view(segs@).skip(pos as int)),
            self.1.spec_child_test(strings_view(segs@).skip(pos as int)),
            self.2.spec_child_test(strings_view(segs@).skip(pos as int)),
            self.3.spec_child_test(strings_view(segs@).skip(pos as int)),
            self.4.spec_child_test(strings_view(segs@).skip(pos as int)),
            self.5.spec_child_test(strings_view(segs@).skip(pos as int)),
            self.6.spec_child_test(strings_view(segs@).skip(pos as int)),
            self.7.spec_child_test(strings_view(segs@).skip(pos as int)),
            self.8.spec_child_test(strings_view(segs@).skip(pos as int)),
            self.9.spec_child_test(strings_view(segs@).skip(pos as int)),
            self.10.spec_child_test(strings_view(segs@).skip(pos as int)),
            self.11.spec_child_test(strings_view(segs@).skip(pos as int)),
            self.12.spec_child_test(strings_view(segs@).skip(pos as int)),
            self.13.spec_child_test(strings_view(segs@).skip(pos as int)),
            self.14.spec_child_test(strings_view(segs@).skip(pos as int)),
            self.15.spec_child_test(strings_view(segs@).skip(pos as int)),
            self.16.spec_child_test(strings_view(segs@).skip(pos as int)),
            self.17.spec_child_test(strings_view(segs@).skip(pos as int)),
            self.18.spec_child_test(strings_view(segs@).skip(pos as int)),
            self.19.spec_child_test(strings_view(segs@).skip(pos as int)),
            self.20.spec_child_test(strings_view(segs@).skip(pos as int)),
            self.21.spec_child_test(strings_view(segs@).skip(pos as int)),
        ];
        if let Some(m) = self.0.test(segs, pos) {
            proof {
                lemma_first_some(s, 0);
            }
            return Some(m);
        }
        assert(s[0] is None);
        if let Some(m) = self.1.test(segs, pos) {
            proof {
                lemma_first_some(s, 1);
            }
            return Some(m);
        }
        assert(s[1] is None);
        if let Some(m) = self.2.test(segs, pos) {
            proof {
                lemma_first_some(s, 2);
            }
            return Some(m);
        }
        assert(s[2] is None);
        if let Some(m) = self.3.test(segs, pos) {
            proof {
                lemma_first_some(s, 3);
            }
            return Some(m);
        }
        assert(s[3] is None);
        if let Some(m) = self.4.test(segs, pos) {
            proof {
                lemma_first_some(s, 4);
            }
            return Some(m);
        }
        assert(s[4] is None);
        if let Some(m) = self.5.test(segs, pos) {
            proof {
                lemma_first_some(s, 5);
            }
            return Some(m);
        }
        assert(s[5] is None);
        if let Some(m) = self.6.test(segs, pos) {
            proof {
                lemma_first_some(s, 6);
            }
            return Some(m);
        }
        assert(s[6] is None);
        if let Some(m) = self.7.test(segs, pos) {
            proof {
                lemma_first_some(s, 7);
            }
            return Some(m);
        }
        assert(s[7] is None);
        if let Some(m) = self.8.test(segs, pos) {
            proof {
                lemma_first_some(s, 8);
            }
            return Some(m);
        }
        assert(s[8] is None);
        if let Some(m) = self.9.test(segs, pos) {
            proof {
                lemma_first_some(s, 9);
            }
            return Some(m);
        }
        assert(s[9] is None);
        if let Some(m) = self.10.test(segs, pos) {
            proof {
                lemma_first_some(s, 10);
            }
            return Some(m);
        }
        assert(s[10] is None);
        if let Some(m) = self.11.test(segs, pos) {
            proof {
                lemma_first_some(s, 11);
            }
            return Some(m);
        }
        assert(s[11] is None);
        if let Some(m) = self.12.test(segs, pos) {
            proof {
                lemma_first_some(s, 12);
            }
            return Some(m);
        }
        assert(s[12] is None);
        if let Some(m) = self.13.test(segs, pos) {
            proof {
                lemma_first_some(s, 13);
            }
            return Some(m);
        }
        assert(s[13] is None);
        if let Some(m) = self.14.test(segs, pos) {
            proof {
                lemma_first_some(s, 14);
            }
            return Some(m);
        }
        assert(s[14] is None);
        if let Some(m) = self.15.test(segs, pos) {
            proof {
                lemma_first_some(s, 15);
            }
            return Some(m);
        }
        assert(s[15] is None);
        if let Some(m) = self.16.test(segs, pos) {
            proof {
                lemma_first_some(s, 16);
            }
            return Some(m);
        }
        assert(s[16] is None);
        if let Some(m) = self.17.test(segs, pos) {
            proof {
                lemma_first_some(s, 17);
            }
            return Some(m);
        }
        assert(s[17] is None);
        if let Some(m) = self.18.test(segs, pos) {
            proof {
                lemma_first_some(s, 18);
            }
            return Some(m);
        }
        assert(s[18] is None);
        if let Some(m) = self.19.test(segs, pos) {
            proof {
                lemma_first_some(s, 19);
            }
            return Some(m);
        }
        assert(s[19] is None);
        if let Some(m) = self.20.test(segs, pos) {
            proof {
                lemma_first_some(s, 20);
            }
            return Some(m);
        }
        assert(s[20] is None);
        if let Some(m) = self.21.test(segs, pos) {
            proof {
                lemma_first_some(s, 21);
            }
            return Some(m);
        }
        assert(s[21] is None);
        proof {
            lemma_first_some(s, 22);
        }
        None
    }
}

impl<A: RouteChild, B: RouteChild, C: RouteChild, D: RouteChild, E: RouteChild, F: RouteChild, G: RouteChild, H: RouteChild, I: RouteChild, J: RouteChild, K: RouteChild, L: RouteChild, M: RouteChild, N: RouteChild, O: RouteChild, P: RouteChild, Q: RouteChild, R: RouteChild, S: RouteChild, T: RouteChild, U: RouteChild, V: RouteChild, W: RouteChild> RouteChild for (A, B, C, D, E, F, G, H, I, J, K, L, M, N, O, P, Q, R, S, T, U, V, W) {
    open spec fn spec_child_test(&self, segs: Seq<Seq<char>>) -> Option<PathMatchView> {
        first_some(seq![self.0.spec_child_test(segs), self.1.spec_child_test(segs), self.2.spec_child_test(segs), self.3.spec_child_test(segs), self.4.spec_child_test(segs), self.5.spec_child_test(segs), self.6.spec_child_test(segs), self.7.spec_child_test(segs), self.8.spec_child_test(segs), self.9.spec_child_test(segs), self.10.spec_child_test(segs), self.11.spec_child_test(segs), self.12.spec_child_test(segs), self.13.spec_child_test(segs), self.14.spec_child_test(segs), self.15.spec_child_test(segs), self.16.spec_child_test(segs), self.17.spec_child_test(segs), self.18.spec_child_test(segs), self.19.spec_child_test(segs), self.20.spec_child_test(segs), self.21.spec_child_test(segs), self.22.spec_child_test(segs)])
    }

    fn matches(&self, segs: &Vec<String>, pos: usize) -> (b: bool) {
        let ghost s = seq![
            self.0.spec_child_test(strings_view(segs@).skip(pos as int)),
            self.1.spec_child_test(strings_view(segs@).skip(pos as int)),
            self.2.spec_child_test(strings_view(segs@).skip(pos as int)),
            self.3.spec_child_test(strings_view(segs@).skip(pos as int)),
            self.4.spec_child_test(strings_view(segs@).skip(pos as int)),
            self.5.spec_child_test(strings_view(segs@).skip(pos as int)),
            self.6.spec_child_test(strings_view(segs@).skip(pos as int)),
            self.7.spec_child_test(strings_view(segs@).skip(pos as int)),
            self.8.spec_child_test(strings_view(segs@).skip(pos as int)),
            self.9.spec_child_test(strings_view(segs@).skip(pos as int)),
            self.10.spec_child_test(strings_view(segs@).skip(pos as int)),
            self.11.spec_child_test(strings_view(segs@).skip(pos as int)),
            self.12.spec_child_test(strings_view(segs@).skip(pos as int)),
            self.13.spec_child_test(strings_view(segs@).skip(pos as int)),
            self.14.spec_child_test(strings_view(segs@).skip(pos as int)),
            self.15.spec_child_test(strings_view(segs@).skip(pos as int)),
            self.16.spec_child_test(strings_view(segs@).skip(pos as int)),
            self.17.spec_child_test(strings_view(segs@).skip(pos as int)),
            self.18.spec_child_test(strings_view(segs@).skip(pos as int)),
            self.19.spec_child_test(strings_view(segs@).skip(pos as int)),
            self.20.spec_child_test(strings_view(segs@).skip(pos as int)),
            self.21.spec_child_test(strings_view(segs@).skip(pos as int)),
            self.22.spec_child_test(strings_view(segs@).skip(pos as int)),
        ];
        if self.0.matches(segs, pos) {
            proof {
                lemma_first_some(s, 0);
            }
            return true;
        }
        assert(s[0] is None);
        if self.1.matches(segs, pos) {
            proof {
                lemma_first_some(s, 1);
            }
            return true;
        }
        assert(s[1] is None);
        if self.2.matches(segs, pos) {
            proof {
                lemma_first_some(s, 2);
            }
            return true;
        }
        assert(s[2] is None);
        if self.3.matches(segs, pos) {
            proof {
                lemma_first_some(s, 3);
            }
            return true;
        }
        assert(s[3] is None);
        if self.4.matches(segs, pos) {
            proof {
                lemma_first_some(s, 4);
            }
            return true;
        }
        assert(s[4] is None);
        if self.5.matches(segs, pos) {
            proof {
                lemma_first_some(s, 5);
            }
            return true;
        }
        assert(s[5] is None);
        if self.6.matches(segs, pos) {
            proof {
                lemma_first_some(s, 6);
            }
            return true;
        }
        assert(s[6] is None);
        if self.7.matches(segs, pos) {
            proof {
                lemma_first_some(s, 7);
            }
            return true;
        }
        assert(s[7] is None);
        if self.8.matches(segs, pos) {
            proof {
                lemma_first_some(s, 8);
            }
            return true;
        }
        assert(s[8] is None);
        if self.9.matches(segs, pos) {
            proof {
                lemma_first_some(s, 9);
            }
            return true;
        }
        assert(s[9] is None);
        if self.10.matches(segs, pos) {
            proof {
                lemma_first_some(s, 10);
            }
            return true;
        }
        assert(s[10] is None);
        if self.11.matches(segs, pos) {
            proof {
                lemma_first_some(s, 11);
            }
            return true;
        }
        assert(s[11] is None);
        if self.12.matches(segs, pos) {
            proof {
                lemma_first_some(s, 12);
            }
            return true;
        }
        assert(s[12] is None);
        if self.13.matches(segs, pos) {
            proof {
                lemma_first_some(s, 13);
            }
            return true;
        }
        assert(s[13] is None);
        if self.14.matches(segs, pos) {
            proof {
                lemma_first_some(s, 14);
            }
            return true;
        }
        assert(s[14] is None);
        if self.15.matches(segs, pos) {
            proof {
                lemma_first_some(s, 15);
            }
            return true;
        }
        assert(s[15] is None);
        if self.16.matches(segs, pos) {
            proof {
                lemma_first_some(s, 16);
            }
            return true;
        }
        assert(s[16] is None);
        if self.17.matches(segs, pos) {
            proof {
                lemma_first_some(s, 17);
            }
            return true;
        }
        assert(s[17] is None);
        if self.18.matches(segs, pos) {
            proof {
                lemma_first_some(s, 18);
            }
            return true;
        }
        assert(s[18] is None);
        if self.19.matches(segs, pos) {
            proof {
                lemma_first_some(s, 19);
            }
            return true;
        }
        assert(s[19] is None);
        if self.20.matches(segs, pos) {
            proof {
                lemma_first_some(s, 20);
            }
            return true;
        }
        assert(s[20] is None);
        if self.21.matches(segs, pos) {
            proof {
                lemma_first_some(s, 21);
            }
            return true;
        }
        assert(s[21] is None);
        if self.22.matches(segs, pos) {
            proof {
                lemma_first_some(s, 22);
            }
            return true;
        }
        assert(s[22] is None);
        proof {
            lemma_first_some(s, 23);
        }
        false
    }

    fn test(&self, segs: &Vec<String>, pos: usize) -> (r: Option<PathMatch>) {
        let ghost s = seq![
            self.0.spec_child_test(strings_view(segs@).skip(pos as int)),
            self.1.spec_child_test(strings_view(segs@).skip(pos as int)),
            self.2.spec_child_test(strings_view(segs@).skip(pos as int)),
            self.3.spec_child_test(strings_view(segs@).skip(pos as int)),
            self.4.spec_child_test(strings_view(segs@).skip(pos as int)),
            self.5.spec_child_test(strings_view(segs@).skip(pos as int)),
            self.6.spec_child_test(strings_view(segs@).skip(pos as int)),
            self.7.spec_child_test(strings_view(segs@).skip(pos as int)),
            self.8.spec_child_test(strings_view(segs@).skip(pos as int)),
            self.9.spec_child_test(strings_view(segs@).skip(pos as int)),
            self.10.spec_child_test(strings_view(segs@).skip(pos as int)),
            self.11.spec_child_test(strings_view(segs@).skip(pos as int)),
            self.12.spec_child_test(strings_view(segs@).skip(pos as int)),
            self.13.spec_child_test(strings_view(segs@).skip(pos as int)),
            self.14.spec_child_test(strings_view(segs@).skip(pos as int)),
            self.15.spec_child_test(strings_view(segs@).skip(pos as int)),
            self.16.spec_child_test(strings_view(segs@).skip(pos as int)),
            self.17.spec_child_test(strings_view(segs@).skip(pos as int)),
            self.18.spec_child_test(strings_view(segs@).skip(pos as int)),
            self.19.spec_child_test(strings_view(segs@).skip(pos as int)),
            self.20.spec_child_test(strings_view(segs@).skip(pos as int)),
            self.21.spec_child_test(strings_view(segs@).skip(pos as int)),
            self.22.spec_child_test(strings_view(segs@).skip(pos as int)),
        ];
        if let Some(m) = self.0.test(segs, pos) {
            proof {
                lemma_first_some(s, 0);
            }
            return Some(m);
        }
        assert(s[0] is None);
        if let Some(m) = self.1.test(segs, pos) {
            proof {
                lemma_first_some(s, 1);
            }
            return Some(m);
        }
        assert(s[1] is None);
        if let Some(m) = self.2.test(segs, pos) {
            proof {
                lemma_first_some(s, 2);
            }
            return Some(m);
        }
        assert(s[2] is None);
        if let Some(m) = self.3.test(segs, pos) {
            proof {
                lemma_first_some(s, 3);
            }
            return Some(m);
        }
        assert(s[3] is None);
        if let Some(m) = self.4.test(segs, pos) {
            proof {
                lemma_first_some(s, 4);
            }
            return Some(m);
        }
        assert(s[4] is None);
        if let Some(m) = self.5.test(segs, pos) {
            proof {
                lemma_first_some(s, 5);
            }
            return Some(m);
        }
        assert(s[5] is None);
        if let Some(m) = self.6.test(segs, pos) {
            proof {
                lemma_first_some(s, 6);
            }
            return Some(m);
        }
        assert(s[6] is None);
        if let Some(m) = self.7.test(segs, pos) {
            proof {
                lemma_first_some(s, 7);
            }
            return Some(m);
        }
        assert(s[7] is None);
        if let Some(m) = self.8.test(segs, pos) {
            proof {
                lemma_first_some(s, 8);
            }
            return Some(m);
        }
        assert(s[8] is None);
        if let Some(m) = self.9.test(segs, pos) {
            proof {
                lemma_first_some(s, 9);
            }
            return Some(m);
        }
        assert(s[9] is None);
        if let Some(m) = self.10.test(segs, pos) {
            proof {
                lemma_first_some(s, 10);
            }
            return Some(m);
        }
        assert(s[10] is None);
        if let Some(m) = self.11.test(segs, pos) {
            proof {
                lemma_first_some(s, 11);
            }
            return Some(m);
        }
        assert(s[11] is None);
        if let Some(m) = self.12.test(segs, pos) {
            proof {
                lemma_first_some(s, 12);
            }
            return Some(m);
        }
        assert(s[12] is None);
        if let Some(m) = self.13.test(segs, pos) {
            proof {
                lemma_first_some(s, 13);
            }
            return Some(m);
        }
        assert(s[13] is None);
        if let Some(m) = self.14.test(segs, pos) {
            proof {
                lemma_first_some(s, 14);
            }
            return Some(m);
        }
        assert(s[14] is None);
        if let Some(m) = self.15.test(segs, pos) {
            proof {
                lemma_first_some(s, 15);
            }
            return Some(m);
        }
        assert(s[15] is None);
        if let Some(m) = self.16.test(segs, pos) {
            proof {
                lemma_first_some(s, 16);
            }
            return Some(m);
        }
        assert(s[16] is None);
        if let Some(m) = self.17.test(segs, pos) {
            proof {
                lemma_first_some(s, 17);
            }
            return Some(m);
        }
        assert(s[17] is None);
        if let Some(m) = self.18.test(segs, pos) {
            proof {
                lemma_first_some(s, 18);
            }
            return Some(m);
        }
        assert(s[18] is None);
        if let Some(m) = self.19.test(segs, pos) {
            proof {
                lemma_first_some(s, 19);
            }
            return Some(m);
        }
        assert(s[19] is None);
        if let Some(m) = self.20.test(segs, pos) {
            proof {
                lemma_first_some(s, 20);
            }
            return Some(m);
        }
        assert(s[20] is None);
        if let Some(m) = self.21.test(segs, pos) {
            proof {
                lemma_first_some(s, 21);
            }
            return Some(m);
        }
        assert(s[21] is None);
        if let Some(m) = self.22.test(segs, pos) {
            proof {
                lemma_first_some(s, 22);
            }
            return Some(m);
        }
        assert(s[22] is None);
        proof {
            lemma_first_some(s, 23);
        }
        None
    }
}

impl<A: RouteChild, B: RouteChild, C: RouteChild, D: RouteChild, E: RouteChild, F: RouteChild, G: RouteChild, H: RouteChild, I: RouteChild, J: RouteChild, K: RouteChild, L: RouteChild, M: RouteChild, N: RouteChild, O: RouteChild, P: RouteChild, Q: RouteChild, R: RouteChild, S: RouteChild, T: RouteChild, U: RouteChild, V: RouteChild, W: RouteChild, X: RouteChild> RouteChild for (A, B, C, D, E, F, G, H, I, J, K, L, M, N, O, P, Q, R, S, T, U, V, W, X) {
    open spec fn spec_child_test(&self, segs: Seq<Seq<char>>) -> Option<PathMatchView> {
        first_some(seq![self.0.spec_child_test(segs), self.1.spec_child_test(segs), self.2.spec_child_test(segs), self.3.spec_child_test(segs), self.4.spec_child_test(segs), self.5.spec_child_test(segs), self.6.spec_child_test(segs), self.7.spec_child_test(segs), self.8.spec_child_test(segs), self.9.spec_child_test(segs), self.10.spec_child_test(segs), self.11.spec_child_test(segs), self.12.spec_child_test(segs), self.13.spec_child_test(segs), self.14.spec_child_test(segs), self.15.spec_child_test(segs), self.16.spec_child_test(segs), self.17.spec_child_test(segs), self.18.spec_child_test(segs), self.19.spec_child_test(segs), self.20.spec_child_test(segs), self.21.spec_child_test(segs), self.22.spec_child_test(segs), self.23.spec_child_test(segs)])
    }

    fn matches(&self, segs: &Vec<String>, pos: usize) -> (b: bool) {
        let ghost s = seq![
            self.0.spec_child_test(strings_view(segs@).skip(pos as int)),
            self.1.spec_child_test(strings_view(segs@).skip(pos as int)),
            self.2.spec_child_test(strings_view(segs@).skip(pos as int)),
            self.3.spec_child_test(strings_view(segs@).skip(pos as int)),
            self.4.spec_child_test(strings_view(segs@).skip(pos as int)),
            self.5.spec_child_test(strings_view(segs@).skip(pos as int)),
            self.6.spec_child_test(strings_view(segs@).skip(pos as int)),
            self.7.spec_child_test(strings_view(segs@).skip(pos as int)),
            self.8.spec_child_test(strings_view(segs@).skip(pos as int)),
            self.9.spec_child_test(strings_view(segs@).skip(pos as int)),
            self.10.spec_child_test(strings_view(segs@).skip(pos as int)),
            self.11.spec_child_test(strings_view(segs@).skip(pos as int)),
            self.12.spec_child_test(strings_view(segs@).skip(pos as int)),
            self.13.spec_child_test(strings_view(segs@).skip(pos as int)),
            self.14.spec_child_test(strings_view(segs@).skip(pos as int)),
            self.15.spec_child_test(strings_view(segs@).skip(pos as int)),
            self.16.spec_child_test(strings_view(segs@).skip(pos as int)),
            self.17.spec_child_test(strings_view(segs@).skip(pos as int)),
            self.18.spec_child_test(strings_view(segs@).skip(pos as int)),
            self.19.spec_child_test(strings_view(segs@).skip(pos as int)),
            self.20.spec_child_test(strings_view(segs@).skip(pos as int)),
            self.21.spec_child_test(strings_view(segs@).skip(pos as int)),
            self.22.spec_child_test(strings_view(segs@).skip(pos as int)),
            self.23.spec_child_test(strings_view(segs@).skip(pos as int)),
        ];
        if self.0.matches(segs, pos) {
            proof {
                lemma_first_some(s, 0);
            }
            return true;
        }
        assert(s[0] is None);
        if self.1.matches(segs, pos) {
            proof {
                lemma_first_some(s, 1);
            }
            return true;
        }
        assert(s[1] is None);
        if self.2.matches(segs, pos) {
            proof {
                lemma_first_some(s, 2);
            }
            return true;
        }
        assert(s[2] is None);
        if self.3.matches(segs, pos) {
            proof {
                lemma_first_some(s, 3);
            }
            return true;
        }
        assert(s[3] is None);
        if self.4.matches(segs, pos) {
            proof {
                lemma_first_some(s, 4);
            }
            return true;
        }
        assert(s[4] is None);
        if self.5.matches(segs, pos) {
            proof {
                lemma_first_some(s, 5);
            }
            return true;
        }
        assert(s[5] is None);
        if self.6.matches(segs, pos) {
            proof {
                lemma_first_some(s, 6);
            }
            return true;
        }
        assert(s[6] is None);
        if self.7.matches(segs, pos) {
            proof {
                lemma_first_some(s, 7);
            }
            return true;
        }
        assert(s[7] is None);
        if self.8.matches(segs, pos) {
            proof {
                lemma_first_some(s, 8);
            }
            return true;
        }
        assert(s[8] is None);
        if self.9.matches(segs, pos) {
            proof {
                lemma_first_some(s, 9);
            }
            return true;
        }
        assert(s[9] is None);
        if self.10.matches(segs, pos) {
            proof {
                lemma_first_some(s, 10);
            }
            return true;
        }
        assert(s[10] is None);
        if self.11.matches(segs, pos) {
            proof {
                lemma_first_some(s, 11);
            }
            return true;
        }
        assert(s[11] is None);
        if self.12.matches(segs, pos) {
            proof {
                lemma_first_some(s, 12);
            }
            return true;
        }
        assert(s[12] is None);
        if self.13.matches(segs, pos) {
            proof {
                lemma_first_some(s, 13);
            }
            return true;
        }
        assert(s[13] is None);
        if self.14.matches(segs, pos) {
            proof {
                lemma_first_some(s, 14);
            }
            return true;
        }
        assert(s[14] is None);
        if self.15.matches(segs, pos) {
            proof {
                lemma_first_some(s, 15);
            }
            return true;
        }
        assert(s[15] is None);
        if self.16.matches(segs, pos) {
            proof {
                lemma_first_some(s, 16);
            }
            return true;
        }
        assert(s[16] is None);
        if self.17.matches(segs, pos) {
            proof {
                lemma_first_some(s, 17);
            }
            return true;
        }
        assert(s[17] is None);
        if self.18.matches(segs, pos) {
            proof {
                lemma_first_some(s, 18);
            }
            return true;
        }
        assert(s[18] is None);
        if self.19.matches(segs, pos) {
            proof {
                lemma_first_some(s, 19);
            }
            return true;
        }
        assert(s[19] is None);
        if self.20.matches(segs, pos) {
            proof {
                lemma_first_some(s, 20);
            }
            return true;
        }
        assert(s[20] is None);
        if self.21.matches(segs, pos) {
            proof {
                lemma_first_some(s, 21);
            }
            return true;
        }
        assert(s[21] is None);
        if self.22.matches(segs, pos) {
            proof {
                lemma_first_some(s, 22);
            }
            return true;
        }
        assert(s[22] is None);
        if self.23.matches(segs, pos) {
            proof {
                lemma_first_some(s, 23);
            }
            return true;
        }
        assert(s[23] is None);
        proof {
            lemma_first_some(s, 24);
        }
        false
    }

    fn test(&self, segs: &Vec<String>, pos: usize) -> (r: Option<PathMatch>) {
        let ghost s = seq![
            self.0.spec_child_test(strings_view(segs@).skip(pos as int)),
            self.1.spec_child_test(strings_view(segs@).skip(pos as int)),
            self.2.spec_child_test(strings_view(segs@).skip(pos as int)),
            self.3.spec_child_test(strings_view(segs@).skip(pos as int)),
            self.4.spec_child_test(strings_view(segs@).skip(pos as int)),
            self.5.spec_child_test(strings_view(segs@).skip(pos as int)),
            self.6.spec_child_test(strings_view(segs@).skip(pos as int)),
            self.7.spec_child_test(strings_view(segs@).skip(pos as int)),
            self.8.spec_child_test(strings_view(segs@).skip(pos as int)),
            self.9.spec_child_test(strings_view(segs@).skip(pos as int)),
            self.10.spec_child_test(strings_view(segs@).skip(pos as int)),
            self.11.spec_child_test(strings_view(segs@).skip(pos as int)),
            self.12.spec_child_test(strings_view(segs@).skip(pos as int)),
            self.13.spec_child_test(strings_view(segs@).skip(pos as int)),
            self.14.spec_child_test(strings_view(segs@).skip(pos as int)),
            self.15.spec_child_test(strings_view(segs@).skip(pos as int)),
            self.16.spec_child_test(strings_view(segs@).skip(pos as int)),
            self.17.spec_child_test(strings_view(segs@).skip(pos as int)),
            self.18.spec_child_test(strings_view(segs@).skip(pos as int)),
            self.19.spec_child_test(strings_view(segs@).skip(pos as int)),
            self.20.spec_child_test(strings_view(segs@).skip(pos as int)),
            self.21.spec_child_test(strings_view(segs@).skip(pos as int)),
            self.22.spec_child_test(strings_view(segs@).skip(pos as int)),
            self.23.spec_child_test(strings_view(segs@).skip(pos as int)),
        ];
        if let Some(m) = self.0.test(segs, pos) {
            proof {
                lemma_first_some(s, 0);
            }
            return Some(m);
        }
        assert(s[0] is None);
        if let Some(m) = self.1.test(segs, pos) {
            proof {
                lemma_first_some(s, 1);
            }
            return Some(m);
        }
        assert(s[1] is None);
        if let Some(m) = self.2.test(segs, pos) {
            proof {
                lemma_first_some(s, 2);
            }
            return Some(m);
        }
        assert(s[2] is None);
        if let Some(m) = self.3.test(segs, pos) {
            proof {
                lemma_first_some(s, 3);
            }
            return Some(m);
        }
        assert(s[3] is None);
        if let Some(m) = self.4.test(segs, pos) {
            proof {
                lemma_first_some(s, 4);
            }
            return Some(m);
        }
        assert(s[4] is None);
        if let Some(m) = self.5.test(segs, pos) {
            proof {
                lemma_first_some(s, 5);
            }
            return Some(m);
        }
        assert(s[5] is None);
        if let Some(m) = self.6.test(segs, pos) {
            proof {
                lemma_first_some(s, 6);
            }
            return Some(m);
        }
        assert(s[6] is None);
        if let Some(m) = self.7.test(segs, pos) {
            proof {
                lemma_first_some(s, 7);
            }
            return Some(m);
        }
        assert(s[7] is None);
        if let Some(m) = self.8.test(segs, pos) {
            proof {
                lemma_first_some(s, 8);
            }
            return Some(m);
        }
        assert(s[8] is None);
        if let Some(m) = self.9.test(segs, pos) {
            proof {
                lemma_first_some(s, 9);
            }
            return Some(m);
        }
        assert(s[9] is None);
        if let Some(m) = self.10.test(segs, pos) {
            proof {
                lemma_first_some(s, 10);
            }
            return Some(m);
        }
        assert(s[10] is None);
        if let Some(m) = self.11.test(segs, pos) {
            proof {
                lemma_first_some(s, 11);
            }
            return Some(m);
        }
        assert(s[11] is None);
        if let Some(m) = self.12.test(segs, pos) {
            proof {
                lemma_first_some(s, 12);
            }
            return Some(m);
        }
        assert(s[12] is None);
        if let Some(m) = self.13.test(segs, pos) {
            proof {
                lemma_first_some(s, 13);
            }
            return Some(m);
        }
        assert(s[13] is None);
        if let Some(m) = self.14.test(segs, pos) {
            proof {
                lemma_first_some(s, 14);
            }
            return Some(m);
        }
        assert(s[14] is None);
        if let Some(m) = self.15.test(segs, pos) {
            proof {
                lemma_first_some(s, 15);
            }
            return Some(m);
        }
        assert(s[15] is None);
        if let Some(m) = self.16.test(segs, pos) {
            proof {
                lemma_first_some(s, 16);
            }
            return Some(m);
        }
        assert(s[16] is None);
        if let Some(m) = self.17.test(segs, pos) {
            proof {
                lemma_first_some(s, 17);
            }
            return Some(m);
        }
        assert(s[17] is None);
        if let Some(m) = self.18.test(segs, pos) {
            proof {
                lemma_first_some(s, 18);
            }
            return Some(m);
        }
        assert(s[18] is None);
        if let Some(m) = self.19.test(segs, pos) {
            proof {
                lemma_first_some(s, 19);
            }
            return Some(m);
        }
        assert(s[19] is None);
        if let Some(m) = self.20.test(segs, pos) {
            proof {
                lemma_first_some(s, 20);
            }
            return Some(m);
        }
        assert(s[20] is None);
        if let Some(m) = self.21.test(segs, pos) {
            proof {
                lemma_first_some(s, 21);
            }
            return Some(m);
        }
        assert(s[21] is None);
        if let Some(m) = self.22.test(segs, pos) {
            proof {
                lemma_first_some(s, 22);
            }
            return Some(m);
        }
        assert(s[22] is None);
        if let Some(m) = self.23.test(segs, pos) {
            proof {
                lemma_first_some(s, 23);
            }
            return Some(m);
        }
        assert(s[23] is None);
        proof {
            lemma_first_some(s, 24);
        }
        None
    }
}

impl<A: RouteChild, B: RouteChild, C: RouteChild, D: RouteChild, E: RouteChild, F: RouteChild, G: RouteChild, H: RouteChild, I: RouteChild, J: RouteChild, K: RouteChild, L: RouteChild, M: RouteChild, N: RouteChild, O: RouteChild, P: RouteChild, Q: RouteChild, R: RouteChild, S: RouteChild, T: RouteChild, U: RouteChild, V: RouteChild, W: RouteChild, X: RouteChild, Y: RouteChild> RouteChild for (A, B, C, D, E, F, G, H, I, J, K, L, M, N, O, P, Q, R, S, T, U, V, W, X, Y) {
    open spec fn spec_child_test(&self, segs: Seq<Seq<char>>) -> Option<PathMatchView> {
        first_some(seq![self.0.spec_child_test(segs), self.1.spec_child_test(segs), self.2.spec_child_test(segs), self.3.spec_child_test(segs), self.4.spec_child_test(segs), self.5.spec_child_test(segs), self.6.spec_child_test(segs), self.7.spec_child_test(segs), self.8.spec_child_test(segs), self.9.spec_child_test(segs), self.10.spec_child_test(segs), self.11.spec_child_test(segs), self.12.spec_child_test(segs), self.13.spec_child_test(segs), self.14.spec_child_test(segs), self.15.spec_child_test(segs), self.16.spec_child_test(segs), self.17.spec_child_test(segs), self.18.spec_child_test(segs), self.19.spec_child_test(segs), self.20.spec_child_test(segs), self.21.spec_child_test(segs), self.22.spec_child_test(segs), self.23.spec_child_test(segs), self.24.spec_child_test(segs)])
    }

    fn matches(&self, segs: &Vec<String>, pos: usize) -> (b: bool) {
        let ghost s = seq![
            self.0.spec_child_test(strings_view(segs@).skip(pos as int)),
            self.1.spec_child_test(strings_view(segs@).skip(pos as int)),
            self.2.spec_child_test(strings_view(segs@).skip(pos as int)),
            self.3.spec_child_test(strings_view(segs@).skip(pos as int)),
            self.4.spec_child_test(strings_view(segs@).skip(pos as int)),
            self.5.spec_child_test(strings_view(segs@).skip(pos as int)),
            self.6.spec_child_test(strings_view(segs@).skip(pos as int)),
            self.7.spec_child_test(strings_view(segs@).skip(pos as int)),
            self.8.spec_child_test(strings_view(segs@).skip(pos as int)),
            self.9.spec_child_test(strings_view(segs@).skip(pos as int)),
            self.10.spec_child_test(strings_view(segs@).skip(pos as int)),
            self.11.spec_child_test(strings_view(segs@).skip(pos as int)),
            self.12.spec_child_test(strings_view(segs@).skip(pos as int)),
            self.13.spec_child_test(strings_view(segs@).skip(pos as int)),
            self.14.spec_child_test(strings_view(segs@).skip(pos as int)),
            self.15.spec_child_test(strings_view(segs@).skip(pos as int)),
            self.16.spec_child_test(strings_view(segs@).skip(pos as int)),
            self.17.spec_child_test(strings_view(segs@).skip(pos as int)),
            self.18.spec_child_test(strings_view(segs@).skip(pos as int)),
            self.19.spec_child_test(strings_view(segs@).skip(pos as int)),
            self.20.spec_child_test(strings_view(segs@).skip(pos as int)),
            self.21.spec_child_test(strings_view(segs@).skip(pos as int)),
            self.22.spec_child_test(strings_view(segs@).skip(pos as int)),
            self.23.spec_child_test(strings_view(segs@).skip(pos as int)),
            self.24.spec_child_test(strings_view(segs@).skip(pos as int)),
        ];
        if self.0.matches(segs, pos) {
            proof {
                lemma_first_some(s, 0);
            }
            return true;
        }
        assert(s[0] is None);
        if self.1.matches(segs, pos) {
            proof {
                lemma_first_some(s, 1);
            }
            return true;
        }
        assert(s[1] is None);
        if self.2.matches(segs, pos) {
            proof {
                lemma_first_some(s, 2);
            }
            return true;
        }
        assert(s[2] is None);
        if self.3.matches(segs, pos) {
            proof {
                lemma_first_some(s, 3);
            }
            return true;
        }
        assert(s[3] is None);
        if self.4.matches(segs, pos) {
            proof {
                lemma_first_some(s, 4);
            }
            return true;
        }
        assert(s[4] is None);
        if self.5.matches(segs, pos) {
            proof {
                lemma_first_some(s, 5);
            }
            return true;
        }
        assert(s[5] is None);
        if self.6.matches(segs, pos) {
            proof {
                lemma_first_some(s, 6);
            }
            return true;
        }
        assert(s[6] is None);
        if self.7.matches(segs, pos) {
            proof {
                lemma_first_some(s, 7);
            }
            return true;
        }
        assert(s[7] is None);
        if self.8.matches(segs, pos) {
            proof {
                lemma_first_some(s, 8);
            }
            return true;
        }
        assert(s[8] is None);
        if self.9.matches(segs, pos) {
            proof {
                lemma_first_some(s, 9);
            }
            return true;
        }
        assert(s[9] is None);
        if self.10.matches(segs, pos) {
            proof {
                lemma_first_some(s, 10);
            }
            return true;
        }
        assert(s[10] is None);
        if self.11.matches(segs, pos) {
            proof {
                lemma_first_some(s, 11);
            }
            return true;
        }
        assert(s[11] is None);
        if self.12.matches(segs, pos) {
            proof {
                lemma_first_some(s, 12);
            }
            return true;
        }
        assert(s[12] is None);
        if self.13.matches(segs, pos) {
            proof {
                lemma_first_some(s, 13);
            }
            return true;
        }
        assert(s[13] is None);
        if self.14.matches(segs, pos) {
            proof {
                lemma_first_some(s, 14);
            }
            return true;
        }
        assert(s[14] is None);
        if self.15.matches(segs, pos) {
            proof {
                lemma_first_some(s, 15);
            }
            return true;
        }
        assert(s[15] is None);
        if self.16.matches(segs, pos) {
            proof {
                lemma_first_some(s, 16);
            }
            return true;
        }
        assert(s[16] is None);
        if self.17.matches(segs, pos) {
            proof {
                lemma_first_some(s, 17);
            }
            return true;
        }
        assert(s[17] is None);
        if self.18.matches(segs, pos) {
            proof {
                lemma_first_some(s, 18);
            }
            return true;
        }
        assert(s[18] is None);
        if self.19.matches(segs, pos) {
            proof {
                lemma_first_some(s, 19);
            }
            return true;
        }
        assert(s[19] is None);
        if self.20.matches(segs, pos) {
            proof {
                lemma_first_some(s, 20);
            }
            return true;
        }
        assert(s[20] is None);
        if self.21.matches(segs, pos) {
            proof {
                lemma_first_some(s, 21);
            }
            return true;
        }
        assert(s[21] is None);
        if self.22.matches(segs, pos) {
            proof {
                lemma_first_some(s, 22);
            }
            return true;
        }
        assert(s[22] is None);
        if self.23.matches(segs, pos) {
            proof {
                lemma_first_some(s, 23);
            }
            return true;
        }
        assert(s[23] is None);
        if self.24.matches(segs, pos) {
            proof {
                lemma_first_some(s, 24);
            }
            return true;
        }
        assert(s[24] is None);
        proof {
            lemma_first_some(s, 25);
        }
        false
    }

    fn test(&self, segs: &Vec<String>, pos: usize) -> (r: Option<PathMatch>) {
        let ghost s = seq![
            self.0.spec_child_test(strings_view(segs@).skip(pos as int)),
            self.1.spec_child_test(strings_view(segs@).skip(pos as int)),
            self.2.spec_child_test(strings_view(segs@).skip(pos as int)),
            self.3.spec_child_test(strings_view(segs@).skip(pos as int)),
            self.4.spec_child_test(strings_view(segs@).skip(pos as int)),
            self.5.spec_child_test(strings_view(segs@).skip(pos as int)),
            self.6.spec_child_test(strings_view(segs@).skip(pos as int)),
            self.7.spec_child_test(strings_view(segs@).skip(pos as int)),
            self.8.spec_child_test(strings_view(segs@).skip(pos as int)),
            self.9.spec_child_test(strings_view(segs@).skip(pos as int)),
            self.10.spec_child_test(strings_view(segs@).skip(pos as int)),
            self.11.spec_child_test(strings_view(segs@).skip(pos as int)),
            self.12.spec_child_test(strings_view(segs@).skip(pos as int)),
            self.13.spec_child_test(strings_view(segs@).skip(pos as int)),
            self.14.spec_child_test(strings_view(segs@).skip(pos as int)),
            self.15.spec_child_test(strings_view(segs@).skip(pos as int)),
            self.16.spec_child_test(strings_view(segs@).skip(pos as int)),
            self.17.spec_child_test(strings_view(segs@).skip(pos as int)),
            self.18.spec_child_test(strings_view(segs@).skip(pos as int)),
            self.19.spec_child_test(strings_view(segs@).skip(pos as int)),
            self.20.spec_child_test(strings_view(segs@).skip(pos as int)),
            self.21.spec_child_test(strings_view(segs@).skip(pos as int)),
            self.22.spec_child_test(strings_view(segs@).skip(pos as int)),
            self.23.spec_child_test(strings_view(segs@).skip(pos as int)),
            self.24.spec_child_test(strings_view(segs@).skip(pos as int)),
        ];
        if let Some(m) = self.0.test(segs, pos) {
            proof {
                lemma_first_some(s, 0);
            }
            return Some(m);
        }
        assert(s[0] is None);
        if let Some(m) = self.1.test(segs, pos) {
            proof {
                lemma_first_some(s, 1);
            }
            return Some(m);
        }
        assert(s[1] is None);
        if let Some(m) = self.2.test(segs, pos) {
            proof {
                lemma_first_some(s, 2);
            }
            return Some(m);
        }
        assert(s[2] is None);
        if let Some(m) = self.3.test(segs, pos) {
            proof {
                lemma_first_some(s, 3);
            }
            return Some(m);
        }
        assert(s[3] is None);
        if let Some(m) = self.4.test(segs, pos) {
            proof {
                lemma_first_some(s, 4);
            }
            return Some(m);
        }
        assert(s[4] is None);
        if let Some(m) = self.5.test(segs, pos) {
            proof {
                lemma_first_some(s, 5);
            }
            return Some(m);
        }
        assert(s[5] is None);
        if let Some(m) = self.6.test(segs, pos) {
            proof {
                lemma_first_some(s, 6);
            }
            return Some(m);
        }
        assert(s[6] is None);
        if let Some(m) = self.7.test(segs, pos) {
            proof {
                lemma_first_some(s, 7);
            }
            return Some(m);
        }
        assert(s[7] is None);
        if let Some(m) = self.8.test(segs, pos) {
            proof {
                lemma_first_some(s, 8);
            }
            return Some(m);
        }
        assert(s[8] is None);
        if let Some(m) = self.9.test(segs, pos) {
            proof {
                lemma_first_some(s, 9);
            }
            return Some(m);
        }
        assert(s[9] is None);
        if let Some(m) = self.10.test(segs, pos) {
            proof {
                lemma_first_some(s, 10);
            }
            return Some(m);
        }
        assert(s[10] is None);
        if let Some(m) = self.11.test(segs, pos) {
            proof {
                lemma_first_some(s, 11);
            }
            return Some(m);
        }
        assert(s[11] is None);
        if let Some(m) = self.12.test(segs, pos) {
            proof {
                lemma_first_some(s, 12);
            }
            return Some(m);
        }
        assert(s[12] is None);
        if let Some(m) = self.13.test(segs, pos) {
            proof {
                lemma_first_some(s, 13);
            }
            return Some(m);
        }
        assert(s[13] is None);
        if let Some(m) = self.14.test(segs, pos) {
            proof {
                lemma_first_some(s, 14);
            }
            return Some(m);
        }
        assert(s[14] is None);
        if let Some(m) = self.15.test(segs, pos) {
            proof {
                lemma_first_some(s, 15);
            }
            return Some(m);
        }
        assert(s[15] is None);
        if let Some(m) = self.16.test(segs, pos) {
            proof {
                lemma_first_some(s, 16);
            }
            return Some(m);
        }
        assert(s[16] is None);
        if let Some(m) = self.17.test(segs, pos) {
            proof {
                lemma_first_some(s, 17);
            }
            return Some(m);
        }
        assert(s[17] is None);
        if let Some(m) = self.18.test(segs, pos) {
            proof {
                lemma_first_some(s, 18);
            }
            return Some(m);
        }
        assert(s[18] is None);
        if let Some(m) = self.19.test(segs, pos) {
            proof {
                lemma_first_some(s, 19);
            }
            return Some(m);
        }
        assert(s[19] is None);
        if let Some(m) = self.20.test(segs, pos) {
            proof {
                lemma_first_some(s, 20);
            }
            return Some(m);
        }
        assert(s[20] is None);
        if let Some(m) = self.21.test(segs, pos) {
            proof {
                lemma_first_some(s, 21);
            }
            return Some(m);
        }
        assert(s[21] is None);
        if let Some(m) = self.22.test(segs, pos) {
            proof {
                lemma_first_some(s, 22);
            }
            return Some(m);
        }
        assert(s[22] is None);
        if let Some(m) = self.23.test(segs, pos) {
            proof {
                lemma_first_some(s, 23);
            }
            return Some(m);
        }
        assert(s[23] is None);
        if let Some(m) = self.24.test(segs, pos) {
            proof {
                lemma_first_some(s, 24);
            }
            return Some(m);
        }
        assert(s[24] is None);
        proof {
            lemma_first_some(s, 25);
        }
        None
    }
}

impl<A: RouteChild, B: RouteChild, C: RouteChild, D: RouteChild, E: RouteChild, F: RouteChild, G: RouteChild, H: RouteChild, I: RouteChild, J: RouteChild, K: RouteChild, L: RouteChild, M: RouteChild, N: RouteChild, O: RouteChild, P: RouteChild, Q: RouteChild, R: RouteChild, S: RouteChild, T: RouteChild, U: RouteChild, V: RouteChild, W: RouteChild, X: RouteChild, Y: RouteChild, Z: RouteChild> RouteChild for (A, B, C, D, E, F, G, H, I, J, K, L, M, N, O, P, Q, R, S, T, U, V, W, X, Y, Z) {
    open spec fn spec_child_test(&self, segs: Seq<Seq<char>>) -> Option<PathMatchView> {
        first_some(seq![self.0.spec_child_test(segs), self.1.spec_child_test(segs), self.2.spec_child_test(segs), self.3.spec_child_test(segs), self.4.spec_child_test(segs), self.5.spec_child_test(segs), self.6.spec_child_test(segs), self.7.spec_child_test(segs), self.8.spec_child_test(segs), self.9.spec_child_test(segs), self.10.spec_child_test(segs), self.11.spec_child_test(segs), self.12.spec_child_test(segs), self.13.spec_child_test(segs), self.14.spec_child_test(segs), self.15.spec_child_test(segs), self.16.spec_child_test(segs), self.17.spec_child_test(segs), self.18.spec_child_test(segs), self.19.spec_child_test(segs), self.20.spec_child_test(segs), self.21.spec_child_test(segs), self.22.spec_child_test(segs), self.23.spec_child_test(segs), self.24.spec_child_test(segs), self.25.spec_child_test(segs)])
    }

    fn matches(&self, segs: &Vec<String>, pos: usize) -> (b: bool) {
        let ghost s = seq![
            self.0.spec_child_test(strings_view(segs@).skip(pos as int)),
            self.1.spec_child_test(strings_view(segs@).skip(pos as int)),
            self.2.spec_child_test(strings_view(segs@).skip(pos as int)),
            self.3.spec_child_test(strings_view(segs@).skip(pos as int)),
            self.4.spec_child_test(strings_view(segs@).skip(pos as int)),
            self.5.spec_child_test(strings_view(segs@).skip(pos as int)),
            self.6.spec_child_test(strings_view(segs@).skip(pos as int)),
            self.7.spec_child_test(strings_view(segs@).skip(pos as int)),
            self.8.spec_child_test(strings_view(segs@).skip(pos as int)),
            self.9.spec_child_test(strings_view(segs@).skip(pos as int)),
            self.10.spec_child_test(strings_view(segs@).skip(pos as int)),
            self.11.spec_child_test(strings_view(segs@).skip(pos as int)),
            self.12.spec_child_test(strings_view(segs@).skip(pos as int)),
            self.13.spec_child_test(strings_view(segs@).skip(pos as int)),
            self.14.spec_child_test(strings_view(segs@).skip(pos as int)),
            self.15.spec_child_test(strings_view(segs@).skip(pos as int)),
            self.16.spec_child_test(strings_view(segs@).skip(pos as int)),
            self.17.spec_child_test(strings_view(segs@).skip(pos as int)),
            self.18.spec_child_test(strings_view(segs@).skip(pos as int)),
            self.19.spec_child_test(strings_view(segs@).skip(pos as int)),
            self.20.spec_child_test(strings_view(segs@).skip(pos as int)),
            self.21.spec_child_test(strings_view(segs@).skip(pos as int)),
            self.22.spec_child_test(strings_view(segs@).skip(pos as int)),
            self.23.spec_child_test(strings_view(segs@).skip(pos as int)),
            self.24.spec_child_test(strings_view(segs@).skip(pos as int)),
            self.25.spec_child_test(strings_view(segs@).skip(pos as int)),
        ];
        if self.0.matches(segs, pos) {
            proof {
                lemma_first_some(s, 0);
            }
            return true;
        }
        assert(s[0] is None);
        if self.1.matches(segs, pos) {
            proof {
                lemma_first_some(s, 1);
            }
            return true;
        }
        assert(s[1] is None);
        if self.2.matches(segs, pos) {
            proof {
                lemma_first_some(s, 2);
            }
            return true;
        }
        assert(s[2] is None);
        if self.3.matches(segs, pos) {
            proof {
                lemma_first_some(s, 3);
            }
            return true;
        }
        assert(s[3] is None);
        if self.4.matches(segs, pos) {
            proof {
                lemma_first_some(s, 4);
            }
            return true;
        }
        assert(s[4] is None);
        if self.5.matches(segs, pos) {
            proof {
                lemma_first_some(s, 5);
            }
            return true;
        }
        assert(s[5] is None);
        if self.6.matches(segs, pos) {
            proof {
                lemma_first_some(s, 6);
            }
            return true;
        }
        assert(s[6] is None);
        if self.7.matches(segs, pos) {
            proof {
                lemma_first_some(s, 7);
            }
            return true;
        }
        assert(s[7] is None);
        if self.8.matches(segs, pos) {
            proof {
                lemma_first_some(s, 8);
            }
            return true;
        }
        assert(s[8] is None);
        if self.9.matches(segs, pos) {
            proof {
                lemma_first_some(s, 9);
            }
            return true;
        }
        assert(s[9] is None);
        if self.10.matches(segs, pos) {
            proof {
                lemma_first_some(s, 10);
            }
            return true;
        }
        assert(s[10] is None);
        if self.11.matches(segs, pos) {
            proof {
                lemma_first_some(s, 11);
            }
            return true;
        }
        assert(s[11] is None);
        if self.12.matches(segs, pos) {
            proof {
                lemma_first_some(s, 12);
            }
            return true;
        }
        assert(s[12] is None);
        if self.13.matches(segs, pos) {
            proof {
                lemma_first_some(s, 13);
            }
            return true;
        }
        assert(s[13] is None);
        if self.14.matches(segs, pos) {
            proof {
                lemma_first_some(s, 14);
            }
            return true;
        }
        assert(s[14] is None);
        if self.15.matches(segs, pos) {
            proof {
                lemma_first_some(s, 15);
            }
            return true;
        }
        assert(s[15] is None);
        if self.16.matches(segs, pos) {
            proof {
                lemma_first_some(s, 16);
            }
            return true;
        }
        assert(s[16] is None);
        if self.17.matches(segs, pos) {
            proof {
                lemma_first_some(s, 17);
            }
            return true;
        }
        assert(s[17] is None);
        if self.18.matches(segs, pos) {
            proof {
                lemma_first_some(s, 18);
            }
            return true;
        }
        assert(s[18] is None);
        if self.19.matches(segs, pos) {
            proof {
                lemma_first_some(s, 19);
            }
            return true;
        }
        assert(s[19] is None);
        if self.20.matches(segs, pos) {
            proof {
                lemma_first_some(s, 20);
            }
            return true;
        }
        assert(s[20] is None);
        if self.21.matches(segs, pos) {
            proof {
                lemma_first_some(s, 21);
            }
            return true;
        }
        assert(s[21] is None);
        if self.22.matches(segs, pos) {
            proof {
                lemma_first_some(s, 22);
            }
            return true;
        }
        assert(s[22] is None);
        if self.23.matches(segs, pos) {
            proof {
                lemma_first_some(s, 23);
            }
            return true;
        }
        assert(s[23] is None);
        if self.24.matches(segs, pos) {
            proof {
                lemma_first_some(s, 24);
            }
            return true;
        }
        assert(s[24] is None);
        if self.25.matches(segs, pos) {
            proof {
                lemma_first_some(s, 25);
            }
            return true;
        }
        assert(s[25] is None);
        proof {
            lemma_first_some(s, 26);
        }
        false
    }

    fn test(&self, segs: &Vec<String>, pos: usize) -> (r: Option<PathMatch>) {
        let ghost s = seq![
            self.0.spec_child_test(strings_view(segs@).skip(pos as int)),
            self.1.spec_child_test(strings_view(segs@).skip(pos as int)),
            self.2.spec_child_test(strings_view(segs@).skip(pos as int)),
            self.3.spec_child_test(strings_view(segs@).skip(pos as int)),
            self.4.spec_child_test(strings_view(segs@).skip(pos as int)),
            self.5.spec_child_test(strings_view(segs@).skip(pos as int)),
            self.6.spec_child_test(strings_view(segs@).skip(pos as int)),
            self.7.spec_child_test(strings_view(segs@).skip(pos as int)),
            self.8.spec_child_test(strings_view(segs@).skip(pos as int)),
            self.9.spec_child_test(strings_view(segs@).skip(pos as int)),
            self.10.spec_child_test(strings_view(segs@).skip(pos as int)),
            self.11.spec_child_test(strings_view(segs@).skip(pos as int)),
            self.12.spec_child_test(strings_view(segs@).skip(pos as int)),
            self.13.spec_child_test(strings_view(segs@).skip(pos as int)),
            self.14.spec_child_test(strings_view(segs@).skip(pos as int)),
            self.15.spec_child_test(strings_view(segs@).skip(pos as int)),
            self.16.spec_child_test(strings_view(segs@).skip(pos as int)),
            self.17.spec_child_test(strings_view(segs@).skip(pos as int)),
            self.18.spec_child_test(strings_view(segs@).skip(pos as int)),
            self.19.spec_child_test(strings_view(segs@).skip(pos as int)),
            self.20.spec_child_test(strings_view(segs@).skip(pos as int)),
            self.21.spec_child_test(strings_view(segs@).skip(pos as int)),
            self.22.spec_child_test(strings_view(segs@).skip(pos as int)),
            self.23.spec_child_test(strings_view(segs@).skip(pos as int)),
            self.24.spec_child_test(strings_view(segs@).skip(pos as int)),
            self.25.spec_child_test(strings_view(segs@).skip(pos as int)),
        ];
        if let Some(m) = self.0.test(segs, pos) {
            proof {
                lemma_first_some(s, 0);
            }
            return Some(m);
        }
        assert(s[0] is None);
        if let Some(m) = self.1.test(segs, pos) {
            proof {
                lemma_first_some(s, 1);
            }
            return Some(m);
        }
        assert(s[1] is None);
        if let Some(m) = self.2.test(segs, pos) {
            proof {
                lemma_first_some(s, 2);
            }
            return Some(m);
        }
        assert(s[2] is None);
        if let Some(m) = self.3.test(segs, pos) {
            proof {
                lemma_first_some(s, 3);
            }
            return Some(m);
        }
        assert(s[3] is None);
        if let Some(m) = self.4.test(segs, pos) {
            proof {
                lemma_first_some(s, 4);
            }
            return Some(m);
        }
        assert(s[4] is None);
        if let Some(m) = self.5.test(segs, pos) {
            proof {
                lemma_first_some(s, 5);
            }
            return Some(m);
        }
        assert(s[5] is None);
        if let Some(m) = self.6.test(segs, pos) {
            proof {
                lemma_first_some(s, 6);
            }
            return Some(m);
        }
        assert(s[6] is None);
        if let Some(m) = self.7.test(segs, pos) {
            proof {
                lemma_first_some(s, 7);
            }
            return Some(m);
        }
        assert(s[7] is None);
        if let Some(m) = self.8.test(segs, pos) {
            proof {
                lemma_first_some(s, 8);
            }
            return Some(m);
        }
        assert(s[8] is None);
        if let Some(m) = self.9.test(segs, pos) {
            proof {
                lemma_first_some(s, 9);
            }
            return Some(m);
        }
        assert(s[9] is None);
        if let Some(m) = self.10.test(segs, pos) {
            proof {
                lemma_first_some(s, 10);
            }
            return Some(m);
        }
        assert(s[10] is None);
        if let Some(m) = self.11.test(segs, pos) {
            proof {
                lemma_first_some(s, 11);
            }
            return Some(m);
        }
        assert(s[11] is None);
        if let Some(m) = self.12.test(segs, pos) {
            proof {
                lemma_first_some(s, 12);
            }
            return Some(m);
        }
        assert(s[12] is None);
        if let Some(m) = self.13.test(segs, pos) {
            proof {
                lemma_first_some(s, 13);
            }
            return Some(m);
        }
        assert(s[13] is None);
        if let Some(m) = self.14.test(segs, pos) {
            proof {
                lemma_first_some(s, 14);
            }
            return Some(m);
        }
        assert(s[14] is None);
        if let Some(m) = self.15.test(segs, pos) {
            proof {
                lemma_first_some(s, 15);
            }
            return Some(m);
        }
        assert(s[15] is None);
        if let Some(m) = self.16.test(segs, pos) {
            proof {
                lemma_first_some(s, 16);
            }
            return Some(m);
        }
        assert(s[16] is None);
        if let Some(m) = self.17.test(segs, pos) {
            proof {
                lemma_first_some(s, 17);
            }
            return Some(m);
        }
        assert(s[17] is None);
        if let Some(m) = self.18.test(segs, pos) {
            proof {
                lemma_first_some(s, 18);
            }
            return Some(m);
        }
        assert(s[18] is None);
        if let Some(m) = self.19.test(segs, pos) {
            proof {
                lemma_first_some(s, 19);
            }
            return Some(m);
        }
        assert(s[19] is None);
        if let Some(m) = self.20.test(segs, pos) {
            proof {
                lemma_first_some(s, 20);
            }
            return Some(m);
        }
        assert(s[20] is None);
        if let Some(m) = self.21.test(segs, pos) {
            proof {
                lemma_first_some(s, 21);
            }
            return Some(m);
        }
        assert(s[21] is None);
        if let Some(m) = self.22.test(segs, pos) {
            proof {
                lemma_first_some(s, 22);
            }
            return Some(m);
        }
        assert(s[22] is None);
        if let Some(m) = self.23.test(segs, pos) {
            proof {
                lemma_first_some(s, 23);
            }
            return Some(m);
        }
        assert(s[23] is None);
        if let Some(m) = self.24.test(segs, pos) {
            proof {
                lemma_first_some(s, 24);
            }
            return Some(m);
        }
        assert(s[24] is None);
        if let Some(m) = self.25.test(segs, pos) {
            proof {
                lemma_first_some(s, 25);
            }
            return Some(m);
        }
        assert(s[25] is None);
        proof {
            lemma_first_some(s, 26);
        }
        None
    }
}

/// Of 2 nested alternatives, the first is tried on the segments and its
/// match is taken; only when it does not match are the rest tried, in order.
pub proof fn lemma_child_tuple_2<A: RouteChild, B: RouteChild>(t: (A, B), segs: Seq<Seq<char>>)
    ensures
        t.spec_child_test(segs) == match t.0.spec_child_test(segs) {
            Some(m) => Some(m),
            None => t.1.spec_child_test(segs),
        },
{
    let s = seq![t.0.spec_child_test(segs), t.1.spec_child_test(segs)];
    if s[0] is Some {
        lemma_first_some(s, 0);
    } else if s[1] is Some {
        lemma_first_some(s, 1);
    } else {
        lemma_first_some(s, 2);
    }
}

/// Of 3 nested alternatives, the first is tried on the segments and its
/// match is taken; only when it does not match are the rest tried, in order.
pub proof fn lemma_child_tuple_3<A: RouteChild, B: RouteChild, C: RouteChild>(t: (A, B, C), segs: Seq<Seq<char>>)
    ensures
        t.spec_child_test(segs) == match t.0.spec_child_test(segs) {
            Some(m) => Some(m),
            None => (t.1, t.2).spec_child_test(segs),
        },
{
    let s = seq![t.0.spec_child_test(segs), t.1.spec_child_test(segs), t.2.spec_child_test(segs)];
    assert(s.drop_first() =~= seq![t.1.spec_child_test(segs), t.2.spec_child_test(segs)]);
}

/// Of 4 nested alternatives, the first is tried on the segments and its
/// match is taken; only when it does not match are the rest tried, in order.
pub proof fn lemma_child_tuple_4<A: RouteChild, B: RouteChild, C: RouteChild, D: RouteChild>(t: (A, B, C, D), segs: Seq<Seq<char>>)
    ensures
        t.spec_child_test(segs) == match t.0.spec_child_test(segs) {
            Some(m) => Some(m),
            None => (t.1, t.2, t.3).spec_child_test(segs),
        },
{
    let s = seq![t.0.spec_child_test(segs), t.1.spec_child_test(segs), t.2.spec_child_test(segs), t.3.spec_child_test(segs)];
    assert(s.drop_first() =~= seq![t.1.spec_child_test(segs), t.2.spec_child_test(segs), t.3.spec_child_test(segs)]);
}

/// Of 5 nested alternatives, the first is tried on the segments and its
/// match is taken; only when it does not match are the rest tried, in order.
pub proof fn lemma_child_tuple_5<A: RouteChild, B: RouteChild, C: RouteChild, D: RouteChild, E: RouteChild>(t: (A, B, C, D, E), segs: Seq<Seq<char>>)
    ensures
        t.spec_child_test(segs) == match t.0.spec_child_test(segs) {
            Some(m) => Some(m),
            None => (t.1, t.2, t.3, t.4).spec_child_test(segs),
        },
{
    let s = seq![t.0.spec_child_test(segs), t.1.spec_child_test(segs), t.2.spec_child_test(segs), t.3.spec_child_test(segs), t.4.spec_child_test(segs)];
    assert(s.drop_first() =~= seq![t.1.spec_child_test(segs), t.2.spec_child_test(segs), t.3.spec_child_test(segs), t.4.spec_child_test(segs)]);
}

/// Of 6 nested alternatives, the first is tried on the segments and its
/// match is taken; only when it does not match are the rest tried, in order.
pub proof fn lemma_child_tuple_6<A: RouteChild, B: RouteChild, C: RouteChild, D: RouteChild, E: RouteChild, F: RouteChild>(t: (A, B, C, D, E, F), segs: Seq<Seq<char>>)
    ensures
        t.spec_child_test(segs) == match t.0.spec_child_test(segs) {
            Some(m) => Some(m),
            None => (t.1, t.2, t.3, t.4, t.5).spec_child_test(segs),
        },
{
    let s = seq![t.0.spec_child_test(segs), t.1.spec_child_test(segs), t.2.spec_child_test(segs), t.3.spec_child_test(segs), t.4.spec_child_test(segs), t.5.spec_child_test(segs)];
    assert(s.drop_first() =~= seq![t.1.spec_child_test(segs), t.2.spec_child_test(segs), t.3.spec_child_test(segs), t.4.spec_child_test(segs), t.5.spec_child_test(segs)]);
}

/// Of 7 nested alternatives, the first is tried on the segments and its
/// match is taken; only when it does not match are the rest tried, in order.
pub proof fn lemma_child_tuple_7<A: RouteChild, B: RouteChild, C: RouteChild, D: RouteChild, E: RouteChild, F: RouteChild, G: RouteChild>(t: (A, B, C, D, E, F, G), segs: Seq<Seq<char>>)
    ensures
        t.spec_child_test(segs) == match t.0.spec_child_test(segs) {
            Some(m) => Some(m),
            None => (t.1, t.2, t.3, t.4, t.5, t.6).spec_child_test(segs),
        },
{
    let s = seq![t.0.spec_child_test(segs), t.1.spec_child_test(segs), t.2.spec_child_test(segs), t.3.spec_child_test(segs), t.4.spec_child_test(segs), t.5.spec_child_test(segs), t.6.spec_child_test(segs)];
    assert(s.drop_first() =~= seq![t.1.spec_child_test(segs), t.2.spec_child_test(segs), t.3.spec_child_test(segs), t.4.spec_child_test(segs), t.5.spec_child_test(segs), t.6.spec_child_test(segs)]);
}

/// Of 8 nested alternatives, the first is tried on the segments and its
/// match is taken; only when it does not match are the rest tried, in order.
pub proof fn lemma_child_tuple_8<A: RouteChild, B: RouteChild, C: RouteChild, D: RouteChild, E: RouteChild, F: RouteChild, G: RouteChild, H: RouteChild>(t: (A, B, C, D, E, F, G, H), segs: Seq<Seq<char>>)
    ensures
        t.spec_child_test(segs) == match t.0.spec_child_test(segs) {
            Some(m) => Some(m),
            None => (t.1, t.2, t.3, t.4, t.5, t.6, t.7).spec_child_test(segs),
        },
{
    let s = seq![t.0.spec_child_test(segs), t.1.spec_child_test(segs), t.2.spec_child_test(segs), t.3.spec_child_test(segs), t.4.spec_child_test(segs), t.5.spec_child_test(segs), t.6.spec_child_test(segs), t.7.spec_child_test(segs)];
    assert(s.drop_first() =~= seq![t.1.spec_child_test(segs), t.2.spec_child_test(segs), t.3.spec_child_test(segs), t.4.spec_child_test(segs), t.5.spec_child_test(segs), t.6.spec_child_test(segs), t.7.spec_child_test(segs)]);
}

/// Of 9 nested alternatives, the first is tried on the segments and its
/// match is taken; only when it does not match are the rest tried, in order.
pub proof fn lemma_child_tuple_9<A: RouteChild, B: RouteChild, C: RouteChild, D: RouteChild, E: RouteChild, F: RouteChild, G: RouteChild, H: RouteChild, I: RouteChild>(t: (A, B, C, D, E, F, G, H, I), segs: Seq<Seq<char>>)
    ensures
        t.spec_child_test(segs) == match t.0.spec_child_test(segs) {
            Some(m) => Some(m),
            None => (t.1, t.2, t.3, t.4, t.5, t.6, t.7, t.8).spec_child_test(segs),
        },
{
    let s = seq![t.0.spec_child_test(segs), t.1.spec_child_test(segs), t.2.spec_child_test(segs), t.3.spec_child_test(segs), t.4.spec_child_test(segs), t.5.spec_child_test(segs), t.6.spec_child_test(segs), t.7.spec_child_test(segs), t.8.spec_child_test(segs)];
    assert(s.drop_first() =~= seq![t.1.spec_child_test(segs), t.2.spec_child_test(segs), t.3.spec_child_test(segs), t.4.spec_child_test(segs), t.5.spec_child_test(segs), t.6.spec_child_test(segs), t.7.spec_child_test(segs), t.8.spec_child_test(segs)]);
}

/// Of 10 nested alternatives, the first is tried on the segments and its
/// match is taken; only when it does not match are the rest tried, in order.
pub proof fn lemma_child_tuple_10<A: RouteChild, B: RouteChild, C: RouteChild, D: RouteChild, E: RouteChild, F: RouteChild, G: RouteChild, H: RouteChild, I: RouteChild, J: RouteChild>(t: (A, B, C, D, E, F, G, H, I, J), segs: Seq<Seq<char>>)
    ensures
        t.spec_child_test(segs) == match t.0.spec_child_test(segs) {
            Some(m) => Some(m),
            None => (t.1, t.2, t.3, t.4, t.5, t.6, t.7, t.8, t.9).spec_child_test(segs),
        },
{
    let s = seq![t.0.spec_child_test(segs), t.1.spec_child_test(segs), t.2.spec_child_test(segs), t.3.spec_child_test(segs), t.4.spec_child_test(segs), t.5.spec_child_test(segs), t.6.spec_child_test(segs), t.7.spec_child_test(segs), t.8.spec_child_test(segs), t.9.spec_child_test(segs)];
    assert(s.drop_first() =~= seq![t.1.spec_child_test(segs), t.2.spec_child_test(segs), t.3.spec_child_test(segs), t.4.spec_child_test(segs), t.5.spec_child_test(segs), t.6.spec_child_test(segs), t.7.spec_child_test(segs), t.8.spec_child_test(segs), t.9.spec_child_test(segs)]);
}

/// Of 11 nested alternatives, the first is tried on the segments and its
/// match is taken; only when it does not match are the rest tried, in order.
pub proof fn lemma_child_tuple_11<A: RouteChild, B: RouteChild, C: RouteChild, D: RouteChild, E: RouteChild, F: RouteChild, G: RouteChild, H: RouteChild, I: RouteChild, J: RouteChild, K: RouteChild>(t: (A, B, C, D, E, F, G, H, I, J, K), segs: Seq<Seq<char>>)
    ensures
        t.spec_child_test(segs) == match t.0.spec_child_test(segs) {
            Some(m) => Some(m),
            None => (t.1, t.2, t.3, t.4, t.5, t.6, t.7, t.8, t.9, t.10).spec_child_test(segs),
        },
{
    let s = seq![t.0.spec_child_test(segs), t.1.spec_child_test(segs), t.2.spec_child_test(segs), t.3.spec_child_test(segs), t.4.spec_child_test(segs), t.5.spec_child_test(segs), t.6.spec_child_test(segs), t.7.spec_child_test(segs), t.8.spec_child_test(segs), t.9.spec_child_test(segs), t.10.spec_child_test(segs)];
    assert(s.drop_first() =~= seq![t.1.spec_child_test(segs), t.2.spec_child_test(segs), t.3.spec_child_test(segs), t.4.spec_child_test(segs), t.5.spec_child_test(segs), t.6.spec_child_test(segs), t.7.spec_child_test(segs), t.8.spec_child_test(segs), t.9.spec_child_test(segs), t.10.spec_child_test(segs)]);
}

/// Of 12 nested alternatives, the first is tried on the segments and its
/// match is taken; only when it does not match are the rest tried, in order.
pub proof fn lemma_child_tuple_12<A: RouteChild, B: RouteChild, C: RouteChild, D: RouteChild, E: RouteChild, F: RouteChild, G: RouteChild, H: RouteChild, I: RouteChild, J: RouteChild, K: RouteChild, L: RouteChild>(t: (A, B, C, D, E, F, G, H, I, J, K, L), segs: Seq<Seq<char>>)
    ensures
        t.spec_child_test(segs) == match t.0.spec_child_test(segs) {
            Some(m) => Some(m),
            None => (t.1, t.2, t.3, t.4, t.5, t.6, t.7, t.8, t.9, t.10, t.11).spec_child_test(segs),
        },
{
    let s = seq![t.0.spec_child_test(segs), t.1.spec_child_test(segs), t.2.spec_child_test(segs), t.3.spec_child_test(segs), t.4.spec_child_test(segs), t.5.spec_child_test(segs), t.6.spec_child_test(segs), t.7.spec_child_test(segs), t.8.spec_child_test(segs), t.9.spec_child_test(segs), t.10.spec_child_test(segs), t.11.spec_child_test(segs)];
    assert(s.drop_first() =~= seq![t.1.spec_child_test(segs), t.2.spec_child_test(segs), t.3.spec_child_test(segs), t.4.spec_child_test(segs), t.5.spec_child_test(segs), t.6.spec_child_test(segs), t.7.spec_child_test(segs), t.8.spec_child_test(segs), t.9.spec_child_test(segs), t.10.spec_child_test(segs), t.11.spec_child_test(segs)]);
}

/// Of 13 nested alternatives, the first is tried on the segments and its
/// match is taken; only when it does not match are the rest tried, in order.
pub proof fn lemma_child_tuple_13<A: RouteChild, B: RouteChild, C: RouteChild, D: RouteChild, E: RouteChild, F: RouteChild, G: RouteChild, H: RouteChild, I: RouteChild, J: RouteChild, K: RouteChild, L: RouteChild, M: RouteChild>(t: (A, B, C, D, E, F, G, H, I, J, K, L, M), segs: Seq<Seq<char>>)
    ensures
        t.spec_child_test(segs) == match t.0.spec_child_test(segs) {
            Some(m) => Some(m),
            None => (t.1, t.2, t.3, t.4, t.5, t.6, t.7, t.8, t.9, t.10, t.11, t.12).spec_child_test(segs),
        },
{
    let s = seq![t.0.spec_child_test(segs), t.1.spec_child_test(segs), t.2.spec_child_test(segs), t.3.spec_child_test(segs), t.4.spec_child_test(segs), t.5.spec_child_test(segs), t.6.spec_child_test(segs), t.7.spec_child_test(segs), t.8.spec_child_test(segs), t.9.spec_child_test(segs), t.10.spec_child_test(segs), t.11.spec_child_test(segs), t.12.spec_child_test(segs)];
    assert(s.drop_first() =~= seq![t.1.spec_child_test(segs), t.2.spec_child_test(segs), t.3.spec_child_test(segs), t.4.spec_child_test(segs), t.5.spec_child_test(segs), t.6.spec_child_test(segs), t.7.spec_child_test(segs), t.8.spec_child_test(segs), t.9.spec_child_test(segs), t.10.spec_child_test(segs), t.11.spec_child_test(segs), t.12.spec_child_test(segs)]);
}

/// Of 14 nested alternatives, the first is tried on the segments and its
/// match is taken; only when it does not match are the rest tried, in order.
pub proof fn lemma_child_tuple_14<A: RouteChild, B: RouteChild, C: RouteChild, D: RouteChild, E: RouteChild, F: RouteChild, G: RouteChild, H: RouteChild, I: RouteChild, J: RouteChild, K: RouteChild, L: RouteChild, M: RouteChild, N: RouteChild>(t: (A, B, C, D, E, F, G, H, I, J, K, L, M, N), segs: Seq<Seq<char>>)
    ensures
        t.spec_child_test(segs) == match t.0.spec_child_test(segs) {
            Some(m) => Some(m),
            None => (t.1, t.2, t.3, t.4, t.5, t.6, t.7, t.8, t.9, t.10, t.11, t.12, t.13).spec_child_test(segs),
        },
{
    let s = seq![t.0.spec_child_test(segs), t.1.spec_child_test(segs), t.2.spec_child_test(segs), t.3.spec_child_test(segs), t.4.spec_child_test(segs), t.5.spec_child_test(segs), t.6.spec_child_test(segs), t.7.spec_child_test(segs), t.8.spec_child_test(segs), t.9.spec_child_test(segs), t.10.spec_child_test(segs), t.11.spec_child_test(segs), t.12.spec_child_test(segs), t.13.spec_child_test(segs)];
    assert(s.drop_first() =~= seq![t.1.spec_child_test(segs), t.2.spec_child_test(segs), t.3.spec_child_test(segs), t.4.spec_child_test(segs), t.5.spec_child_test(segs), t.6.spec_child_test(segs), t.7.spec_child_test(segs), t.8.spec_child_test(segs), t.9.spec_child_test(segs), t.10.spec_child_test(segs), t.11.spec_child_test(segs), t.12.spec_child_test(segs), t.13.spec_child_test(segs)]);
}

/// Of 15 nested alternatives, the first is tried on the segments and its
/// match is taken; only when it does not match are the rest tried, in order.
pub proof fn lemma_child_tuple_15<A: RouteChild, B: RouteChild, C: RouteChild, D: RouteChild, E: RouteChild, F: RouteChild, G: RouteChild, H: RouteChild, I: RouteChild, J: RouteChild, K: RouteChild, L: RouteChild, M: RouteChild, N: RouteChild, O: RouteChild>(t: (A, B, C, D, E, F, G, H, I, J, K, L, M, N, O), segs: Seq<Seq<char>>)
    ensures
        t.spec_child_test(segs) == match t.0.spec_child_test(segs) {
            Some(m) => Some(m),
            None => (t.1, t.2, t.3, t.4, t.5, t.6, t.7, t.8, t.9, t.10, t.11, t.12, t.13, t.14).spec_child_test(segs),
        },
{
    let s = seq![t.0.spec_child_test(segs), t.1.spec_child_test(segs), t.2.spec_child_test(segs), t.3.spec_child_test(segs), t.4.spec_child_test(segs), t.5.spec_child_test(segs), t.6.spec_child_test(segs), t.7.spec_child_test(segs), t.8.spec_child_test(segs), t.9.spec_child_test(segs), t.10.spec_child_test(segs), t.11.spec_child_test(segs), t.12.spec_child_test(segs), t.13.spec_child_test(segs), t.14.spec_child_test(segs)];
    assert(s.drop_first() =~= seq![t.1.spec_child_test(segs), t.2.spec_child_test(segs), t.3.spec_child_test(segs), t.4.spec_child_test(segs), t.5.spec_child_test(segs), t.6.spec_child_test(segs), t.7.spec_child_test(segs), t.8.spec_child_test(segs), t.9.spec_child_test(segs), t.10.spec_child_test(segs), t.11.spec_child_test(segs), t.12.spec_child_test(segs), t.13.spec_child_test(segs), t.14.spec_child_test(segs)]);
}

/// Of 16 nested alternatives, the first is tried on the segments and its
/// match is taken; only when it does not match are the rest tried, in order.
pub proof fn lemma_child_tuple_16<A: RouteChild, B: RouteChild, C: RouteChild, D: RouteChild, E: RouteChild, F: RouteChild, G: RouteChild, H: RouteChild, I: RouteChild, J: RouteChild, K: RouteChild, L: RouteChild, M: RouteChild, N: RouteChild, O: RouteChild, P: RouteChild>(t: (A, B, C, D, E, F, G, H, I, J, K, L, M, N, O, P), segs: Seq<Seq<char>>)
    ensures
        t.spec_child_test(segs) == match t.0.spec_child_test(segs) {
            Some(m) => Some(m),
            None => (t.1, t.2, t.3, t.4, t.5, t.6, t.7, t.8, t.9, t.10, t.11, t.12, t.13, t.14, t.15).spec_child_test(segs),
        },
{
    let s = seq![t.0.spec_child_test(segs), t.1.spec_child_test(segs), t.2.spec_child_test(segs), t.3.spec_child_test(segs), t.4.spec_child_test(segs), t.5.spec_child_test(segs), t.6.spec_child_test(segs), t.7.spec_child_test(segs), t.8.spec_child_test(segs), t.9.spec_child_test(segs), t.10.spec_child_test(segs), t.11.spec_child_test(segs), t.12.spec_child_test(segs), t.13.spec_child_test(segs), t.14.spec_child_test(segs), t.15.spec_child_test(segs)];
    assert(s.drop_first() =~= seq![t.1.spec_child_test(segs), t.2.spec_child_test(segs), t.3.spec_child_test(segs), t.4.spec_child_test(segs), t.5.spec_child_test(segs), t.6.spec_child_test(segs), t.7.spec_child_test(segs), t.8.spec_child_test(segs), t.9.spec_child_test(segs), t.10.spec_child_test(segs), t.11.spec_child_test(segs), t.12.spec_child_test(segs), t.13.spec_child_test(segs), t.14.spec_child_test(segs), t.15.spec_child_test(segs)]);
}

/// Of 17 nested alternatives, the first is tried on the segments and its
/// match is taken; only when it does not match are the rest tried, in order.
pub proof fn lemma_child_tuple_17<A: RouteChild, B: RouteChild, C: RouteChild, D: RouteChild, E: RouteChild, F: RouteChild, G: RouteChild, H: RouteChild, I: RouteChild, J: RouteChild, K: RouteChild, L: RouteChild, M: RouteChild, N: RouteChild, O: RouteChild, P: RouteChild, Q: RouteChild>(t: (A, B, C, D, E, F, G, H, I, J, K, L, M, N, O, P, Q), segs: Seq<Seq<char>>)
    ensures
        t.spec_child_test(segs) == match t.0.spec_child_test(segs) {
            Some(m) => Some(m),
            None => (t.1, t.2, t.3, t.4, t.5, t.6, t.7, t.8, t.9, t.10, t.11, t.12, t.13, t.14, t.15, t.16).spec_child_test(segs),
        },
{
    let s = seq![t.0.spec_child_test(segs), t.1.spec_child_test(segs), t.2.spec_child_test(segs), t.3.spec_child_test(segs), t.4.spec_child_test(segs), t.5.spec_child_test(segs), t.6.spec_child_test(segs), t.7.spec_child_test(segs), t.8.spec_child_test(segs), t.9.spec_child_test(segs), t.10.spec_child_test(segs), t.11.spec_child_test(segs), t.12.spec_child_test(segs), t.13.spec_child_test(segs), t.14.spec_child_test(segs), t.15.spec_child_test(segs), t.16.spec_child_test(segs)];
    assert(s.drop_first() =~= seq![t.1.spec_child_test(segs), t.2.spec_child_test(segs), t.3.spec_child_test(segs), t.4.spec_child_test(segs), t.5.spec_child_test(segs), t.6.spec_child_test(segs), t.7.spec_child_test(segs), t.8.spec_child_test(segs), t.9.spec_child_test(segs), t.10.spec_child_test(segs), t.11.spec_child_test(segs), t.12.spec_child_test(segs), t.13.spec_child_test(segs), t.14.spec_child_test(segs), t.15.spec_child_test(segs), t.16.spec_child_test(segs)]);
}

/// Of 18 nested alternatives, the first is tried on the segments and its
/// match is taken; only when it does not match are the rest tried, in order.
pub proof fn lemma_child_tuple_18<A: RouteChild, B: RouteChild, C: RouteChild, D: RouteChild, E: RouteChild, F: RouteChild, G: RouteChild, H: RouteChild, I: RouteChild, J: RouteChild, K: RouteChild, L: RouteChild, M: RouteChild, N: RouteChild, O: RouteChild, P: RouteChild, Q: RouteChild, R: RouteChild>(t: (A, B, C, D, E, F, G, H, I, J, K, L, M, N, O, P, Q, R), segs: Seq<Seq<char>>)
    ensures
        t.spec_child_test(segs) == match t.0.spec_child_test(segs) {
            Some(m) => Some(m),
            None => (t.1, t.2, t.3, t.4, t.5, t.6, t.7, t.8, t.9, t.10, t.11, t.12, t.13, t.14, t.15, t.16, t.17).spec_child_test(segs),
        },
{
    let s = seq![t.0.spec_child_test(segs), t.1.spec_child_test(segs), t.2.spec_child_test(segs), t.3.spec_child_test(segs), t.4.spec_child_test(segs), t.5.spec_child_test(segs), t.6.spec_child_test(segs), t.7.spec_child_test(segs), t.8.spec_child_test(segs), t.9.spec_child_test(segs), t.10.spec_child_test(segs), t.11.spec_child_test(segs), t.12.spec_child_test(segs), t.13.spec_child_test(segs), t.14.spec_child_test(segs), t.15.spec_child_test(segs), t.16.spec_child_test(segs), t.17.spec_child_test(segs)];
    assert(s.drop_first() =~= seq![t.1.spec_child_test(segs), t.2.spec_child_test(segs), t.3.spec_child_test(segs), t.4.spec_child_test(segs), t.5.spec_child_test(segs), t.6.spec_child_test(segs), t.7.spec_child_test(segs), t.8.spec_child_test(segs), t.9.spec_child_test(segs), t.10.spec_child_test(segs), t.11.spec_child_test(segs), t.12.spec_child_test(segs), t.13.spec_child_test(segs), t.14.spec_child_test(segs), t.15.spec_child_test(segs), t.16.spec_child_test(segs), t.17.spec_child_test(segs)]);
}

/// Of 19 nested alternatives, the first is tried on the segments and its
/// match is taken; only when it does not match are the rest tried, in order.
pub proof fn lemma_child_tuple_19<A: RouteChild, B: RouteChild, C: RouteChild, D: RouteChild, E: RouteChild, F: RouteChild, G: RouteChild, H: RouteChild, I: RouteChild, J: RouteChild, K: RouteChild, L: RouteChild, M: RouteChild, N: RouteChild, O: RouteChild, P: RouteChild, Q: RouteChild, R: RouteChild, S: RouteChild>(t: (A, B, C, D, E, F, G, H, I, J, K, L, M, N, O, P, Q, R, S), segs: Seq<Seq<char>>)
    ensures
        t.spec_child_test(segs) == match t.0.spec_child_test(segs) {
            Some(m) => Some(m),
            None => (t.1, t.2, t.3, t.4, t.5, t.6, t.7, t.8, t.9, t.10, t.11, t.12, t.13, t.14, t.15, t.16, t.17, t.18).spec_child_test(segs),
        },
{
    let s = seq![t.0.spec_child_test(segs), t.1.spec_child_test(segs), t.2.spec_child_test(segs), t.3.spec_child_test(segs), t.4.spec_child_test(segs), t.5.spec_child_test(segs), t.6.spec_child_test(segs), t.7.spec_child_test(segs), t.8.spec_child_test(segs), t.9.spec_child_test(segs), t.10.spec_child_test(segs), t.11.spec_child_test(segs), t.12.spec_child_test(segs), t.13.spec_child_test(segs), t.14.spec_child_test(segs), t.15.spec_child_test(segs), t.16.spec_child_test(segs), t.17.spec_child_test(segs), t.18.spec_child_test(segs)];
    assert(s.drop_first() =~= seq![t.1.spec_child_test(segs), t.2.spec_child_test(segs), t.3.spec_child_test(segs), t.4.spec_child_test(segs), t.5.spec_child_test(segs), t.6.spec_child_test(segs), t.7.spec_child_test(segs), t.8.spec_child_test(segs), t.9.spec_child_test(segs), t.10.spec_child_test(segs), t.11.spec_child_test(segs), t.12.spec_child_test(segs), t.13.spec_child_test(segs), t.14.spec_child_test(segs), t.15.spec_child_test(segs), t.16.spec_child_test(segs), t.17.spec_child_test(segs), t.18.spec_child_test(segs)]);
}

/// Of 20 nested alternatives, the first is tried on the segments and its
/// match is taken; only when it does not match are the rest tried, in order.
pub proof fn lemma_child_tuple_20<A: RouteChild, B: RouteChild, C: RouteChild, D: RouteChild, E: RouteChild, F: RouteChild, G: RouteChild, H: RouteChild, I: RouteChild, J: RouteChild, K: RouteChild, L: RouteChild, M: RouteChild, N: RouteChild, O: RouteChild, P: RouteChild, Q: RouteChild, R: RouteChild, S: RouteChild, T: RouteChild>(t: (A, B, C, D, E, F, G, H, I, J, K, L, M, N, O, P, Q, R, S, T), segs: Seq<Seq<char>>)
    ensures
        t.spec_child_test(segs) == match t.0.spec_child_test(segs) {
            Some(m) => Some(m),
            None => (t.1, t.2, t.3, t.4, t.5, t.6, t.7, t.8, t.9, t.10, t.11, t.12, t.13, t.14, t.15, t.16, t.17, t.18, t.19).spec_child_test(segs),
        },
{
    let s = seq![t.0.spec_child_test(segs), t.1.spec_child_test(segs), t.2.spec_child_test(segs), t.3.spec_child_test(segs), t.4.spec_child_test(segs), t.5.spec_child_test(segs), t.6.spec_child_test(segs), t.7.spec_child_test(segs), t.8.spec_child_test(segs), t.9.spec_child_test(segs), t.10.spec_child_test(segs), t.11.spec_child_test(segs), t.12.spec_child_test(segs), t.13.spec_child_test(segs), t.14.spec_child_test(segs), t.15.spec_child_test(segs), t.16.spec_child_test(segs), t.17.spec_child_test(segs), t.18.spec_child_test(segs), t.19.spec_child_test(segs)];
    assert(s.drop_first() =~= seq![t.1.spec_child_test(segs), t.2.spec_child_test(segs), t.3.spec_child_test(segs), t.4.spec_child_test(segs), t.5.spec_child_test(segs), t.6.spec_child_test(segs), t.7.spec_child_test(segs), t.8.spec_child_test(segs), t.9.spec_child_test(segs), t.10.spec_child_test(segs), t.11.spec_child_test(segs), t.12.spec_child_test(segs), t.13.spec_child_test(segs), t.14.spec_child_test(segs), t.15.spec_child_test(segs), t.16.spec_child_test(segs), t.17.spec_child_test(segs), t.18.spec_child_test(segs), t.19.spec_child_test(segs)]);
}

/// Of 21 nested alternatives, the first is tried on the segments and its
/// match is taken; only when it does not match are the rest tried, in order.
pub proof fn lemma_child_tuple_21<A: RouteChild, B: RouteChild, C: RouteChild, D: RouteChild, E: RouteChild, F: RouteChild, G: RouteChild, H: RouteChild, I: RouteChild, J: RouteChild, K: RouteChild, L: RouteChild, M: RouteChild, N: RouteChild, O: RouteChild, P: RouteChild, Q: RouteChild, R: RouteChild, S: RouteChild, T: RouteChild, U: RouteChild>(t: (A, B, C, D, E, F, G, H, I, J, K, L, M, N, O, P, Q, R, S, T, U), segs: Seq<Seq<char>>)
    ensures
        t.spec_child_test(segs) == match t.0.spec_child_test(segs) {
            Some(m) => Some(m),
            None => (t.1, t.2, t.3, t.4, t.5, t.6, t.7, t.8, t.9, t.10, t.11, t.12, t.13, t.14, t.15, t.16, t.17, t.18, t.19, t.20).spec_child_test(segs),
        },
{
    let s = seq![t.0.spec_child_test(segs), t.1.spec_child_test(segs), t.2.spec_child_test(segs), t.3.spec_child_test(segs), t.4.spec_child_test(segs), t.5.spec_child_test(segs), t.6.spec_child_test(segs), t.7.spec_child_test(segs), t.8.spec_child_test(segs), t.9.spec_child_test(segs), t.10.spec_child_test(segs), t.11.spec_child_test(segs), t.12.spec_child_test(segs), t.13.spec_child_test(segs), t.14.spec_child_test(segs), t.15.spec_child_test(segs), t.16.spec_child_test(segs), t.17.spec_child_test(segs), t.18.spec_child_test(segs), t.19.spec_child_test(segs), t.20.spec_child_test(segs)];
    assert(s.drop_first() =~= seq![t.1.spec_child_test(segs), t.2.spec_child_test(segs), t.3.spec_child_test(segs), t.4.spec_child_test(segs), t.5.spec_child_test(segs), t.6.spec_child_test(segs), t.7.spec_child_test(segs), t.8.spec_child_test(segs), t.9.spec_child_test(segs), t.10.spec_child_test(segs), t.11.spec_child_test(segs), t.12.spec_child_test(segs), t.13.spec_child_test(segs), t.14.spec_child_test(segs), t.15.spec_child_test(segs), t.16.spec_child_test(segs), t.17.spec_child_test(segs), t.18.spec_child_test(segs), t.19.spec_child_test(segs), t.20.spec_child_test(segs)]);
}

/// Of 22 nested alternatives, the first is tried on the segments and its
/// match is taken; only when it does not match are the rest tried, in order.
pub proof fn lemma_child_tuple_22<A: RouteChild, B: RouteChild, C: RouteChild, D: RouteChild, E: RouteChild, F: RouteChild, G: RouteChild, H: RouteChild, I: RouteChild, J: RouteChild, K: RouteChild, L: RouteChild, M: RouteChild, N: RouteChild, O: RouteChild, P: RouteChild, Q: RouteChild, R: RouteChild, S: RouteChild, T: RouteChild, U: RouteChild, V: RouteChild>(t: (A, B, C, D, E, F, G, H, I, J, K, L, M, N, O, P, Q, R, S, T, U, V), segs: Seq<Seq<char>>)
    ensures
        t.spec_child_test(segs) == match t.0.spec_child_test(segs) {
            Some(m) => Some(m),
            None => (t.1, t.2, t.3, t.4, t.5, t.6, t.7, t.8, t.9, t.10, t.11, t.12, t.13, t.14, t.15, t.16, t.17, t.18, t.19, t.20, t.21).spec_child_test(segs),
        },
{
    let s = seq![t.0.spec_child_test(segs), t.1.spec_child_test(segs), t.2.spec_child_test(segs), t.3.spec_child_test(segs), t.4.spec_child_test(segs), t.5.spec_child_test(segs), t.6.spec_child_test(segs), t.7.spec_child_test(segs), t.8.spec_child_test(segs), t.9.spec_child_test(segs), t.10.spec_child_test(segs), t.11.spec_child_test(segs), t.12.spec_child_test(segs), t.13.spec_child_test(segs), t.14.spec_child_test(segs), t.15.spec_child_test(segs), t.16.spec_child_test(segs), t.17.spec_child_test(segs), t.18.spec_child_test(segs), t.19.spec_child_test(segs), t.20.spec_child_test(segs), t.21.spec_child_test(segs)];
    assert(s.drop_first() =~= seq![t.1.spec_child_test(segs), t.2.spec_child_test(segs), t.3.spec_child_test(segs), t.4.spec_child_test(segs), t.5.spec_child_test(segs), t.6.spec_child_test(segs), t.7.spec_child_test(segs), t.8.spec_child_test(segs), t.9.spec_child_test(segs), t.10.spec_child_test(segs), t.11.spec_child_test(segs), t.12.spec_child_test(segs), t.13.spec_child_test(segs), t.14.spec_child_test(segs), t.15.spec_child_test(segs), t.16.spec_child_test(segs), t.17.spec_child_test(segs), t.18.spec_child_test(segs), t.19.spec_child_test(segs), t.20.spec_child_test(segs), t.21.spec_child_test(segs)]);
}

/// Of 23 nested alternatives, the first is tried on the segments and its
/// match is taken; only when it does not match are the rest tried, in order.
pub proof fn lemma_child_tuple_23<A: RouteChild, B: RouteChild, C: RouteChild, D: RouteChild, E: RouteChild, F: RouteChild, G: RouteChild, H: RouteChild, I: RouteChild, J: RouteChild, K: RouteChild, L: RouteChild, M: RouteChild, N: RouteChild, O: RouteChild, P: RouteChild, Q: RouteChild, R: RouteChild, S: RouteChild, T: RouteChild, U: RouteChild, V: RouteChild, W: RouteChild>(t: (A, B, C, D, E, F, G, H, I, J, K, L, M, N, O, P, Q, R, S, T, U, V, W), segs: Seq<Seq<char>>)
    ensures
        t.spec_child_test(segs) == match t.0.spec_child_test(segs) {
            Some(m) => Some(m),
            None => (t.1, t.2, t.3, t.4, t.5, t.6, t.7, t.8, t.9, t.10, t.11, t.12, t.13, t.14, t.15, t.16, t.17, t.18, t.19, t.20, t.21, t.22).spec_child_test(segs),
        },
{
    let s = seq![t.0.spec_child_test(segs), t.1.spec_child_test(segs), t.2.spec_child_test(segs), t.3.spec_child_test(segs), t.4.spec_child_test(segs), t.5.spec_child_test(segs), t.6.spec_child_test(segs), t.7.spec_child_test(segs), t.8.spec_child_test(segs), t.9.spec_child_test(segs), t.10.spec_child_test(segs), t.11.spec_child_test(segs), t.12.spec_child_test(segs), t.13.spec_child_test(segs), t.14.spec_child_test(segs), t.15.spec_child_test(segs), t.16.spec_child_test(segs), t.17.spec_child_test(segs), t.18.spec_child_test(segs), t.19.spec_child_test(segs), t.20.spec_child_test(segs), t.21.spec_child_test(segs), t.22.spec_child_test(segs)];
    assert(s.drop_first() =~= seq![t.1.spec_child_test(segs), t.2.spec_child_test(segs), t.3.spec_child_test(segs), t.4.spec_child_test(segs), t.5.spec_child_test(segs), t.6.spec_child_test(segs), t.7.spec_child_test(segs), t.8.spec_child_test(segs), t.9.spec_child_test(segs), t.10.spec_child_test(segs), t.11.spec_child_test(segs), t.12.spec_child_test(segs), t.13.spec_child_test(segs), t.14.spec_child_test(segs), t.15.spec_child_test(segs), t.16.spec_child_test(segs), t.17.spec_child_test(segs), t.18.spec_child_test(segs), t.19.spec_child_test(segs), t.20.spec_child_test(segs), t.21.spec_child_test(segs), t.22.spec_child_test(segs)]);
}

/// Of 24 nested alternatives, the first is tried on the segments and its
/// match is taken; only when it does not match are the rest tried, in order.
pub proof fn lemma_child_tuple_24<A: RouteChild, B: RouteChild, C: RouteChild, D: RouteChild, E: RouteChild, F: RouteChild, G: RouteChild, H: RouteChild, I: RouteChild, J: RouteChild, K: RouteChild, L: RouteChild, M: RouteChild, N: RouteChild, O: RouteChild, P: RouteChild, Q: RouteChild, R: RouteChild, S: RouteChild, T: RouteChild, U: RouteChild, V: RouteChild, W: RouteChild, X: RouteChild>(t: (A, B, C, D, E, F, G, H, I, J, K, L, M, N, O, P, Q, R, S, T, U, V, W, X), segs: Seq<Seq<char>>)
    ensures
        t.spec_child_test(segs) == match t.0.spec_child_test(segs) {
            Some(m) => Some(m),
            None => (t.1, t.2, t.3, t.4, t.5, t.6, t.7, t.8, t.9, t.10, t.11, t.12, t.13, t.14, t.15, t.16, t.17, t.18, t.19, t.20, t.21, t.22, t.23).spec_child_test(segs),
        },
{
    let s = seq![t.0.spec_child_test(segs), t.1.spec_child_test(segs), t.2.spec_child_test(segs), t.3.spec_child_test(segs), t.4.spec_child_test(segs), t.5.spec_child_test(segs), t.6.spec_child_test(segs), t.7.spec_child_test(segs), t.8.spec_child_test(segs), t.9.spec_child_test(segs), t.10.spec_child_test(segs), t.11.spec_child_test(segs), t.12.spec_child_test(segs), t.13.spec_child_test(segs), t.14.spec_child_test(segs), t.15.spec_child_test(segs), t.16.spec_child_test(segs), t.17.spec_child_test(segs), t.18.spec_child_test(segs), t.19.spec_child_test(segs), t.20.spec_child_test(segs), t.21.spec_child_test(segs), t.22.spec_child_test(segs), t.23.spec_child_test(segs)];
    assert(s.drop_first() =~= seq![t.1.spec_child_test(segs), t.2.spec_child_test(segs), t.3.spec_child_test(segs), t.4.spec_child_test(segs), t.5.spec_child_test(segs), t.6.spec_child_test(segs), t.7.spec_child_test(segs), t.8.spec_child_test(segs), t.9.spec_child_test(segs), t.10.spec_child_test(segs), t.11.spec_child_test(segs), t.12.spec_child_test(segs), t.13.spec_child_test(segs), t.14.spec_child_test(segs), t.15.spec_child_test(segs), t.16.spec_child_test(segs), t.17.spec_child_test(segs), t.18.spec_child_test(segs), t.19.spec_child_test(segs), t.20.spec_child_test(segs), t.21.spec_child_test(segs), t.22.spec_child_test(segs), t.23.spec_child_test(segs)]);
}

/// Of 25 nested alternatives, the first is tried on the segments and its
/// match is taken; only when it does not match are the rest tried, in order.
pub proof fn lemma_child_tuple_25<A: RouteChild, B: RouteChild, C: RouteChild, D: RouteChild, E: RouteChild, F: RouteChild, G: RouteChild, H: RouteChild, I: RouteChild, J: RouteChild, K: RouteChild, L: RouteChild, M: RouteChild, N: RouteChild, O: RouteChild, P: RouteChild, Q: RouteChild, R: RouteChild, S: RouteChild, T: RouteChild, U: RouteChild, V: RouteChild, W: RouteChild, X: RouteChild, Y: RouteChild>(t: (A, B, C, D, E, F, G, H, I, J, K, L, M, N, O, P, Q, R, S, T, U, V, W, X, Y), segs: Seq<Seq<char>>)
    ensures
        t.spec_child_test(segs) == match t.0.spec_child_test(segs) {
            Some(m) => Some(m),
            None => (t.1, t.2, t.3, t.4, t.5, t.6, t.7, t.8, t.9, t.10, t.11, t.12, t.13, t.14, t.15, t.16, t.17, t.18, t.19, t.20, t.21, t.22, t.23, t.24).spec_child_test(segs),
        },
{
    let s = seq![t.0.spec_child_test(segs), t.1.spec_child_test(segs), t.2.spec_child_test(segs), t.3.spec_child_test(segs), t.4.spec_child_test(segs), t.5.spec_child_test(segs), t.6.spec_child_test(segs), t.7.spec_child_test(segs), t.8.spec_child_test(segs), t.9.spec_child_test(segs), t.10.spec_child_test(segs), t.11.spec_child_test(segs), t.12.spec_child_test(segs), t.13.spec_child_test(segs), t.14.spec_child_test(segs), t.15.spec_child_test(segs), t.16.spec_child_test(segs), t.17.spec_child_test(segs), t.18.spec_child_test(segs), t.19.spec_child_test(segs), t.20.spec_child_test(segs), t.21.spec_child_test(segs), t.22.spec_child_test(segs), t.23.spec_child_test(segs), t.24.spec_child_test(segs)];
    assert(s.drop_first() =~= seq![t.1.spec_child_test(segs), t.2.spec_child_test(segs), t.3.spec_child_test(segs), t.4.spec_child_test(segs), t.5.spec_child_test(segs), t.6.spec_child_test(segs), t.7.spec_child_test(segs), t.8.spec_child_test(segs), t.9.spec_child_test(segs), t.10.spec_child_test(segs), t.11.spec_child_test(segs), t.12.spec_child_test(segs), t.13.spec_child_test(segs), t.14.spec_child_test(segs), t.15.spec_child_test(segs), t.16.spec_child_test(segs), t.17.spec_child_test(segs), t.18.spec_child_test(segs), t.19.spec_child_test(segs), t.20.spec_child_test(segs), t.21.spec_child_test(segs), t.22.spec_child_test(segs), t.23.spec_child_test(segs), t.24.spec_child_test(segs)]);
}

/// Of 26 nested alternatives, the first is tried on the segments and its
/// match is taken; only when it does not match are the rest tried, in order.
pub proof fn lemma_child_tuple_26<A: RouteChild, B: RouteChild, C: RouteChild, D: RouteChild, E: RouteChild, F: RouteChild, G: RouteChild, H: RouteChild, I: RouteChild, J: RouteChild, K: RouteChild, L: RouteChild, M: RouteChild, N: RouteChild, O: RouteChild, P: RouteChild, Q: RouteChild, R: RouteChild, S: RouteChild, T: RouteChild, U: RouteChild, V: RouteChild, W: RouteChild, X: RouteChild, Y: RouteChild, Z: RouteChild>(t: (A, B, C, D, E, F, G, H, I, J, K, L, M, N, O, P, Q, R, S, T, U, V, W, X, Y, Z), segs: Seq<Seq<char>>)
    ensures
        t.spec_child_test(segs) == match t.0.spec_child_test(segs) {
            Some(m) => Some(m),
            None => (t.1, t.2, t.3, t.4, t.5, t.6, t.7, t.8, t.9, t.10, t.11, t.12, t.13, t.14, t.15, t.16, t.17, t.18, t.19, t.20, t.21, t.22, t.23, t.24, t.25).spec_child_test(segs),
        },
{
    let s = seq![t.0.spec_child_test(segs), t.1.spec_child_test(segs), t.2.spec_child_test(segs), t.3.spec_child_test(segs), t.4.spec_child_test(segs), t.5.spec_child_test(segs), t.6.spec_child_test(segs), t.7.spec_child_test(segs), t.8.spec_child_test(segs), t.9.spec_child_test(segs), t.10.spec_child_test(segs), t.11.spec_child_test(segs), t.12.spec_child_test(segs), t.13.spec_child_test(segs), t.14.spec_child_test(segs), t.15.spec_child_test(segs), t.16.spec_child_test(segs), t.17.spec_child_test(segs), t.18.spec_child_test(segs), t.19.spec_child_test(segs), t.20.spec_child_test(segs), t.21.spec_child_test(segs), t.22.spec_child_test(segs), t.23.spec_child_test(segs), t.24.spec_child_test(segs), t.25.spec_child_test(segs)];
    assert(s.drop_first() =~= seq![t.1.spec_child_test(segs), t.2.spec_child_test(segs), t.3.spec_child_test(segs), t.4.spec_child_test(segs), t.5.spec_child_test(segs), t.6.spec_child_test(segs), t.7.spec_child_test(segs), t.8.spec_child_test(segs), t.9.spec_child_test(segs), t.10.spec_child_test(segs), t.11.spec_child_test(segs), t.12.spec_child_test(segs), t.13.spec_child_test(segs), t.14.spec_child_test(segs), t.15.spec_child_test(segs), t.16.spec_child_test(segs), t.17.spec_child_test(segs), t.18.spec_child_test(segs), t.19.spec_child_test(segs), t.20.spec_child_test(segs), t.21.spec_child_test(segs), t.22.spec_child_test(segs), t.23.spec_child_test(segs), t.24.spec_child_test(segs), t.25.spec_child_test(segs)]);
}

} // verus!
