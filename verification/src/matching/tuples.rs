//! Tuples of routes match their members one after another, each on what the
//! one before it left: a tuple's match is `sequence_test` of its members.
use crate::matching::sequence::{
    lemma_route_slash_sound, lemma_sequence_end, lemma_sequence_slash, lemma_sequence_start,
    ok_of, pattern_of, sequence_ok, sequence_test, slash_sound, start_match, test_step, Pattern,
    PatternOk, Patterns,
};
use crate::matching::sequence::{empty_match, then_rest};
use crate::matching::{seq_match, PartialMatchView, PartialPathMatch, RouteMatch};
use vstd::prelude::*;

verus! {

impl<A: RouteMatch, B: RouteMatch> Patterns for (A, B) {
    open spec fn patterns(&self) -> Seq<Pattern> {
        seq![pattern_of(&self.0), pattern_of(&self.1)]
    }

    open spec fn pattern_oks(&self) -> Seq<PatternOk> {
        seq![ok_of(&self.0), ok_of(&self.1)]
    }
}

impl<A: RouteMatch, B: RouteMatch> RouteMatch for (A, B) {
    open spec fn spec_test(&self, path: Seq<char>) -> Option<PartialMatchView> {
        sequence_test(self.patterns(), path)
    }

    open spec fn test_ok(&self, path: Seq<char>) -> bool {
        sequence_ok(self.pattern_oks(), self.patterns(), path)
    }

    proof fn lemma_slash_path(&self, path: Seq<char>) {
        let parts = self.patterns();
        let oks = self.pattern_oks();
        lemma_route_slash_sound(&self.0);
        lemma_route_slash_sound(&self.1);
        assert forall|i: int| 0 <= i < 2 implies #[trigger] slash_sound(oks[i], parts[i]) by {
            if i == 0 {} else if i == 1 {}
        }
        lemma_sequence_slash(oks, parts, path);
    }

    fn test<'a>(&self, path: &'a str) -> (r: Option<PartialPathMatch<'a>>) {
        let ghost parts = self.patterns();
        let ghost oks = self.pattern_oks();
        let done = start_match(path);
        proof {
            lemma_sequence_start(parts, oks, path@);
        }
        let done = match test_step(&self.0, done, Ghost(parts), Ghost(oks), Ghost(0), Ghost(path@)) {
            Some(d) => d,
            None => return None,
        };
        let done = match test_step(&self.1, done, Ghost(parts), Ghost(oks), Ghost(1), Ghost(path@)) {
            Some(d) => d,
            None => return None,
        };
        proof {
            lemma_sequence_end(parts, done@, path@);
        }
        Some(done)
    }
}

impl<A: RouteMatch, B: RouteMatch, C: RouteMatch> Patterns for (A, B, C) {
    open spec fn patterns(&self) -> Seq<Pattern> {
        seq![pattern_of(&self.0), pattern_of(&self.1), pattern_of(&self.2)]
    }

    open spec fn pattern_oks(&self) -> Seq<PatternOk> {
        seq![ok_of(&self.0), ok_of(&self.1), ok_of(&self.2)]
    }
}

impl<A: RouteMatch, B: RouteMatch, C: RouteMatch> RouteMatch for (A, B, C) {
    open spec fn spec_test(&self, path: Seq<char>) -> Option<PartialMatchView> {
        sequence_test(self.patterns(), path)
    }

    open spec fn test_ok(&self, path: Seq<char>) -> bool {
        sequence_ok(self.pattern_oks(), self.patterns(), path)
    }

    proof fn lemma_slash_path(&self, path: Seq<char>) {
        let parts = self.patterns();
        let oks = self.pattern_oks();
        lemma_route_slash_sound(&self.0);
        lemma_route_slash_sound(&self.1);
        lemma_route_slash_sound(&self.2);
        assert forall|i: int| 0 <= i < 3 implies #[trigger] slash_sound(oks[i], parts[i]) by {
            if i == 0 {} else if i == 1 {} else if i == 2 {}
        }
        lemma_sequence_slash(oks, parts, path);
    }

    fn test<'a>(&self, path: &'a str) -> (r: Option<PartialPathMatch<'a>>) {
        let ghost parts = self.patterns();
        let ghost oks = self.pattern_oks();
        let done = start_match(path);
        proof {
            lemma_sequence_start(parts, oks, path@);
        }
        let done = match test_step(&self.0, done, Ghost(parts), Ghost(oks), Ghost(0), Ghost(path@)) {
            Some(d) => d,
            None => return None,
        };
        let done = match test_step(&self.1, done, Ghost(parts), Ghost(oks), Ghost(1), Ghost(path@)) {
            Some(d) => d,
            None => return None,
        };
        let done = match test_step(&self.2, done, Ghost(parts), Ghost(oks), Ghost(2), Ghost(path@)) {
            Some(d) => d,
            None => return None,
        };
        proof {
            lemma_sequence_end(parts, done@, path@);
        }
        Some(done)
    }
}

impl<A: RouteMatch, B: RouteMatch, C: RouteMatch, D: RouteMatch> Patterns for (A, B, C, D) {
    open spec fn patterns(&self) -> Seq<Pattern> {
        seq![pattern_of(&self.0), pattern_of(&self.1), pattern_of(&self.2), pattern_of(&self.3)]
    }

    open spec fn pattern_oks(&self) -> Seq<PatternOk> {
        seq![ok_of(&self.0), ok_of(&self.1), ok_of(&self.2), ok_of(&self.3)]
    }
}

impl<A: RouteMatch, B: RouteMatch, C: RouteMatch, D: RouteMatch> RouteMatch for (A, B, C, D) {
    open spec fn spec_test(&self, path: Seq<char>) -> Option<PartialMatchView> {
        sequence_test(self.patterns(), path)
    }

    open spec fn test_ok(&self, path: Seq<char>) -> bool {
        sequence_ok(self.pattern_oks(), self.patterns(), path)
    }

    proof fn lemma_slash_path(&self, path: Seq<char>) {
        let parts = self.patterns();
        let oks = self.pattern_oks();
        lemma_route_slash_sound(&self.0);
        lemma_route_slash_sound(&self.1);
        lemma_route_slash_sound(&self.2);
        lemma_route_slash_sound(&self.3);
        assert forall|i: int| 0 <= i < 4 implies #[trigger] slash_sound(oks[i], parts[i]) by {
            if i == 0 {} else if i == 1 {} else if i == 2 {} else if i == 3 {}
        }
        lemma_sequence_slash(oks, parts, path);
    }

    fn test<'a>(&self, path: &'a str) -> (r: Option<PartialPathMatch<'a>>) {
        let ghost parts = self.patterns();
        let ghost oks = self.pattern_oks();
        let done = start_match(path);
        proof {
            lemma_sequence_start(parts, oks, path@);
        }
        let done = match test_step(&self.0, done, Ghost(parts), Ghost(oks), Ghost(0), Ghost(path@)) {
            Some(d) => d,
            None => return None,
        };
        let done = match test_step(&self.1, done, Ghost(parts), Ghost(oks), Ghost(1), Ghost(path@)) {
            Some(d) => d,
            None => return None,
        };
        let done = match test_step(&self.2, done, Ghost(parts), Ghost(oks), Ghost(2), Ghost(path@)) {
            Some(d) => d,
            None => return None,
        };
        let done = match test_step(&self.3, done, Ghost(parts), Ghost(oks), Ghost(3), Ghost(path@)) {
            Some(d) => d,
            None => return None,
        };
        proof {
            lemma_sequence_end(parts, done@, path@);
        }
        Some(done)
    }
}

impl<A: RouteMatch, B: RouteMatch, C: RouteMatch, D: RouteMatch, E: RouteMatch> Patterns for (A, B, C, D, E) {
    open spec fn patterns(&self) -> Seq<Pattern> {
        seq![pattern_of(&self.0), pattern_of(&self.1), pattern_of(&self.2), pattern_of(&self.3), pattern_of(&self.4)]
    }

    open spec fn pattern_oks(&self) -> Seq<PatternOk> {
        seq![ok_of(&self.0), ok_of(&self.1), ok_of(&self.2), ok_of(&self.3), ok_of(&self.4)]
    }
}

impl<A: RouteMatch, B: RouteMatch, C: RouteMatch, D: RouteMatch, E: RouteMatch> RouteMatch for (A, B, C, D, E) {
    open spec fn spec_test(&self, path: Seq<char>) -> Option<PartialMatchView> {
        sequence_test(self.patterns(), path)
    }

    open spec fn test_ok(&self, path: Seq<char>) -> bool {
        sequence_ok(self.pattern_oks(), self.patterns(), path)
    }

    proof fn lemma_slash_path(&self, path: Seq<char>) {
        let parts = self.patterns();
        let oks = self.pattern_oks();
        lemma_route_slash_sound(&self.0);
        lemma_route_slash_sound(&self.1);
        lemma_route_slash_sound(&self.2);
        lemma_route_slash_sound(&self.3);
        lemma_route_slash_sound(&self.4);
        assert forall|i: int| 0 <= i < 5 implies #[trigger] slash_sound(oks[i], parts[i]) by {
            if i == 0 {} else if i == 1 {} else if i == 2 {} else if i == 3 {} else if i == 4 {}
        }
        lemma_sequence_slash(oks, parts, path);
    }

    fn test<'a>(&self, path: &'a str) -> (r: Option<PartialPathMatch<'a>>) {
        let ghost parts = self.patterns();
        let ghost oks = self.pattern_oks();
        let done = start_match(path);
        proof {
            lemma_sequence_start(parts, oks, path@);
        }
        let done = match test_step(&self.0, done, Ghost(parts), Ghost(oks), Ghost(0), Ghost(path@)) {
            Some(d) => d,
            None => return None,
        };
        let done = match test_step(&self.1, done, Ghost(parts), Ghost(oks), Ghost(1), Ghost(path@)) {
            Some(d) => d,
            None => return None,
        };
        let done = match test_step(&self.2, done, Ghost(parts), Ghost(oks), Ghost(2), Ghost(path@)) {
            Some(d) => d,
            None => return None,
        };
        let done = match test_step(&self.3, done, Ghost(parts), Ghost(oks), Ghost(3), Ghost(path@)) {
            Some(d) => d,
            None => return None,
        };
        let done = match test_step(&self.4, done, Ghost(parts), Ghost(oks), Ghost(4), Ghost(path@)) {
            Some(d) => d,
            None => return None,
        };
        proof {
            lemma_sequence_end(parts, done@, path@);
        }
        Some(done)
    }
}

impl<A: RouteMatch, B: RouteMatch, C: RouteMatch, D: RouteMatch, E: RouteMatch, F: RouteMatch> Patterns for (A, B, C, D, E, F) {
    open spec fn patterns(&self) -> Seq<Pattern> {
        seq![pattern_of(&self.0), pattern_of(&self.1), pattern_of(&self.2), pattern_of(&self.3), pattern_of(&self.4), pattern_of(&self.5)]
    }

    open spec fn pattern_oks(&self) -> Seq<PatternOk> {
        seq![ok_of(&self.0), ok_of(&self.1), ok_of(&self.2), ok_of(&self.3), ok_of(&self.4), ok_of(&self.5)]
    }
}

impl<A: RouteMatch, B: RouteMatch, C: RouteMatch, D: RouteMatch, E: RouteMatch, F: RouteMatch> RouteMatch for (A, B, C, D, E, F) {
    open spec fn spec_test(&self, path: Seq<char>) -> Option<PartialMatchView> {
        sequence_test(self.patterns(), path)
    }

    open spec fn test_ok(&self, path: Seq<char>) -> bool {
        sequence_ok(self.pattern_oks(), self.patterns(), path)
    }

    proof fn lemma_slash_path(&self, path: Seq<char>) {
        let parts = self.patterns();
        let oks = self.pattern_oks();
        lemma_route_slash_sound(&self.0);
        lemma_route_slash_sound(&self.1);
        lemma_route_slash_sound(&self.2);
        lemma_route_slash_sound(&self.3);
        lemma_route_slash_sound(&self.4);
        lemma_route_slash_sound(&self.5);
        assert forall|i: int| 0 <= i < 6 implies #[trigger] slash_sound(oks[i], parts[i]) by {
            if i == 0 {} else if i == 1 {} else if i == 2 {} else if i == 3 {} else if i == 4 {} else if i == 5 {}
        }
        lemma_sequence_slash(oks, parts, path);
    }

    fn test<'a>(&self, path: &'a str) -> (r: Option<PartialPathMatch<'a>>) {
        let ghost parts = self.patterns();
        let ghost oks = self.pattern_oks();
        let done = start_match(path);
        proof {
            lemma_sequence_start(parts, oks, path@);
        }
        let done = match test_step(&self.0, done, Ghost(parts), Ghost(oks), Ghost(0), Ghost(path@)) {
            Some(d) => d,
            None => return None,
        };
        let done = match test_step(&self.1, done, Ghost(parts), Ghost(oks), Ghost(1), Ghost(path@)) {
            Some(d) => d,
            None => return None,
        };
        let done = match test_step(&self.2, done, Ghost(parts), Ghost(oks), Ghost(2), Ghost(path@)) {
            Some(d) => d,
            None => return None,
        };
        let done = match test_step(&self.3, done, Ghost(parts), Ghost(oks), Ghost(3), Ghost(path@)) {
            Some(d) => d,
            None => return None,
        };
        let done = match test_step(&self.4, done, Ghost(parts), Ghost(oks), Ghost(4), Ghost(path@)) {
            Some(d) => d,
            None => return None,
        };
        let done = match test_step(&self.5, done, Ghost(parts), Ghost(oks), Ghost(5), Ghost(path@)) {
            Some(d) => d,
            None => return None,
        };
        proof {
            lemma_sequence_end(parts, done@, path@);
        }
        Some(done)
    }
}

impl<A: RouteMatch, B: RouteMatch, C: RouteMatch, D: RouteMatch, E: RouteMatch, F: RouteMatch, G: RouteMatch> Patterns for (A, B, C, D, E, F, G) {
    open spec fn patterns(&self) -> Seq<Pattern> {
        seq![pattern_of(&self.0), pattern_of(&self.1), pattern_of(&self.2), pattern_of(&self.3), pattern_of(&self.4), pattern_of(&self.5), pattern_of(&self.6)]
    }

    open spec fn pattern_oks(&self) -> Seq<PatternOk> {
        seq![ok_of(&self.0), ok_of(&self.1), ok_of(&self.2), ok_of(&self.3), ok_of(&self.4), ok_of(&self.5), ok_of(&self.6)]
    }
}

impl<A: RouteMatch, B: RouteMatch, C: RouteMatch, D: RouteMatch, E: RouteMatch, F: RouteMatch, G: RouteMatch> RouteMatch for (A, B, C, D, E, F, G) {
    open spec fn spec_test(&self, path: Seq<char>) -> Option<PartialMatchView> {
        sequence_test(self.patterns(), path)
    }

    open spec fn test_ok(&self, path: Seq<char>) -> bool {
        sequence_ok(self.pattern_oks(), self.patterns(), path)
    }

    proof fn lemma_slash_path(&self, path: Seq<char>) {
        let parts = self.patterns();
        let oks = self.pattern_oks();
        lemma_route_slash_sound(&self.0);
        lemma_route_slash_sound(&self.1);
        lemma_route_slash_sound(&self.2);
        lemma_route_slash_sound(&self.3);
        lemma_route_slash_sound(&self.4);
        lemma_route_slash_sound(&self.5);
        lemma_route_slash_sound(&self.6);
        assert forall|i: int| 0 <= i < 7 implies #[trigger] slash_sound(oks[i], parts[i]) by {
            if i == 0 {} else if i == 1 {} else if i == 2 {} else if i == 3 {} else if i == 4 {} else if i == 5 {} else if i == 6 {}
        }
        lemma_sequence_slash(oks, parts, path);
    }

    fn test<'a>(&self, path: &'a str) -> (r: Option<PartialPathMatch<'a>>) {
        let ghost parts = self.patterns();
        let ghost oks = self.pattern_oks();
        let done = start_match(path);
        proof {
            lemma_sequence_start(parts, oks, path@);
        }
        let done = match test_step(&self.0, done, Ghost(parts), Ghost(oks), Ghost(0), Ghost(path@)) {
            Some(d) => d,
            None => return None,
        };
        let done = match test_step(&self.1, done, Ghost(parts), Ghost(oks), Ghost(1), Ghost(path@)) {
            Some(d) => d,
            None => return None,
        };
        let done = match test_step(&self.2, done, Ghost(parts), Ghost(oks), Ghost(2), Ghost(path@)) {
            Some(d) => d,
            None => return None,
        };
        let done = match test_step(&self.3, done, Ghost(parts), Ghost(oks), Ghost(3), Ghost(path@)) {
            Some(d) => d,
            None => return None,
        };
        let done = match test_step(&self.4, done, Ghost(parts), Ghost(oks), Ghost(4), Ghost(path@)) {
            Some(d) => d,
            None => return None,
        };
        let done = match test_step(&self.5, done, Ghost(parts), Ghost(oks), Ghost(5), Ghost(path@)) {
            Some(d) => d,
            None => return None,
        };
        let done = match test_step(&self.6, done, Ghost(parts), Ghost(oks), Ghost(6), Ghost(path@)) {
            Some(d) => d,
            None => return None,
        };
        proof {
            lemma_sequence_end(parts, done@, path@);
        }
        Some(done)
    }
}

impl<A: RouteMatch, B: RouteMatch, C: RouteMatch, D: RouteMatch, E: RouteMatch, F: RouteMatch, G: RouteMatch, H: RouteMatch> Patterns for (A, B, C, D, E, F, G, H) {
    open spec fn patterns(&self) -> Seq<Pattern> {
        seq![pattern_of(&self.0), pattern_of(&self.1), pattern_of(&self.2), pattern_of(&self.3), pattern_of(&self.4), pattern_of(&self.5), pattern_of(&self.6), pattern_of(&self.7)]
    }

    open spec fn pattern_oks(&self) -> Seq<PatternOk> {
        seq![ok_of(&self.0), ok_of(&self.1), ok_of(&self.2), ok_of(&self.3), ok_of(&self.4), ok_of(&self.5), ok_of(&self.6), ok_of(&self.7)]
    }
}

impl<A: RouteMatch, B: RouteMatch, C: RouteMatch, D: RouteMatch, E: RouteMatch, F: RouteMatch, G: RouteMatch, H: RouteMatch> RouteMatch for (A, B, C, D, E, F, G, H) {
    open spec fn spec_test(&self, path: Seq<char>) -> Option<PartialMatchView> {
        sequence_test(self.patterns(), path)
    }

    open spec fn test_ok(&self, path: Seq<char>) -> bool {
        sequence_ok(self.pattern_oks(), self.patterns(), path)
    }

    proof fn lemma_slash_path(&self, path: Seq<char>) {
        let parts = self.patterns();
        let oks = self.pattern_oks();
        lemma_route_slash_sound(&self.0);
        lemma_route_slash_sound(&self.1);
        lemma_route_slash_sound(&self.2);
        lemma_route_slash_sound(&self.3);
        lemma_route_slash_sound(&self.4);
        lemma_route_slash_sound(&self.5);
        lemma_route_slash_sound(&self.6);
        lemma_route_slash_sound(&self.7);
        assert forall|i: int| 0 <= i < 8 implies #[trigger] slash_sound(oks[i], parts[i]) by {
            if i == 0 {} else if i == 1 {} else if i == 2 {} else if i == 3 {} else if i == 4 {} else if i == 5 {} else if i == 6 {} else if i == 7 {}
        }
        lemma_sequence_slash(oks, parts, path);
    }

    fn test<'a>(&self, path: &'a str) -> (r: Option<PartialPathMatch<'a>>) {
        let ghost parts = self.patterns();
        let ghost oks = self.pattern_oks();
        let done = start_match(path);
        proof {
            lemma_sequence_start(parts, oks, path@);
        }
        let done = match test_step(&self.0, done, Ghost(parts), Ghost(oks), Ghost(0), Ghost(path@)) {
            Some(d) => d,
            None => return None,
        };
        let done = match test_step(&self.1, done, Ghost(parts), Ghost(oks), Ghost(1), Ghost(path@)) {
            Some(d) => d,
            None => return None,
        };
        let done = match test_step(&self.2, done, Ghost(parts), Ghost(oks), Ghost(2), Ghost(path@)) {
            Some(d) => d,
            None => return None,
        };
        let done = match test_step(&self.3, done, Ghost(parts), Ghost(oks), Ghost(3), Ghost(path@)) {
            Some(d) => d,
            None => return None,
        };
        let done = match test_step(&self.4, done, Ghost(parts), Ghost(oks), Ghost(4), Ghost(path@)) {
            Some(d) => d,
            None => return None,
        };
        let done = match test_step(&self.5, done, Ghost(parts), Ghost(oks), Ghost(5), Ghost(path@)) {
            Some(d) => d,
            None => return None,
        };
        let done = match test_step(&self.6, done, Ghost(parts), Ghost(oks), Ghost(6), Ghost(path@)) {
            Some(d) => d,
            None => return None,
        };
        let done = match test_step(&self.7, done, Ghost(parts), Ghost(oks), Ghost(7), Ghost(path@)) {
            Some(d) => d,
            None => return None,
        };
        proof {
            lemma_sequence_end(parts, done@, path@);
        }
        Some(done)
    }
}

impl<A: RouteMatch, B: RouteMatch, C: RouteMatch, D: RouteMatch, E: RouteMatch, F: RouteMatch, G: RouteMatch, H: RouteMatch, I: RouteMatch> Patterns for (A, B, C, D, E, F, G, H, I) {
    open spec fn patterns(&self) -> Seq<Pattern> {
        seq![pattern_of(&self.0), pattern_of(&self.1), pattern_of(&self.2), pattern_of(&self.3), pattern_of(&self.4), pattern_of(&self.5), pattern_of(&self.6), pattern_of(&self.7), pattern_of(&self.8)]
    }

    open spec fn pattern_oks(&self) -> Seq<PatternOk> {
        seq![ok_of(&self.0), ok_of(&self.1), ok_of(&self.2), ok_of(&self.3), ok_of(&self.4), ok_of(&self.5), ok_of(&self.6), ok_of(&self.7), ok_of(&self.8)]
    }
}

impl<A: RouteMatch, B: RouteMatch, C: RouteMatch, D: RouteMatch, E: RouteMatch, F: RouteMatch, G: RouteMatch, H: RouteMatch, I: RouteMatch> RouteMatch for (A, B, C, D, E, F, G, H, I) {
    open spec fn spec_test(&self, path: Seq<char>) -> Option<PartialMatchView> {
        sequence_test(self.patterns(), path)
    }

    open spec fn test_ok(&self, path: Seq<char>) -> bool {
        sequence_ok(self.pattern_oks(), self.patterns(), path)
    }

    proof fn lemma_slash_path(&self, path: Seq<char>) {
        let parts = self.patterns();
        let oks = self.pattern_oks();
        lemma_route_slash_sound(&self.0);
        lemma_route_slash_sound(&self.1);
        lemma_route_slash_sound(&self.2);
        lemma_route_slash_sound(&self.3);
        lemma_route_slash_sound(&self.4);
        lemma_route_slash_sound(&self.5);
        lemma_route_slash_sound(&self.6);
        lemma_route_slash_sound(&self.7);
        lemma_route_slash_sound(&self.8);
        assert forall|i: int| 0 <= i < 9 implies #[trigger] slash_sound(oks[i], parts[i]) by {
            if i == 0 {} else if i == 1 {} else if i == 2 {} else if i == 3 {} else if i == 4 {} else if i == 5 {} else if i == 6 {} else if i == 7 {} else if i == 8 {}
        }
        lemma_sequence_slash(oks, parts, path);
    }

    fn test<'a>(&self, path: &'a str) -> (r: Option<PartialPathMatch<'a>>) {
        let ghost parts = self.patterns();
        let ghost oks = self.pattern_oks();
        let done = start_match(path);
        proof {
            lemma_sequence_start(parts, oks, path@);
        }
        let done = match test_step(&self.0, done, Ghost(parts), Ghost(oks), Ghost(0), Ghost(path@)) {
            Some(d) => d,
            None => return None,
        };
        let done = match test_step(&self.1, done, Ghost(parts), Ghost(oks), Ghost(1), Ghost(path@)) {
            Some(d) => d,
            None => return None,
        };
        let done = match test_step(&self.2, done, Ghost(parts), Ghost(oks), Ghost(2), Ghost(path@)) {
            Some(d) => d,
            None => return None,
        };
        let done = match test_step(&self.3, done, Ghost(parts), Ghost(oks), Ghost(3), Ghost(path@)) {
            Some(d) => d,
            None => return None,
        };
        let done = match test_step(&self.4, done, Ghost(parts), Ghost(oks), Ghost(4), Ghost(path@)) {
            Some(d) => d,
            None => return None,
        };
        let done = match test_step(&self.5, done, Ghost(parts), Ghost(oks), Ghost(5), Ghost(path@)) {
            Some(d) => d,
            None => return None,
        };
        let done = match test_step(&self.6, done, Ghost(parts), Ghost(oks), Ghost(6), Ghost(path@)) {
            Some(d) => d,
            None => return None,
        };
        let done = match test_step(&self.7, done, Ghost(parts), Ghost(oks), Ghost(7), Ghost(path@)) {
            Some(d) => d,
            None => return None,
        };
        let done = match test_step(&self.8, done, Ghost(parts), Ghost(oks), Ghost(8), Ghost(path@)) {
            Some(d) => d,
            None => return None,
        };
        proof {
            lemma_sequence_end(parts, done@, path@);
        }
        Some(done)
    }
}

impl<A: RouteMatch, B: RouteMatch, C: RouteMatch, D: RouteMatch, E: RouteMatch, F: RouteMatch, G: RouteMatch, H: RouteMatch, I: RouteMatch, J: RouteMatch> Patterns for (A, B, C, D, E, F, G, H, I, J) {
    open spec fn patterns(&self) -> Seq<Pattern> {
        seq![pattern_of(&self.0), pattern_of(&self.1), pattern_of(&self.2), pattern_of(&self.3), pattern_of(&self.4), pattern_of(&self.5), pattern_of(&self.6), pattern_of(&self.7), pattern_of(&self.8), pattern_of(&self.9)]
    }

    open spec fn pattern_oks(&self) -> Seq<PatternOk> {
        seq![ok_of(&self.0), ok_of(&self.1), ok_of(&self.2), ok_of(&self.3), ok_of(&self.4), ok_of(&self.5), ok_of(&self.6), ok_of(&self.7), ok_of(&self.8), ok_of(&self.9)]
    }
}

impl<A: RouteMatch, B: RouteMatch, C: RouteMatch, D: RouteMatch, E: RouteMatch, F: RouteMatch, G: RouteMatch, H: RouteMatch, I: RouteMatch, J: RouteMatch> RouteMatch for (A, B, C, D, E, F, G, H, I, J) {
    open spec fn spec_test(&self, path: Seq<char>) -> Option<PartialMatchView> {
        sequence_test(self.patterns(), path)
    }

    open spec fn test_ok(&self, path: Seq<char>) -> bool {
        sequence_ok(self.pattern_oks(), self.patterns(), path)
    }

    proof fn lemma_slash_path(&self, path: Seq<char>) {
        let parts = self.patterns();
        let oks = self.pattern_oks();
        lemma_route_slash_sound(&self.0);
        lemma_route_slash_sound(&self.1);
        lemma_route_slash_sound(&self.2);
        lemma_route_slash_sound(&self.3);
        lemma_route_slash_sound(&self.4);
        lemma_route_slash_sound(&self.5);
        lemma_route_slash_sound(&self.6);
        lemma_route_slash_sound(&self.7);
        lemma_route_slash_sound(&self.8);
        lemma_route_slash_sound(&self.9);
        assert forall|i: int| 0 <= i < 10 implies #[trigger] slash_sound(oks[i], parts[i]) by {
            if i == 0 {} else if i == 1 {} else if i == 2 {} else if i == 3 {} else if i == 4 {} else if i == 5 {} else if i == 6 {} else if i == 7 {} else if i == 8 {} else if i == 9 {}
        }
        lemma_sequence_slash(oks, parts, path);
    }

    fn test<'a>(&self, path: &'a str) -> (r: Option<PartialPathMatch<'a>>) {
        let ghost parts = self.patterns();
        let ghost oks = self.pattern_oks();
        let done = start_match(path);
        proof {
            lemma_sequence_start(parts, oks, path@);
        }
        let done = match test_step(&self.0, done, Ghost(parts), Ghost(oks), Ghost(0), Ghost(path@)) {
            Some(d) => d,
            None => return None,
        };
        let done = match test_step(&self.1, done, Ghost(parts), Ghost(oks), Ghost(1), Ghost(path@)) {
            Some(d) => d,
            None => return None,
        };
        let done = match test_step(&self.2, done, Ghost(parts), Ghost(oks), Ghost(2), Ghost(path@)) {
            Some(d) => d,
            None => return None,
        };
        let done = match test_step(&self.3, done, Ghost(parts), Ghost(oks), Ghost(3), Ghost(path@)) {
            Some(d) => d,
            None => return None,
        };
        let done = match test_step(&self.4, done, Ghost(parts), Ghost(oks), Ghost(4), Ghost(path@)) {
            Some(d) => d,
            None => return None,
        };
        let done = match test_step(&self.5, done, Ghost(parts), Ghost(oks), Ghost(5), Ghost(path@)) {
            Some(d) => d,
            None => return None,
        };
        let done = match test_step(&self.6, done, Ghost(parts), Ghost(oks), Ghost(6), Ghost(path@)) {
            Some(d) => d,
            None => return None,
        };
        let done = match test_step(&self.7, done, Ghost(parts), Ghost(oks), Ghost(7), Ghost(path@)) {
            Some(d) => d,
            None => return None,
        };
        let done = match test_step(&self.8, done, Ghost(parts), Ghost(oks), Ghost(8), Ghost(path@)) {
            Some(d) => d,
            None => return None,
        };
        let done = match test_step(&self.9, done, Ghost(parts), Ghost(oks), Ghost(9), Ghost(path@)) {
            Some(d) => d,
            None => return None,
        };
        proof {
            lemma_sequence_end(parts, done@, path@);
        }
        Some(done)
    }
}

impl<A: RouteMatch, B: RouteMatch, C: RouteMatch, D: RouteMatch, E: RouteMatch, F: RouteMatch, G: RouteMatch, H: RouteMatch, I: RouteMatch, J: RouteMatch, K: RouteMatch> Patterns for (A, B, C, D, E, F, G, H, I, J, K) {
    open spec fn patterns(&self) -> Seq<Pattern> {
        seq![pattern_of(&self.0), pattern_of(&self.1), pattern_of(&self.2), pattern_of(&self.3), pattern_of(&self.4), pattern_of(&self.5), pattern_of(&self.6), pattern_of(&self.7), pattern_of(&self.8), pattern_of(&self.9), pattern_of(&self.10)]
    }

    open spec fn pattern_oks(&self) -> Seq<PatternOk> {
        seq![ok_of(&self.0), ok_of(&self.1), ok_of(&self.2), ok_of(&self.3), ok_of(&self.4), ok_of(&self.5), ok_of(&self.6), ok_of(&self.7), ok_of(&self.8), ok_of(&self.9), ok_of(&self.10)]
    }
}

impl<A: RouteMatch, B: RouteMatch, C: RouteMatch, D: RouteMatch, E: RouteMatch, F: RouteMatch, G: RouteMatch, H: RouteMatch, I: RouteMatch, J: RouteMatch, K: RouteMatch> RouteMatch for (A, B, C, D, E, F, G, H, I, J, K) {
    open spec fn spec_test(&self, path: Seq<char>) -> Option<PartialMatchView> {
        sequence_test(self.patterns(), path)
    }

    open spec fn test_ok(&self, path: Seq<char>) -> bool {
        sequence_ok(self.pattern_oks(), self.patterns(), path)
    }

    proof fn lemma_slash_path(&self, path: Seq<char>) {
        let parts = self.patterns();
        let oks = self.pattern_oks();
        lemma_route_slash_sound(&self.0);
        lemma_route_slash_sound(&self.1);
        lemma_route_slash_sound(&self.2);
        lemma_route_slash_sound(&self.3);
        lemma_route_slash_sound(&self.4);
        lemma_route_slash_sound(&self.5);
        lemma_route_slash_sound(&self.6);
        lemma_route_slash_sound(&self.7);
        lemma_route_slash_sound(&self.8);
        lemma_route_slash_sound(&self.9);
        lemma_route_slash_sound(&self.10);
        assert forall|i: int| 0 <= i < 11 implies #[trigger] slash_sound(oks[i], parts[i]) by {
            if i == 0 {} else if i == 1 {} else if i == 2 {} else if i == 3 {} else if i == 4 {} else if i == 5 {} else if i == 6 {} else if i == 7 {} else if i == 8 {} else if i == 9 {} else if i == 10 {}
        }
        lemma_sequence_slash(oks, parts, path);
    }

    fn test<'a>(&self, path: &'a str) -> (r: Option<PartialPathMatch<'a>>) {
        let ghost parts = self.patterns();
        let ghost oks = self.pattern_oks();
        let done = start_match(path);
        proof {
            lemma_sequence_start(parts, oks, path@);
        }
        let done = match test_step(&self.0, done, Ghost(parts), Ghost(oks), Ghost(0), Ghost(path@)) {
            Some(d) => d,
            None => return None,
        };
        let done = match test_step(&self.1, done, Ghost(parts), Ghost(oks), Ghost(1), Ghost(path@)) {
            Some(d) => d,
            None => return None,
        };
        let done = match test_step(&self.2, done, Ghost(parts), Ghost(oks), Ghost(2), Ghost(path@)) {
            Some(d) => d,
            None => return None,
        };
        let done = match test_step(&self.3, done, Ghost(parts), Ghost(oks), Ghost(3), Ghost(path@)) {
            Some(d) => d,
            None => return None,
        };
        let done = match test_step(&self.4, done, Ghost(parts), Ghost(oks), Ghost(4), Ghost(path@)) {
            Some(d) => d,
            None => return None,
        };
        let done = match test_step(&self.5, done, Ghost(parts), Ghost(oks), Ghost(5), Ghost(path@)) {
            Some(d) => d,
            None => return None,
        };
        let done = match test_step(&self.6, done, Ghost(parts), Ghost(oks), Ghost(6), Ghost(path@)) {
            Some(d) => d,
            None => return None,
        };
        let done = match test_step(&self.7, done, Ghost(parts), Ghost(oks), Ghost(7), Ghost(path@)) {
            Some(d) => d,
            None => return None,
        };
        let done = match test_step(&self.8, done, Ghost(parts), Ghost(oks), Ghost(8), Ghost(path@)) {
            Some(d) => d,
            None => return None,
        };
        let done = match test_step(&self.9, done, Ghost(parts), Ghost(oks), Ghost(9), Ghost(path@)) {
            Some(d) => d,
            None => return None,
        };
        let done = match test_step(&self.10, done, Ghost(parts), Ghost(oks), Ghost(10), Ghost(path@)) {
            Some(d) => d,
            None => return None,
        };
        proof {
            lemma_sequence_end(parts, done@, path@);
        }
        Some(done)
    }
}

impl<A: RouteMatch, B: RouteMatch, C: RouteMatch, D: RouteMatch, E: RouteMatch, F: RouteMatch, G: RouteMatch, H: RouteMatch, I: RouteMatch, J: RouteMatch, K: RouteMatch, L: RouteMatch> Patterns for (A, B, C, D, E, F, G, H, I, J, K, L) {
    open spec fn patterns(&self) -> Seq<Pattern> {
        seq![pattern_of(&self.0), pattern_of(&self.1), pattern_of(&self.2), pattern_of(&self.3), pattern_of(&self.4), pattern_of(&self.5), pattern_of(&self.6), pattern_of(&self.7), pattern_of(&self.8), pattern_of(&self.9), pattern_of(&self.10), pattern_of(&self.11)]
    }

    open spec fn pattern_oks(&self) -> Seq<PatternOk> {
        seq![ok_of(&self.0), ok_of(&self.1), ok_of(&self.2), ok_of(&self.3), ok_of(&self.4), ok_of(&self.5), ok_of(&self.6), ok_of(&self.7), ok_of(&self.8), ok_of(&self.9), ok_of(&self.10), ok_of(&self.11)]
    }
}

impl<A: RouteMatch, B: RouteMatch, C: RouteMatch, D: RouteMatch, E: RouteMatch, F: RouteMatch, G: RouteMatch, H: RouteMatch, I: RouteMatch, J: RouteMatch, K: RouteMatch, L: RouteMatch> RouteMatch for (A, B, C, D, E, F, G, H, I, J, K, L) {
    open spec fn spec_test(&self, path: Seq<char>) -> Option<PartialMatchView> {
        sequence_test(self.patterns(), path)
    }

    open spec fn test_ok(&self, path: Seq<char>) -> bool {
        sequence_ok(self.pattern_oks(), self.patterns(), path)
    }

    proof fn lemma_slash_path(&self, path: Seq<char>) {
        let parts = self.patterns();
        let oks = self.pattern_oks();
        lemma_route_slash_sound(&self.0);
        lemma_route_slash_sound(&self.1);
        lemma_route_slash_sound(&self.2);
        lemma_route_slash_sound(&self.3);
        lemma_route_slash_sound(&self.4);
        lemma_route_slash_sound(&self.5);
        lemma_route_slash_sound(&self.6);
        lemma_route_slash_sound(&self.7);
        lemma_route_slash_sound(&self.8);
        lemma_route_slash_sound(&self.9);
        lemma_route_slash_sound(&self.10);
        lemma_route_slash_sound(&self.11);
        assert forall|i: int| 0 <= i < 12 implies #[trigger] slash_sound(oks[i], parts[i]) by {
            if i == 0 {} else if i == 1 {} else if i == 2 {} else if i == 3 {} else if i == 4 {} else if i == 5 {} else if i == 6 {} else if i == 7 {} else if i == 8 {} else if i == 9 {} else if i == 10 {} else if i == 11 {}
        }
        lemma_sequence_slash(oks, parts, path);
    }

    fn test<'a>(&self, path: &'a str) -> (r: Option<PartialPathMatch<'a>>) {
        let ghost parts = self.patterns();
        let ghost oks = self.pattern_oks();
        let done = start_match(path);
        proof {
            lemma_sequence_start(parts, oks, path@);
        }
        let done = match test_step(&self.0, done, Ghost(parts), Ghost(oks), Ghost(0), Ghost(path@)) {
            Some(d) => d,
            None => return None,
        };
        let done = match test_step(&self.1, done, Ghost(parts), Ghost(oks), Ghost(1), Ghost(path@)) {
            Some(d) => d,
            None => return None,
        };
        let done = match test_step(&self.2, done, Ghost(parts), Ghost(oks), Ghost(2), Ghost(path@)) {
            Some(d) => d,
            None => return None,
        };
        let done = match test_step(&self.3, done, Ghost(parts), Ghost(oks), Ghost(3), Ghost(path@)) {
            Some(d) => d,
            None => return None,
        };
        let done = match test_step(&self.4, done, Ghost(parts), Ghost(oks), Ghost(4), Ghost(path@)) {
            Some(d) => d,
            None => return None,
        };
        let done = match test_step(&self.5, done, Ghost(parts), Ghost(oks), Ghost(5), Ghost(path@)) {
            Some(d) => d,
            None => return None,
        };
        let done = match test_step(&self.6, done, Ghost(parts), Ghost(oks), Ghost(6), Ghost(path@)) {
            Some(d) => d,
            None => return None,
        };
        let done = match test_step(&self.7, done, Ghost(parts), Ghost(oks), Ghost(7), Ghost(path@)) {
            Some(d) => d,
            None => return None,
        };
        let done = match test_step(&self.8, done, Ghost(parts), Ghost(oks), Ghost(8), Ghost(path@)) {
            Some(d) => d,
            None => return None,
        };
        let done = match test_step(&self.9, done, Ghost(parts), Ghost(oks), Ghost(9), Ghost(path@)) {
            Some(d) => d,
            None => return None,
        };
        let done = match test_step(&self.10, done, Ghost(parts), Ghost(oks), Ghost(10), Ghost(path@)) {
            Some(d) => d,
            None => return None,
        };
        let done = match test_step(&self.11, done, Ghost(parts), Ghost(oks), Ghost(11), Ghost(path@)) {
            Some(d) => d,
            None => return None,
        };
        proof {
            lemma_sequence_end(parts, done@, path@);
        }
        Some(done)
    }
}

impl<A: RouteMatch, B: RouteMatch, C: RouteMatch, D: RouteMatch, E: RouteMatch, F: RouteMatch, G: RouteMatch, H: RouteMatch, I: RouteMatch, J: RouteMatch, K: RouteMatch, L: RouteMatch, M: RouteMatch> Patterns for (A, B, C, D, E, F, G, H, I, J, K, L, M) {
    open spec fn patterns(&self) -> Seq<Pattern> {
        seq![pattern_of(&self.0), pattern_of(&self.1), pattern_of(&self.2), pattern_of(&self.3), pattern_of(&self.4), pattern_of(&self.5), pattern_of(&self.6), pattern_of(&self.7), pattern_of(&self.8), pattern_of(&self.9), pattern_of(&self.10), pattern_of(&self.11), pattern_of(&self.12)]
    }

    open spec fn pattern_oks(&self) -> Seq<PatternOk> {
        seq![ok_of(&self.0), ok_of(&self.1), ok_of(&self.2), ok_of(&self.3), ok_of(&self.4), ok_of(&self.5), ok_of(&self.6), ok_of(&self.7), ok_of(&self.8), ok_of(&self.9), ok_of(&self.10), ok_of(&self.11), ok_of(&self.12)]
    }
}

impl<A: RouteMatch, B: RouteMatch, C: RouteMatch, D: RouteMatch, E: RouteMatch, F: RouteMatch, G: RouteMatch, H: RouteMatch, I: RouteMatch, J: RouteMatch, K: RouteMatch, L: RouteMatch, M: RouteMatch> RouteMatch for (A, B, C, D, E, F, G, H, I, J, K, L, M) {
    open spec fn spec_test(&self, path: Seq<char>) -> Option<PartialMatchView> {
        sequence_test(self.patterns(), path)
    }

    open spec fn test_ok(&self, path: Seq<char>) -> bool {
        sequence_ok(self.pattern_oks(), self.patterns(), path)
    }

    proof fn lemma_slash_path(&self, path: Seq<char>) {
        let parts = self.patterns();
        let oks = self.pattern_oks();
        lemma_route_slash_sound(&self.0);
        lemma_route_slash_sound(&self.1);
        lemma_route_slash_sound(&self.2);
        lemma_route_slash_sound(&self.3);
        lemma_route_slash_sound(&self.4);
        lemma_route_slash_sound(&self.5);
        lemma_route_slash_sound(&self.6);
        lemma_route_slash_sound(&self.7);
        lemma_route_slash_sound(&self.8);
        lemma_route_slash_sound(&self.9);
        lemma_route_slash_sound(&self.10);
        lemma_route_slash_sound(&self.11);
        lemma_route_slash_sound(&self.12);
        assert forall|i: int| 0 <= i < 13 implies #[trigger] slash_sound(oks[i], parts[i]) by {
            if i == 0 {} else if i == 1 {} else if i == 2 {} else if i == 3 {} else if i == 4 {} else if i == 5 {} else if i == 6 {} else if i == 7 {} else if i == 8 {} else if i == 9 {} else if i == 10 {} else if i == 11 {} else if i == 12 {}
        }
        lemma_sequence_slash(oks, parts, path);
    }

    fn test<'a>(&self, path: &'a str) -> (r: Option<PartialPathMatch<'a>>) {
        let ghost parts = self.patterns();
        let ghost oks = self.pattern_oks();
        let done = start_match(path);
        proof {
            lemma_sequence_start(parts, oks, path@);
        }
        let done = match test_step(&self.0, done, Ghost(parts), Ghost(oks), Ghost(0), Ghost(path@)) {
            Some(d) => d,
            None => return None,
        };
        let done = match test_step(&self.1, done, Ghost(parts), Ghost(oks), Ghost(1), Ghost(path@)) {
            Some(d) => d,
            None => return None,
        };
        let done = match test_step(&self.2, done, Ghost(parts), Ghost(oks), Ghost(2), Ghost(path@)) {
            Some(d) => d,
            None => return None,
        };
        let done = match test_step(&self.3, done, Ghost(parts), Ghost(oks), Ghost(3), Ghost(path@)) {
            Some(d) => d,
            None => return None,
        };
        let done = match test_step(&self.4, done, Ghost(parts), Ghost(oks), Ghost(4), Ghost(path@)) {
            Some(d) => d,
            None => return None,
        };
        let done = match test_step(&self.5, done, Ghost(parts), Ghost(oks), Ghost(5), Ghost(path@)) {
            Some(d) => d,
            None => return None,
        };
        let done = match test_step(&self.6, done, Ghost(parts), Ghost(oks), Ghost(6), Ghost(path@)) {
            Some(d) => d,
            None => return None,
        };
        let done = match test_step(&self.7, done, Ghost(parts), Ghost(oks), Ghost(7), Ghost(path@)) {
            Some(d) => d,
            None => return None,
        };
        let done = match test_step(&self.8, done, Ghost(parts), Ghost(oks), Ghost(8), Ghost(path@)) {
            Some(d) => d,
            None => return None,
        };
        let done = match test_step(&self.9, done, Ghost(parts), Ghost(oks), Ghost(9), Ghost(path@)) {
            Some(d) => d,
            None => return None,
        };
        let done = match test_step(&self.10, done, Ghost(parts), Ghost(oks), Ghost(10), Ghost(path@)) {
            Some(d) => d,
            None => return None,
        };
        let done = match test_step(&self.11, done, Ghost(parts), Ghost(oks), Ghost(11), Ghost(path@)) {
            Some(d) => d,
            None => return None,
        };
        let done = match test_step(&self.12, done, Ghost(parts), Ghost(oks), Ghost(12), Ghost(path@)) {
            Some(d) => d,
            None => return None,
        };
        proof {
            lemma_sequence_end(parts, done@, path@);
        }
        Some(done)
    }
}

impl<A: RouteMatch, B: RouteMatch, C: RouteMatch, D: RouteMatch, E: RouteMatch, F: RouteMatch, G: RouteMatch, H: RouteMatch, I: RouteMatch, J: RouteMatch, K: RouteMatch, L: RouteMatch, M: RouteMatch, N: RouteMatch> Patterns for (A, B, C, D, E, F, G, H, I, J, K, L, M, N) {
    open spec fn patterns(&self) -> Seq<Pattern> {
        seq![pattern_of(&self.0), pattern_of(&self.1), pattern_of(&self.2), pattern_of(&self.3), pattern_of(&self.4), pattern_of(&self.5), pattern_of(&self.6), pattern_of(&self.7), pattern_of(&self.8), pattern_of(&self.9), pattern_of(&self.10), pattern_of(&self.11), pattern_of(&self.12), pattern_of(&self.13)]
    }

    open spec fn pattern_oks(&self) -> Seq<PatternOk> {
        seq![ok_of(&self.0), ok_of(&self.1), ok_of(&self.2), ok_of(&self.3), ok_of(&self.4), ok_of(&self.5), ok_of(&self.6), ok_of(&self.7), ok_of(&self.8), ok_of(&self.9), ok_of(&self.10), ok_of(&self.11), ok_of(&self.12), ok_of(&self.13)]
    }
}

impl<A: RouteMatch, B: RouteMatch, C: RouteMatch, D: RouteMatch, E: RouteMatch, F: RouteMatch, G: RouteMatch, H: RouteMatch, I: RouteMatch, J: RouteMatch, K: RouteMatch, L: RouteMatch, M: RouteMatch, N: RouteMatch> RouteMatch for (A, B, C, D, E, F, G, H, I, J, K, L, M, N) {
    open spec fn spec_test(&self, path: Seq<char>) -> Option<PartialMatchView> {
        sequence_test(self.patterns(), path)
    }

    open spec fn test_ok(&self, path: Seq<char>) -> bool {
        sequence_ok(self.pattern_oks(), self.patterns(), path)
    }

    proof fn lemma_slash_path(&self, path: Seq<char>) {
        let parts = self.patterns();
        let oks = self.pattern_oks();
        lemma_route_slash_sound(&self.0);
        lemma_route_slash_sound(&self.1);
        lemma_route_slash_sound(&self.2);
        lemma_route_slash_sound(&self.3);
        lemma_route_slash_sound(&self.4);
        lemma_route_slash_sound(&self.5);
        lemma_route_slash_sound(&self.6);
        lemma_route_slash_sound(&self.7);
        lemma_route_slash_sound(&self.8);
        lemma_route_slash_sound(&self.9);
        lemma_route_slash_sound(&self.10);
        lemma_route_slash_sound(&self.11);
        lemma_route_slash_sound(&self.12);
        lemma_route_slash_sound(&self.13);
        assert forall|i: int| 0 <= i < 14 implies #[trigger] slash_sound(oks[i], parts[i]) by {
            if i == 0 {} else if i == 1 {} else if i == 2 {} else if i == 3 {} else if i == 4 {} else if i == 5 {} else if i == 6 {} else if i == 7 {} else if i == 8 {} else if i == 9 {} else if i == 10 {} else if i == 11 {} else if i == 12 {} else if i == 13 {}
        }
        lemma_sequence_slash(oks, parts, path);
    }

    fn test<'a>(&self, path: &'a str) -> (r: Option<PartialPathMatch<'a>>) {
        let ghost parts = self.patterns();
        let ghost oks = self.pattern_oks();
        let done = start_match(path);
        proof {
            lemma_sequence_start(parts, oks, path@);
        }
        let done = match test_step(&self.0, done, Ghost(parts), Ghost(oks), Ghost(0), Ghost(path@)) {
            Some(d) => d,
            None => return None,
        };
        let done = match test_step(&self.1, done, Ghost(parts), Ghost(oks), Ghost(1), Ghost(path@)) {
            Some(d) => d,
            None => return None,
        };
        let done = match test_step(&self.2, done, Ghost(parts), Ghost(oks), Ghost(2), Ghost(path@)) {
            Some(d) => d,
            None => return None,
        };
        let done = match test_step(&self.3, done, Ghost(parts), Ghost(oks), Ghost(3), Ghost(path@)) {
            Some(d) => d,
            None => return None,
        };
        let done = match test_step(&self.4, done, Ghost(parts), Ghost(oks), Ghost(4), Ghost(path@)) {
            Some(d) => d,
            None => return None,
        };
        let done = match test_step(&self.5, done, Ghost(parts), Ghost(oks), Ghost(5), Ghost(path@)) {
            Some(d) => d,
            None => return None,
        };
        let done = match test_step(&self.6, done, Ghost(parts), Ghost(oks), Ghost(6), Ghost(path@)) {
            Some(d) => d,
            None => return None,
        };
        let done = match test_step(&self.7, done, Ghost(parts), Ghost(oks), Ghost(7), Ghost(path@)) {
            Some(d) => d,
            None => return None,
        };
        let done = match test_step(&self.8, done, Ghost(parts), Ghost(oks), Ghost(8), Ghost(path@)) {
            Some(d) => d,
            None => return None,
        };
        let done = match test_step(&self.9, done, Ghost(parts), Ghost(oks), Ghost(9), Ghost(path@)) {
            Some(d) => d,
            None => return None,
        };
        let done = match test_step(&self.10, done, Ghost(parts), Ghost(oks), Ghost(10), Ghost(path@)) {
            Some(d) => d,
            None => return None,
        };
        let done = match test_step(&self.11, done, Ghost(parts), Ghost(oks), Ghost(11), Ghost(path@)) {
            Some(d) => d,
            None => return None,
        };
        let done = match test_step(&self.12, done, Ghost(parts), Ghost(oks), Ghost(12), Ghost(path@)) {
            Some(d) => d,
            None => return None,
        };
        let done = match test_step(&self.13, done, Ghost(parts), Ghost(oks), Ghost(13), Ghost(path@)) {
            Some(d) => d,
            None => return None,
        };
        proof {
            lemma_sequence_end(parts, done@, path@);
        }
        Some(done)
    }
}

impl<A: RouteMatch, B: RouteMatch, C: RouteMatch, D: RouteMatch, E: RouteMatch, F: RouteMatch, G: RouteMatch, H: RouteMatch, I: RouteMatch, J: RouteMatch, K: RouteMatch, L: RouteMatch, M: RouteMatch, N: RouteMatch, O: RouteMatch> Patterns for (A, B, C, D, E, F, G, H, I, J, K, L, M, N, O) {
    open spec fn patterns(&self) -> Seq<Pattern> {
        seq![pattern_of(&self.0), pattern_of(&self.1), pattern_of(&self.2), pattern_of(&self.3), pattern_of(&self.4), pattern_of(&self.5), pattern_of(&self.6), pattern_of(&self.7), pattern_of(&self.8), pattern_of(&self.9), pattern_of(&self.10), pattern_of(&self.11), pattern_of(&self.12), pattern_of(&self.13), pattern_of(&self.14)]
    }

    open spec fn pattern_oks(&self) -> Seq<PatternOk> {
        seq![ok_of(&self.0), ok_of(&self.1), ok_of(&self.2), ok_of(&self.3), ok_of(&self.4), ok_of(&self.5), ok_of(&self.6), ok_of(&self.7), ok_of(&self.8), ok_of(&self.9), ok_of(&self.10), ok_of(&self.11), ok_of(&self.12), ok_of(&self.13), ok_of(&self.14)]
    }
}

impl<A: RouteMatch, B: RouteMatch, C: RouteMatch, D: RouteMatch, E: RouteMatch, F: RouteMatch, G: RouteMatch, H: RouteMatch, I: RouteMatch, J: RouteMatch, K: RouteMatch, L: RouteMatch, M: RouteMatch, N: RouteMatch, O: RouteMatch> RouteMatch for (A, B, C, D, E, F, G, H, I, J, K, L, M, N, O) {
    open spec fn spec_test(&self, path: Seq<char>) -> Option<PartialMatchView> {
        sequence_test(self.patterns(), path)
    }

    open spec fn test_ok(&self, path: Seq<char>) -> bool {
        sequence_ok(self.pattern_oks(), self.patterns(), path)
    }

    proof fn lemma_slash_path(&self, path: Seq<char>) {
        let parts = self.patterns();
        let oks = self.pattern_oks();
        lemma_route_slash_sound(&self.0);
        lemma_route_slash_sound(&self.1);
        lemma_route_slash_sound(&self.2);
        lemma_route_slash_sound(&self.3);
        lemma_route_slash_sound(&self.4);
        lemma_route_slash_sound(&self.5);
        lemma_route_slash_sound(&self.6);
        lemma_route_slash_sound(&self.7);
        lemma_route_slash_sound(&self.8);
        lemma_route_slash_sound(&self.9);
        lemma_route_slash_sound(&self.10);
        lemma_route_slash_sound(&self.11);
        lemma_route_slash_sound(&self.12);
        lemma_route_slash_sound(&self.13);
        lemma_route_slash_sound(&self.14);
        assert forall|i: int| 0 <= i < 15 implies #[trigger] slash_sound(oks[i], parts[i]) by {
            if i == 0 {} else if i == 1 {} else if i == 2 {} else if i == 3 {} else if i == 4 {} else if i == 5 {} else if i == 6 {} else if i == 7 {} else if i == 8 {} else if i == 9 {} else if i == 10 {} else if i == 11 {} else if i == 12 {} else if i == 13 {} else if i == 14 {}
        }
        lemma_sequence_slash(oks, parts, path);
    }

    fn test<'a>(&self, path: &'a str) -> (r: Option<PartialPathMatch<'a>>) {
        let ghost parts = self.patterns();
        let ghost oks = self.pattern_oks();
        let done = start_match(path);
        proof {
            lemma_sequence_start(parts, oks, path@);
        }
        let done = match test_step(&self.0, done, Ghost(parts), Ghost(oks), Ghost(0), Ghost(path@)) {
            Some(d) => d,
            None => return None,
        };
        let done = match test_step(&self.1, done, Ghost(parts), Ghost(oks), Ghost(1), Ghost(path@)) {
            Some(d) => d,
            None => return None,
        };
        let done = match test_step(&self.2, done, Ghost(parts), Ghost(oks), Ghost(2), Ghost(path@)) {
            Some(d) => d,
            None => return None,
        };
        let done = match test_step(&self.3, done, Ghost(parts), Ghost(oks), Ghost(3), Ghost(path@)) {
            Some(d) => d,
            None => return None,
        };
        let done = match test_step(&self.4, done, Ghost(parts), Ghost(oks), Ghost(4), Ghost(path@)) {
            Some(d) => d,
            None => return None,
        };
        let done = match test_step(&self.5, done, Ghost(parts), Ghost(oks), Ghost(5), Ghost(path@)) {
            Some(d) => d,
            None => return None,
        };
        let done = match test_step(&self.6, done, Ghost(parts), Ghost(oks), Ghost(6), Ghost(path@)) {
            Some(d) => d,
            None => return None,
        };
        let done = match test_step(&self.7, done, Ghost(parts), Ghost(oks), Ghost(7), Ghost(path@)) {
            Some(d) => d,
            None => return None,
        };
        let done = match test_step(&self.8, done, Ghost(parts), Ghost(oks), Ghost(8), Ghost(path@)) {
            Some(d) => d,
            None => return None,
        };
        let done = match test_step(&self.9, done, Ghost(parts), Ghost(oks), Ghost(9), Ghost(path@)) {
            Some(d) => d,
            None => return None,
        };
        let done = match test_step(&self.10, done, Ghost(parts), Ghost(oks), Ghost(10), Ghost(path@)) {
            Some(d) => d,
            None => return None,
        };
        let done = match test_step(&self.11, done, Ghost(parts), Ghost(oks), Ghost(11), Ghost(path@)) {
            Some(d) => d,
            None => return None,
        };
        let done = match test_step(&self.12, done, Ghost(parts), Ghost(oks), Ghost(12), Ghost(path@)) {
            Some(d) => d,
            None => return None,
        };
        let done = match test_step(&self.13, done, Ghost(parts), Ghost(oks), Ghost(13), Ghost(path@)) {
            Some(d) => d,
            None => return None,
        };
        let done = match test_step(&self.14, done, Ghost(parts), Ghost(oks), Ghost(14), Ghost(path@)) {
            Some(d) => d,
            None => return None,
        };
        proof {
            lemma_sequence_end(parts, done@, path@);
        }
        Some(done)
    }
}

impl<A: RouteMatch, B: RouteMatch, C: RouteMatch, D: RouteMatch, E: RouteMatch, F: RouteMatch, G: RouteMatch, H: RouteMatch, I: RouteMatch, J: RouteMatch, K: RouteMatch, L: RouteMatch, M: RouteMatch, N: RouteMatch, O: RouteMatch, P: RouteMatch> Patterns for (A, B, C, D, E, F, G, H, I, J, K, L, M, N, O, P) {
    open spec fn patterns(&self) -> Seq<Pattern> {
        seq![pattern_of(&self.0), pattern_of(&self.1), pattern_of(&self.2), pattern_of(&self.3), pattern_of(&self.4), pattern_of(&self.5), pattern_of(&self.6), pattern_of(&self.7), pattern_of(&self.8), pattern_of(&self.9), pattern_of(&self.10), pattern_of(&self.11), pattern_of(&self.12), pattern_of(&self.13), pattern_of(&self.14), pattern_of(&self.15)]
    }

    open spec fn pattern_oks(&self) -> Seq<PatternOk> {
        seq![ok_of(&self.0), ok_of(&self.1), ok_of(&self.2), ok_of(&self.3), ok_of(&self.4), ok_of(&self.5), ok_of(&self.6), ok_of(&self.7), ok_of(&self.8), ok_of(&self.9), ok_of(&self.10), ok_of(&self.11), ok_of(&self.12), ok_of(&self.13), ok_of(&self.14), ok_of(&self.15)]
    }
}

impl<A: RouteMatch, B: RouteMatch, C: RouteMatch, D: RouteMatch, E: RouteMatch, F: RouteMatch, G: RouteMatch, H: RouteMatch, I: RouteMatch, J: RouteMatch, K: RouteMatch, L: RouteMatch, M: RouteMatch, N: RouteMatch, O: RouteMatch, P: RouteMatch> RouteMatch for (A, B, C, D, E, F, G, H, I, J, K, L, M, N, O, P) {
    open spec fn spec_test(&self, path: Seq<char>) -> Option<PartialMatchView> {
        sequence_test(self.patterns(), path)
    }

    open spec fn test_ok(&self, path: Seq<char>) -> bool {
        sequence_ok(self.pattern_oks(), self.patterns(), path)
    }

    proof fn lemma_slash_path(&self, path: Seq<char>) {
        let parts = self.patterns();
        let oks = self.pattern_oks();
        lemma_route_slash_sound(&self.0);
        lemma_route_slash_sound(&self.1);
        lemma_route_slash_sound(&self.2);
        lemma_route_slash_sound(&self.3);
        lemma_route_slash_sound(&self.4);
        lemma_route_slash_sound(&self.5);
        lemma_route_slash_sound(&self.6);
        lemma_route_slash_sound(&self.7);
        lemma_route_slash_sound(&self.8);
        lemma_route_slash_sound(&self.9);
        lemma_route_slash_sound(&self.10);
        lemma_route_slash_sound(&self.11);
        lemma_route_slash_sound(&self.12);
        lemma_route_slash_sound(&self.13);
        lemma_route_slash_sound(&self.14);
        lemma_route_slash_sound(&self.15);
        assert forall|i: int| 0 <= i < 16 implies #[trigger] slash_sound(oks[i], parts[i]) by {
            if i == 0 {} else if i == 1 {} else if i == 2 {} else if i == 3 {} else if i == 4 {} else if i == 5 {} else if i == 6 {} else if i == 7 {} else if i == 8 {} else if i == 9 {} else if i == 10 {} else if i == 11 {} else if i == 12 {} else if i == 13 {} else if i == 14 {} else if i == 15 {}
        }
        lemma_sequence_slash(oks, parts, path);
    }

    fn test<'a>(&self, path: &'a str) -> (r: Option<PartialPathMatch<'a>>) {
        let ghost parts = self.patterns();
        let ghost oks = self.pattern_oks();
        let done = start_match(path);
        proof {
            lemma_sequence_start(parts, oks, path@);
        }
        let done = match test_step(&self.0, done, Ghost(parts), Ghost(oks), Ghost(0), Ghost(path@)) {
            Some(d) => d,
            None => return None,
        };
        let done = match test_step(&self.1, done, Ghost(parts), Ghost(oks), Ghost(1), Ghost(path@)) {
            Some(d) => d,
            None => return None,
        };
        let done = match test_step(&self.2, done, Ghost(parts), Ghost(oks), Ghost(2), Ghost(path@)) {
            Some(d) => d,
            None => return None,
        };
        let done = match test_step(&self.3, done, Ghost(parts), Ghost(oks), Ghost(3), Ghost(path@)) {
            Some(d) => d,
            None => return None,
        };
        let done = match test_step(&self.4, done, Ghost(parts), Ghost(oks), Ghost(4), Ghost(path@)) {
            Some(d) => d,
            None => return None,
        };
        let done = match test_step(&self.5, done, Ghost(parts), Ghost(oks), Ghost(5), Ghost(path@)) {
            Some(d) => d,
            None => return None,
        };
        let done = match test_step(&self.6, done, Ghost(parts), Ghost(oks), Ghost(6), Ghost(path@)) {
            Some(d) => d,
            None => return None,
        };
        let done = match test_step(&self.7, done, Ghost(parts), Ghost(oks), Ghost(7), Ghost(path@)) {
            Some(d) => d,
            None => return None,
        };
        let done = match test_step(&self.8, done, Ghost(parts), Ghost(oks), Ghost(8), Ghost(path@)) {
            Some(d) => d,
            None => return None,
        };
        let done = match test_step(&self.9, done, Ghost(parts), Ghost(oks), Ghost(9), Ghost(path@)) {
            Some(d) => d,
            None => return None,
        };
        let done = match test_step(&self.10, done, Ghost(parts), Ghost(oks), Ghost(10), Ghost(path@)) {
            Some(d) => d,
            None => return None,
        };
        let done = match test_step(&self.11, done, Ghost(parts), Ghost(oks), Ghost(11), Ghost(path@)) {
            Some(d) => d,
            None => return None,
        };
        let done = match test_step(&self.12, done, Ghost(parts), Ghost(oks), Ghost(12), Ghost(path@)) {
            Some(d) => d,
            None => return None,
        };
        let done = match test_step(&self.13, done, Ghost(parts), Ghost(oks), Ghost(13), Ghost(path@)) {
            Some(d) => d,
            None => return None,
        };
        let done = match test_step(&self.14, done, Ghost(parts), Ghost(oks), Ghost(14), Ghost(path@)) {
            Some(d) => d,
            None => return None,
        };
        let done = match test_step(&self.15, done, Ghost(parts), Ghost(oks), Ghost(15), Ghost(path@)) {
            Some(d) => d,
            None => return None,
        };
        proof {
            lemma_sequence_end(parts, done@, path@);
        }
        Some(done)
    }
}

impl<A: RouteMatch, B: RouteMatch, C: RouteMatch, D: RouteMatch, E: RouteMatch, F: RouteMatch, G: RouteMatch, H: RouteMatch, I: RouteMatch, J: RouteMatch, K: RouteMatch, L: RouteMatch, M: RouteMatch, N: RouteMatch, O: RouteMatch, P: RouteMatch, Q: RouteMatch> Patterns for (A, B, C, D, E, F, G, H, I, J, K, L, M, N, O, P, Q) {
    open spec fn patterns(&self) -> Seq<Pattern> {
        seq![pattern_of(&self.0), pattern_of(&self.1), pattern_of(&self.2), pattern_of(&self.3), pattern_of(&self.4), pattern_of(&self.5), pattern_of(&self.6), pattern_of(&self.7), pattern_of(&self.8), pattern_of(&self.9), pattern_of(&self.10), pattern_of(&self.11), pattern_of(&self.12), pattern_of(&self.13), pattern_of(&self.14), pattern_of(&self.15), pattern_of(&self.16)]
    }

    open spec fn pattern_oks(&self) -> Seq<PatternOk> {
        seq![ok_of(&self.0), ok_of(&self.1), ok_of(&self.2), ok_of(&self.3), ok_of(&self.4), ok_of(&self.5), ok_of(&self.6), ok_of(&self.7), ok_of(&self.8), ok_of(&self.9), ok_of(&self.10), ok_of(&self.11), ok_of(&self.12), ok_of(&self.13), ok_of(&self.14), ok_of(&self.15), ok_of(&self.16)]
    }
}

impl<A: RouteMatch, B: RouteMatch, C: RouteMatch, D: RouteMatch, E: RouteMatch, F: RouteMatch, G: RouteMatch, H: RouteMatch, I: RouteMatch, J: RouteMatch, K: RouteMatch, L: RouteMatch, M: RouteMatch, N: RouteMatch, O: RouteMatch, P: RouteMatch, Q: RouteMatch> RouteMatch for (A, B, C, D, E, F, G, H, I, J, K, L, M, N, O, P, Q) {
    open spec fn spec_test(&self, path: Seq<char>) -> Option<PartialMatchView> {
        sequence_test(self.patterns(), path)
    }

    open spec fn test_ok(&self, path: Seq<char>) -> bool {
        sequence_ok(self.pattern_oks(), self.patterns(), path)
    }

    proof fn lemma_slash_path(&self, path: Seq<char>) {
        let parts = self.patterns();
        let oks = self.pattern_oks();
        lemma_route_slash_sound(&self.0);
        lemma_route_slash_sound(&self.1);
        lemma_route_slash_sound(&self.2);
        lemma_route_slash_sound(&self.3);
        lemma_route_slash_sound(&self.4);
        lemma_route_slash_sound(&self.5);
        lemma_route_slash_sound(&self.6);
        lemma_route_slash_sound(&self.7);
        lemma_route_slash_sound(&self.8);
        lemma_route_slash_sound(&self.9);
        lemma_route_slash_sound(&self.10);
        lemma_route_slash_sound(&self.11);
        lemma_route_slash_sound(&self.12);
        lemma_route_slash_sound(&self.13);
        lemma_route_slash_sound(&self.14);
        lemma_route_slash_sound(&self.15);
        lemma_route_slash_sound(&self.16);
        assert forall|i: int| 0 <= i < 17 implies #[trigger] slash_sound(oks[i], parts[i]) by {
            if i == 0 {} else if i == 1 {} else if i == 2 {} else if i == 3 {} else if i == 4 {} else if i == 5 {} else if i == 6 {} else if i == 7 {} else if i == 8 {} else if i == 9 {} else if i == 10 {} else if i == 11 {} else if i == 12 {} else if i == 13 {} else if i == 14 {} else if i == 15 {} else if i == 16 {}
        }
        lemma_sequence_slash(oks, parts, path);
    }

    fn test<'a>(&self, path: &'a str) -> (r: Option<PartialPathMatch<'a>>) {
        let ghost parts = self.patterns();
        let ghost oks = self.pattern_oks();
        let done = start_match(path);
        proof {
            lemma_sequence_start(parts, oks, path@);
        }
        let done = match test_step(&self.0, done, Ghost(parts), Ghost(oks), Ghost(0), Ghost(path@)) {
            Some(d) => d,
            None => return None,
        };
        let done = match test_step(&self.1, done, Ghost(parts), Ghost(oks), Ghost(1), Ghost(path@)) {
            Some(d) => d,
            None => return None,
        };
        let done = match test_step(&self.2, done, Ghost(parts), Ghost(oks), Ghost(2), Ghost(path@)) {
            Some(d) => d,
            None => return None,
        };
        let done = match test_step(&self.3, done, Ghost(parts), Ghost(oks), Ghost(3), Ghost(path@)) {
            Some(d) => d,
            None => return None,
        };
        let done = match test_step(&self.4, done, Ghost(parts), Ghost(oks), Ghost(4), Ghost(path@)) {
            Some(d) => d,
            None => return None,
        };
        let done = match test_step(&self.5, done, Ghost(parts), Ghost(oks), Ghost(5), Ghost(path@)) {
            Some(d) => d,
            None => return None,
        };
        let done = match test_step(&self.6, done, Ghost(parts), Ghost(oks), Ghost(6), Ghost(path@)) {
            Some(d) => d,
            None => return None,
        };
        let done = match test_step(&self.7, done, Ghost(parts), Ghost(oks), Ghost(7), Ghost(path@)) {
            Some(d) => d,
            None => return None,
        };
        let done = match test_step(&self.8, done, Ghost(parts), Ghost(oks), Ghost(8), Ghost(path@)) {
            Some(d) => d,
            None => return None,
        };
        let done = match test_step(&self.9, done, Ghost(parts), Ghost(oks), Ghost(9), Ghost(path@)) {
            Some(d) => d,
            None => return None,
        };
        let done = match test_step(&self.10, done, Ghost(parts), Ghost(oks), Ghost(10), Ghost(path@)) {
            Some(d) => d,
            None => return None,
        };
        let done = match test_step(&self.11, done, Ghost(parts), Ghost(oks), Ghost(11), Ghost(path@)) {
            Some(d) => d,
            None => return None,
        };
        let done = match test_step(&self.12, done, Ghost(parts), Ghost(oks), Ghost(12), Ghost(path@)) {
            Some(d) => d,
            None => return None,
        };
        let done = match test_step(&self.13, done, Ghost(parts), Ghost(oks), Ghost(13), Ghost(path@)) {
            Some(d) => d,
            None => return None,
        };
        let done = match test_step(&self.14, done, Ghost(parts), Ghost(oks), Ghost(14), Ghost(path@)) {
            Some(d) => d,
            None => return None,
        };
        let done = match test_step(&self.15, done, Ghost(parts), Ghost(oks), Ghost(15), Ghost(path@)) {
            Some(d) => d,
            None => return None,
        };
        let done = match test_step(&self.16, done, Ghost(parts), Ghost(oks), Ghost(16), Ghost(path@)) {
            Some(d) => d,
            None => return None,
        };
        proof {
            lemma_sequence_end(parts, done@, path@);
        }
        Some(done)
    }
}

impl<A: RouteMatch, B: RouteMatch, C: RouteMatch, D: RouteMatch, E: RouteMatch, F: RouteMatch, G: RouteMatch, H: RouteMatch, I: RouteMatch, J: RouteMatch, K: RouteMatch, L: RouteMatch, M: RouteMatch, N: RouteMatch, O: RouteMatch, P: RouteMatch, Q: RouteMatch, R: RouteMatch> Patterns for (A, B, C, D, E, F, G, H, I, J, K, L, M, N, O, P, Q, R) {
    open spec fn patterns(&self) -> Seq<Pattern> {
        seq![pattern_of(&self.0), pattern_of(&self.1), pattern_of(&self.2), pattern_of(&self.3), pattern_of(&self.4), pattern_of(&self.5), pattern_of(&self.6), pattern_of(&self.7), pattern_of(&self.8), pattern_of(&self.9), pattern_of(&self.10), pattern_of(&self.11), pattern_of(&self.12), pattern_of(&self.13), pattern_of(&self.14), pattern_of(&self.15), pattern_of(&self.16), pattern_of(&self.17)]
    }

    open spec fn pattern_oks(&self) -> Seq<PatternOk> {
        seq![ok_of(&self.0), ok_of(&self.1), ok_of(&self.2), ok_of(&self.3), ok_of(&self.4), ok_of(&self.5), ok_of(&self.6), ok_of(&self.7), ok_of(&self.8), ok_of(&self.9), ok_of(&self.10), ok_of(&self.11), ok_of(&self.12), ok_of(&self.13), ok_of(&self.14), ok_of(&self.15), ok_of(&self.16), ok_of(&self.17)]
    }
}

impl<A: RouteMatch, B: RouteMatch, C: RouteMatch, D: RouteMatch, E: RouteMatch, F: RouteMatch, G: RouteMatch, H: RouteMatch, I: RouteMatch, J: RouteMatch, K: RouteMatch, L: RouteMatch, M: RouteMatch, N: RouteMatch, O: RouteMatch, P: RouteMatch, Q: RouteMatch, R: RouteMatch> RouteMatch for (A, B, C, D, E, F, G, H, I, J, K, L, M, N, O, P, Q, R) {
    open spec fn spec_test(&self, path: Seq<char>) -> Option<PartialMatchView> {
        sequence_test(self.patterns(), path)
    }

    open spec fn test_ok(&self, path: Seq<char>) -> bool {
        sequence_ok(self.pattern_oks(), self.patterns(), path)
    }

    proof fn lemma_slash_path(&self, path: Seq<char>) {
        let parts = self.patterns();
        let oks = self.pattern_oks();
        lemma_route_slash_sound(&self.0);
        lemma_route_slash_sound(&self.1);
        lemma_route_slash_sound(&self.2);
        lemma_route_slash_sound(&self.3);
        lemma_route_slash_sound(&self.4);
        lemma_route_slash_sound(&self.5);
        lemma_route_slash_sound(&self.6);
        lemma_route_slash_sound(&self.7);
        lemma_route_slash_sound(&self.8);
        lemma_route_slash_sound(&self.9);
        lemma_route_slash_sound(&self.10);
        lemma_route_slash_sound(&self.11);
        lemma_route_slash_sound(&self.12);
        lemma_route_slash_sound(&self.13);
        lemma_route_slash_sound(&self.14);
        lemma_route_slash_sound(&self.15);
        lemma_route_slash_sound(&self.16);
        lemma_route_slash_sound(&self.17);
        assert forall|i: int| 0 <= i < 18 implies #[trigger] slash_sound(oks[i], parts[i]) by {
            if i == 0 {} else if i == 1 {} else if i == 2 {} else if i == 3 {} else if i == 4 {} else if i == 5 {} else if i == 6 {} else if i == 7 {} else if i == 8 {} else if i == 9 {} else if i == 10 {} else if i == 11 {} else if i == 12 {} else if i == 13 {} else if i == 14 {} else if i == 15 {} else if i == 16 {} else if i == 17 {}
        }
        lemma_sequence_slash(oks, parts, path);
    }

    fn test<'a>(&self, path: &'a str) -> (r: Option<PartialPathMatch<'a>>) {
        let ghost parts = self.patterns();
        let ghost oks = self.pattern_oks();
        let done = start_match(path);
        proof {
            lemma_sequence_start(parts, oks, path@);
        }
        let done = match test_step(&self.0, done, Ghost(parts), Ghost(oks), Ghost(0), Ghost(path@)) {
            Some(d) => d,
            None => return None,
        };
        let done = match test_step(&self.1, done, Ghost(parts), Ghost(oks), Ghost(1), Ghost(path@)) {
            Some(d) => d,
            None => return None,
        };
        let done = match test_step(&self.2, done, Ghost(parts), Ghost(oks), Ghost(2), Ghost(path@)) {
            Some(d) => d,
            None => return None,
        };
        let done = match test_step(&self.3, done, Ghost(parts), Ghost(oks), Ghost(3), Ghost(path@)) {
            Some(d) => d,
            None => return None,
        };
        let done = match test_step(&self.4, done, Ghost(parts), Ghost(oks), Ghost(4), Ghost(path@)) {
            Some(d) => d,
            None => return None,
        };
        let done = match test_step(&self.5, done, Ghost(parts), Ghost(oks), Ghost(5), Ghost(path@)) {
            Some(d) => d,
            None => return None,
        };
        let done = match test_step(&self.6, done, Ghost(parts), Ghost(oks), Ghost(6), Ghost(path@)) {
            Some(d) => d,
            None => return None,
        };
        let done = match test_step(&self.7, done, Ghost(parts), Ghost(oks), Ghost(7), Ghost(path@)) {
            Some(d) => d,
            None => return None,
        };
        let done = match test_step(&self.8, done, Ghost(parts), Ghost(oks), Ghost(8), Ghost(path@)) {
            Some(d) => d,
            None => return None,
        };
        let done = match test_step(&self.9, done, Ghost(parts), Ghost(oks), Ghost(9), Ghost(path@)) {
            Some(d) => d,
            None => return None,
        };
        let done = match test_step(&self.10, done, Ghost(parts), Ghost(oks), Ghost(10), Ghost(path@)) {
            Some(d) => d,
            None => return None,
        };
        let done = match test_step(&self.11, done, Ghost(parts), Ghost(oks), Ghost(11), Ghost(path@)) {
            Some(d) => d,
            None => return None,
        };
        let done = match test_step(&self.12, done, Ghost(parts), Ghost(oks), Ghost(12), Ghost(path@)) {
            Some(d) => d,
            None => return None,
        };
        let done = match test_step(&self.13, done, Ghost(parts), Ghost(oks), Ghost(13), Ghost(path@)) {
            Some(d) => d,
            None => return None,
        };
        let done = match test_step(&self.14, done, Ghost(parts), Ghost(oks), Ghost(14), Ghost(path@)) {
            Some(d) => d,
            None => return None,
        };
        let done = match test_step(&self.15, done, Ghost(parts), Ghost(oks), Ghost(15), Ghost(path@)) {
            Some(d) => d,
            None => return None,
        };
        let done = match test_step(&self.16, done, Ghost(parts), Ghost(oks), Ghost(16), Ghost(path@)) {
            Some(d) => d,
            None => return None,
        };
        let done = match test_step(&self.17, done, Ghost(parts), Ghost(oks), Ghost(17), Ghost(path@)) {
            Some(d) => d,
            None => return None,
        };
        proof {
            lemma_sequence_end(parts, done@, path@);
        }
        Some(done)
    }
}

impl<A: RouteMatch, B: RouteMatch, C: RouteMatch, D: RouteMatch, E: RouteMatch, F: RouteMatch, G: RouteMatch, H: RouteMatch, I: RouteMatch, J: RouteMatch, K: RouteMatch, L: RouteMatch, M: RouteMatch, N: RouteMatch, O: RouteMatch, P: RouteMatch, Q: RouteMatch, R: RouteMatch, S: RouteMatch> Patterns for (A, B, C, D, E, F, G, H, I, J, K, L, M, N, O, P, Q, R, S) {
    open spec fn patterns(&self) -> Seq<Pattern> {
        seq![pattern_of(&self.0), pattern_of(&self.1), pattern_of(&self.2), pattern_of(&self.3), pattern_of(&self.4), pattern_of(&self.5), pattern_of(&self.6), pattern_of(&self.7), pattern_of(&self.8), pattern_of(&self.9), pattern_of(&self.10), pattern_of(&self.11), pattern_of(&self.12), pattern_of(&self.13), pattern_of(&self.14), pattern_of(&self.15), pattern_of(&self.16), pattern_of(&self.17), pattern_of(&self.18)]
    }

    open spec fn pattern_oks(&self) -> Seq<PatternOk> {
        seq![ok_of(&self.0), ok_of(&self.1), ok_of(&self.2), ok_of(&self.3), ok_of(&self.4), ok_of(&self.5), ok_of(&self.6), ok_of(&self.7), ok_of(&self.8), ok_of(&self.9), ok_of(&self.10), ok_of(&self.11), ok_of(&self.12), ok_of(&self.13), ok_of(&self.14), ok_of(&self.15), ok_of(&self.16), ok_of(&self.17), ok_of(&self.18)]
    }
}

impl<A: RouteMatch, B: RouteMatch, C: RouteMatch, D: RouteMatch, E: RouteMatch, F: RouteMatch, G: RouteMatch, H: RouteMatch, I: RouteMatch, J: RouteMatch, K: RouteMatch, L: RouteMatch, M: RouteMatch, N: RouteMatch, O: RouteMatch, P: RouteMatch, Q: RouteMatch, R: RouteMatch, S: RouteMatch> RouteMatch for (A, B, C, D, E, F, G, H, I, J, K, L, M, N, O, P, Q, R, S) {
    open spec fn spec_test(&self, path: Seq<char>) -> Option<PartialMatchView> {
        sequence_test(self.patterns(), path)
    }

    open spec fn test_ok(&self, path: Seq<char>) -> bool {
        sequence_ok(self.pattern_oks(), self.patterns(), path)
    }

    proof fn lemma_slash_path(&self, path: Seq<char>) {
        let parts = self.patterns();
        let oks = self.pattern_oks();
        lemma_route_slash_sound(&self.0);
        lemma_route_slash_sound(&self.1);
        lemma_route_slash_sound(&self.2);
        lemma_route_slash_sound(&self.3);
        lemma_route_slash_sound(&self.4);
        lemma_route_slash_sound(&self.5);
        lemma_route_slash_sound(&self.6);
        lemma_route_slash_sound(&self.7);
        lemma_route_slash_sound(&self.8);
        lemma_route_slash_sound(&self.9);
        lemma_route_slash_sound(&self.10);
        lemma_route_slash_sound(&self.11);
        lemma_route_slash_sound(&self.12);
        lemma_route_slash_sound(&self.13);
        lemma_route_slash_sound(&self.14);
        lemma_route_slash_sound(&self.15);
        lemma_route_slash_sound(&self.16);
        lemma_route_slash_sound(&self.17);
        lemma_route_slash_sound(&self.18);
        assert forall|i: int| 0 <= i < 19 implies #[trigger] slash_sound(oks[i], parts[i]) by {
            if i == 0 {} else if i == 1 {} else if i == 2 {} else if i == 3 {} else if i == 4 {} else if i == 5 {} else if i == 6 {} else if i == 7 {} else if i == 8 {} else if i == 9 {} else if i == 10 {} else if i == 11 {} else if i == 12 {} else if i == 13 {} else if i == 14 {} else if i == 15 {} else if i == 16 {} else if i == 17 {} else if i == 18 {}
        }
        lemma_sequence_slash(oks, parts, path);
    }

    fn test<'a>(&self, path: &'a str) -> (r: Option<PartialPathMatch<'a>>) {
        let ghost parts = self.patterns();
        let ghost oks = self.pattern_oks();
        let done = start_match(path);
        proof {
            lemma_sequence_start(parts, oks, path@);
        }
        let done = match test_step(&self.0, done, Ghost(parts), Ghost(oks), Ghost(0), Ghost(path@)) {
            Some(d) => d,
            None => return None,
        };
        let done = match test_step(&self.1, done, Ghost(parts), Ghost(oks), Ghost(1), Ghost(path@)) {
            Some(d) => d,
            None => return None,
        };
        let done = match test_step(&self.2, done, Ghost(parts), Ghost(oks), Ghost(2), Ghost(path@)) {
            Some(d) => d,
            None => return None,
        };
        let done = match test_step(&self.3, done, Ghost(parts), Ghost(oks), Ghost(3), Ghost(path@)) {
            Some(d) => d,
            None => return None,
        };
        let done = match test_step(&self.4, done, Ghost(parts), Ghost(oks), Ghost(4), Ghost(path@)) {
            Some(d) => d,
            None => return None,
        };
        let done = match test_step(&self.5, done, Ghost(parts), Ghost(oks), Ghost(5), Ghost(path@)) {
            Some(d) => d,
            None => return None,
        };
        let done = match test_step(&self.6, done, Ghost(parts), Ghost(oks), Ghost(6), Ghost(path@)) {
            Some(d) => d,
            None => return None,
        };
        let done = match test_step(&self.7, done, Ghost(parts), Ghost(oks), Ghost(7), Ghost(path@)) {
            Some(d) => d,
            None => return None,
        };
        let done = match test_step(&self.8, done, Ghost(parts), Ghost(oks), Ghost(8), Ghost(path@)) {
            Some(d) => d,
            None => return None,
        };
        let done = match test_step(&self.9, done, Ghost(parts), Ghost(oks), Ghost(9), Ghost(path@)) {
            Some(d) => d,
            None => return None,
        };
        let done = match test_step(&self.10, done, Ghost(parts), Ghost(oks), Ghost(10), Ghost(path@)) {
            Some(d) => d,
            None => return None,
        };
        let done = match test_step(&self.11, done, Ghost(parts), Ghost(oks), Ghost(11), Ghost(path@)) {
            Some(d) => d,
            None => return None,
        };
        let done = match test_step(&self.12, done, Ghost(parts), Ghost(oks), Ghost(12), Ghost(path@)) {
            Some(d) => d,
            None => return None,
        };
        let done = match test_step(&self.13, done, Ghost(parts), Ghost(oks), Ghost(13), Ghost(path@)) {
            Some(d) => d,
            None => return None,
        };
        let done = match test_step(&self.14, done, Ghost(parts), Ghost(oks), Ghost(14), Ghost(path@)) {
            Some(d) => d,
            None => return None,
        };
        let done = match test_step(&self.15, done, Ghost(parts), Ghost(oks), Ghost(15), Ghost(path@)) {
            Some(d) => d,
            None => return None,
        };
        let done = match test_step(&self.16, done, Ghost(parts), Ghost(oks), Ghost(16), Ghost(path@)) {
            Some(d) => d,
            None => return None,
        };
        let done = match test_step(&self.17, done, Ghost(parts), Ghost(oks), Ghost(17), Ghost(path@)) {
            Some(d) => d,
            None => return None,
        };
        let done = match test_step(&self.18, done, Ghost(parts), Ghost(oks), Ghost(18), Ghost(path@)) {
            Some(d) => d,
            None => return None,
        };
        proof {
            lemma_sequence_end(parts, done@, path@);
        }
        Some(done)
    }
}

impl<A: RouteMatch, B: RouteMatch, C: RouteMatch, D: RouteMatch, E: RouteMatch, F: RouteMatch, G: RouteMatch, H: RouteMatch, I: RouteMatch, J: RouteMatch, K: RouteMatch, L: RouteMatch, M: RouteMatch, N: RouteMatch, O: RouteMatch, P: RouteMatch, Q: RouteMatch, R: RouteMatch, S: RouteMatch, T: RouteMatch> Patterns for (A, B, C, D, E, F, G, H, I, J, K, L, M, N, O, P, Q, R, S, T) {
    open spec fn patterns(&self) -> Seq<Pattern> {
        seq![pattern_of(&self.0), pattern_of(&self.1), pattern_of(&self.2), pattern_of(&self.3), pattern_of(&self.4), pattern_of(&self.5), pattern_of(&self.6), pattern_of(&self.7), pattern_of(&self.8), pattern_of(&self.9), pattern_of(&self.10), pattern_of(&self.11), pattern_of(&self.12), pattern_of(&self.13), pattern_of(&self.14), pattern_of(&self.15), pattern_of(&self.16), pattern_of(&self.17), pattern_of(&self.18), pattern_of(&self.19)]
    }

    open spec fn pattern_oks(&self) -> Seq<PatternOk> {
        seq![ok_of(&self.0), ok_of(&self.1), ok_of(&self.2), ok_of(&self.3), ok_of(&self.4), ok_of(&self.5), ok_of(&self.6), ok_of(&self.7), ok_of(&self.8), ok_of(&self.9), ok_of(&self.10), ok_of(&self.11), ok_of(&self.12), ok_of(&self.13), ok_of(&self.14), ok_of(&self.15), ok_of(&self.16), ok_of(&self.17), ok_of(&self.18), ok_of(&self.19)]
    }
}

impl<A: RouteMatch, B: RouteMatch, C: RouteMatch, D: RouteMatch, E: RouteMatch, F: RouteMatch, G: RouteMatch, H: RouteMatch, I: RouteMatch, J: RouteMatch, K: RouteMatch, L: RouteMatch, M: RouteMatch, N: RouteMatch, O: RouteMatch, P: RouteMatch, Q: RouteMatch, R: RouteMatch, S: RouteMatch, T: RouteMatch> RouteMatch for (A, B, C, D, E, F, G, H, I, J, K, L, M, N, O, P, Q, R, S, T) {
    open spec fn spec_test(&self, path: Seq<char>) -> Option<PartialMatchView> {
        sequence_test(self.patterns(), path)
    }

    open spec fn test_ok(&self, path: Seq<char>) -> bool {
        sequence_ok(self.pattern_oks(), self.patterns(), path)
    }

    proof fn lemma_slash_path(&self, path: Seq<char>) {
        let parts = self.patterns();
        let oks = self.pattern_oks();
        lemma_route_slash_sound(&self.0);
        lemma_route_slash_sound(&self.1);
        lemma_route_slash_sound(&self.2);
        lemma_route_slash_sound(&self.3);
        lemma_route_slash_sound(&self.4);
        lemma_route_slash_sound(&self.5);
        lemma_route_slash_sound(&self.6);
        lemma_route_slash_sound(&self.7);
        lemma_route_slash_sound(&self.8);
        lemma_route_slash_sound(&self.9);
        lemma_route_slash_sound(&self.10);
        lemma_route_slash_sound(&self.11);
        lemma_route_slash_sound(&self.12);
        lemma_route_slash_sound(&self.13);
        lemma_route_slash_sound(&self.14);
        lemma_route_slash_sound(&self.15);
        lemma_route_slash_sound(&self.16);
        lemma_route_slash_sound(&self.17);
        lemma_route_slash_sound(&self.18);
        lemma_route_slash_sound(&self.19);
        assert forall|i: int| 0 <= i < 20 implies #[trigger] slash_sound(oks[i], parts[i]) by {
            if i == 0 {} else if i == 1 {} else if i == 2 {} else if i == 3 {} else if i == 4 {} else if i == 5 {} else if i == 6 {} else if i == 7 {} else if i == 8 {} else if i == 9 {} else if i == 10 {} else if i == 11 {} else if i == 12 {} else if i == 13 {} else if i == 14 {} else if i == 15 {} else if i == 16 {} else if i == 17 {} else if i == 18 {} else if i == 19 {}
        }
        lemma_sequence_slash(oks, parts, path);
    }

    fn test<'a>(&self, path: &'a str) -> (r: Option<PartialPathMatch<'a>>) {
        let ghost parts = self.patterns();
        let ghost oks = self.pattern_oks();
        let done = start_match(path);
        proof {
            lemma_sequence_start(parts, oks, path@);
        }
        let done = match test_step(&self.0, done, Ghost(parts), Ghost(oks), Ghost(0), Ghost(path@)) {
            Some(d) => d,
            None => return None,
        };
        let done = match test_step(&self.1, done, Ghost(parts), Ghost(oks), Ghost(1), Ghost(path@)) {
            Some(d) => d,
            None => return None,
        };
        let done = match test_step(&self.2, done, Ghost(parts), Ghost(oks), Ghost(2), Ghost(path@)) {
            Some(d) => d,
            None => return None,
        };
        let done = match test_step(&self.3, done, Ghost(parts), Ghost(oks), Ghost(3), Ghost(path@)) {
            Some(d) => d,
            None => return None,
        };
        let done = match test_step(&self.4, done, Ghost(parts), Ghost(oks), Ghost(4), Ghost(path@)) {
            Some(d) => d,
            None => return None,
        };
        let done = match test_step(&self.5, done, Ghost(parts), Ghost(oks), Ghost(5), Ghost(path@)) {
            Some(d) => d,
            None => return None,
        };
        let done = match test_step(&self.6, done, Ghost(parts), Ghost(oks), Ghost(6), Ghost(path@)) {
            Some(d) => d,
            None => return None,
        };
        let done = match test_step(&self.7, done, Ghost(parts), Ghost(oks), Ghost(7), Ghost(path@)) {
            Some(d) => d,
            None => return None,
        };
        let done = match test_step(&self.8, done, Ghost(parts), Ghost(oks), Ghost(8), Ghost(path@)) {
            Some(d) => d,
            None => return None,
        };
        let done = match test_step(&self.9, done, Ghost(parts), Ghost(oks), Ghost(9), Ghost(path@)) {
            Some(d) => d,
            None => return None,
        };
        let done = match test_step(&self.10, done, Ghost(parts), Ghost(oks), Ghost(10), Ghost(path@)) {
            Some(d) => d,
            None => return None,
        };
        let done = match test_step(&self.11, done, Ghost(parts), Ghost(oks), Ghost(11), Ghost(path@)) {
            Some(d) => d,
            None => return None,
        };
        let done = match test_step(&self.12, done, Ghost(parts), Ghost(oks), Ghost(12), Ghost(path@)) {
            Some(d) => d,
            None => return None,
        };
        let done = match test_step(&self.13, done, Ghost(parts), Ghost(oks), Ghost(13), Ghost(path@)) {
            Some(d) => d,
            None => return None,
        };
        let done = match test_step(&self.14, done, Ghost(parts), Ghost(oks), Ghost(14), Ghost(path@)) {
            Some(d) => d,
            None => return None,
        };
        let done = match test_step(&self.15, done, Ghost(parts), Ghost(oks), Ghost(15), Ghost(path@)) {
            Some(d) => d,
            None => return None,
        };
        let done = match test_step(&self.16, done, Ghost(parts), Ghost(oks), Ghost(16), Ghost(path@)) {
            Some(d) => d,
            None => return None,
        };
        let done = match test_step(&self.17, done, Ghost(parts), Ghost(oks), Ghost(17), Ghost(path@)) {
            Some(d) => d,
            None => return None,
        };
        let done = match test_step(&self.18, done, Ghost(parts), Ghost(oks), Ghost(18), Ghost(path@)) {
            Some(d) => d,
            None => return None,
        };
        let done = match test_step(&self.19, done, Ghost(parts), Ghost(oks), Ghost(19), Ghost(path@)) {
            Some(d) => d,
            None => return None,
        };
        proof {
            lemma_sequence_end(parts, done@, path@);
        }
        Some(done)
    }
}

impl<A: RouteMatch, B: RouteMatch, C: RouteMatch, D: RouteMatch, E: RouteMatch, F: RouteMatch, G: RouteMatch, H: RouteMatch, I: RouteMatch, J: RouteMatch, K: RouteMatch, L: RouteMatch, M: RouteMatch, N: RouteMatch, O: RouteMatch, P: RouteMatch, Q: RouteMatch, R: RouteMatch, S: RouteMatch, T: RouteMatch, U: RouteMatch> Patterns for (A, B, C, D, E, F, G, H, I, J, K, L, M, N, O, P, Q, R, S, T, U) {
    open spec fn patterns(&self) -> Seq<Pattern> {
        seq![pattern_of(&self.0), pattern_of(&self.1), pattern_of(&self.2), pattern_of(&self.3), pattern_of(&self.4), pattern_of(&self.5), pattern_of(&self.6), pattern_of(&self.7), pattern_of(&self.8), pattern_of(&self.9), pattern_of(&self.10), pattern_of(&self.11), pattern_of(&self.12), pattern_of(&self.13), pattern_of(&self.14), pattern_of(&self.15), pattern_of(&self.16), pattern_of(&self.17), pattern_of(&self.18), pattern_of(&self.19), pattern_of(&self.20)]
    }

    open spec fn pattern_oks(&self) -> Seq<PatternOk> {
        seq![ok_of(&self.0), ok_of(&self.1), ok_of(&self.2), ok_of(&self.3), ok_of(&self.4), ok_of(&self.5), ok_of(&self.6), ok_of(&self.7), ok_of(&self.8), ok_of(&self.9), ok_of(&self.10), ok_of(&self.11), ok_of(&self.12), ok_of(&self.13), ok_of(&self.14), ok_of(&self.15), ok_of(&self.16), ok_of(&self.17), ok_of(&self.18), ok_of(&self.19), ok_of(&self.20)]
    }
}

impl<A: RouteMatch, B: RouteMatch, C: RouteMatch, D: RouteMatch, E: RouteMatch, F: RouteMatch, G: RouteMatch, H: RouteMatch, I: RouteMatch, J: RouteMatch, K: RouteMatch, L: RouteMatch, M: RouteMatch, N: RouteMatch, O: RouteMatch, P: RouteMatch, Q: RouteMatch, R: RouteMatch, S: RouteMatch, T: RouteMatch, U: RouteMatch> RouteMatch for (A, B, C, D, E, F, G, H, I, J, K, L, M, N, O, P, Q, R, S, T, U) {
    open spec fn spec_test(&self, path: Seq<char>) -> Option<PartialMatchView> {
        sequence_test(self.patterns(), path)
    }

    open spec fn test_ok(&self, path: Seq<char>) -> bool {
        sequence_ok(self.pattern_oks(), self.patterns(), path)
    }

    proof fn lemma_slash_path(&self, path: Seq<char>) {
        let parts = self.patterns();
        let oks = self.pattern_oks();
        lemma_route_slash_sound(&self.0);
        lemma_route_slash_sound(&self.1);
        lemma_route_slash_sound(&self.2);
        lemma_route_slash_sound(&self.3);
        lemma_route_slash_sound(&self.4);
        lemma_route_slash_sound(&self.5);
        lemma_route_slash_sound(&self.6);
        lemma_route_slash_sound(&self.7);
        lemma_route_slash_sound(&self.8);
        lemma_route_slash_sound(&self.9);
        lemma_route_slash_sound(&self.10);
        lemma_route_slash_sound(&self.11);
        lemma_route_slash_sound(&self.12);
        lemma_route_slash_sound(&self.13);
        lemma_route_slash_sound(&self.14);
        lemma_route_slash_sound(&self.15);
        lemma_route_slash_sound(&self.16);
        lemma_route_slash_sound(&self.17);
        lemma_route_slash_sound(&self.18);
        lemma_route_slash_sound(&self.19);
        lemma_route_slash_sound(&self.20);
        assert forall|i: int| 0 <= i < 21 implies #[trigger] slash_sound(oks[i], parts[i]) by {
            if i == 0 {} else if i == 1 {} else if i == 2 {} else if i == 3 {} else if i == 4 {} else if i == 5 {} else if i == 6 {} else if i == 7 {} else if i == 8 {} else if i == 9 {} else if i == 10 {} else if i == 11 {} else if i == 12 {} else if i == 13 {} else if i == 14 {} else if i == 15 {} else if i == 16 {} else if i == 17 {} else if i == 18 {} else if i == 19 {} else if i == 20 {}
        }
        lemma_sequence_slash(oks, parts, path);
    }

    fn test<'a>(&self, path: &'a str) -> (r: Option<PartialPathMatch<'a>>) {
        let ghost parts = self.patterns();
        let ghost oks = self.pattern_oks();
        let done = start_match(path);
        proof {
            lemma_sequence_start(parts, oks, path@);
        }
        let done = match test_step(&self.0, done, Ghost(parts), Ghost(oks), Ghost(0), Ghost(path@)) {
            Some(d) => d,
            None => return None,
        };
        let done = match test_step(&self.1, done, Ghost(parts), Ghost(oks), Ghost(1), Ghost(path@)) {
            Some(d) => d,
            None => return None,
        };
        let done = match test_step(&self.2, done, Ghost(parts), Ghost(oks), Ghost(2), Ghost(path@)) {
            Some(d) => d,
            None => return None,
        };
        let done = match test_step(&self.3, done, Ghost(parts), Ghost(oks), Ghost(3), Ghost(path@)) {
            Some(d) => d,
            None => return None,
        };
        let done = match test_step(&self.4, done, Ghost(parts), Ghost(oks), Ghost(4), Ghost(path@)) {
            Some(d) => d,
            None => return None,
        };
        let done = match test_step(&self.5, done, Ghost(parts), Ghost(oks), Ghost(5), Ghost(path@)) {
            Some(d) => d,
            None => return None,
        };
        let done = match test_step(&self.6, done, Ghost(parts), Ghost(oks), Ghost(6), Ghost(path@)) {
            Some(d) => d,
            None => return None,
        };
        let done = match test_step(&self.7, done, Ghost(parts), Ghost(oks), Ghost(7), Ghost(path@)) {
            Some(d) => d,
            None => return None,
        };
        let done = match test_step(&self.8, done, Ghost(parts), Ghost(oks), Ghost(8), Ghost(path@)) {
            Some(d) => d,
            None => return None,
        };
        let done = match test_step(&self.9, done, Ghost(parts), Ghost(oks), Ghost(9), Ghost(path@)) {
            Some(d) => d,
            None => return None,
        };
        let done = match test_step(&self.10, done, Ghost(parts), Ghost(oks), Ghost(10), Ghost(path@)) {
            Some(d) => d,
            None => return None,
        };
        let done = match test_step(&self.11, done, Ghost(parts), Ghost(oks), Ghost(11), Ghost(path@)) {
            Some(d) => d,
            None => return None,
        };
        let done = match test_step(&self.12, done, Ghost(parts), Ghost(oks), Ghost(12), Ghost(path@)) {
            Some(d) => d,
            None => return None,
        };
        let done = match test_step(&self.13, done, Ghost(parts), Ghost(oks), Ghost(13), Ghost(path@)) {
            Some(d) => d,
            None => return None,
        };
        let done = match test_step(&self.14, done, Ghost(parts), Ghost(oks), Ghost(14), Ghost(path@)) {
            Some(d) => d,
            None => return None,
        };
        let done = match test_step(&self.15, done, Ghost(parts), Ghost(oks), Ghost(15), Ghost(path@)) {
            Some(d) => d,
            None => return None,
        };
        let done = match test_step(&self.16, done, Ghost(parts), Ghost(oks), Ghost(16), Ghost(path@)) {
            Some(d) => d,
            None => return None,
        };
        let done = match test_step(&self.17, done, Ghost(parts), Ghost(oks), Ghost(17), Ghost(path@)) {
            Some(d) => d,
            None => return None,
        };
        let done = match test_step(&self.18, done, Ghost(parts), Ghost(oks), Ghost(18), Ghost(path@)) {
            Some(d) => d,
            None => return None,
        };
        let done = match test_step(&self.19, done, Ghost(parts), Ghost(oks), Ghost(19), Ghost(path@)) {
            Some(d) => d,
            None => return None,
        };
        let done = match test_step(&self.20, done, Ghost(parts), Ghost(oks), Ghost(20), Ghost(path@)) {
            Some(d) => d,
            None => return None,
        };
        proof {
            lemma_sequence_end(parts, done@, path@);
        }
        Some(done)
    }
}

impl<A: RouteMatch, B: RouteMatch, C: RouteMatch, D: RouteMatch, E: RouteMatch, F: RouteMatch, G: RouteMatch, H: RouteMatch, I: RouteMatch, J: RouteMatch, K: RouteMatch, L: RouteMatch, M: RouteMatch, N: RouteMatch, O: RouteMatch, P: RouteMatch, Q: RouteMatch, R: RouteMatch, S: RouteMatch, T: RouteMatch, U: RouteMatch, V: RouteMatch> Patterns for (A, B, C, D, E, F, G, H, I, J, K, L, M, N, O, P, Q, R, S, T, U, V) {
    open spec fn patterns(&self) -> Seq<Pattern> {
        seq![pattern_of(&self.0), pattern_of(&self.1), pattern_of(&self.2), pattern_of(&self.3), pattern_of(&self.4), pattern_of(&self.5), pattern_of(&self.6), pattern_of(&self.7), pattern_of(&self.8), pattern_of(&self.9), pattern_of(&self.10), pattern_of(&self.11), pattern_of(&self.12), pattern_of(&self.13), pattern_of(&self.14), pattern_of(&self.15), pattern_of(&self.16), pattern_of(&self.17), pattern_of(&self.18), pattern_of(&self.19), pattern_of(&self.20), pattern_of(&self.21)]
    }

    open spec fn pattern_oks(&self) -> Seq<PatternOk> {
        seq![ok_of(&self.0), ok_of(&self.1), ok_of(&self.2), ok_of(&self.3), ok_of(&self.4), ok_of(&self.5), ok_of(&self.6), ok_of(&self.7), ok_of(&self.8), ok_of(&self.9), ok_of(&self.10), ok_of(&self.11), ok_of(&self.12), ok_of(&self.13), ok_of(&self.14), ok_of(&self.15), ok_of(&self.16), ok_of(&self.17), ok_of(&self.18), ok_of(&self.19), ok_of(&self.20), ok_of(&self.21)]
    }
}

impl<A: RouteMatch, B: RouteMatch, C: RouteMatch, D: RouteMatch, E: RouteMatch, F: RouteMatch, G: RouteMatch, H: RouteMatch, I: RouteMatch, J: RouteMatch, K: RouteMatch, L: RouteMatch, M: RouteMatch, N: RouteMatch, O: RouteMatch, P: RouteMatch, Q: RouteMatch, R: RouteMatch, S: RouteMatch, T: RouteMatch, U: RouteMatch, V: RouteMatch> RouteMatch for (A, B, C, D, E, F, G, H, I, J, K, L, M, N, O, P, Q, R, S, T, U, V) {
    open spec fn spec_test(&self, path: Seq<char>) -> Option<PartialMatchView> {
        sequence_test(self.patterns(), path)
    }

    open spec fn test_ok(&self, path: Seq<char>) -> bool {
        sequence_ok(self.pattern_oks(), self.patterns(), path)
    }

    proof fn lemma_slash_path(&self, path: Seq<char>) {
        let parts = self.patterns();
        let oks = self.pattern_oks();
        lemma_route_slash_sound(&self.0);
        lemma_route_slash_sound(&self.1);
        lemma_route_slash_sound(&self.2);
        lemma_route_slash_sound(&self.3);
        lemma_route_slash_sound(&self.4);
        lemma_route_slash_sound(&self.5);
        lemma_route_slash_sound(&self.6);
        lemma_route_slash_sound(&self.7);
        lemma_route_slash_sound(&self.8);
        lemma_route_slash_sound(&self.9);
        lemma_route_slash_sound(&self.10);
        lemma_route_slash_sound(&self.11);
        lemma_route_slash_sound(&self.12);
        lemma_route_slash_sound(&self.13);
        lemma_route_slash_sound(&self.14);
        lemma_route_slash_sound(&self.15);
        lemma_route_slash_sound(&self.16);
        lemma_route_slash_sound(&self.17);
        lemma_route_slash_sound(&self.18);
        lemma_route_slash_sound(&self.19);
        lemma_route_slash_sound(&self.20);
        lemma_route_slash_sound(&self.21);
        assert forall|i: int| 0 <= i < 22 implies #[trigger] slash_sound(oks[i], parts[i]) by {
            if i == 0 {} else if i == 1 {} else if i == 2 {} else if i == 3 {} else if i == 4 {} else if i == 5 {} else if i == 6 {} else if i == 7 {} else if i == 8 {} else if i == 9 {} else if i == 10 {} else if i == 11 {} else if i == 12 {} else if i == 13 {} else if i == 14 {} else if i == 15 {} else if i == 16 {} else if i == 17 {} else if i == 18 {} else if i == 19 {} else if i == 20 {} else if i == 21 {}
        }
        lemma_sequence_slash(oks, parts, path);
    }

    fn test<'a>(&self, path: &'a str) -> (r: Option<PartialPathMatch<'a>>) {
        let ghost parts = self.patterns();
        let ghost oks = self.pattern_oks();
        let done = start_match(path);
        proof {
            lemma_sequence_start(parts, oks, path@);
        }
        let done = match test_step(&self.0, done, Ghost(parts), Ghost(oks), Ghost(0), Ghost(path@)) {
            Some(d) => d,
            None => return None,
        };
        let done = match test_step(&self.1, done, Ghost(parts), Ghost(oks), Ghost(1), Ghost(path@)) {
            Some(d) => d,
            None => return None,
        };
        let done = match test_step(&self.2, done, Ghost(parts), Ghost(oks), Ghost(2), Ghost(path@)) {
            Some(d) => d,
            None => return None,
        };
        let done = match test_step(&self.3, done, Ghost(parts), Ghost(oks), Ghost(3), Ghost(path@)) {
            Some(d) => d,
            None => return None,
        };
        let done = match test_step(&self.4, done, Ghost(parts), Ghost(oks), Ghost(4), Ghost(path@)) {
            Some(d) => d,
            None => return None,
        };
        let done = match test_step(&self.5, done, Ghost(parts), Ghost(oks), Ghost(5), Ghost(path@)) {
            Some(d) => d,
            None => return None,
        };
        let done = match test_step(&self.6, done, Ghost(parts), Ghost(oks), Ghost(6), Ghost(path@)) {
            Some(d) => d,
            None => return None,
        };
        let done = match test_step(&self.7, done, Ghost(parts), Ghost(oks), Ghost(7), Ghost(path@)) {
            Some(d) => d,
            None => return None,
        };
        let done = match test_step(&self.8, done, Ghost(parts), Ghost(oks), Ghost(8), Ghost(path@)) {
            Some(d) => d,
            None => return None,
        };
        let done = match test_step(&self.9, done, Ghost(parts), Ghost(oks), Ghost(9), Ghost(path@)) {
            Some(d) => d,
            None => return None,
        };
        let done = match test_step(&self.10, done, Ghost(parts), Ghost(oks), Ghost(10), Ghost(path@)) {
            Some(d) => d,
            None => return None,
        };
        let done = match test_step(&self.11, done, Ghost(parts), Ghost(oks), Ghost(11), Ghost(path@)) {
            Some(d) => d,
            None => return None,
        };
        let done = match test_step(&self.12, done, Ghost(parts), Ghost(oks), Ghost(12), Ghost(path@)) {
            Some(d) => d,
            None => return None,
        };
        let done = match test_step(&self.13, done, Ghost(parts), Ghost(oks), Ghost(13), Ghost(path@)) {
            Some(d) => d,
            None => return None,
        };
        let done = match test_step(&self.14, done, Ghost(parts), Ghost(oks), Ghost(14), Ghost(path@)) {
            Some(d) => d,
            None => return None,
        };
        let done = match test_step(&self.15, done, Ghost(parts), Ghost(oks), Ghost(15), Ghost(path@)) {
            Some(d) => d,
            None => return None,
        };
        let done = match test_step(&self.16, done, Ghost(parts), Ghost(oks), Ghost(16), Ghost(path@)) {
            Some(d) => d,
            None => return None,
        };
        let done = match test_step(&self.17, done, Ghost(parts), Ghost(oks), Ghost(17), Ghost(path@)) {
            Some(d) => d,
            None => return None,
        };
        let done = match test_step(&self.18, done, Ghost(parts), Ghost(oks), Ghost(18), Ghost(path@)) {
            Some(d) => d,
            None => return None,
        };
        let done = match test_step(&self.19, done, Ghost(parts), Ghost(oks), Ghost(19), Ghost(path@)) {
            Some(d) => d,
            None => return None,
        };
        let done = match test_step(&self.20, done, Ghost(parts), Ghost(oks), Ghost(20), Ghost(path@)) {
            Some(d) => d,
            None => return None,
        };
        let done = match test_step(&self.21, done, Ghost(parts), Ghost(oks), Ghost(21), Ghost(path@)) {
            Some(d) => d,
            None => return None,
        };
        proof {
            lemma_sequence_end(parts, done@, path@);
        }
        Some(done)
    }
}

impl<A: RouteMatch, B: RouteMatch, C: RouteMatch, D: RouteMatch, E: RouteMatch, F: RouteMatch, G: RouteMatch, H: RouteMatch, I: RouteMatch, J: RouteMatch, K: RouteMatch, L: RouteMatch, M: RouteMatch, N: RouteMatch, O: RouteMatch, P: RouteMatch, Q: RouteMatch, R: RouteMatch, S: RouteMatch, T: RouteMatch, U: RouteMatch, V: RouteMatch, W: RouteMatch> Patterns for (A, B, C, D, E, F, G, H, I, J, K, L, M, N, O, P, Q, R, S, T, U, V, W) {
    open spec fn patterns(&self) -> Seq<Pattern> {
        seq![pattern_of(&self.0), pattern_of(&self.1), pattern_of(&self.2), pattern_of(&self.3), pattern_of(&self.4), pattern_of(&self.5), pattern_of(&self.6), pattern_of(&self.7), pattern_of(&self.8), pattern_of(&self.9), pattern_of(&self.10), pattern_of(&self.11), pattern_of(&self.12), pattern_of(&self.13), pattern_of(&self.14), pattern_of(&self.15), pattern_of(&self.16), pattern_of(&self.17), pattern_of(&self.18), pattern_of(&self.19), pattern_of(&self.20), pattern_of(&self.21), pattern_of(&self.22)]
    }

    open spec fn pattern_oks(&self) -> Seq<PatternOk> {
        seq![ok_of(&self.0), ok_of(&self.1), ok_of(&self.2), ok_of(&self.3), ok_of(&self.4), ok_of(&self.5), ok_of(&self.6), ok_of(&self.7), ok_of(&self.8), ok_of(&self.9), ok_of(&self.10), ok_of(&self.11), ok_of(&self.12), ok_of(&self.13), ok_of(&self.14), ok_of(&self.15), ok_of(&self.16), ok_of(&self.17), ok_of(&self.18), ok_of(&self.19), ok_of(&self.20), ok_of(&self.21), ok_of(&self.22)]
    }
}

impl<A: RouteMatch, B: RouteMatch, C: RouteMatch, D: RouteMatch, E: RouteMatch, F: RouteMatch, G: RouteMatch, H: RouteMatch, I: RouteMatch, J: RouteMatch, K: RouteMatch, L: RouteMatch, M: RouteMatch, N: RouteMatch, O: RouteMatch, P: RouteMatch, Q: RouteMatch, R: RouteMatch, S: RouteMatch, T: RouteMatch, U: RouteMatch, V: RouteMatch, W: RouteMatch> RouteMatch for (A, B, C, D, E, F, G, H, I, J, K, L, M, N, O, P, Q, R, S, T, U, V, W) {
    open spec fn spec_test(&self, path: Seq<char>) -> Option<PartialMatchView> {
        sequence_test(self.patterns(), path)
    }

    open spec fn test_ok(&self, path: Seq<char>) -> bool {
        sequence_ok(self.pattern_oks(), self.patterns(), path)
    }

    proof fn lemma_slash_path(&self, path: Seq<char>) {
        let parts = self.patterns();
        let oks = self.pattern_oks();
        lemma_route_slash_sound(&self.0);
        lemma_route_slash_sound(&self.1);
        lemma_route_slash_sound(&self.2);
        lemma_route_slash_sound(&self.3);
        lemma_route_slash_sound(&self.4);
        lemma_route_slash_sound(&self.5);
        lemma_route_slash_sound(&self.6);
        lemma_route_slash_sound(&self.7);
        lemma_route_slash_sound(&self.8);
        lemma_route_slash_sound(&self.9);
        lemma_route_slash_sound(&self.10);
        lemma_route_slash_sound(&self.11);
        lemma_route_slash_sound(&self.12);
        lemma_route_slash_sound(&self.13);
        lemma_route_slash_sound(&self.14);
        lemma_route_slash_sound(&self.15);
        lemma_route_slash_sound(&self.16);
        lemma_route_slash_sound(&self.17);
        lemma_route_slash_sound(&self.18);
        lemma_route_slash_sound(&self.19);
        lemma_route_slash_sound(&self.20);
        lemma_route_slash_sound(&self.21);
        lemma_route_slash_sound(&self.22);
        assert forall|i: int| 0 <= i < 23 implies #[trigger] slash_sound(oks[i], parts[i]) by {
            if i == 0 {} else if i == 1 {} else if i == 2 {} else if i == 3 {} else if i == 4 {} else if i == 5 {} else if i == 6 {} else if i == 7 {} else if i == 8 {} else if i == 9 {} else if i == 10 {} else if i == 11 {} else if i == 12 {} else if i == 13 {} else if i == 14 {} else if i == 15 {} else if i == 16 {} else if i == 17 {} else if i == 18 {} else if i == 19 {} else if i == 20 {} else if i == 21 {} else if i == 22 {}
        }
        lemma_sequence_slash(oks, parts, path);
    }

    fn test<'a>(&self, path: &'a str) -> (r: Option<PartialPathMatch<'a>>) {
        let ghost parts = self.patterns();
        let ghost oks = self.pattern_oks();
        let done = start_match(path);
        proof {
            lemma_sequence_start(parts, oks, path@);
        }
        let done = match test_step(&self.0, done, Ghost(parts), Ghost(oks), Ghost(0), Ghost(path@)) {
            Some(d) => d,
            None => return None,
        };
        let done = match test_step(&self.1, done, Ghost(parts), Ghost(oks), Ghost(1), Ghost(path@)) {
            Some(d) => d,
            None => return None,
        };
        let done = match test_step(&self.2, done, Ghost(parts), Ghost(oks), Ghost(2), Ghost(path@)) {
            Some(d) => d,
            None => return None,
        };
        let done = match test_step(&self.3, done, Ghost(parts), Ghost(oks), Ghost(3), Ghost(path@)) {
            Some(d) => d,
            None => return None,
        };
        let done = match test_step(&self.4, done, Ghost(parts), Ghost(oks), Ghost(4), Ghost(path@)) {
            Some(d) => d,
            None => return None,
        };
        let done = match test_step(&self.5, done, Ghost(parts), Ghost(oks), Ghost(5), Ghost(path@)) {
            Some(d) => d,
            None => return None,
        };
        let done = match test_step(&self.6, done, Ghost(parts), Ghost(oks), Ghost(6), Ghost(path@)) {
            Some(d) => d,
            None => return None,
        };
        let done = match test_step(&self.7, done, Ghost(parts), Ghost(oks), Ghost(7), Ghost(path@)) {
            Some(d) => d,
            None => return None,
        };
        let done = match test_step(&self.8, done, Ghost(parts), Ghost(oks), Ghost(8), Ghost(path@)) {
            Some(d) => d,
            None => return None,
        };
        let done = match test_step(&self.9, done, Ghost(parts), Ghost(oks), Ghost(9), Ghost(path@)) {
            Some(d) => d,
            None => return None,
        };
        let done = match test_step(&self.10, done, Ghost(parts), Ghost(oks), Ghost(10), Ghost(path@)) {
            Some(d) => d,
            None => return None,
        };
        let done = match test_step(&self.11, done, Ghost(parts), Ghost(oks), Ghost(11), Ghost(path@)) {
            Some(d) => d,
            None => return None,
        };
        let done = match test_step(&self.12, done, Ghost(parts), Ghost(oks), Ghost(12), Ghost(path@)) {
            Some(d) => d,
            None => return None,
        };
        let done = match test_step(&self.13, done, Ghost(parts), Ghost(oks), Ghost(13), Ghost(path@)) {
            Some(d) => d,
            None => return None,
        };
        let done = match test_step(&self.14, done, Ghost(parts), Ghost(oks), Ghost(14), Ghost(path@)) {
            Some(d) => d,
            None => return None,
        };
        let done = match test_step(&self.15, done, Ghost(parts), Ghost(oks), Ghost(15), Ghost(path@)) {
            Some(d) => d,
            None => return None,
        };
        let done = match test_step(&self.16, done, Ghost(parts), Ghost(oks), Ghost(16), Ghost(path@)) {
            Some(d) => d,
            None => return None,
        };
        let done = match test_step(&self.17, done, Ghost(parts), Ghost(oks), Ghost(17), Ghost(path@)) {
            Some(d) => d,
            None => return None,
        };
        let done = match test_step(&self.18, done, Ghost(parts), Ghost(oks), Ghost(18), Ghost(path@)) {
            Some(d) => d,
            None => return None,
        };
        let done = match test_step(&self.19, done, Ghost(parts), Ghost(oks), Ghost(19), Ghost(path@)) {
            Some(d) => d,
            None => return None,
        };
        let done = match test_step(&self.20, done, Ghost(parts), Ghost(oks), Ghost(20), Ghost(path@)) {
            Some(d) => d,
            None => return None,
        };
        let done = match test_step(&self.21, done, Ghost(parts), Ghost(oks), Ghost(21), Ghost(path@)) {
            Some(d) => d,
            None => return None,
        };
        let done = match test_step(&self.22, done, Ghost(parts), Ghost(oks), Ghost(22), Ghost(path@)) {
            Some(d) => d,
            None => return None,
        };
        proof {
            lemma_sequence_end(parts, done@, path@);
        }
        Some(done)
    }
}

impl<A: RouteMatch, B: RouteMatch, C: RouteMatch, D: RouteMatch, E: RouteMatch, F: RouteMatch, G: RouteMatch, H: RouteMatch, I: RouteMatch, J: RouteMatch, K: RouteMatch, L: RouteMatch, M: RouteMatch, N: RouteMatch, O: RouteMatch, P: RouteMatch, Q: RouteMatch, R: RouteMatch, S: RouteMatch, T: RouteMatch, U: RouteMatch, V: RouteMatch, W: RouteMatch, X: RouteMatch> Patterns for (A, B, C, D, E, F, G, H, I, J, K, L, M, N, O, P, Q, R, S, T, U, V, W, X) {
    open spec fn patterns(&self) -> Seq<Pattern> {
        seq![pattern_of(&self.0), pattern_of(&self.1), pattern_of(&self.2), pattern_of(&self.3), pattern_of(&self.4), pattern_of(&self.5), pattern_of(&self.6), pattern_of(&self.7), pattern_of(&self.8), pattern_of(&self.9), pattern_of(&self.10), pattern_of(&self.11), pattern_of(&self.12), pattern_of(&self.13), pattern_of(&self.14), pattern_of(&self.15), pattern_of(&self.16), pattern_of(&self.17), pattern_of(&self.18), pattern_of(&self.19), pattern_of(&self.20), pattern_of(&self.21), pattern_of(&self.22), pattern_of(&self.23)]
    }

    open spec fn pattern_oks(&self) -> Seq<PatternOk> {
        seq![ok_of(&self.0), ok_of(&self.1), ok_of(&self.2), ok_of(&self.3), ok_of(&self.4), ok_of(&self.5), ok_of(&self.6), ok_of(&self.7), ok_of(&self.8), ok_of(&self.9), ok_of(&self.10), ok_of(&self.11), ok_of(&self.12), ok_of(&self.13), ok_of(&self.14), ok_of(&self.15), ok_of(&self.16), ok_of(&self.17), ok_of(&self.18), ok_of(&self.19), ok_of(&self.20), ok_of(&self.21), ok_of(&self.22), ok_of(&self.23)]
    }
}

impl<A: RouteMatch, B: RouteMatch, C: RouteMatch, D: RouteMatch, E: RouteMatch, F: RouteMatch, G: RouteMatch, H: RouteMatch, I: RouteMatch, J: RouteMatch, K: RouteMatch, L: RouteMatch, M: RouteMatch, N: RouteMatch, O: RouteMatch, P: RouteMatch, Q: RouteMatch, R: RouteMatch, S: RouteMatch, T: RouteMatch, U: RouteMatch, V: RouteMatch, W: RouteMatch, X: RouteMatch> RouteMatch for (A, B, C, D, E, F, G, H, I, J, K, L, M, N, O, P, Q, R, S, T, U, V, W, X) {
    open spec fn spec_test(&self, path: Seq<char>) -> Option<PartialMatchView> {
        sequence_test(self.patterns(), path)
    }

    open spec fn test_ok(&self, path: Seq<char>) -> bool {
        sequence_ok(self.pattern_oks(), self.patterns(), path)
    }

    proof fn lemma_slash_path(&self, path: Seq<char>) {
        let parts = self.patterns();
        let oks = self.pattern_oks();
        lemma_route_slash_sound(&self.0);
        lemma_route_slash_sound(&self.1);
        lemma_route_slash_sound(&self.2);
        lemma_route_slash_sound(&self.3);
        lemma_route_slash_sound(&self.4);
        lemma_route_slash_sound(&self.5);
        lemma_route_slash_sound(&self.6);
        lemma_route_slash_sound(&self.7);
        lemma_route_slash_sound(&self.8);
        lemma_route_slash_sound(&self.9);
        lemma_route_slash_sound(&self.10);
        lemma_route_slash_sound(&self.11);
        lemma_route_slash_sound(&self.12);
        lemma_route_slash_sound(&self.13);
        lemma_route_slash_sound(&self.14);
        lemma_route_slash_sound(&self.15);
        lemma_route_slash_sound(&self.16);
        lemma_route_slash_sound(&self.17);
        lemma_route_slash_sound(&self.18);
        lemma_route_slash_sound(&self.19);
        lemma_route_slash_sound(&self.20);
        lemma_route_slash_sound(&self.21);
        lemma_route_slash_sound(&self.22);
        lemma_route_slash_sound(&self.23);
        assert forall|i: int| 0 <= i < 24 implies #[trigger] slash_sound(oks[i], parts[i]) by {
            if i == 0 {} else if i == 1 {} else if i == 2 {} else if i == 3 {} else if i == 4 {} else if i == 5 {} else if i == 6 {} else if i == 7 {} else if i == 8 {} else if i == 9 {} else if i == 10 {} else if i == 11 {} else if i == 12 {} else if i == 13 {} else if i == 14 {} else if i == 15 {} else if i == 16 {} else if i == 17 {} else if i == 18 {} else if i == 19 {} else if i == 20 {} else if i == 21 {} else if i == 22 {} else if i == 23 {}
        }
        lemma_sequence_slash(oks, parts, path);
    }

    fn test<'a>(&self, path: &'a str) -> (r: Option<PartialPathMatch<'a>>) {
        let ghost parts = self.patterns();
        let ghost oks = self.pattern_oks();
        let done = start_match(path);
        proof {
            lemma_sequence_start(parts, oks, path@);
        }
        let done = match test_step(&self.0, done, Ghost(parts), Ghost(oks), Ghost(0), Ghost(path@)) {
            Some(d) => d,
            None => return None,
        };
        let done = match test_step(&self.1, done, Ghost(parts), Ghost(oks), Ghost(1), Ghost(path@)) {
            Some(d) => d,
            None => return None,
        };
        let done = match test_step(&self.2, done, Ghost(parts), Ghost(oks), Ghost(2), Ghost(path@)) {
            Some(d) => d,
            None => return None,
        };
        let done = match test_step(&self.3, done, Ghost(parts), Ghost(oks), Ghost(3), Ghost(path@)) {
            Some(d) => d,
            None => return None,
        };
        let done = match test_step(&self.4, done, Ghost(parts), Ghost(oks), Ghost(4), Ghost(path@)) {
            Some(d) => d,
            None => return None,
        };
        let done = match test_step(&self.5, done, Ghost(parts), Ghost(oks), Ghost(5), Ghost(path@)) {
            Some(d) => d,
            None => return None,
        };
        let done = match test_step(&self.6, done, Ghost(parts), Ghost(oks), Ghost(6), Ghost(path@)) {
            Some(d) => d,
            None => return None,
        };
        let done = match test_step(&self.7, done, Ghost(parts), Ghost(oks), Ghost(7), Ghost(path@)) {
            Some(d) => d,
            None => return None,
        };
        let done = match test_step(&self.8, done, Ghost(parts), Ghost(oks), Ghost(8), Ghost(path@)) {
            Some(d) => d,
            None => return None,
        };
        let done = match test_step(&self.9, done, Ghost(parts), Ghost(oks), Ghost(9), Ghost(path@)) {
            Some(d) => d,
            None => return None,
        };
        let done = match test_step(&self.10, done, Ghost(parts), Ghost(oks), Ghost(10), Ghost(path@)) {
            Some(d) => d,
            None => return None,
        };
        let done = match test_step(&self.11, done, Ghost(parts), Ghost(oks), Ghost(11), Ghost(path@)) {
            Some(d) => d,
            None => return None,
        };
        let done = match test_step(&self.12, done, Ghost(parts), Ghost(oks), Ghost(12), Ghost(path@)) {
            Some(d) => d,
            None => return None,
        };
        let done = match test_step(&self.13, done, Ghost(parts), Ghost(oks), Ghost(13), Ghost(path@)) {
            Some(d) => d,
            None => return None,
        };
        let done = match test_step(&self.14, done, Ghost(parts), Ghost(oks), Ghost(14), Ghost(path@)) {
            Some(d) => d,
            None => return None,
        };
        let done = match test_step(&self.15, done, Ghost(parts), Ghost(oks), Ghost(15), Ghost(path@)) {
            Some(d) => d,
            None => return None,
        };
        let done = match test_step(&self.16, done, Ghost(parts), Ghost(oks), Ghost(16), Ghost(path@)) {
            Some(d) => d,
            None => return None,
        };
        let done = match test_step(&self.17, done, Ghost(parts), Ghost(oks), Ghost(17), Ghost(path@)) {
            Some(d) => d,
            None => return None,
        };
        let done = match test_step(&self.18, done, Ghost(parts), Ghost(oks), Ghost(18), Ghost(path@)) {
            Some(d) => d,
            None => return None,
        };
        let done = match test_step(&self.19, done, Ghost(parts), Ghost(oks), Ghost(19), Ghost(path@)) {
            Some(d) => d,
            None => return None,
        };
        let done = match test_step(&self.20, done, Ghost(parts), Ghost(oks), Ghost(20), Ghost(path@)) {
            Some(d) => d,
            None => return None,
        };
        let done = match test_step(&self.21, done, Ghost(parts), Ghost(oks), Ghost(21), Ghost(path@)) {
            Some(d) => d,
            None => return None,
        };
        let done = match test_step(&self.22, done, Ghost(parts), Ghost(oks), Ghost(22), Ghost(path@)) {
            Some(d) => d,
            None => return None,
        };
        let done = match test_step(&self.23, done, Ghost(parts), Ghost(oks), Ghost(23), Ghost(path@)) {
            Some(d) => d,
            None => return None,
        };
        proof {
            lemma_sequence_end(parts, done@, path@);
        }
        Some(done)
    }
}

impl<A: RouteMatch, B: RouteMatch, C: RouteMatch, D: RouteMatch, E: RouteMatch, F: RouteMatch, G: RouteMatch, H: RouteMatch, I: RouteMatch, J: RouteMatch, K: RouteMatch, L: RouteMatch, M: RouteMatch, N: RouteMatch, O: RouteMatch, P: RouteMatch, Q: RouteMatch, R: RouteMatch, S: RouteMatch, T: RouteMatch, U: RouteMatch, V: RouteMatch, W: RouteMatch, X: RouteMatch, Y: RouteMatch> Patterns for (A, B, C, D, E, F, G, H, I, J, K, L, M, N, O, P, Q, R, S, T, U, V, W, X, Y) {
    open spec fn patterns(&self) -> Seq<Pattern> {
        seq![pattern_of(&self.0), pattern_of(&self.1), pattern_of(&self.2), pattern_of(&self.3), pattern_of(&self.4), pattern_of(&self.5), pattern_of(&self.6), pattern_of(&self.7), pattern_of(&self.8), pattern_of(&self.9), pattern_of(&self.10), pattern_of(&self.11), pattern_of(&self.12), pattern_of(&self.13), pattern_of(&self.14), pattern_of(&self.15), pattern_of(&self.16), pattern_of(&self.17), pattern_of(&self.18), pattern_of(&self.19), pattern_of(&self.20), pattern_of(&self.21), pattern_of(&self.22), pattern_of(&self.23), pattern_of(&self.24)]
    }

    open spec fn pattern_oks(&self) -> Seq<PatternOk> {
        seq![ok_of(&self.0), ok_of(&self.1), ok_of(&self.2), ok_of(&self.3), ok_of(&self.4), ok_of(&self.5), ok_of(&self.6), ok_of(&self.7), ok_of(&self.8), ok_of(&self.9), ok_of(&self.10), ok_of(&self.11), ok_of(&self.12), ok_of(&self.13), ok_of(&self.14), ok_of(&self.15), ok_of(&self.16), ok_of(&self.17), ok_of(&self.18), ok_of(&self.19), ok_of(&self.20), ok_of(&self.21), ok_of(&self.22), ok_of(&self.23), ok_of(&self.24)]
    }
}

impl<A: RouteMatch, B: RouteMatch, C: RouteMatch, D: RouteMatch, E: RouteMatch, F: RouteMatch, G: RouteMatch, H: RouteMatch, I: RouteMatch, J: RouteMatch, K: RouteMatch, L: RouteMatch, M: RouteMatch, N: RouteMatch, O: RouteMatch, P: RouteMatch, Q: RouteMatch, R: RouteMatch, S: RouteMatch, T: RouteMatch, U: RouteMatch, V: RouteMatch, W: RouteMatch, X: RouteMatch, Y: RouteMatch> RouteMatch for (A, B, C, D, E, F, G, H, I, J, K, L, M, N, O, P, Q, R, S, T, U, V, W, X, Y) {
    open spec fn spec_test(&self, path: Seq<char>) -> Option<PartialMatchView> {
        sequence_test(self.patterns(), path)
    }

    open spec fn test_ok(&self, path: Seq<char>) -> bool {
        sequence_ok(self.pattern_oks(), self.patterns(), path)
    }

    proof fn lemma_slash_path(&self, path: Seq<char>) {
        let parts = self.patterns();
        let oks = self.pattern_oks();
        lemma_route_slash_sound(&self.0);
        lemma_route_slash_sound(&self.1);
        lemma_route_slash_sound(&self.2);
        lemma_route_slash_sound(&self.3);
        lemma_route_slash_sound(&self.4);
        lemma_route_slash_sound(&self.5);
        lemma_route_slash_sound(&self.6);
        lemma_route_slash_sound(&self.7);
        lemma_route_slash_sound(&self.8);
        lemma_route_slash_sound(&self.9);
        lemma_route_slash_sound(&self.10);
        lemma_route_slash_sound(&self.11);
        lemma_route_slash_sound(&self.12);
        lemma_route_slash_sound(&self.13);
        lemma_route_slash_sound(&self.14);
        lemma_route_slash_sound(&self.15);
        lemma_route_slash_sound(&self.16);
        lemma_route_slash_sound(&self.17);
        lemma_route_slash_sound(&self.18);
        lemma_route_slash_sound(&self.19);
        lemma_route_slash_sound(&self.20);
        lemma_route_slash_sound(&self.21);
        lemma_route_slash_sound(&self.22);
        lemma_route_slash_sound(&self.23);
        lemma_route_slash_sound(&self.24);
        assert forall|i: int| 0 <= i < 25 implies #[trigger] slash_sound(oks[i], parts[i]) by {
            if i == 0 {} else if i == 1 {} else if i == 2 {} else if i == 3 {} else if i == 4 {} else if i == 5 {} else if i == 6 {} else if i == 7 {} else if i == 8 {} else if i == 9 {} else if i == 10 {} else if i == 11 {} else if i == 12 {} else if i == 13 {} else if i == 14 {} else if i == 15 {} else if i == 16 {} else if i == 17 {} else if i == 18 {} else if i == 19 {} else if i == 20 {} else if i == 21 {} else if i == 22 {} else if i == 23 {} else if i == 24 {}
        }
        lemma_sequence_slash(oks, parts, path);
    }

    fn test<'a>(&self, path: &'a str) -> (r: Option<PartialPathMatch<'a>>) {
        let ghost parts = self.patterns();
        let ghost oks = self.pattern_oks();
        let done = start_match(path);
        proof {
            lemma_sequence_start(parts, oks, path@);
        }
        let done = match test_step(&self.0, done, Ghost(parts), Ghost(oks), Ghost(0), Ghost(path@)) {
            Some(d) => d,
            None => return None,
        };
        let done = match test_step(&self.1, done, Ghost(parts), Ghost(oks), Ghost(1), Ghost(path@)) {
            Some(d) => d,
            None => return None,
        };
        let done = match test_step(&self.2, done, Ghost(parts), Ghost(oks), Ghost(2), Ghost(path@)) {
            Some(d) => d,
            None => return None,
        };
        let done = match test_step(&self.3, done, Ghost(parts), Ghost(oks), Ghost(3), Ghost(path@)) {
            Some(d) => d,
            None => return None,
        };
        let done = match test_step(&self.4, done, Ghost(parts), Ghost(oks), Ghost(4), Ghost(path@)) {
            Some(d) => d,
            None => return None,
        };
        let done = match test_step(&self.5, done, Ghost(parts), Ghost(oks), Ghost(5), Ghost(path@)) {
            Some(d) => d,
            None => return None,
        };
        let done = match test_step(&self.6, done, Ghost(parts), Ghost(oks), Ghost(6), Ghost(path@)) {
            Some(d) => d,
            None => return None,
        };
        let done = match test_step(&self.7, done, Ghost(parts), Ghost(oks), Ghost(7), Ghost(path@)) {
            Some(d) => d,
            None => return None,
        };
        let done = match test_step(&self.8, done, Ghost(parts), Ghost(oks), Ghost(8), Ghost(path@)) {
            Some(d) => d,
            None => return None,
        };
        let done = match test_step(&self.9, done, Ghost(parts), Ghost(oks), Ghost(9), Ghost(path@)) {
            Some(d) => d,
            None => return None,
        };
        let done = match test_step(&self.10, done, Ghost(parts), Ghost(oks), Ghost(10), Ghost(path@)) {
            Some(d) => d,
            None => return None,
        };
        let done = match test_step(&self.11, done, Ghost(parts), Ghost(oks), Ghost(11), Ghost(path@)) {
            Some(d) => d,
            None => return None,
        };
        let done = match test_step(&self.12, done, Ghost(parts), Ghost(oks), Ghost(12), Ghost(path@)) {
            Some(d) => d,
            None => return None,
        };
        let done = match test_step(&self.13, done, Ghost(parts), Ghost(oks), Ghost(13), Ghost(path@)) {
            Some(d) => d,
            None => return None,
        };
        let done = match test_step(&self.14, done, Ghost(parts), Ghost(oks), Ghost(14), Ghost(path@)) {
            Some(d) => d,
            None => return None,
        };
        let done = match test_step(&self.15, done, Ghost(parts), Ghost(oks), Ghost(15), Ghost(path@)) {
            Some(d) => d,
            None => return None,
        };
        let done = match test_step(&self.16, done, Ghost(parts), Ghost(oks), Ghost(16), Ghost(path@)) {
            Some(d) => d,
            None => return None,
        };
        let done = match test_step(&self.17, done, Ghost(parts), Ghost(oks), Ghost(17), Ghost(path@)) {
            Some(d) => d,
            None => return None,
        };
        let done = match test_step(&self.18, done, Ghost(parts), Ghost(oks), Ghost(18), Ghost(path@)) {
            Some(d) => d,
            None => return None,
        };
        let done = match test_step(&self.19, done, Ghost(parts), Ghost(oks), Ghost(19), Ghost(path@)) {
            Some(d) => d,
            None => return None,
        };
        let done = match test_step(&self.20, done, Ghost(parts), Ghost(oks), Ghost(20), Ghost(path@)) {
            Some(d) => d,
            None => return None,
        };
        let done = match test_step(&self.21, done, Ghost(parts), Ghost(oks), Ghost(21), Ghost(path@)) {
            Some(d) => d,
            None => return None,
        };
        let done = match test_step(&self.22, done, Ghost(parts), Ghost(oks), Ghost(22), Ghost(path@)) {
            Some(d) => d,
            None => return None,
        };
        let done = match test_step(&self.23, done, Ghost(parts), Ghost(oks), Ghost(23), Ghost(path@)) {
            Some(d) => d,
            None => return None,
        };
        let done = match test_step(&self.24, done, Ghost(parts), Ghost(oks), Ghost(24), Ghost(path@)) {
            Some(d) => d,
            None => return None,
        };
        proof {
            lemma_sequence_end(parts, done@, path@);
        }
        Some(done)
    }
}

impl<A: RouteMatch, B: RouteMatch, C: RouteMatch, D: RouteMatch, E: RouteMatch, F: RouteMatch, G: RouteMatch, H: RouteMatch, I: RouteMatch, J: RouteMatch, K: RouteMatch, L: RouteMatch, M: RouteMatch, N: RouteMatch, O: RouteMatch, P: RouteMatch, Q: RouteMatch, R: RouteMatch, S: RouteMatch, T: RouteMatch, U: RouteMatch, V: RouteMatch, W: RouteMatch, X: RouteMatch, Y: RouteMatch, Z: RouteMatch> Patterns for (A, B, C, D, E, F, G, H, I, J, K, L, M, N, O, P, Q, R, S, T, U, V, W, X, Y, Z) {
    open spec fn patterns(&self) -> Seq<Pattern> {
        seq![pattern_of(&self.0), pattern_of(&self.1), pattern_of(&self.2), pattern_of(&self.3), pattern_of(&self.4), pattern_of(&self.5), pattern_of(&self.6), pattern_of(&self.7), pattern_of(&self.8), pattern_of(&self.9), pattern_of(&self.10), pattern_of(&self.11), pattern_of(&self.12), pattern_of(&self.13), pattern_of(&self.14), pattern_of(&self.15), pattern_of(&self.16), pattern_of(&self.17), pattern_of(&self.18), pattern_of(&self.19), pattern_of(&self.20), pattern_of(&self.21), pattern_of(&self.22), pattern_of(&self.23), pattern_of(&self.24), pattern_of(&self.25)]
    }

    open spec fn pattern_oks(&self) -> Seq<PatternOk> {
        seq![ok_of(&self.0), ok_of(&self.1), ok_of(&self.2), ok_of(&self.3), ok_of(&self.4), ok_of(&self.5), ok_of(&self.6), ok_of(&self.7), ok_of(&self.8), ok_of(&self.9), ok_of(&self.10), ok_of(&self.11), ok_of(&self.12), ok_of(&self.13), ok_of(&self.14), ok_of(&self.15), ok_of(&self.16), ok_of(&self.17), ok_of(&self.18), ok_of(&self.19), ok_of(&self.20), ok_of(&self.21), ok_of(&self.22), ok_of(&self.23), ok_of(&self.24), ok_of(&self.25)]
    }
}

impl<A: RouteMatch, B: RouteMatch, C: RouteMatch, D: RouteMatch, E: RouteMatch, F: RouteMatch, G: RouteMatch, H: RouteMatch, I: RouteMatch, J: RouteMatch, K: RouteMatch, L: RouteMatch, M: RouteMatch, N: RouteMatch, O: RouteMatch, P: RouteMatch, Q: RouteMatch, R: RouteMatch, S: RouteMatch, T: RouteMatch, U: RouteMatch, V: RouteMatch, W: RouteMatch, X: RouteMatch, Y: RouteMatch, Z: RouteMatch> RouteMatch for (A, B, C, D, E, F, G, H, I, J, K, L, M, N, O, P, Q, R, S, T, U, V, W, X, Y, Z) {
    open spec fn spec_test(&self, path: Seq<char>) -> Option<PartialMatchView> {
        sequence_test(self.patterns(), path)
    }

    open spec fn test_ok(&self, path: Seq<char>) -> bool {
        sequence_ok(self.pattern_oks(), self.patterns(), path)
    }

    proof fn lemma_slash_path(&self, path: Seq<char>) {
        let parts = self.patterns();
        let oks = self.pattern_oks();
        lemma_route_slash_sound(&self.0);
        lemma_route_slash_sound(&self.1);
        lemma_route_slash_sound(&self.2);
        lemma_route_slash_sound(&self.3);
        lemma_route_slash_sound(&self.4);
        lemma_route_slash_sound(&self.5);
        lemma_route_slash_sound(&self.6);
        lemma_route_slash_sound(&self.7);
        lemma_route_slash_sound(&self.8);
        lemma_route_slash_sound(&self.9);
        lemma_route_slash_sound(&self.10);
        lemma_route_slash_sound(&self.11);
        lemma_route_slash_sound(&self.12);
        lemma_route_slash_sound(&self.13);
        lemma_route_slash_sound(&self.14);
        lemma_route_slash_sound(&self.15);
        lemma_route_slash_sound(&self.16);
        lemma_route_slash_sound(&self.17);
        lemma_route_slash_sound(&self.18);
        lemma_route_slash_sound(&self.19);
        lemma_route_slash_sound(&self.20);
        lemma_route_slash_sound(&self.21);
        lemma_route_slash_sound(&self.22);
        lemma_route_slash_sound(&self.23);
        lemma_route_slash_sound(&self.24);
        lemma_route_slash_sound(&self.25);
        assert forall|i: int| 0 <= i < 26 implies #[trigger] slash_sound(oks[i], parts[i]) by {
            if i == 0 {} else if i == 1 {} else if i == 2 {} else if i == 3 {} else if i == 4 {} else if i == 5 {} else if i == 6 {} else if i == 7 {} else if i == 8 {} else if i == 9 {} else if i == 10 {} else if i == 11 {} else if i == 12 {} else if i == 13 {} else if i == 14 {} else if i == 15 {} else if i == 16 {} else if i == 17 {} else if i == 18 {} else if i == 19 {} else if i == 20 {} else if i == 21 {} else if i == 22 {} else if i == 23 {} else if i == 24 {} else if i == 25 {}
        }
        lemma_sequence_slash(oks, parts, path);
    }

    fn test<'a>(&self, path: &'a str) -> (r: Option<PartialPathMatch<'a>>) {
        let ghost parts = self.patterns();
        let ghost oks = self.pattern_oks();
        let done = start_match(path);
        proof {
            lemma_sequence_start(parts, oks, path@);
        }
        let done = match test_step(&self.0, done, Ghost(parts), Ghost(oks), Ghost(0), Ghost(path@)) {
            Some(d) => d,
            None => return None,
        };
        let done = match test_step(&self.1, done, Ghost(parts), Ghost(oks), Ghost(1), Ghost(path@)) {
            Some(d) => d,
            None => return None,
        };
        let done = match test_step(&self.2, done, Ghost(parts), Ghost(oks), Ghost(2), Ghost(path@)) {
            Some(d) => d,
            None => return None,
        };
        let done = match test_step(&self.3, done, Ghost(parts), Ghost(oks), Ghost(3), Ghost(path@)) {
            Some(d) => d,
            None => return None,
        };
        let done = match test_step(&self.4, done, Ghost(parts), Ghost(oks), Ghost(4), Ghost(path@)) {
            Some(d) => d,
            None => return None,
        };
        let done = match test_step(&self.5, done, Ghost(parts), Ghost(oks), Ghost(5), Ghost(path@)) {
            Some(d) => d,
            None => return None,
        };
        let done = match test_step(&self.6, done, Ghost(parts), Ghost(oks), Ghost(6), Ghost(path@)) {
            Some(d) => d,
            None => return None,
        };
        let done = match test_step(&self.7, done, Ghost(parts), Ghost(oks), Ghost(7), Ghost(path@)) {
            Some(d) => d,
            None => return None,
        };
        let done = match test_step(&self.8, done, Ghost(parts), Ghost(oks), Ghost(8), Ghost(path@)) {
            Some(d) => d,
            None => return None,
        };
        let done = match test_step(&self.9, done, Ghost(parts), Ghost(oks), Ghost(9), Ghost(path@)) {
            Some(d) => d,
            None => return None,
        };
        let done = match test_step(&self.10, done, Ghost(parts), Ghost(oks), Ghost(10), Ghost(path@)) {
            Some(d) => d,
            None => return None,
        };
        let done = match test_step(&self.11, done, Ghost(parts), Ghost(oks), Ghost(11), Ghost(path@)) {
            Some(d) => d,
            None => return None,
        };
        let done = match test_step(&self.12, done, Ghost(parts), Ghost(oks), Ghost(12), Ghost(path@)) {
            Some(d) => d,
            None => return None,
        };
        let done = match test_step(&self.13, done, Ghost(parts), Ghost(oks), Ghost(13), Ghost(path@)) {
            Some(d) => d,
            None => return None,
        };
        let done = match test_step(&self.14, done, Ghost(parts), Ghost(oks), Ghost(14), Ghost(path@)) {
            Some(d) => d,
            None => return None,
        };
        let done = match test_step(&self.15, done, Ghost(parts), Ghost(oks), Ghost(15), Ghost(path@)) {
            Some(d) => d,
            None => return None,
        };
        let done = match test_step(&self.16, done, Ghost(parts), Ghost(oks), Ghost(16), Ghost(path@)) {
            Some(d) => d,
            None => return None,
        };
        let done = match test_step(&self.17, done, Ghost(parts), Ghost(oks), Ghost(17), Ghost(path@)) {
            Some(d) => d,
            None => return None,
        };
        let done = match test_step(&self.18, done, Ghost(parts), Ghost(oks), Ghost(18), Ghost(path@)) {
            Some(d) => d,
            None => return None,
        };
        let done = match test_step(&self.19, done, Ghost(parts), Ghost(oks), Ghost(19), Ghost(path@)) {
            Some(d) => d,
            None => return None,
        };
        let done = match test_step(&self.20, done, Ghost(parts), Ghost(oks), Ghost(20), Ghost(path@)) {
            Some(d) => d,
            None => return None,
        };
        let done = match test_step(&self.21, done, Ghost(parts), Ghost(oks), Ghost(21), Ghost(path@)) {
            Some(d) => d,
            None => return None,
        };
        let done = match test_step(&self.22, done, Ghost(parts), Ghost(oks), Ghost(22), Ghost(path@)) {
            Some(d) => d,
            None => return None,
        };
        let done = match test_step(&self.23, done, Ghost(parts), Ghost(oks), Ghost(23), Ghost(path@)) {
            Some(d) => d,
            None => return None,
        };
        let done = match test_step(&self.24, done, Ghost(parts), Ghost(oks), Ghost(24), Ghost(path@)) {
            Some(d) => d,
            None => return None,
        };
        let done = match test_step(&self.25, done, Ghost(parts), Ghost(oks), Ghost(25), Ghost(path@)) {
            Some(d) => d,
            None => return None,
        };
        proof {
            lemma_sequence_end(parts, done@, path@);
        }
        Some(done)
    }
}

/// A tuple of 2 routes matches its first member on the path, then the rest
/// of its members, in order, on what the first left.
pub proof fn lemma_match_tuple_2<A: RouteMatch, B: RouteMatch>(t: (A, B), path: Seq<char>)
    ensures
        t.spec_test(path) == match t.0.spec_test(path) {
            None => None,
            Some(m) => then_rest(m, t.1.spec_test(m.remaining)),
        },
{
    let parts = t.patterns();
    let p1 = parts.drop_first();
    let p2 = p1.drop_first();
    assert(p2.len() == 0);
    assert(p1[0] == pattern_of(&t.1));
    if let Some(m) = t.0.spec_test(path) {
        if let Some(r) = t.1.spec_test(m.remaining) {
            assert(sequence_test(p2, r.remaining) == Some(empty_match(r.remaining)));
            let e = seq_match(r, empty_match(r.remaining));
            assert(e.params =~= r.params);
            assert(e.matched =~= r.matched);
            assert(sequence_test(p1, m.remaining) == Some(r));
        } else {
            assert(sequence_test(p1, m.remaining) is None);
        }
    }
}

/// A tuple of 3 routes matches its first member on the path, then the rest
/// of its members, in order, on what the first left.
pub proof fn lemma_match_tuple_3<A: RouteMatch, B: RouteMatch, C: RouteMatch>(t: (A, B, C), path: Seq<char>)
    ensures
        t.spec_test(path) == match t.0.spec_test(path) {
            None => None,
            Some(m) => then_rest(m, (t.1, t.2).spec_test(m.remaining)),
        },
{
    let parts = t.patterns();
    assert(parts.drop_first() =~= (t.1, t.2).patterns());
}

/// A tuple of 4 routes matches its first member on the path, then the rest
/// of its members, in order, on what the first left.
pub proof fn lemma_match_tuple_4<A: RouteMatch, B: RouteMatch, C: RouteMatch, D: RouteMatch>(t: (A, B, C, D), path: Seq<char>)
    ensures
        t.spec_test(path) == match t.0.spec_test(path) {
            None => None,
            Some(m) => then_rest(m, (t.1, t.2, t.3).spec_test(m.remaining)),
        },
{
    let parts = t.patterns();
    assert(parts.drop_first() =~= (t.1, t.2, t.3).patterns());
}

/// A tuple of 5 routes matches its first member on the path, then the rest
/// of its members, in order, on what the first left.
pub proof fn lemma_match_tuple_5<A: RouteMatch, B: RouteMatch, C: RouteMatch, D: RouteMatch, E: RouteMatch>(t: (A, B, C, D, E), path: Seq<char>)
    ensures
        t.spec_test(path) == match t.0.spec_test(path) {
            None => None,
            Some(m) => then_rest(m, (t.1, t.2, t.3, t.4).spec_test(m.remaining)),
        },
{
    let parts = t.patterns();
    assert(parts.drop_first() =~= (t.1, t.2, t.3, t.4).patterns());
}

/// A tuple of 6 routes matches its first member on the path, then the rest
/// of its members, in order, on what the first left.
pub proof fn lemma_match_tuple_6<A: RouteMatch, B: RouteMatch, C: RouteMatch, D: RouteMatch, E: RouteMatch, F: RouteMatch>(t: (A, B, C, D, E, F), path: Seq<char>)
    ensures
        t.spec_test(path) == match t.0.spec_test(path) {
            None => None,
            Some(m) => then_rest(m, (t.1, t.2, t.3, t.4, t.5).spec_test(m.remaining)),
        },
{
    let parts = t.patterns();
    assert(parts.drop_first() =~= (t.1, t.2, t.3, t.4, t.5).patterns());
}

/// A tuple of 7 routes matches its first member on the path, then the rest
/// of its members, in order, on what the first left.
pub proof fn lemma_match_tuple_7<A: RouteMatch, B: RouteMatch, C: RouteMatch, D: RouteMatch, E: RouteMatch, F: RouteMatch, G: RouteMatch>(t: (A, B, C, D, E, F, G), path: Seq<char>)
    ensures
        t.spec_test(path) == match t.0.spec_test(path) {
            None => None,
            Some(m) => then_rest(m, (t.1, t.2, t.3, t.4, t.5, t.6).spec_test(m.remaining)),
        },
{
    let parts = t.patterns();
    assert(parts.drop_first() =~= (t.1, t.2, t.3, t.4, t.5, t.6).patterns());
}

/// A tuple of 8 routes matches its first member on the path, then the rest
/// of its members, in order, on what the first left.
pub proof fn lemma_match_tuple_8<A: RouteMatch, B: RouteMatch, C: RouteMatch, D: RouteMatch, E: RouteMatch, F: RouteMatch, G: RouteMatch, H: RouteMatch>(t: (A, B, C, D, E, F, G, H), path: Seq<char>)
    ensures
        t.spec_test(path) == match t.0.spec_test(path) {
            None => None,
            Some(m) => then_rest(m, (t.1, t.2, t.3, t.4, t.5, t.6, t.7).spec_test(m.remaining)),
        },
{
    let parts = t.patterns();
    assert(parts.drop_first() =~= (t.1, t.2, t.3, t.4, t.5, t.6, t.7).patterns());
}

/// A tuple of 9 routes matches its first member on the path, then the rest
/// of its members, in order, on what the first left.
pub proof fn lemma_match_tuple_9<A: RouteMatch, B: RouteMatch, C: RouteMatch, D: RouteMatch, E: RouteMatch, F: RouteMatch, G: RouteMatch, H: RouteMatch, I: RouteMatch>(t: (A, B, C, D, E, F, G, H, I), path: Seq<char>)
    ensures
        t.spec_test(path) == match t.0.spec_test(path) {
            None => None,
            Some(m) => then_rest(m, (t.1, t.2, t.3, t.4, t.5, t.6, t.7, t.8).spec_test(m.remaining)),
        },
{
    let parts = t.patterns();
    assert(parts.drop_first() =~= (t.1, t.2, t.3, t.4, t.5, t.6, t.7, t.8).patterns());
}

/// A tuple of 10 routes matches its first member on the path, then the rest
/// of its members, in order, on what the first left.
pub proof fn lemma_match_tuple_10<A: RouteMatch, B: RouteMatch, C: RouteMatch, D: RouteMatch, E: RouteMatch, F: RouteMatch, G: RouteMatch, H: RouteMatch, I: RouteMatch, J: RouteMatch>(t: (A, B, C, D, E, F, G, H, I, J), path: Seq<char>)
    ensures
        t.spec_test(path) == match t.0.spec_test(path) {
            None => None,
            Some(m) => then_rest(m, (t.1, t.2, t.3, t.4, t.5, t.6, t.7, t.8, t.9).spec_test(m.remaining)),
        },
{
    let parts = t.patterns();
    assert(parts.drop_first() =~= (t.1, t.2, t.3, t.4, t.5, t.6, t.7, t.8, t.9).patterns());
}

/// A tuple of 11 routes matches its first member on the path, then the rest
/// of its members, in order, on what the first left.
pub proof fn lemma_match_tuple_11<A: RouteMatch, B: RouteMatch, C: RouteMatch, D: RouteMatch, E: RouteMatch, F: RouteMatch, G: RouteMatch, H: RouteMatch, I: RouteMatch, J: RouteMatch, K: RouteMatch>(t: (A, B, C, D, E, F, G, H, I, J, K), path: Seq<char>)
    ensures
        t.spec_test(path) == match t.0.spec_test(path) {
            None => None,
            Some(m) => then_rest(m, (t.1, t.2, t.3, t.4, t.5, t.6, t.7, t.8, t.9, t.10).spec_test(m.remaining)),
        },
{
    let parts = t.patterns();
    assert(parts.drop_first() =~= (t.1, t.2, t.3, t.4, t.5, t.6, t.7, t.8, t.9, t.10).patterns());
}

/// A tuple of 12 routes matches its first member on the path, then the rest
/// of its members, in order, on what the first left.
pub proof fn lemma_match_tuple_12<A: RouteMatch, B: RouteMatch, C: RouteMatch, D: RouteMatch, E: RouteMatch, F: RouteMatch, G: RouteMatch, H: RouteMatch, I: RouteMatch, J: RouteMatch, K: RouteMatch, L: RouteMatch>(t: (A, B, C, D, E, F, G, H, I, J, K, L), path: Seq<char>)
    ensures
        t.spec_test(path) == match t.0.spec_test(path) {
            None => None,
            Some(m) => then_rest(m, (t.1, t.2, t.3, t.4, t.5, t.6, t.7, t.8, t.9, t.10, t.11).spec_test(m.remaining)),
        },
{
    let parts = t.patterns();
    assert(parts.drop_first() =~= (t.1, t.2, t.3, t.4, t.5, t.6, t.7, t.8, t.9, t.10, t.11).patterns());
}

/// A tuple of 13 routes matches its first member on the path, then the rest
/// of its members, in order, on what the first left.
pub proof fn lemma_match_tuple_13<A: RouteMatch, B: RouteMatch, C: RouteMatch, D: RouteMatch, E: RouteMatch, F: RouteMatch, G: RouteMatch, H: RouteMatch, I: RouteMatch, J: RouteMatch, K: RouteMatch, L: RouteMatch, M: RouteMatch>(t: (A, B, C, D, E, F, G, H, I, J, K, L, M), path: Seq<char>)
    ensures
        t.spec_test(path) == match t.0.spec_test(path) {
            None => None,
            Some(m) => then_rest(m, (t.1, t.2, t.3, t.4, t.5, t.6, t.7, t.8, t.9, t.10, t.11, t.12).spec_test(m.remaining)),
        },
{
    let parts = t.patterns();
    assert(parts.drop_first() =~= (t.1, t.2, t.3, t.4, t.5, t.6, t.7, t.8, t.9, t.10, t.11, t.12).patterns());
}

/// A tuple of 14 routes matches its first member on the path, then the rest
/// of its members, in order, on what the first left.
pub proof fn lemma_match_tuple_14<A: RouteMatch, B: RouteMatch, C: RouteMatch, D: RouteMatch, E: RouteMatch, F: RouteMatch, G: RouteMatch, H: RouteMatch, I: RouteMatch, J: RouteMatch, K: RouteMatch, L: RouteMatch, M: RouteMatch, N: RouteMatch>(t: (A, B, C, D, E, F, G, H, I, J, K, L, M, N), path: Seq<char>)
    ensures
        t.spec_test(path) == match t.0.spec_test(path) {
            None => None,
            Some(m) => then_rest(m, (t.1, t.2, t.3, t.4, t.5, t.6, t.7, t.8, t.9, t.10, t.11, t.12, t.13).spec_test(m.remaining)),
        },
{
    let parts = t.patterns();
    assert(parts.drop_first() =~= (t.1, t.2, t.3, t.4, t.5, t.6, t.7, t.8, t.9, t.10, t.11, t.12, t.13).patterns());
}

/// A tuple of 15 routes matches its first member on the path, then the rest
/// of its members, in order, on what the first left.
pub proof fn lemma_match_tuple_15<A: RouteMatch, B: RouteMatch, C: RouteMatch, D: RouteMatch, E: RouteMatch, F: RouteMatch, G: RouteMatch, H: RouteMatch, I: RouteMatch, J: RouteMatch, K: RouteMatch, L: RouteMatch, M: RouteMatch, N: RouteMatch, O: RouteMatch>(t: (A, B, C, D, E, F, G, H, I, J, K, L, M, N, O), path: Seq<char>)
    ensures
        t.spec_test(path) == match t.0.spec_test(path) {
            None => None,
            Some(m) => then_rest(m, (t.1, t.2, t.3, t.4, t.5, t.6, t.7, t.8, t.9, t.10, t.11, t.12, t.13, t.14).spec_test(m.remaining)),
        },
{
    let parts = t.patterns();
    assert(parts.drop_first() =~= (t.1, t.2, t.3, t.4, t.5, t.6, t.7, t.8, t.9, t.10, t.11, t.12, t.13, t.14).patterns());
}

/// A tuple of 16 routes matches its first member on the path, then the rest
/// of its members, in order, on what the first left.
pub proof fn lemma_match_tuple_16<A: RouteMatch, B: RouteMatch, C: RouteMatch, D: RouteMatch, E: RouteMatch, F: RouteMatch, G: RouteMatch, H: RouteMatch, I: RouteMatch, J: RouteMatch, K: RouteMatch, L: RouteMatch, M: RouteMatch, N: RouteMatch, O: RouteMatch, P: RouteMatch>(t: (A, B, C, D, E, F, G, H, I, J, K, L, M, N, O, P), path: Seq<char>)
    ensures
        t.spec_test(path) == match t.0.spec_test(path) {
            None => None,
            Some(m) => then_rest(m, (t.1, t.2, t.3, t.4, t.5, t.6, t.7, t.8, t.9, t.10, t.11, t.12, t.13, t.14, t.15).spec_test(m.remaining)),
        },
{
    let parts = t.patterns();
    assert(parts.drop_first() =~= (t.1, t.2, t.3, t.4, t.5, t.6, t.7, t.8, t.9, t.10, t.11, t.12, t.13, t.14, t.15).patterns());
}

/// A tuple of 17 routes matches its first member on the path, then the rest
/// of its members, in order, on what the first left.
pub proof fn lemma_match_tuple_17<A: RouteMatch, B: RouteMatch, C: RouteMatch, D: RouteMatch, E: RouteMatch, F: RouteMatch, G: RouteMatch, H: RouteMatch, I: RouteMatch, J: RouteMatch, K: RouteMatch, L: RouteMatch, M: RouteMatch, N: RouteMatch, O: RouteMatch, P: RouteMatch, Q: RouteMatch>(t: (A, B, C, D, E, F, G, H, I, J, K, L, M, N, O, P, Q), path: Seq<char>)
    ensures
        t.spec_test(path) == match t.0.spec_test(path) {
            None => None,
            Some(m) => then_rest(m, (t.1, t.2, t.3, t.4, t.5, t.6, t.7, t.8, t.9, t.10, t.11, t.12, t.13, t.14, t.15, t.16).spec_test(m.remaining)),
        },
{
    let parts = t.patterns();
    assert(parts.drop_first() =~= (t.1, t.2, t.3, t.4, t.5, t.6, t.7, t.8, t.9, t.10, t.11, t.12, t.13, t.14, t.15, t.16).patterns());
}

/// A tuple of 18 routes matches its first member on the path, then the rest
/// of its members, in order, on what the first left.
pub proof fn lemma_match_tuple_18<A: RouteMatch, B: RouteMatch, C: RouteMatch, D: RouteMatch, E: RouteMatch, F: RouteMatch, G: RouteMatch, H: RouteMatch, I: RouteMatch, J: RouteMatch, K: RouteMatch, L: RouteMatch, M: RouteMatch, N: RouteMatch, O: RouteMatch, P: RouteMatch, Q: RouteMatch, R: RouteMatch>(t: (A, B, C, D, E, F, G, H, I, J, K, L, M, N, O, P, Q, R), path: Seq<char>)
    ensures
        t.spec_test(path) == match t.0.spec_test(path) {
            None => None,
            Some(m) => then_rest(m, (t.1, t.2, t.3, t.4, t.5, t.6, t.7, t.8, t.9, t.10, t.11, t.12, t.13, t.14, t.15, t.16, t.17).spec_test(m.remaining)),
        },
{
    let parts = t.patterns();
    assert(parts.drop_first() =~= (t.1, t.2, t.3, t.4, t.5, t.6, t.7, t.8, t.9, t.10, t.11, t.12, t.13, t.14, t.15, t.16, t.17).patterns());
}

/// A tuple of 19 routes matches its first member on the path, then the rest
/// of its members, in order, on what the first left.
pub proof fn lemma_match_tuple_19<A: RouteMatch, B: RouteMatch, C: RouteMatch, D: RouteMatch, E: RouteMatch, F: RouteMatch, G: RouteMatch, H: RouteMatch, I: RouteMatch, J: RouteMatch, K: RouteMatch, L: RouteMatch, M: RouteMatch, N: RouteMatch, O: RouteMatch, P: RouteMatch, Q: RouteMatch, R: RouteMatch, S: RouteMatch>(t: (A, B, C, D, E, F, G, H, I, J, K, L, M, N, O, P, Q, R, S), path: Seq<char>)
    ensures
        t.spec_test(path) == match t.0.spec_test(path) {
            None => None,
            Some(m) => then_rest(m, (t.1, t.2, t.3, t.4, t.5, t.6, t.7, t.8, t.9, t.10, t.11, t.12, t.13, t.14, t.15, t.16, t.17, t.18).spec_test(m.remaining)),
        },
{
    let parts = t.patterns();
    assert(parts.drop_first() =~= (t.1, t.2, t.3, t.4, t.5, t.6, t.7, t.8, t.9, t.10, t.11, t.12, t.13, t.14, t.15, t.16, t.17, t.18).patterns());
}

/// A tuple of 20 routes matches its first member on the path, then the rest
/// of its members, in order, on what the first left.
pub proof fn lemma_match_tuple_20<A: RouteMatch, B: RouteMatch, C: RouteMatch, D: RouteMatch, E: RouteMatch, F: RouteMatch, G: RouteMatch, H: RouteMatch, I: RouteMatch, J: RouteMatch, K: RouteMatch, L: RouteMatch, M: RouteMatch, N: RouteMatch, O: RouteMatch, P: RouteMatch, Q: RouteMatch, R: RouteMatch, S: RouteMatch, T: RouteMatch>(t: (A, B, C, D, E, F, G, H, I, J, K, L, M, N, O, P, Q, R, S, T), path: Seq<char>)
    ensures
        t.spec_test(path) == match t.0.spec_test(path) {
            None => None,
            Some(m) => then_rest(m, (t.1, t.2, t.3, t.4, t.5, t.6, t.7, t.8, t.9, t.10, t.11, t.12, t.13, t.14, t.15, t.16, t.17, t.18, t.19).spec_test(m.remaining)),
        },
{
    let parts = t.patterns();
    assert(parts.drop_first() =~= (t.1, t.2, t.3, t.4, t.5, t.6, t.7, t.8, t.9, t.10, t.11, t.12, t.13, t.14, t.15, t.16, t.17, t.18, t.19).patterns());
}

/// A tuple of 21 routes matches its first member on the path, then the rest
/// of its members, in order, on what the first left.
pub proof fn lemma_match_tuple_21<A: RouteMatch, B: RouteMatch, C: RouteMatch, D: RouteMatch, E: RouteMatch, F: RouteMatch, G: RouteMatch, H: RouteMatch, I: RouteMatch, J: RouteMatch, K: RouteMatch, L: RouteMatch, M: RouteMatch, N: RouteMatch, O: RouteMatch, P: RouteMatch, Q: RouteMatch, R: RouteMatch, S: RouteMatch, T: RouteMatch, U: RouteMatch>(t: (A, B, C, D, E, F, G, H, I, J, K, L, M, N, O, P, Q, R, S, T, U), path: Seq<char>)
    ensures
        t.spec_test(path) == match t.0.spec_test(path) {
            None => None,
            Some(m) => then_rest(m, (t.1, t.2, t.3, t.4, t.5, t.6, t.7, t.8, t.9, t.10, t.11, t.12, t.13, t.14, t.15, t.16, t.17, t.18, t.19, t.20).spec_test(m.remaining)),
        },
{
    let parts = t.patterns();
    assert(parts.drop_first() =~= (t.1, t.2, t.3, t.4, t.5, t.6, t.7, t.8, t.9, t.10, t.11, t.12, t.13, t.14, t.15, t.16, t.17, t.18, t.19, t.20).patterns());
}

/// A tuple of 22 routes matches its first member on the path, then the rest
/// of its members, in order, on what the first left.
pub proof fn lemma_match_tuple_22<A: RouteMatch, B: RouteMatch, C: RouteMatch, D: RouteMatch, E: RouteMatch, F: RouteMatch, G: RouteMatch, H: RouteMatch, I: RouteMatch, J: RouteMatch, K: RouteMatch, L: RouteMatch, M: RouteMatch, N: RouteMatch, O: RouteMatch, P: RouteMatch, Q: RouteMatch, R: RouteMatch, S: RouteMatch, T: RouteMatch, U: RouteMatch, V: RouteMatch>(t: (A, B, C, D, E, F, G, H, I, J, K, L, M, N, O, P, Q, R, S, T, U, V), path: Seq<char>)
    ensures
        t.spec_test(path) == match t.0.spec_test(path) {
            None => None,
            Some(m) => then_rest(m, (t.1, t.2, t.3, t.4, t.5, t.6, t.7, t.8, t.9, t.10, t.11, t.12, t.13, t.14, t.15, t.16, t.17, t.18, t.19, t.20, t.21).spec_test(m.remaining)),
        },
{
    let parts = t.patterns();
    assert(parts.drop_first() =~= (t.1, t.2, t.3, t.4, t.5, t.6, t.7, t.8, t.9, t.10, t.11, t.12, t.13, t.14, t.15, t.16, t.17, t.18, t.19, t.20, t.21).patterns());
}

/// A tuple of 23 routes matches its first member on the path, then the rest
/// of its members, in order, on what the first left.
pub proof fn lemma_match_tuple_23<A: RouteMatch, B: RouteMatch, C: RouteMatch, D: RouteMatch, E: RouteMatch, F: RouteMatch, G: RouteMatch, H: RouteMatch, I: RouteMatch, J: RouteMatch, K: RouteMatch, L: RouteMatch, M: RouteMatch, N: RouteMatch, O: RouteMatch, P: RouteMatch, Q: RouteMatch, R: RouteMatch, S: RouteMatch, T: RouteMatch, U: RouteMatch, V: RouteMatch, W: RouteMatch>(t: (A, B, C, D, E, F, G, H, I, J, K, L, M, N, O, P, Q, R, S, T, U, V, W), path: Seq<char>)
    ensures
        t.spec_test(path) == match t.0.spec_test(path) {
            None => None,
            Some(m) => then_rest(m, (t.1, t.2, t.3, t.4, t.5, t.6, t.7, t.8, t.9, t.10, t.11, t.12, t.13, t.14, t.15, t.16, t.17, t.18, t.19, t.20, t.21, t.22).spec_test(m.remaining)),
        },
{
    let parts = t.patterns();
    assert(parts.drop_first() =~= (t.1, t.2, t.3, t.4, t.5, t.6, t.7, t.8, t.9, t.10, t.11, t.12, t.13, t.14, t.15, t.16, t.17, t.18, t.19, t.20, t.21, t.22).patterns());
}

/// A tuple of 24 routes matches its first member on the path, then the rest
/// of its members, in order, on what the first left.
pub proof fn lemma_match_tuple_24<A: RouteMatch, B: RouteMatch, C: RouteMatch, D: RouteMatch, E: RouteMatch, F: RouteMatch, G: RouteMatch, H: RouteMatch, I: RouteMatch, J: RouteMatch, K: RouteMatch, L: RouteMatch, M: RouteMatch, N: RouteMatch, O: RouteMatch, P: RouteMatch, Q: RouteMatch, R: RouteMatch, S: RouteMatch, T: RouteMatch, U: RouteMatch, V: RouteMatch, W: RouteMatch, X: RouteMatch>(t: (A, B, C, D, E, F, G, H, I, J, K, L, M, N, O, P, Q, R, S, T, U, V, W, X), path: Seq<char>)
    ensures
        t.spec_test(path) == match t.0.spec_test(path) {
            None => None,
            Some(m) => then_rest(m, (t.1, t.2, t.3, t.4, t.5, t.6, t.7, t.8, t.9, t.10, t.11, t.12, t.13, t.14, t.15, t.16, t.17, t.18, t.19, t.20, t.21, t.22, t.23).spec_test(m.remaining)),
        },
{
    let parts = t.patterns();
    assert(parts.drop_first() =~= (t.1, t.2, t.3, t.4, t.5, t.6, t.7, t.8, t.9, t.10, t.11, t.12, t.13, t.14, t.15, t.16, t.17, t.18, t.19, t.20, t.21, t.22, t.23).patterns());
}

/// A tuple of 25 routes matches its first member on the path, then the rest
/// of its members, in order, on what the first left.
pub proof fn lemma_match_tuple_25<A: RouteMatch, B: RouteMatch, C: RouteMatch, D: RouteMatch, E: RouteMatch, F: RouteMatch, G: RouteMatch, H: RouteMatch, I: RouteMatch, J: RouteMatch, K: RouteMatch, L: RouteMatch, M: RouteMatch, N: RouteMatch, O: RouteMatch, P: RouteMatch, Q: RouteMatch, R: RouteMatch, S: RouteMatch, T: RouteMatch, U: RouteMatch, V: RouteMatch, W: RouteMatch, X: RouteMatch, Y: RouteMatch>(t: (A, B, C, D, E, F, G, H, I, J, K, L, M, N, O, P, Q, R, S, T, U, V, W, X, Y), path: Seq<char>)
    ensures
        t.spec_test(path) == match t.0.spec_test(path) {
            None => None,
            Some(m) => then_rest(m, (t.1, t.2, t.3, t.4, t.5, t.6, t.7, t.8, t.9, t.10, t.11, t.12, t.13, t.14, t.15, t.16, t.17, t.18, t.19, t.20, t.21, t.22, t.23, t.24).spec_test(m.remaining)),
        },
{
    let parts = t.patterns();
    assert(parts.drop_first() =~= (t.1, t.2, t.3, t.4, t.5, t.6, t.7, t.8, t.9, t.10, t.11, t.12, t.13, t.14, t.15, t.16, t.17, t.18, t.19, t.20, t.21, t.22, t.23, t.24).patterns());
}

/// A tuple of 26 routes matches its first member on the path, then the rest
/// of its members, in order, on what the first left.
pub proof fn lemma_match_tuple_26<A: RouteMatch, B: RouteMatch, C: RouteMatch, D: RouteMatch, E: RouteMatch, F: RouteMatch, G: RouteMatch, H: RouteMatch, I: RouteMatch, J: RouteMatch, K: RouteMatch, L: RouteMatch, M: RouteMatch, N: RouteMatch, O: RouteMatch, P: RouteMatch, Q: RouteMatch, R: RouteMatch, S: RouteMatch, T: RouteMatch, U: RouteMatch, V: RouteMatch, W: RouteMatch, X: RouteMatch, Y: RouteMatch, Z: RouteMatch>(t: (A, B, C, D, E, F, G, H, I, J, K, L, M, N, O, P, Q, R, S, T, U, V, W, X, Y, Z), path: Seq<char>)
    ensures
        t.spec_test(path) == match t.0.spec_test(path) {
            None => None,
            Some(m) => then_rest(m, (t.1, t.2, t.3, t.4, t.5, t.6, t.7, t.8, t.9, t.10, t.11, t.12, t.13, t.14, t.15, t.16, t.17, t.18, t.19, t.20, t.21, t.22, t.23, t.24, t.25).spec_test(m.remaining)),
        },
{
    let parts = t.patterns();
    assert(parts.drop_first() =~= (t.1, t.2, t.3, t.4, t.5, t.6, t.7, t.8, t.9, t.10, t.11, t.12, t.13, t.14, t.15, t.16, t.17, t.18, t.19, t.20, t.21, t.22, t.23, t.24, t.25).patterns());
}

} // verus!
