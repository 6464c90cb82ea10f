//! Views that are one of several alternatives.
use crate::view::{marker, push_marker, Position, PositionState, RenderHtml};
use vstd::prelude::*;

verus! {

/// One of two views.
#[derive(Debug, Clone, PartialEq, Eq)]
pub enum Either<A, B> {
    Left(A),
    Right(B),
}

/// What a mounted `Either` keeps: the state of the view shown and the marker
/// node that holds its place.
pub struct EitherState<A, B, M> {
    pub state: Either<A, B>,
    pub marker: M,
}

/// The HTML of an alternative: the HTML of the view shown, then a `<!>`
/// marker.
pub open spec fn alt_html(inner: (Seq<char>, Position)) -> (Seq<char>, Position) {
    (inner.0 + marker(), inner.1)
}

impl<A: RenderHtml, B: RenderHtml> RenderHtml for Either<A, B> {
    open spec fn spec_html(&self, position: Position) -> (Seq<char>, Position) {
        match self {
            Either::Left(a) => alt_html(a.spec_html(position)),
            Either::Right(b) => alt_html(b.spec_html(position)),
        }
    }

    open spec fn html_ok(&self) -> bool {
        match self {
            Either::Left(a) => a.html_ok(),
            Either::Right(b) => b.html_ok(),
        }
    }

    fn to_html_with_buf(self, buf: &mut String, position: &mut PositionState) {
        match self {
            Either::Left(a) => a.to_html_with_buf(buf, position),
            Either::Right(b) => b.to_html_with_buf(buf, position),
        }
        push_marker(buf);
    }
}

/// One of three views.
#[derive(Debug, Clone, PartialEq, Eq)]
pub enum EitherOf3<A, B, C> {
    A(A),
    B(B),
    C(C),
}

impl<A: RenderHtml, B: RenderHtml, C: RenderHtml> RenderHtml for EitherOf3<A, B, C> {
    open spec fn spec_html(&self, position: Position) -> (Seq<char>, Position) {
        match self {
            EitherOf3::A(a) => alt_html(a.spec_html(position)),
            EitherOf3::B(b) => alt_html(b.spec_html(position)),
            EitherOf3::C(c) => alt_html(c.spec_html(position)),
        }
    }

    open spec fn html_ok(&self) -> bool {
        match self {
            EitherOf3::A(a) => a.html_ok(),
            EitherOf3::B(b) => b.html_ok(),
            EitherOf3::C(c) => c.html_ok(),
        }
    }

    fn to_html_with_buf(self, buf: &mut String, position: &mut PositionState) {
        match self {
            EitherOf3::A(a) => a.to_html_with_buf(buf, position),
            EitherOf3::B(b) => b.to_html_with_buf(buf, position),
            EitherOf3::C(c) => c.to_html_with_buf(buf, position),
        }
        push_marker(buf);
    }
}

/// One of four views.
#[derive(Debug, Clone, PartialEq, Eq)]
pub enum EitherOf4<A, B, C, D> {
    A(A),
    B(B),
    C(C),
    D(D),
}

impl<A: RenderHtml, B: RenderHtml, C: RenderHtml, D: RenderHtml> RenderHtml for EitherOf4<
    A,
    B,
    C,
    D,
> {
    open spec fn spec_html(&self, position: Position) -> (Seq<char>, Position) {
        match self {
            EitherOf4::A(a) => alt_html(a.spec_html(position)),
            EitherOf4::B(b) => alt_html(b.spec_html(position)),
            EitherOf4::C(c) => alt_html(c.spec_html(position)),
            EitherOf4::D(d) => alt_html(d.spec_html(position)),
        }
    }

    open spec fn html_ok(&self) -> bool {
        match self {
            EitherOf4::A(a) => a.html_ok(),
            EitherOf4::B(b) => b.html_ok(),
            EitherOf4::C(c) => c.html_ok(),
            EitherOf4::D(d) => d.html_ok(),
        }
    }

    fn to_html_with_buf(self, buf: &mut String, position: &mut PositionState) {
        match self {
            EitherOf4::A(a) => a.to_html_with_buf(buf, position),
            EitherOf4::B(b) => b.to_html_with_buf(buf, position),
            EitherOf4::C(c) => c.to_html_with_buf(buf, position),
            EitherOf4::D(d) => d.to_html_with_buf(buf, position),
        }
        push_marker(buf);
    }
}

/// One of 5 views.
#[derive(Debug, Clone, PartialEq, Eq)]
pub enum EitherOf5<A, B, C, D, E> {
    A(A),
    B(B),
    C(C),
    D(D),
    E(E),
}

impl<A: RenderHtml, B: RenderHtml, C: RenderHtml, D: RenderHtml, E: RenderHtml> RenderHtml for EitherOf5<A, B, C, D, E> {
    open spec fn spec_html(&self, position: Position) -> (Seq<char>, Position) {
        match self {
            EitherOf5::A(a) => alt_html(a.spec_html(position)),
            EitherOf5::B(b) => alt_html(b.spec_html(position)),
            EitherOf5::C(c) => alt_html(c.spec_html(position)),
            EitherOf5::D(d) => alt_html(d.spec_html(position)),
            EitherOf5::E(e) => alt_html(e.spec_html(position)),
        }
    }

    open spec fn html_ok(&self) -> bool {
        match self {
            EitherOf5::A(a) => a.html_ok(),
            EitherOf5::B(b) => b.html_ok(),
            EitherOf5::C(c) => c.html_ok(),
            EitherOf5::D(d) => d.html_ok(),
            EitherOf5::E(e) => e.html_ok(),
        }
    }

    fn to_html_with_buf(self, buf: &mut String, position: &mut PositionState) {
        match self {
            EitherOf5::A(a) => a.to_html_with_buf(buf, position),
            EitherOf5::B(b) => b.to_html_with_buf(buf, position),
            EitherOf5::C(c) => c.to_html_with_buf(buf, position),
            EitherOf5::D(d) => d.to_html_with_buf(buf, position),
            EitherOf5::E(e) => e.to_html_with_buf(buf, position),
        }
        push_marker(buf);
    }
}

/// One of 6 views.
#[derive(Debug, Clone, PartialEq, Eq)]
pub enum EitherOf6<A, B, C, D, E, F> {
    A(A),
    B(B),
    C(C),
    D(D),
    E(E),
    F(F),
}

impl<A: RenderHtml, B: RenderHtml, C: RenderHtml, D: RenderHtml, E: RenderHtml, F: RenderHtml> RenderHtml for EitherOf6<A, B, C, D, E, F> {
    open spec fn spec_html(&self, position: Position) -> (Seq<char>, Position) {
        match self {
            EitherOf6::A(a) => alt_html(a.spec_html(position)),
            EitherOf6::B(b) => alt_html(b.spec_html(position)),
            EitherOf6::C(c) => alt_html(c.spec_html(position)),
            EitherOf6::D(d) => alt_html(d.spec_html(position)),
            EitherOf6::E(e) => alt_html(e.spec_html(position)),
            EitherOf6::F(f) => alt_html(f.spec_html(position)),
        }
    }

    open spec fn html_ok(&self) -> bool {
        match self {
            EitherOf6::A(a) => a.html_ok(),
            EitherOf6::B(b) => b.html_ok(),
            EitherOf6::C(c) => c.html_ok(),
            EitherOf6::D(d) => d.html_ok(),
            EitherOf6::E(e) => e.html_ok(),
            EitherOf6::F(f) => f.html_ok(),
        }
    }

    fn to_html_with_buf(self, buf: &mut String, position: &mut PositionState) {
        match self {
            EitherOf6::A(a) => a.to_html_with_buf(buf, position),
            EitherOf6::B(b) => b.to_html_with_buf(buf, position),
            EitherOf6::C(c) => c.to_html_with_buf(buf, position),
            EitherOf6::D(d) => d.to_html_with_buf(buf, position),
            EitherOf6::E(e) => e.to_html_with_buf(buf, position),
            EitherOf6::F(f) => f.to_html_with_buf(buf, position),
        }
        push_marker(buf);
    }
}

/// One of 7 views.
#[derive(Debug, Clone, PartialEq, Eq)]
pub enum EitherOf7<A, B, C, D, E, F, G> {
    A(A),
    B(B),
    C(C),
    D(D),
    E(E),
    F(F),
    G(G),
}

impl<A: RenderHtml, B: RenderHtml, C: RenderHtml, D: RenderHtml, E: RenderHtml, F: RenderHtml, G: RenderHtml> RenderHtml for EitherOf7<A, B, C, D, E, F, G> {
    open spec fn spec_html(&self, position: Position) -> (Seq<char>, Position) {
        match self {
            EitherOf7::A(a) => alt_html(a.spec_html(position)),
            EitherOf7::B(b) => alt_html(b.spec_html(position)),
            EitherOf7::C(c) => alt_html(c.spec_html(position)),
            EitherOf7::D(d) => alt_html(d.spec_html(position)),
            EitherOf7::E(e) => alt_html(e.spec_html(position)),
            EitherOf7::F(f) => alt_html(f.spec_html(position)),
            EitherOf7::G(g) => alt_html(g.spec_html(position)),
        }
    }

    open spec fn html_ok(&self) -> bool {
        match self {
            EitherOf7::A(a) => a.html_ok(),
            EitherOf7::B(b) => b.html_ok(),
            EitherOf7::C(c) => c.html_ok(),
            EitherOf7::D(d) => d.html_ok(),
            EitherOf7::E(e) => e.html_ok(),
            EitherOf7::F(f) => f.html_ok(),
            EitherOf7::G(g) => g.html_ok(),
        }
    }

    fn to_html_with_buf(self, buf: &mut String, position: &mut PositionState) {
        match self {
            EitherOf7::A(a) => a.to_html_with_buf(buf, position),
            EitherOf7::B(b) => b.to_html_with_buf(buf, position),
            EitherOf7::C(c) => c.to_html_with_buf(buf, position),
            EitherOf7::D(d) => d.to_html_with_buf(buf, position),
            EitherOf7::E(e) => e.to_html_with_buf(buf, position),
            EitherOf7::F(f) => f.to_html_with_buf(buf, position),
            EitherOf7::G(g) => g.to_html_with_buf(buf, position),
        }
        push_marker(buf);
    }
}

/// One of 8 views.
#[derive(Debug, Clone, PartialEq, Eq)]
pub enum EitherOf8<A, B, C, D, E, F, G, H> {
    A(A),
    B(B),
    C(C),
    D(D),
    E(E),
    F(F),
    G(G),
    H(H),
}

impl<A: RenderHtml, B: RenderHtml, C: RenderHtml, D: RenderHtml, E: RenderHtml, F: RenderHtml, G: RenderHtml, H: RenderHtml> RenderHtml for EitherOf8<A, B, C, D, E, F, G, H> {
    open spec fn spec_html(&self, position: Position) -> (Seq<char>, Position) {
        match self {
            EitherOf8::A(a) => alt_html(a.spec_html(position)),
            EitherOf8::B(b) => alt_html(b.spec_html(position)),
            EitherOf8::C(c) => alt_html(c.spec_html(position)),
            EitherOf8::D(d) => alt_html(d.spec_html(position)),
            EitherOf8::E(e) => alt_html(e.spec_html(position)),
            EitherOf8::F(f) => alt_html(f.spec_html(position)),
            EitherOf8::G(g) => alt_html(g.spec_html(position)),
            EitherOf8::H(h) => alt_html(h.spec_html(position)),
        }
    }

    open spec fn html_ok(&self) -> bool {
        match self {
            EitherOf8::A(a) => a.html_ok(),
            EitherOf8::B(b) => b.html_ok(),
            EitherOf8::C(c) => c.html_ok(),
            EitherOf8::D(d) => d.html_ok(),
            EitherOf8::E(e) => e.html_ok(),
            EitherOf8::F(f) => f.html_ok(),
            EitherOf8::G(g) => g.html_ok(),
            EitherOf8::H(h) => h.html_ok(),
        }
    }

    fn to_html_with_buf(self, buf: &mut String, position: &mut PositionState) {
        match self {
            EitherOf8::A(a) => a.to_html_with_buf(buf, position),
            EitherOf8::B(b) => b.to_html_with_buf(buf, position),
            EitherOf8::C(c) => c.to_html_with_buf(buf, position),
            EitherOf8::D(d) => d.to_html_with_buf(buf, position),
            EitherOf8::E(e) => e.to_html_with_buf(buf, position),
            EitherOf8::F(f) => f.to_html_with_buf(buf, position),
            EitherOf8::G(g) => g.to_html_with_buf(buf, position),
            EitherOf8::H(h) => h.to_html_with_buf(buf, position),
        }
        push_marker(buf);
    }
}

/// One of 9 views.
#[derive(Debug, Clone, PartialEq, Eq)]
pub enum EitherOf9<A, B, C, D, E, F, G, H, I> {
    A(A),
    B(B),
    C(C),
    D(D),
    E(E),
    F(F),
    G(G),
    H(H),
    I(I),
}

impl<A: RenderHtml, B: RenderHtml, C: RenderHtml, D: RenderHtml, E: RenderHtml, F: RenderHtml, G: RenderHtml, H: RenderHtml, I: RenderHtml> RenderHtml for EitherOf9<A, B, C, D, E, F, G, H, I> {
    open spec fn spec_html(&self, position: Position) -> (Seq<char>, Position) {
        match self {
            EitherOf9::A(a) => alt_html(a.spec_html(position)),
            EitherOf9::B(b) => alt_html(b.spec_html(position)),
            EitherOf9::C(c) => alt_html(c.spec_html(position)),
            EitherOf9::D(d) => alt_html(d.spec_html(position)),
            EitherOf9::E(e) => alt_html(e.spec_html(position)),
            EitherOf9::F(f) => alt_html(f.spec_html(position)),
            EitherOf9::G(g) => alt_html(g.spec_html(position)),
            EitherOf9::H(h) => alt_html(h.spec_html(position)),
            EitherOf9::I(i) => alt_html(i.spec_html(position)),
        }
    }

    open spec fn html_ok(&self) -> bool {
        match self {
            EitherOf9::A(a) => a.html_ok(),
            EitherOf9::B(b) => b.html_ok(),
            EitherOf9::C(c) => c.html_ok(),
            EitherOf9::D(d) => d.html_ok(),
            EitherOf9::E(e) => e.html_ok(),
            EitherOf9::F(f) => f.html_ok(),
            EitherOf9::G(g) => g.html_ok(),
            EitherOf9::H(h) => h.html_ok(),
            EitherOf9::I(i) => i.html_ok(),
        }
    }

    fn to_html_with_buf(self, buf: &mut String, position: &mut PositionState) {
        match self {
            EitherOf9::A(a) => a.to_html_with_buf(buf, position),
            EitherOf9::B(b) => b.to_html_with_buf(buf, position),
            EitherOf9::C(c) => c.to_html_with_buf(buf, position),
            EitherOf9::D(d) => d.to_html_with_buf(buf, position),
            EitherOf9::E(e) => e.to_html_with_buf(buf, position),
            EitherOf9::F(f) => f.to_html_with_buf(buf, position),
            EitherOf9::G(g) => g.to_html_with_buf(buf, position),
            EitherOf9::H(h) => h.to_html_with_buf(buf, position),
            EitherOf9::I(i) => i.to_html_with_buf(buf, position),
        }
        push_marker(buf);
    }
}

/// One of 10 views.
#[derive(Debug, Clone, PartialEq, Eq)]
pub enum EitherOf10<A, B, C, D, E, F, G, H, I, J> {
    A(A),
    B(B),
    C(C),
    D(D),
    E(E),
    F(F),
    G(G),
    H(H),
    I(I),
    J(J),
}

impl<A: RenderHtml, B: RenderHtml, C: RenderHtml, D: RenderHtml, E: RenderHtml, F: RenderHtml, G: RenderHtml, H: RenderHtml, I: RenderHtml, J: RenderHtml> RenderHtml for EitherOf10<A, B, C, D, E, F, G, H, I, J> {
    open spec fn spec_html(&self, position: Position) -> (Seq<char>, Position) {
        match self {
            EitherOf10::A(a) => alt_html(a.spec_html(position)),
            EitherOf10::B(b) => alt_html(b.spec_html(position)),
            EitherOf10::C(c) => alt_html(c.spec_html(position)),
            EitherOf10::D(d) => alt_html(d.spec_html(position)),
            EitherOf10::E(e) => alt_html(e.spec_html(position)),
            EitherOf10::F(f) => alt_html(f.spec_html(position)),
            EitherOf10::G(g) => alt_html(g.spec_html(position)),
            EitherOf10::H(h) => alt_html(h.spec_html(position)),
            EitherOf10::I(i) => alt_html(i.spec_html(position)),
            EitherOf10::J(j) => alt_html(j.spec_html(position)),
        }
    }

    open spec fn html_ok(&self) -> bool {
        match self {
            EitherOf10::A(a) => a.html_ok(),
            EitherOf10::B(b) => b.html_ok(),
            EitherOf10::C(c) => c.html_ok(),
            EitherOf10::D(d) => d.html_ok(),
            EitherOf10::E(e) => e.html_ok(),
            EitherOf10::F(f) => f.html_ok(),
            EitherOf10::G(g) => g.html_ok(),
            EitherOf10::H(h) => h.html_ok(),
            EitherOf10::I(i) => i.html_ok(),
            EitherOf10::J(j) => j.html_ok(),
        }
    }

    fn to_html_with_buf(self, buf: &mut String, position: &mut PositionState) {
        match self {
            EitherOf10::A(a) => a.to_html_with_buf(buf, position),
            EitherOf10::B(b) => b.to_html_with_buf(buf, position),
            EitherOf10::C(c) => c.to_html_with_buf(buf, position),
            EitherOf10::D(d) => d.to_html_with_buf(buf, position),
            EitherOf10::E(e) => e.to_html_with_buf(buf, position),
            EitherOf10::F(f) => f.to_html_with_buf(buf, position),
            EitherOf10::G(g) => g.to_html_with_buf(buf, position),
            EitherOf10::H(h) => h.to_html_with_buf(buf, position),
            EitherOf10::I(i) => i.to_html_with_buf(buf, position),
            EitherOf10::J(j) => j.to_html_with_buf(buf, position),
        }
        push_marker(buf);
    }
}

/// One of 11 views.
#[derive(Debug, Clone, PartialEq, Eq)]
pub enum EitherOf11<A, B, C, D, E, F, G, H, I, J, K> {
    A(A),
    B(B),
    C(C),
    D(D),
    E(E),
    F(F),
    G(G),
    H(H),
    I(I),
    J(J),
    K(K),
}

impl<A: RenderHtml, B: RenderHtml, C: RenderHtml, D: RenderHtml, E: RenderHtml, F: RenderHtml, G: RenderHtml, H: RenderHtml, I: RenderHtml, J: RenderHtml, K: RenderHtml> RenderHtml for EitherOf11<A, B, C, D, E, F, G, H, I, J, K> {
    open spec fn spec_html(&self, position: Position) -> (Seq<char>, Position) {
        match self {
            EitherOf11::A(a) => alt_html(a.spec_html(position)),
            EitherOf11::B(b) => alt_html(b.spec_html(position)),
            EitherOf11::C(c) => alt_html(c.spec_html(position)),
            EitherOf11::D(d) => alt_html(d.spec_html(position)),
            EitherOf11::E(e) => alt_html(e.spec_html(position)),
            EitherOf11::F(f) => alt_html(f.spec_html(position)),
            EitherOf11::G(g) => alt_html(g.spec_html(position)),
            EitherOf11::H(h) => alt_html(h.spec_html(position)),
            EitherOf11::I(i) => alt_html(i.spec_html(position)),
            EitherOf11::J(j) => alt_html(j.spec_html(position)),
            EitherOf11::K(k) => alt_html(k.spec_html(position)),
        }
    }

    open spec fn html_ok(&self) -> bool {
        match self {
            EitherOf11::A(a) => a.html_ok(),
            EitherOf11::B(b) => b.html_ok(),
            EitherOf11::C(c) => c.html_ok(),
            EitherOf11::D(d) => d.html_ok(),
            EitherOf11::E(e) => e.html_ok(),
            EitherOf11::F(f) => f.html_ok(),
            EitherOf11::G(g) => g.html_ok(),
            EitherOf11::H(h) => h.html_ok(),
            EitherOf11::I(i) => i.html_ok(),
            EitherOf11::J(j) => j.html_ok(),
            EitherOf11::K(k) => k.html_ok(),
        }
    }

    fn to_html_with_buf(self, buf: &mut String, position: &mut PositionState) {
        match self {
            EitherOf11::A(a) => a.to_html_with_buf(buf, position),
            EitherOf11::B(b) => b.to_html_with_buf(buf, position),
            EitherOf11::C(c) => c.to_html_with_buf(buf, position),
            EitherOf11::D(d) => d.to_html_with_buf(buf, position),
            EitherOf11::E(e) => e.to_html_with_buf(buf, position),
            EitherOf11::F(f) => f.to_html_with_buf(buf, position),
            EitherOf11::G(g) => g.to_html_with_buf(buf, position),
            EitherOf11::H(h) => h.to_html_with_buf(buf, position),
            EitherOf11::I(i) => i.to_html_with_buf(buf, position),
            EitherOf11::J(j) => j.to_html_with_buf(buf, position),
            EitherOf11::K(k) => k.to_html_with_buf(buf, position),
        }
        push_marker(buf);
    }
}

/// One of 12 views.
#[derive(Debug, Clone, PartialEq, Eq)]
pub enum EitherOf12<A, B, C, D, E, F, G, H, I, J, K, L> {
    A(A),
    B(B),
    C(C),
    D(D),
    E(E),
    F(F),
    G(G),
    H(H),
    I(I),
    J(J),
    K(K),
    L(L),
}

impl<A: RenderHtml, B: RenderHtml, C: RenderHtml, D: RenderHtml, E: RenderHtml, F: RenderHtml, G: RenderHtml, H: RenderHtml, I: RenderHtml, J: RenderHtml, K: RenderHtml, L: RenderHtml> RenderHtml for EitherOf12<A, B, C, D, E, F, G, H, I, J, K, L> {
    open spec fn spec_html(&self, position: Position) -> (Seq<char>, Position) {
        match self {
            EitherOf12::A(a) => alt_html(a.spec_html(position)),
            EitherOf12::B(b) => alt_html(b.spec_html(position)),
            EitherOf12::C(c) => alt_html(c.spec_html(position)),
            EitherOf12::D(d) => alt_html(d.spec_html(position)),
            EitherOf12::E(e) => alt_html(e.spec_html(position)),
            EitherOf12::F(f) => alt_html(f.spec_html(position)),
            EitherOf12::G(g) => alt_html(g.spec_html(position)),
            EitherOf12::H(h) => alt_html(h.spec_html(position)),
            EitherOf12::I(i) => alt_html(i.spec_html(position)),
            EitherOf12::J(j) => alt_html(j.spec_html(position)),
            EitherOf12::K(k) => alt_html(k.spec_html(position)),
            EitherOf12::L(l) => alt_html(l.spec_html(position)),
        }
    }

    open spec fn html_ok(&self) -> bool {
        match self {
            EitherOf12::A(a) => a.html_ok(),
            EitherOf12::B(b) => b.html_ok(),
            EitherOf12::C(c) => c.html_ok(),
            EitherOf12::D(d) => d.html_ok(),
            EitherOf12::E(e) => e.html_ok(),
            EitherOf12::F(f) => f.html_ok(),
            EitherOf12::G(g) => g.html_ok(),
            EitherOf12::H(h) => h.html_ok(),
            EitherOf12::I(i) => i.html_ok(),
            EitherOf12::J(j) => j.html_ok(),
            EitherOf12::K(k) => k.html_ok(),
            EitherOf12::L(l) => l.html_ok(),
        }
    }

    fn to_html_with_buf(self, buf: &mut String, position: &mut PositionState) {
        match self {
            EitherOf12::A(a) => a.to_html_with_buf(buf, position),
            EitherOf12::B(b) => b.to_html_with_buf(buf, position),
            EitherOf12::C(c) => c.to_html_with_buf(buf, position),
            EitherOf12::D(d) => d.to_html_with_buf(buf, position),
            EitherOf12::E(e) => e.to_html_with_buf(buf, position),
            EitherOf12::F(f) => f.to_html_with_buf(buf, position),
            EitherOf12::G(g) => g.to_html_with_buf(buf, position),
            EitherOf12::H(h) => h.to_html_with_buf(buf, position),
            EitherOf12::I(i) => i.to_html_with_buf(buf, position),
            EitherOf12::J(j) => j.to_html_with_buf(buf, position),
            EitherOf12::K(k) => k.to_html_with_buf(buf, position),
            EitherOf12::L(l) => l.to_html_with_buf(buf, position),
        }
        push_marker(buf);
    }
}

/// One of 13 views.
#[derive(Debug, Clone, PartialEq, Eq)]
pub enum EitherOf13<A, B, C, D, E, F, G, H, I, J, K, L, M> {
    A(A),
    B(B),
    C(C),
    D(D),
    E(E),
    F(F),
    G(G),
    H(H),
    I(I),
    J(J),
    K(K),
    L(L),
    M(M),
}

impl<A: RenderHtml, B: RenderHtml, C: RenderHtml, D: RenderHtml, E: RenderHtml, F: RenderHtml, G: RenderHtml, H: RenderHtml, I: RenderHtml, J: RenderHtml, K: RenderHtml, L: RenderHtml, M: RenderHtml> RenderHtml for EitherOf13<A, B, C, D, E, F, G, H, I, J, K, L, M> {
    open spec fn spec_html(&self, position: Position) -> (Seq<char>, Position) {
        match self {
            EitherOf13::A(a) => alt_html(a.spec_html(position)),
            EitherOf13::B(b) => alt_html(b.spec_html(position)),
            EitherOf13::C(c) => alt_html(c.spec_html(position)),
            EitherOf13::D(d) => alt_html(d.spec_html(position)),
            EitherOf13::E(e) => alt_html(e.spec_html(position)),
            EitherOf13::F(f) => alt_html(f.spec_html(position)),
            EitherOf13::G(g) => alt_html(g.spec_html(position)),
            EitherOf13::H(h) => alt_html(h.spec_html(position)),
            EitherOf13::I(i) => alt_html(i.spec_html(position)),
            EitherOf13::J(j) => alt_html(j.spec_html(position)),
            EitherOf13::K(k) => alt_html(k.spec_html(position)),
            EitherOf13::L(l) => alt_html(l.spec_html(position)),
            EitherOf13::M(m) => alt_html(m.spec_html(position)),
        }
    }

    open spec fn html_ok(&self) -> bool {
        match self {
            EitherOf13::A(a) => a.html_ok(),
            EitherOf13::B(b) => b.html_ok(),
            EitherOf13::C(c) => c.html_ok(),
            EitherOf13::D(d) => d.html_ok(),
            EitherOf13::E(e) => e.html_ok(),
            EitherOf13::F(f) => f.html_ok(),
            EitherOf13::G(g) => g.html_ok(),
            EitherOf13::H(h) => h.html_ok(),
            EitherOf13::I(i) => i.html_ok(),
            EitherOf13::J(j) => j.html_ok(),
            EitherOf13::K(k) => k.html_ok(),
            EitherOf13::L(l) => l.html_ok(),
            EitherOf13::M(m) => m.html_ok(),
        }
    }

    fn to_html_with_buf(self, buf: &mut String, position: &mut PositionState) {
        match self {
            EitherOf13::A(a) => a.to_html_with_buf(buf, position),
            EitherOf13::B(b) => b.to_html_with_buf(buf, position),
            EitherOf13::C(c) => c.to_html_with_buf(buf, position),
            EitherOf13::D(d) => d.to_html_with_buf(buf, position),
            EitherOf13::E(e) => e.to_html_with_buf(buf, position),
            EitherOf13::F(f) => f.to_html_with_buf(buf, position),
            EitherOf13::G(g) => g.to_html_with_buf(buf, position),
            EitherOf13::H(h) => h.to_html_with_buf(buf, position),
            EitherOf13::I(i) => i.to_html_with_buf(buf, position),
            EitherOf13::J(j) => j.to_html_with_buf(buf, position),
            EitherOf13::K(k) => k.to_html_with_buf(buf, position),
            EitherOf13::L(l) => l.to_html_with_buf(buf, position),
            EitherOf13::M(m) => m.to_html_with_buf(buf, position),
        }
        push_marker(buf);
    }
}

/// One of 14 views.
#[derive(Debug, Clone, PartialEq, Eq)]
pub enum EitherOf14<A, B, C, D, E, F, G, H, I, J, K, L, M, N> {
    A(A),
    B(B),
    C(C),
    D(D),
    E(E),
    F(F),
    G(G),
    H(H),
    I(I),
    J(J),
    K(K),
    L(L),
    M(M),
    N(N),
}

impl<A: RenderHtml, B: RenderHtml, C: RenderHtml, D: RenderHtml, E: RenderHtml, F: RenderHtml, G: RenderHtml, H: RenderHtml, I: RenderHtml, J: RenderHtml, K: RenderHtml, L: RenderHtml, M: RenderHtml, N: RenderHtml> RenderHtml for EitherOf14<A, B, C, D, E, F, G, H, I, J, K, L, M, N> {
    open spec fn spec_html(&self, position: Position) -> (Seq<char>, Position) {
        match self {
            EitherOf14::A(a) => alt_html(a.spec_html(position)),
            EitherOf14::B(b) => alt_html(b.spec_html(position)),
            EitherOf14::C(c) => alt_html(c.spec_html(position)),
            EitherOf14::D(d) => alt_html(d.spec_html(position)),
            EitherOf14::E(e) => alt_html(e.spec_html(position)),
            EitherOf14::F(f) => alt_html(f.spec_html(position)),
            EitherOf14::G(g) => alt_html(g.spec_html(position)),
            EitherOf14::H(h) => alt_html(h.spec_html(position)),
            EitherOf14::I(i) => alt_html(i.spec_html(position)),
            EitherOf14::J(j) => alt_html(j.spec_html(position)),
            EitherOf14::K(k) => alt_html(k.spec_html(position)),
            EitherOf14::L(l) => alt_html(l.spec_html(position)),
            EitherOf14::M(m) => alt_html(m.spec_html(position)),
            EitherOf14::N(n) => alt_html(n.spec_html(position)),
        }
    }

    open spec fn html_ok(&self) -> bool {
        match self {
            EitherOf14::A(a) => a.html_ok(),
            EitherOf14::B(b) => b.html_ok(),
            EitherOf14::C(c) => c.html_ok(),
            EitherOf14::D(d) => d.html_ok(),
            EitherOf14::E(e) => e.html_ok(),
            EitherOf14::F(f) => f.html_ok(),
            EitherOf14::G(g) => g.html_ok(),
            EitherOf14::H(h) => h.html_ok(),
            EitherOf14::I(i) => i.html_ok(),
            EitherOf14::J(j) => j.html_ok(),
            EitherOf14::K(k) => k.html_ok(),
            EitherOf14::L(l) => l.html_ok(),
            EitherOf14::M(m) => m.html_ok(),
            EitherOf14::N(n) => n.html_ok(),
        }
    }

    fn to_html_with_buf(self, buf: &mut String, position: &mut PositionState) {
        match self {
            EitherOf14::A(a) => a.to_html_with_buf(buf, position),
            EitherOf14::B(b) => b.to_html_with_buf(buf, position),
            EitherOf14::C(c) => c.to_html_with_buf(buf, position),
            EitherOf14::D(d) => d.to_html_with_buf(buf, position),
            EitherOf14::E(e) => e.to_html_with_buf(buf, position),
            EitherOf14::F(f) => f.to_html_with_buf(buf, position),
            EitherOf14::G(g) => g.to_html_with_buf(buf, position),
            EitherOf14::H(h) => h.to_html_with_buf(buf, position),
            EitherOf14::I(i) => i.to_html_with_buf(buf, position),
            EitherOf14::J(j) => j.to_html_with_buf(buf, position),
            EitherOf14::K(k) => k.to_html_with_buf(buf, position),
            EitherOf14::L(l) => l.to_html_with_buf(buf, position),
            EitherOf14::M(m) => m.to_html_with_buf(buf, position),
            EitherOf14::N(n) => n.to_html_with_buf(buf, position),
        }
        push_marker(buf);
    }
}

/// One of 15 views.
#[derive(Debug, Clone, PartialEq, Eq)]
pub enum EitherOf15<A, B, C, D, E, F, G, H, I, J, K, L, M, N, O> {
    A(A),
    B(B),
    C(C),
    D(D),
    E(E),
    F(F),
    G(G),
    H(H),
    I(I),
    J(J),
    K(K),
    L(L),
    M(M),
    N(N),
    O(O),
}

impl<A: RenderHtml, B: RenderHtml, C: RenderHtml, D: RenderHtml, E: RenderHtml, F: RenderHtml, G: RenderHtml, H: RenderHtml, I: RenderHtml, J: RenderHtml, K: RenderHtml, L: RenderHtml, M: RenderHtml, N: RenderHtml, O: RenderHtml> RenderHtml for EitherOf15<A, B, C, D, E, F, G, H, I, J, K, L, M, N, O> {
    open spec fn spec_html(&self, position: Position) -> (Seq<char>, Position) {
        match self {
            EitherOf15::A(a) => alt_html(a.spec_html(position)),
            EitherOf15::B(b) => alt_html(b.spec_html(position)),
            EitherOf15::C(c) => alt_html(c.spec_html(position)),
            EitherOf15::D(d) => alt_html(d.spec_html(position)),
            EitherOf15::E(e) => alt_html(e.spec_html(position)),
            EitherOf15::F(f) => alt_html(f.spec_html(position)),
            EitherOf15::G(g) => alt_html(g.spec_html(position)),
            EitherOf15::H(h) => alt_html(h.spec_html(position)),
            EitherOf15::I(i) => alt_html(i.spec_html(position)),
            EitherOf15::J(j) => alt_html(j.spec_html(position)),
            EitherOf15::K(k) => alt_html(k.spec_html(position)),
            EitherOf15::L(l) => alt_html(l.spec_html(position)),
            EitherOf15::M(m) => alt_html(m.spec_html(position)),
            EitherOf15::N(n) => alt_html(n.spec_html(position)),
            EitherOf15::O(o) => alt_html(o.spec_html(position)),
        }
    }

    open spec fn html_ok(&self) -> bool {
        match self {
            EitherOf15::A(a) => a.html_ok(),
            EitherOf15::B(b) => b.html_ok(),
            EitherOf15::C(c) => c.html_ok(),
            EitherOf15::D(d) => d.html_ok(),
            EitherOf15::E(e) => e.html_ok(),
            EitherOf15::F(f) => f.html_ok(),
            EitherOf15::G(g) => g.html_ok(),
            EitherOf15::H(h) => h.html_ok(),
            EitherOf15::I(i) => i.html_ok(),
            EitherOf15::J(j) => j.html_ok(),
            EitherOf15::K(k) => k.html_ok(),
            EitherOf15::L(l) => l.html_ok(),
            EitherOf15::M(m) => m.html_ok(),
            EitherOf15::N(n) => n.html_ok(),
            EitherOf15::O(o) => o.html_ok(),
        }
    }

    fn to_html_with_buf(self, buf: &mut String, position: &mut PositionState) {
        match self {
            EitherOf15::A(a) => a.to_html_with_buf(buf, position),
            EitherOf15::B(b) => b.to_html_with_buf(buf, position),
            EitherOf15::C(c) => c.to_html_with_buf(buf, position),
            EitherOf15::D(d) => d.to_html_with_buf(buf, position),
            EitherOf15::E(e) => e.to_html_with_buf(buf, position),
            EitherOf15::F(f) => f.to_html_with_buf(buf, position),
            EitherOf15::G(g) => g.to_html_with_buf(buf, position),
            EitherOf15::H(h) => h.to_html_with_buf(buf, position),
            EitherOf15::I(i) => i.to_html_with_buf(buf, position),
            EitherOf15::J(j) => j.to_html_with_buf(buf, position),
            EitherOf15::K(k) => k.to_html_with_buf(buf, position),
            EitherOf15::L(l) => l.to_html_with_buf(buf, position),
            EitherOf15::M(m) => m.to_html_with_buf(buf, position),
            EitherOf15::N(n) => n.to_html_with_buf(buf, position),
            EitherOf15::O(o) => o.to_html_with_buf(buf, position),
        }
        push_marker(buf);
    }
}

/// One of 16 views.
#[derive(Debug, Clone, PartialEq, Eq)]
pub enum EitherOf16<A, B, C, D, E, F, G, H, I, J, K, L, M, N, O, P> {
    A(A),
    B(B),
    C(C),
    D(D),
    E(E),
    F(F),
    G(G),
    H(H),
    I(I),
    J(J),
    K(K),
    L(L),
    M(M),
    N(N),
    O(O),
    P(P),
}

impl<A: RenderHtml, B: RenderHtml, C: RenderHtml, D: RenderHtml, E: RenderHtml, F: RenderHtml, G: RenderHtml, H: RenderHtml, I: RenderHtml, J: RenderHtml, K: RenderHtml, L: RenderHtml, M: RenderHtml, N: RenderHtml, O: RenderHtml, P: RenderHtml> RenderHtml for EitherOf16<A, B, C, D, E, F, G, H, I, J, K, L, M, N, O, P> {
    open spec fn spec_html(&self, position: Position) -> (Seq<char>, Position) {
        match self {
            EitherOf16::A(a) => alt_html(a.spec_html(position)),
            EitherOf16::B(b) => alt_html(b.spec_html(position)),
            EitherOf16::C(c) => alt_html(c.spec_html(position)),
            EitherOf16::D(d) => alt_html(d.spec_html(position)),
            EitherOf16::E(e) => alt_html(e.spec_html(position)),
            EitherOf16::F(f) => alt_html(f.spec_html(position)),
            EitherOf16::G(g) => alt_html(g.spec_html(position)),
            EitherOf16::H(h) => alt_html(h.spec_html(position)),
            EitherOf16::I(i) => alt_html(i.spec_html(position)),
            EitherOf16::J(j) => alt_html(j.spec_html(position)),
            EitherOf16::K(k) => alt_html(k.spec_html(position)),
            EitherOf16::L(l) => alt_html(l.spec_html(position)),
            EitherOf16::M(m) => alt_html(m.spec_html(position)),
            EitherOf16::N(n) => alt_html(n.spec_html(position)),
            EitherOf16::O(o) => alt_html(o.spec_html(position)),
            EitherOf16::P(p) => alt_html(p.spec_html(position)),
        }
    }

    open spec fn html_ok(&self) -> bool {
        match self {
            EitherOf16::A(a) => a.html_ok(),
            EitherOf16::B(b) => b.html_ok(),
            EitherOf16::C(c) => c.html_ok(),
            EitherOf16::D(d) => d.html_ok(),
            EitherOf16::E(e) => e.html_ok(),
            EitherOf16::F(f) => f.html_ok(),
            EitherOf16::G(g) => g.html_ok(),
            EitherOf16::H(h) => h.html_ok(),
            EitherOf16::I(i) => i.html_ok(),
            EitherOf16::J(j) => j.html_ok(),
            EitherOf16::K(k) => k.html_ok(),
            EitherOf16::L(l) => l.html_ok(),
            EitherOf16::M(m) => m.html_ok(),
            EitherOf16::N(n) => n.html_ok(),
            EitherOf16::O(o) => o.html_ok(),
            EitherOf16::P(p) => p.html_ok(),
        }
    }

    fn to_html_with_buf(self, buf: &mut String, position: &mut PositionState) {
        match self {
            EitherOf16::A(a) => a.to_html_with_buf(buf, position),
            EitherOf16::B(b) => b.to_html_with_buf(buf, position),
            EitherOf16::C(c) => c.to_html_with_buf(buf, position),
            EitherOf16::D(d) => d.to_html_with_buf(buf, position),
            EitherOf16::E(e) => e.to_html_with_buf(buf, position),
            EitherOf16::F(f) => f.to_html_with_buf(buf, position),
            EitherOf16::G(g) => g.to_html_with_buf(buf, position),
            EitherOf16::H(h) => h.to_html_with_buf(buf, position),
            EitherOf16::I(i) => i.to_html_with_buf(buf, position),
            EitherOf16::J(j) => j.to_html_with_buf(buf, position),
            EitherOf16::K(k) => k.to_html_with_buf(buf, position),
            EitherOf16::L(l) => l.to_html_with_buf(buf, position),
            EitherOf16::M(m) => m.to_html_with_buf(buf, position),
            EitherOf16::N(n) => n.to_html_with_buf(buf, position),
            EitherOf16::O(o) => o.to_html_with_buf(buf, position),
            EitherOf16::P(p) => p.to_html_with_buf(buf, position),
        }
        push_marker(buf);
    }
}

/// Whichever alternative Either shows, its HTML is written, followed by a
/// `<!>` marker; the position is where the alternative left it.
pub proof fn lemma_either_law<A: RenderHtml, B: RenderHtml>(shown: Either<A, B>, position: Position)
    ensures
        shown matches Either::Left(a) ==> shown.spec_html(position) == (a.spec_html(position).0 + seq!['<', '!', '>'], a.spec_html(position).1),
        shown matches Either::Left(a) ==> shown.html_ok() == a.html_ok(),
        shown matches Either::Right(b) ==> shown.spec_html(position) == (b.spec_html(position).0 + seq!['<', '!', '>'], b.spec_html(position).1),
        shown matches Either::Right(b) ==> shown.html_ok() == b.html_ok(),
{
}

/// Whichever alternative EitherOf3 shows, its HTML is written, followed by a
/// `<!>` marker; the position is where the alternative left it.
pub proof fn lemma_eitherof3_law<A: RenderHtml, B: RenderHtml, C: RenderHtml>(shown: EitherOf3<A, B, C>, position: Position)
    ensures
        shown matches EitherOf3::A(a) ==> shown.spec_html(position) == (a.spec_html(position).0 + seq!['<', '!', '>'], a.spec_html(position).1),
        shown matches EitherOf3::A(a) ==> shown.html_ok() == a.html_ok(),
        shown matches EitherOf3::B(b) ==> shown.spec_html(position) == (b.spec_html(position).0 + seq!['<', '!', '>'], b.spec_html(position).1),
        shown matches EitherOf3::B(b) ==> shown.html_ok() == b.html_ok(),
        shown matches EitherOf3::C(c) ==> shown.spec_html(position) == (c.spec_html(position).0 + seq!['<', '!', '>'], c.spec_html(position).1),
        shown matches EitherOf3::C(c) ==> shown.html_ok() == c.html_ok(),
{
}

/// Whichever alternative EitherOf4 shows, its HTML is written, followed by a
/// `<!>` marker; the position is where the alternative left it.
pub proof fn lemma_eitherof4_law<A: RenderHtml, B: RenderHtml, C: RenderHtml, D: RenderHtml>(shown: EitherOf4<A, B, C, D>, position: Position)
    ensures
        shown matches EitherOf4::A(a) ==> shown.spec_html(position) == (a.spec_html(position).0 + seq!['<', '!', '>'], a.spec_html(position).1),
        shown matches EitherOf4::A(a) ==> shown.html_ok() == a.html_ok(),
        shown matches EitherOf4::B(b) ==> shown.spec_html(position) == (b.spec_html(position).0 + seq!['<', '!', '>'], b.spec_html(position).1),
        shown matches EitherOf4::B(b) ==> shown.html_ok() == b.html_ok(),
        shown matches EitherOf4::C(c) ==> shown.spec_html(position) == (c.spec_html(position).0 + seq!['<', '!', '>'], c.spec_html(position).1),
        shown matches EitherOf4::C(c) ==> shown.html_ok() == c.html_ok(),
        shown matches EitherOf4::D(d) ==> shown.spec_html(position) == (d.spec_html(position).0 + seq!['<', '!', '>'], d.spec_html(position).1),
        shown matches EitherOf4::D(d) ==> shown.html_ok() == d.html_ok(),
{
}

/// Whichever alternative EitherOf5 shows, its HTML is written, followed by a
/// `<!>` marker; the position is where the alternative left it.
pub proof fn lemma_eitherof5_law<A: RenderHtml, B: RenderHtml, C: RenderHtml, D: RenderHtml, E: RenderHtml>(shown: EitherOf5<A, B, C, D, E>, position: Position)
    ensures
        shown matches EitherOf5::A(a) ==> shown.spec_html(position) == (a.spec_html(position).0 + seq!['<', '!', '>'], a.spec_html(position).1),
        shown matches EitherOf5::A(a) ==> shown.html_ok() == a.html_ok(),
        shown matches EitherOf5::B(b) ==> shown.spec_html(position) == (b.spec_html(position).0 + seq!['<', '!', '>'], b.spec_html(position).1),
        shown matches EitherOf5::B(b) ==> shown.html_ok() == b.html_ok(),
        shown matches EitherOf5::C(c) ==> shown.spec_html(position) == (c.spec_html(position).0 + seq!['<', '!', '>'], c.spec_html(position).1),
        shown matches EitherOf5::C(c) ==> shown.html_ok() == c.html_ok(),
        shown matches EitherOf5::D(d) ==> shown.spec_html(position) == (d.spec_html(position).0 + seq!['<', '!', '>'], d.spec_html(position).1),
        shown matches EitherOf5::D(d) ==> shown.html_ok() == d.html_ok(),
        shown matches EitherOf5::E(e) ==> shown.spec_html(position) == (e.spec_html(position).0 + seq!['<', '!', '>'], e.spec_html(position).1),
        shown matches EitherOf5::E(e) ==> shown.html_ok() == e.html_ok(),
{
}

/// Whichever alternative EitherOf6 shows, its HTML is written, followed by a
/// `<!>` marker; the position is where the alternative left it.
pub proof fn lemma_eitherof6_law<A: RenderHtml, B: RenderHtml, C: RenderHtml, D: RenderHtml, E: RenderHtml, F: RenderHtml>(shown: EitherOf6<A, B, C, D, E, F>, position: Position)
    ensures
        shown matches EitherOf6::A(a) ==> shown.spec_html(position) == (a.spec_html(position).0 + seq!['<', '!', '>'], a.spec_html(position).1),
        shown matches EitherOf6::A(a) ==> shown.html_ok() == a.html_ok(),
        shown matches EitherOf6::B(b) ==> shown.spec_html(position) == (b.spec_html(position).0 + seq!['<', '!', '>'], b.spec_html(position).1),
        shown matches EitherOf6::B(b) ==> shown.html_ok() == b.html_ok(),
        shown matches EitherOf6::C(c) ==> shown.spec_html(position) == (c.spec_html(position).0 + seq!['<', '!', '>'], c.spec_html(position).1),
        shown matches EitherOf6::C(c) ==> shown.html_ok() == c.html_ok(),
        shown matches EitherOf6::D(d) ==> shown.spec_html(position) == (d.spec_html(position).0 + seq!['<', '!', '>'], d.spec_html(position).1),
        shown matches EitherOf6::D(d) ==> shown.html_ok() == d.html_ok(),
        shown matches EitherOf6::E(e) ==> shown.spec_html(position) == (e.spec_html(position).0 + seq!['<', '!', '>'], e.spec_html(position).1),
        shown matches EitherOf6::E(e) ==> shown.html_ok() == e.html_ok(),
        shown matches EitherOf6::F(f) ==> shown.spec_html(position) == (f.spec_html(position).0 + seq!['<', '!', '>'], f.spec_html(position).1),
        shown matches EitherOf6::F(f) ==> shown.html_ok() == f.html_ok(),
{
}

/// Whichever alternative EitherOf7 shows, its HTML is written, followed by a
/// `<!>` marker; the position is where the alternative left it.
pub proof fn lemma_eitherof7_law<A: RenderHtml, B: RenderHtml, C: RenderHtml, D: RenderHtml, E: RenderHtml, F: RenderHtml, G: RenderHtml>(shown: EitherOf7<A, B, C, D, E, F, G>, position: Position)
    ensures
        shown matches EitherOf7::A(a) ==> shown.spec_html(position) == (a.spec_html(position).0 + seq!['<', '!', '>'], a.spec_html(position).1),
        shown matches EitherOf7::A(a) ==> shown.html_ok() == a.html_ok(),
        shown matches EitherOf7::B(b) ==> shown.spec_html(position) == (b.spec_html(position).0 + seq!['<', '!', '>'], b.spec_html(position).1),
        shown matches EitherOf7::B(b) ==> shown.html_ok() == b.html_ok(),
        shown matches EitherOf7::C(c) ==> shown.spec_html(position) == (c.spec_html(position).0 + seq!['<', '!', '>'], c.spec_html(position).1),
        shown matches EitherOf7::C(c) ==> shown.html_ok() == c.html_ok(),
        shown matches EitherOf7::D(d) ==> shown.spec_html(position) == (d.spec_html(position).0 + seq!['<', '!', '>'], d.spec_html(position).1),
        shown matches EitherOf7::D(d) ==> shown.html_ok() == d.html_ok(),
        shown matches EitherOf7::E(e) ==> shown.spec_html(position) == (e.spec_html(position).0 + seq!['<', '!', '>'], e.spec_html(position).1),
        shown matches EitherOf7::E(e) ==> shown.html_ok() == e.html_ok(),
        shown matches EitherOf7::F(f) ==> shown.spec_html(position) == (f.spec_html(position).0 + seq!['<', '!', '>'], f.spec_html(position).1),
        shown matches EitherOf7::F(f) ==> shown.html_ok() == f.html_ok(),
        shown matches EitherOf7::G(g) ==> shown.spec_html(position) == (g.spec_html(position).0 + seq!['<', '!', '>'], g.spec_html(position).1),
        shown matches EitherOf7::G(g) ==> shown.html_ok() == g.html_ok(),
{
}

/// Whichever alternative EitherOf8 shows, its HTML is written, followed by a
/// `<!>` marker; the position is where the alternative left it.
pub proof fn lemma_eitherof8_law<A: RenderHtml, B: RenderHtml, C: RenderHtml, D: RenderHtml, E: RenderHtml, F: RenderHtml, G: RenderHtml, H: RenderHtml>(shown: EitherOf8<A, B, C, D, E, F, G, H>, position: Position)
    ensures
        shown matches EitherOf8::A(a) ==> shown.spec_html(position) == (a.spec_html(position).0 + seq!['<', '!', '>'], a.spec_html(position).1),
        shown matches EitherOf8::A(a) ==> shown.html_ok() == a.html_ok(),
        shown matches EitherOf8::B(b) ==> shown.spec_html(position) == (b.spec_html(position).0 + seq!['<', '!', '>'], b.spec_html(position).1),
        shown matches EitherOf8::B(b) ==> shown.html_ok() == b.html_ok(),
        shown matches EitherOf8::C(c) ==> shown.spec_html(position) == (c.spec_html(position).0 + seq!['<', '!', '>'], c.spec_html(position).1),
        shown matches EitherOf8::C(c) ==> shown.html_ok() == c.html_ok(),
        shown matches EitherOf8::D(d) ==> shown.spec_html(position) == (d.spec_html(position).0 + seq!['<', '!', '>'], d.spec_html(position).1),
        shown matches EitherOf8::D(d) ==> shown.html_ok() == d.html_ok(),
        shown matches EitherOf8::E(e) ==> shown.spec_html(position) == (e.spec_html(position).0 + seq!['<', '!', '>'], e.spec_html(position).1),
        shown matches EitherOf8::E(e) ==> shown.html_ok() == e.html_ok(),
        shown matches EitherOf8::F(f) ==> shown.spec_html(position) == (f.spec_html(position).0 + seq!['<', '!', '>'], f.spec_html(position).1),
        shown matches EitherOf8::F(f) ==> shown.html_ok() == f.html_ok(),
        shown matches EitherOf8::G(g) ==> shown.spec_html(position) == (g.spec_html(position).0 + seq!['<', '!', '>'], g.spec_html(position).1),
        shown matches EitherOf8::G(g) ==> shown.html_ok() == g.html_ok(),
        shown matches EitherOf8::H(h) ==> shown.spec_html(position) == (h.spec_html(position).0 + seq!['<', '!', '>'], h.spec_html(position).1),
        shown matches EitherOf8::H(h) ==> shown.html_ok() == h.html_ok(),
{
}

/// Whichever alternative EitherOf9 shows, its HTML is written, followed by a
/// `<!>` marker; the position is where the alternative left it.
pub proof fn lemma_eitherof9_law<A: RenderHtml, B: RenderHtml, C: RenderHtml, D: RenderHtml, E: RenderHtml, F: RenderHtml, G: RenderHtml, H: RenderHtml, I: RenderHtml>(shown: EitherOf9<A, B, C, D, E, F, G, H, I>, position: Position)
    ensures
        shown matches EitherOf9::A(a) ==> shown.spec_html(position) == (a.spec_html(position).0 + seq!['<', '!', '>'], a.spec_html(position).1),
        shown matches EitherOf9::A(a) ==> shown.html_ok() == a.html_ok(),
        shown matches EitherOf9::B(b) ==> shown.spec_html(position) == (b.spec_html(position).0 + seq!['<', '!', '>'], b.spec_html(position).1),
        shown matches EitherOf9::B(b) ==> shown.html_ok() == b.html_ok(),
        shown matches EitherOf9::C(c) ==> shown.spec_html(position) == (c.spec_html(position).0 + seq!['<', '!', '>'], c.spec_html(position).1),
        shown matches EitherOf9::C(c) ==> shown.html_ok() == c.html_ok(),
        shown matches EitherOf9::D(d) ==> shown.spec_html(position) == (d.spec_html(position).0 + seq!['<', '!', '>'], d.spec_html(position).1),
        shown matches EitherOf9::D(d) ==> shown.html_ok() == d.html_ok(),
        shown matches EitherOf9::E(e) ==> shown.spec_html(position) == (e.spec_html(position).0 + seq!['<', '!', '>'], e.spec_html(position).1),
        shown matches EitherOf9::E(e) ==> shown.html_ok() == e.html_ok(),
        shown matches EitherOf9::F(f) ==> shown.spec_html(position) == (f.spec_html(position).0 + seq!['<', '!', '>'], f.spec_html(position).1),
        shown matches EitherOf9::F(f) ==> shown.html_ok() == f.html_ok(),
        shown matches EitherOf9::G(g) ==> shown.spec_html(position) == (g.spec_html(position).0 + seq!['<', '!', '>'], g.spec_html(position).1),
        shown matches EitherOf9::G(g) ==> shown.html_ok() == g.html_ok(),
        shown matches EitherOf9::H(h) ==> shown.spec_html(position) == (h.spec_html(position).0 + seq!['<', '!', '>'], h.spec_html(position).1),
        shown matches EitherOf9::H(h) ==> shown.html_ok() == h.html_ok(),
        shown matches EitherOf9::I(i) ==> shown.spec_html(position) == (i.spec_html(position).0 + seq!['<', '!', '>'], i.spec_html(position).1),
        shown matches EitherOf9::I(i) ==> shown.html_ok() == i.html_ok(),
{
}

/// Whichever alternative EitherOf10 shows, its HTML is written, followed by a
/// `<!>` marker; the position is where the alternative left it.
pub proof fn lemma_eitherof10_law<A: RenderHtml, B: RenderHtml, C: RenderHtml, D: RenderHtml, E: RenderHtml, F: RenderHtml, G: RenderHtml, H: RenderHtml, I: RenderHtml, J: RenderHtml>(shown: EitherOf10<A, B, C, D, E, F, G, H, I, J>, position: Position)
    ensures
        shown matches EitherOf10::A(a) ==> shown.spec_html(position) == (a.spec_html(position).0 + seq!['<', '!', '>'], a.spec_html(position).1),
        shown matches EitherOf10::A(a) ==> shown.html_ok() == a.html_ok(),
        shown matches EitherOf10::B(b) ==> shown.spec_html(position) == (b.spec_html(position).0 + seq!['<', '!', '>'], b.spec_html(position).1),
        shown matches EitherOf10::B(b) ==> shown.html_ok() == b.html_ok(),
        shown matches EitherOf10::C(c) ==> shown.spec_html(position) == (c.spec_html(position).0 + seq!['<', '!', '>'], c.spec_html(position).1),
        shown matches EitherOf10::C(c) ==> shown.html_ok() == c.html_ok(),
        shown matches EitherOf10::D(d) ==> shown.spec_html(position) == (d.spec_html(position).0 + seq!['<', '!', '>'], d.spec_html(position).1),
        shown matches EitherOf10::D(d) ==> shown.html_ok() == d.html_ok(),
        shown matches EitherOf10::E(e) ==> shown.spec_html(position) == (e.spec_html(position).0 + seq!['<', '!', '>'], e.spec_html(position).1),
        shown matches EitherOf10::E(e) ==> shown.html_ok() == e.html_ok(),
        shown matches EitherOf10::F(f) ==> shown.spec_html(position) == (f.spec_html(position).0 + seq!['<', '!', '>'], f.spec_html(position).1),
        shown matches EitherOf10::F(f) ==> shown.html_ok() == f.html_ok(),
        shown matches EitherOf10::G(g) ==> shown.spec_html(position) == (g.spec_html(position).0 + seq!['<', '!', '>'], g.spec_html(position).1),
        shown matches EitherOf10::G(g) ==> shown.html_ok() == g.html_ok(),
        shown matches EitherOf10::H(h) ==> shown.spec_html(position) == (h.spec_html(position).0 + seq!['<', '!', '>'], h.spec_html(position).1),
        shown matches EitherOf10::H(h) ==> shown.html_ok() == h.html_ok(),
        shown matches EitherOf10::I(i) ==> shown.spec_html(position) == (i.spec_html(position).0 + seq!['<', '!', '>'], i.spec_html(position).1),
        shown matches EitherOf10::I(i) ==> shown.html_ok() == i.html_ok(),
        shown matches EitherOf10::J(j) ==> shown.spec_html(position) == (j.spec_html(position).0 + seq!['<', '!', '>'], j.spec_html(position).1),
        shown matches EitherOf10::J(j) ==> shown.html_ok() == j.html_ok(),
{
}

/// Whichever alternative EitherOf11 shows, its HTML is written, followed by a
/// `<!>` marker; the position is where the alternative left it.
pub proof fn lemma_eitherof11_law<A: RenderHtml, B: RenderHtml, C: RenderHtml, D: RenderHtml, E: RenderHtml, F: RenderHtml, G: RenderHtml, H: RenderHtml, I: RenderHtml, J: RenderHtml, K: RenderHtml>(shown: EitherOf11<A, B, C, D, E, F, G, H, I, J, K>, position: Position)
    ensures
        shown matches EitherOf11::A(a) ==> shown.spec_html(position) == (a.spec_html(position).0 + seq!['<', '!', '>'], a.spec_html(position).1),
        shown matches EitherOf11::A(a) ==> shown.html_ok() == a.html_ok(),
        shown matches EitherOf11::B(b) ==> shown.spec_html(position) == (b.spec_html(position).0 + seq!['<', '!', '>'], b.spec_html(position).1),
        shown matches EitherOf11::B(b) ==> shown.html_ok() == b.html_ok(),
        shown matches EitherOf11::C(c) ==> shown.spec_html(position) == (c.spec_html(position).0 + seq!['<', '!', '>'], c.spec_html(position).1),
        shown matches EitherOf11::C(c) ==> shown.html_ok() == c.html_ok(),
        shown matches EitherOf11::D(d) ==> shown.spec_html(position) == (d.spec_html(position).0 + seq!['<', '!', '>'], d.spec_html(position).1),
        shown matches EitherOf11::D(d) ==> shown.html_ok() == d.html_ok(),
        shown matches EitherOf11::E(e) ==> shown.spec_html(position) == (e.spec_html(position).0 + seq!['<', '!', '>'], e.spec_html(position).1),
        shown matches EitherOf11::E(e) ==> shown.html_ok() == e.html_ok(),
        shown matches EitherOf11::F(f) ==> shown.spec_html(position) == (f.spec_html(position).0 + seq!['<', '!', '>'], f.spec_html(position).1),
        shown matches EitherOf11::F(f) ==> shown.html_ok() == f.html_ok(),
        shown matches EitherOf11::G(g) ==> shown.spec_html(position) == (g.spec_html(position).0 + seq!['<', '!', '>'], g.spec_html(position).1),
        shown matches EitherOf11::G(g) ==> shown.html_ok() == g.html_ok(),
        shown matches EitherOf11::H(h) ==> shown.spec_html(position) == (h.spec_html(position).0 + seq!['<', '!', '>'], h.spec_html(position).1),
        shown matches EitherOf11::H(h) ==> shown.html_ok() == h.html_ok(),
        shown matches EitherOf11::I(i) ==> shown.spec_html(position) == (i.spec_html(position).0 + seq!['<', '!', '>'], i.spec_html(position).1),
        shown matches EitherOf11::I(i) ==> shown.html_ok() == i.html_ok(),
        shown matches EitherOf11::J(j) ==> shown.spec_html(position) == (j.spec_html(position).0 + seq!['<', '!', '>'], j.spec_html(position).1),
        shown matches EitherOf11::J(j) ==> shown.html_ok() == j.html_ok(),
        shown matches EitherOf11::K(k) ==> shown.spec_html(position) == (k.spec_html(position).0 + seq!['<', '!', '>'], k.spec_html(position).1),
        shown matches EitherOf11::K(k) ==> shown.html_ok() == k.html_ok(),
{
}

/// Whichever alternative EitherOf12 shows, its HTML is written, followed by a
/// `<!>` marker; the position is where the alternative left it.
pub proof fn lemma_eitherof12_law<A: RenderHtml, B: RenderHtml, C: RenderHtml, D: RenderHtml, E: RenderHtml, F: RenderHtml, G: RenderHtml, H: RenderHtml, I: RenderHtml, J: RenderHtml, K: RenderHtml, L: RenderHtml>(shown: EitherOf12<A, B, C, D, E, F, G, H, I, J, K, L>, position: Position)
    ensures
        shown matches EitherOf12::A(a) ==> shown.spec_html(position) == (a.spec_html(position).0 + seq!['<', '!', '>'], a.spec_html(position).1),
        shown matches EitherOf12::A(a) ==> shown.html_ok() == a.html_ok(),
        shown matches EitherOf12::B(b) ==> shown.spec_html(position) == (b.spec_html(position).0 + seq!['<', '!', '>'], b.spec_html(position).1),
        shown matches EitherOf12::B(b) ==> shown.html_ok() == b.html_ok(),
        shown matches EitherOf12::C(c) ==> shown.spec_html(position) == (c.spec_html(position).0 + seq!['<', '!', '>'], c.spec_html(position).1),
        shown matches EitherOf12::C(c) ==> shown.html_ok() == c.html_ok(),
        shown matches EitherOf12::D(d) ==> shown.spec_html(position) == (d.spec_html(position).0 + seq!['<', '!', '>'], d.spec_html(position).1),
        shown matches EitherOf12::D(d) ==> shown.html_ok() == d.html_ok(),
        shown matches EitherOf12::E(e) ==> shown.spec_html(position) == (e.spec_html(position).0 + seq!['<', '!', '>'], e.spec_html(position).1),
        shown matches EitherOf12::E(e) ==> shown.html_ok() == e.html_ok(),
        shown matches EitherOf12::F(f) ==> shown.spec_html(position) == (f.spec_html(position).0 + seq!['<', '!', '>'], f.spec_html(position).1),
        shown matches EitherOf12::F(f) ==> shown.html_ok() == f.html_ok(),
        shown matches EitherOf12::G(g) ==> shown.spec_html(position) == (g.spec_html(position).0 + seq!['<', '!', '>'], g.spec_html(position).1),
        shown matches EitherOf12::G(g) ==> shown.html_ok() == g.html_ok(),
        shown matches EitherOf12::H(h) ==> shown.spec_html(position) == (h.spec_html(position).0 + seq!['<', '!', '>'], h.spec_html(position).1),
        shown matches EitherOf12::H(h) ==> shown.html_ok() == h.html_ok(),
        shown matches EitherOf12::I(i) ==> shown.spec_html(position) == (i.spec_html(position).0 + seq!['<', '!', '>'], i.spec_html(position).1),
        shown matches EitherOf12::I(i) ==> shown.html_ok() == i.html_ok(),
        shown matches EitherOf12::J(j) ==> shown.spec_html(position) == (j.spec_html(position).0 + seq!['<', '!', '>'], j.spec_html(position).1),
        shown matches EitherOf12::J(j) ==> shown.html_ok() == j.html_ok(),
        shown matches EitherOf12::K(k) ==> shown.spec_html(position) == (k.spec_html(position).0 + seq!['<', '!', '>'], k.spec_html(position).1),
        shown matches EitherOf12::K(k) ==> shown.html_ok() == k.html_ok(),
        shown matches EitherOf12::L(l) ==> shown.spec_html(position) == (l.spec_html(position).0 + seq!['<', '!', '>'], l.spec_html(position).1),
        shown matches EitherOf12::L(l) ==> shown.html_ok() == l.html_ok(),
{
}

/// Whichever alternative EitherOf13 shows, its HTML is written, followed by a
/// `<!>` marker; the position is where the alternative left it.
pub proof fn lemma_eitherof13_law<A: RenderHtml, B: RenderHtml, C: RenderHtml, D: RenderHtml, E: RenderHtml, F: RenderHtml, G: RenderHtml, H: RenderHtml, I: RenderHtml, J: RenderHtml, K: RenderHtml, L: RenderHtml, M: RenderHtml>(shown: EitherOf13<A, B, C, D, E, F, G, H, I, J, K, L, M>, position: Position)
    ensures
        shown matches EitherOf13::A(a) ==> shown.spec_html(position) == (a.spec_html(position).0 + seq!['<', '!', '>'], a.spec_html(position).1),
        shown matches EitherOf13::A(a) ==> shown.html_ok() == a.html_ok(),
        shown matches EitherOf13::B(b) ==> shown.spec_html(position) == (b.spec_html(position).0 + seq!['<', '!', '>'], b.spec_html(position).1),
        shown matches EitherOf13::B(b) ==> shown.html_ok() == b.html_ok(),
        shown matches EitherOf13::C(c) ==> shown.spec_html(position) == (c.spec_html(position).0 + seq!['<', '!', '>'], c.spec_html(position).1),
        shown matches EitherOf13::C(c) ==> shown.html_ok() == c.html_ok(),
        shown matches EitherOf13::D(d) ==> shown.spec_html(position) == (d.spec_html(position).0 + seq!['<', '!', '>'], d.spec_html(position).1),
        shown matches EitherOf13::D(d) ==> shown.html_ok() == d.html_ok(),
        shown matches EitherOf13::E(e) ==> shown.spec_html(position) == (e.spec_html(position).0 + seq!['<', '!', '>'], e.spec_html(position).1),
        shown matches EitherOf13::E(e) ==> shown.html_ok() == e.html_ok(),
        shown matches EitherOf13::F(f) ==> shown.spec_html(position) == (f.spec_html(position).0 + seq!['<', '!', '>'], f.spec_html(position).1),
        shown matches EitherOf13::F(f) ==> shown.html_ok() == f.html_ok(),
        shown matches EitherOf13::G(g) ==> shown.spec_html(position) == (g.spec_html(position).0 + seq!['<', '!', '>'], g.spec_html(position).1),
        shown matches EitherOf13::G(g) ==> shown.html_ok() == g.html_ok(),
        shown matches EitherOf13::H(h) ==> shown.spec_html(position) == (h.spec_html(position).0 + seq!['<', '!', '>'], h.spec_html(position).1),
        shown matches EitherOf13::H(h) ==> shown.html_ok() == h.html_ok(),
        shown matches EitherOf13::I(i) ==> shown.spec_html(position) == (i.spec_html(position).0 + seq!['<', '!', '>'], i.spec_html(position).1),
        shown matches EitherOf13::I(i) ==> shown.html_ok() == i.html_ok(),
        shown matches EitherOf13::J(j) ==> shown.spec_html(position) == (j.spec_html(position).0 + seq!['<', '!', '>'], j.spec_html(position).1),
        shown matches EitherOf13::J(j) ==> shown.html_ok() == j.html_ok(),
        shown matches EitherOf13::K(k) ==> shown.spec_html(position) == (k.spec_html(position).0 + seq!['<', '!', '>'], k.spec_html(position).1),
        shown matches EitherOf13::K(k) ==> shown.html_ok() == k.html_ok(),
        shown matches EitherOf13::L(l) ==> shown.spec_html(position) == (l.spec_html(position).0 + seq!['<', '!', '>'], l.spec_html(position).1),
        shown matches EitherOf13::L(l) ==> shown.html_ok() == l.html_ok(),
        shown matches EitherOf13::M(m) ==> shown.spec_html(position) == (m.spec_html(position).0 + seq!['<', '!', '>'], m.spec_html(position).1),
        shown matches EitherOf13::M(m) ==> shown.html_ok() == m.html_ok(),
{
}

/// Whichever alternative EitherOf14 shows, its HTML is written, followed by a
/// `<!>` marker; the position is where the alternative left it.
pub proof fn lemma_eitherof14_law<A: RenderHtml, B: RenderHtml, C: RenderHtml, D: RenderHtml, E: RenderHtml, F: RenderHtml, G: RenderHtml, H: RenderHtml, I: RenderHtml, J: RenderHtml, K: RenderHtml, L: RenderHtml, M: RenderHtml, N: RenderHtml>(shown: EitherOf14<A, B, C, D, E, F, G, H, I, J, K, L, M, N>, position: Position)
    ensures
        shown matches EitherOf14::A(a) ==> shown.spec_html(position) == (a.spec_html(position).0 + seq!['<', '!', '>'], a.spec_html(position).1),
        shown matches EitherOf14::A(a) ==> shown.html_ok() == a.html_ok(),
        shown matches EitherOf14::B(b) ==> shown.spec_html(position) == (b.spec_html(position).0 + seq!['<', '!', '>'], b.spec_html(position).1),
        shown matches EitherOf14::B(b) ==> shown.html_ok() == b.html_ok(),
        shown matches EitherOf14::C(c) ==> shown.spec_html(position) == (c.spec_html(position).0 + seq!['<', '!', '>'], c.spec_html(position).1),
        shown matches EitherOf14::C(c) ==> shown.html_ok() == c.html_ok(),
        shown matches EitherOf14::D(d) ==> shown.spec_html(position) == (d.spec_html(position).0 + seq!['<', '!', '>'], d.spec_html(position).1),
        shown matches EitherOf14::D(d) ==> shown.html_ok() == d.html_ok(),
        shown matches EitherOf14::E(e) ==> shown.spec_html(position) == (e.spec_html(position).0 + seq!['<', '!', '>'], e.spec_html(position).1),
        shown matches EitherOf14::E(e) ==> shown.html_ok() == e.html_ok(),
        shown matches EitherOf14::F(f) ==> shown.spec_html(position) == (f.spec_html(position).0 + seq!['<', '!', '>'], f.spec_html(position).1),
        shown matches EitherOf14::F(f) ==> shown.html_ok() == f.html_ok(),
        shown matches EitherOf14::G(g) ==> shown.spec_html(position) == (g.spec_html(position).0 + seq!['<', '!', '>'], g.spec_html(position).1),
        shown matches EitherOf14::G(g) ==> shown.html_ok() == g.html_ok(),
        shown matches EitherOf14::H(h) ==> shown.spec_html(position) == (h.spec_html(position).0 + seq!['<', '!', '>'], h.spec_html(position).1),
        shown matches EitherOf14::H(h) ==> shown.html_ok() == h.html_ok(),
        shown matches EitherOf14::I(i) ==> shown.spec_html(position) == (i.spec_html(position).0 + seq!['<', '!', '>'], i.spec_html(position).1),
        shown matches EitherOf14::I(i) ==> shown.html_ok() == i.html_ok(),
        shown matches EitherOf14::J(j) ==> shown.spec_html(position) == (j.spec_html(position).0 + seq!['<', '!', '>'], j.spec_html(position).1),
        shown matches EitherOf14::J(j) ==> shown.html_ok() == j.html_ok(),
        shown matches EitherOf14::K(k) ==> shown.spec_html(position) == (k.spec_html(position).0 + seq!['<', '!', '>'], k.spec_html(position).1),
        shown matches EitherOf14::K(k) ==> shown.html_ok() == k.html_ok(),
        shown matches EitherOf14::L(l) ==> shown.spec_html(position) == (l.spec_html(position).0 + seq!['<', '!', '>'], l.spec_html(position).1),
        shown matches EitherOf14::L(l) ==> shown.html_ok() == l.html_ok(),
        shown matches EitherOf14::M(m) ==> shown.spec_html(position) == (m.spec_html(position).0 + seq!['<', '!', '>'], m.spec_html(position).1),
        shown matches EitherOf14::M(m) ==> shown.html_ok() == m.html_ok(),
        shown matches EitherOf14::N(n) ==> shown.spec_html(position) == (n.spec_html(position).0 + seq!['<', '!', '>'], n.spec_html(position).1),
        shown matches EitherOf14::N(n) ==> shown.html_ok() == n.html_ok(),
{
}

/// Whichever alternative EitherOf15 shows, its HTML is written, followed by a
/// `<!>` marker; the position is where the alternative left it.
pub proof fn lemma_eitherof15_law<A: RenderHtml, B: RenderHtml, C: RenderHtml, D: RenderHtml, E: RenderHtml, F: RenderHtml, G: RenderHtml, H: RenderHtml, I: RenderHtml, J: RenderHtml, K: RenderHtml, L: RenderHtml, M: RenderHtml, N: RenderHtml, O: RenderHtml>(shown: EitherOf15<A, B, C, D, E, F, G, H, I, J, K, L, M, N, O>, position: Position)
    ensures
        shown matches EitherOf15::A(a) ==> shown.spec_html(position) == (a.spec_html(position).0 + seq!['<', '!', '>'], a.spec_html(position).1),
        shown matches EitherOf15::A(a) ==> shown.html_ok() == a.html_ok(),
        shown matches EitherOf15::B(b) ==> shown.spec_html(position) == (b.spec_html(position).0 + seq!['<', '!', '>'], b.spec_html(position).1),
        shown matches EitherOf15::B(b) ==> shown.html_ok() == b.html_ok(),
        shown matches EitherOf15::C(c) ==> shown.spec_html(position) == (c.spec_html(position).0 + seq!['<', '!', '>'], c.spec_html(position).1),
        shown matches EitherOf15::C(c) ==> shown.html_ok() == c.html_ok(),
        shown matches EitherOf15::D(d) ==> shown.spec_html(position) == (d.spec_html(position).0 + seq!['<', '!', '>'], d.spec_html(position).1),
        shown matches EitherOf15::D(d) ==> shown.html_ok() == d.html_ok(),
        shown matches EitherOf15::E(e) ==> shown.spec_html(position) == (e.spec_html(position).0 + seq!['<', '!', '>'], e.spec_html(position).1),
        shown matches EitherOf15::E(e) ==> shown.html_ok() == e.html_ok(),
        shown matches EitherOf15::F(f) ==> shown.spec_html(position) == (f.spec_html(position).0 + seq!['<', '!', '>'], f.spec_html(position).1),
        shown matches EitherOf15::F(f) ==> shown.html_ok() == f.html_ok(),
        shown matches EitherOf15::G(g) ==> shown.spec_html(position) == (g.spec_html(position).0 + seq!['<', '!', '>'], g.spec_html(position).1),
        shown matches EitherOf15::G(g) ==> shown.html_ok() == g.html_ok(),
        shown matches EitherOf15::H(h) ==> shown.spec_html(position) == (h.spec_html(position).0 + seq!['<', '!', '>'], h.spec_html(position).1),
        shown matches EitherOf15::H(h) ==> shown.html_ok() == h.html_ok(),
        shown matches EitherOf15::I(i) ==> shown.spec_html(position) == (i.spec_html(position).0 + seq!['<', '!', '>'], i.spec_html(position).1),
        shown matches EitherOf15::I(i) ==> shown.html_ok() == i.html_ok(),
        shown matches EitherOf15::J(j) ==> shown.spec_html(position) == (j.spec_html(position).0 + seq!['<', '!', '>'], j.spec_html(position).1),
        shown matches EitherOf15::J(j) ==> shown.html_ok() == j.html_ok(),
        shown matches EitherOf15::K(k) ==> shown.spec_html(position) == (k.spec_html(position).0 + seq!['<', '!', '>'], k.spec_html(position).1),
        shown matches EitherOf15::K(k) ==> shown.html_ok() == k.html_ok(),
        shown matches EitherOf15::L(l) ==> shown.spec_html(position) == (l.spec_html(position).0 + seq!['<', '!', '>'], l.spec_html(position).1),
        shown matches EitherOf15::L(l) ==> shown.html_ok() == l.html_ok(),
        shown matches EitherOf15::M(m) ==> shown.spec_html(position) == (m.spec_html(position).0 + seq!['<', '!', '>'], m.spec_html(position).1),
        shown matches EitherOf15::M(m) ==> shown.html_ok() == m.html_ok(),
        shown matches EitherOf15::N(n) ==> shown.spec_html(position) == (n.spec_html(position).0 + seq!['<', '!', '>'], n.spec_html(position).1),
        shown matches EitherOf15::N(n) ==> shown.html_ok() == n.html_ok(),
        shown matches EitherOf15::O(o) ==> shown.spec_html(position) == (o.spec_html(position).0 + seq!['<', '!', '>'], o.spec_html(position).1),
        shown matches EitherOf15::O(o) ==> shown.html_ok() == o.html_ok(),
{
}

/// Whichever alternative EitherOf16 shows, its HTML is written, followed by a
/// `<!>` marker; the position is where the alternative left it.
pub proof fn lemma_eitherof16_law<A: RenderHtml, B: RenderHtml, C: RenderHtml, D: RenderHtml, E: RenderHtml, F: RenderHtml, G: RenderHtml, H: RenderHtml, I: RenderHtml, J: RenderHtml, K: RenderHtml, L: RenderHtml, M: RenderHtml, N: RenderHtml, O: RenderHtml, P: RenderHtml>(shown: EitherOf16<A, B, C, D, E, F, G, H, I, J, K, L, M, N, O, P>, position: Position)
    ensures
        shown matches EitherOf16::A(a) ==> shown.spec_html(position) == (a.spec_html(position).0 + seq!['<', '!', '>'], a.spec_html(position).1),
        shown matches EitherOf16::A(a) ==> shown.html_ok() == a.html_ok(),
        shown matches EitherOf16::B(b) ==> shown.spec_html(position) == (b.spec_html(position).0 + seq!['<', '!', '>'], b.spec_html(position).1),
        shown matches EitherOf16::B(b) ==> shown.html_ok() == b.html_ok(),
        shown matches EitherOf16::C(c) ==> shown.spec_html(position) == (c.spec_html(position).0 + seq!['<', '!', '>'], c.spec_html(position).1),
        shown matches EitherOf16::C(c) ==> shown.html_ok() == c.html_ok(),
        shown matches EitherOf16::D(d) ==> shown.spec_html(position) == (d.spec_html(position).0 + seq!['<', '!', '>'], d.spec_html(position).1),
        shown matches EitherOf16::D(d) ==> shown.html_ok() == d.html_ok(),
        shown matches EitherOf16::E(e) ==> shown.spec_html(position) == (e.spec_html(position).0 + seq!['<', '!', '>'], e.spec_html(position).1),
        shown matches EitherOf16::E(e) ==> shown.html_ok() == e.html_ok(),
        shown matches EitherOf16::F(f) ==> shown.spec_html(position) == (f.spec_html(position).0 + seq!['<', '!', '>'], f.spec_html(position).1),
        shown matches EitherOf16::F(f) ==> shown.html_ok() == f.html_ok(),
        shown matches EitherOf16::G(g) ==> shown.spec_html(position) == (g.spec_html(position).0 + seq!['<', '!', '>'], g.spec_html(position).1),
        shown matches EitherOf16::G(g) ==> shown.html_ok() == g.html_ok(),
        shown matches EitherOf16::H(h) ==> shown.spec_html(position) == (h.spec_html(position).0 + seq!['<', '!', '>'], h.spec_html(position).1),
        shown matches EitherOf16::H(h) ==> shown.html_ok() == h.html_ok(),
        shown matches EitherOf16::I(i) ==> shown.spec_html(position) == (i.spec_html(position).0 + seq!['<', '!', '>'], i.spec_html(position).1),
        shown matches EitherOf16::I(i) ==> shown.html_ok() == i.html_ok(),
        shown matches EitherOf16::J(j) ==> shown.spec_html(position) == (j.spec_html(position).0 + seq!['<', '!', '>'], j.spec_html(position).1),
        shown matches EitherOf16::J(j) ==> shown.html_ok() == j.html_ok(),
        shown matches EitherOf16::K(k) ==> shown.spec_html(position) == (k.spec_html(position).0 + seq!['<', '!', '>'], k.spec_html(position).1),
        shown matches EitherOf16::K(k) ==> shown.html_ok() == k.html_ok(),
        shown matches EitherOf16::L(l) ==> shown.spec_html(position) == (l.spec_html(position).0 + seq!['<', '!', '>'], l.spec_html(position).1),
        shown matches EitherOf16::L(l) ==> shown.html_ok() == l.html_ok(),
        shown matches EitherOf16::M(m) ==> shown.spec_html(position) == (m.spec_html(position).0 + seq!['<', '!', '>'], m.spec_html(position).1),
        shown matches EitherOf16::M(m) ==> shown.html_ok() == m.html_ok(),
        shown matches EitherOf16::N(n) ==> shown.spec_html(position) == (n.spec_html(position).0 + seq!['<', '!', '>'], n.spec_html(position).1),
        shown matches EitherOf16::N(n) ==> shown.html_ok() == n.html_ok(),
        shown matches EitherOf16::O(o) ==> shown.spec_html(position) == (o.spec_html(position).0 + seq!['<', '!', '>'], o.spec_html(position).1),
        shown matches EitherOf16::O(o) ==> shown.html_ok() == o.html_ok(),
        shown matches EitherOf16::P(p) ==> shown.spec_html(position) == (p.spec_html(position).0 + seq!['<', '!', '>'], p.spec_html(position).1),
        shown matches EitherOf16::P(p) ==> shown.html_ok() == p.html_ok(),
{
}
/// The smaller of two lengths.
pub fn smaller_usize(a: usize, b: usize) -> (r: usize)
    ensures
        r == if a < b {
            a
        } else {
            b
        },
{
    if a < b {
        a
    } else {
        b
    }
}

} // verus!
