//! Sequences of sibling views.
use crate::view::{Position, PositionState, RenderHtml, ToTemplate};
use vstd::prelude::*;

verus! {

impl RenderHtml for () {
    open spec fn spec_html(&self, position: Position) -> (Seq<char>, Position) {
        (Seq::empty(), position)
    }

    open spec fn html_ok(&self) -> bool {
        true
    }

    fn to_html_with_buf(self, buf: &mut String, position: &mut PositionState) {
        assert(buf@ =~= buf@ + Seq::<char>::empty());
    }
}

impl ToTemplate for () {
    open spec fn template_ok() -> bool {
        true
    }

    open spec fn spec_template(position: Position) -> (Seq<char>, Seq<char>, Seq<char>, Position) {
        (Seq::empty(), Seq::empty(), Seq::empty(), position)
    }

    fn to_template(
        buf: &mut String,
        class: &mut String,
        style: &mut String,
        position: &mut Position,
    ) {
        assert(buf@ =~= buf@ + Seq::<char>::empty());
        assert(class@ =~= class@ + Seq::<char>::empty());
        assert(style@ =~= style@ + Seq::<char>::empty());
    }
}

impl<A: RenderHtml> RenderHtml for (A,) {
    open spec fn spec_html(&self, position: Position) -> (Seq<char>, Position) {
        self.0.spec_html(position)
    }

    open spec fn html_ok(&self) -> bool {
        self.0.html_ok()
    }

    fn to_html_with_buf(self, buf: &mut String, position: &mut PositionState) {
        self.0.to_html_with_buf(buf, position);
    }
}

impl<A: ToTemplate> ToTemplate for (A,) {
    open spec fn template_ok() -> bool {
        A::template_ok()
    }

    open spec fn spec_template(position: Position) -> (Seq<char>, Seq<char>, Seq<char>, Position) {
        A::spec_template(position)
    }

    fn to_template(
        buf: &mut String,
        class: &mut String,
        style: &mut String,
        position: &mut Position,
    ) {
        A::to_template(buf, class, style, position);
    }
}

/// Siblings: the first at the given position, the second as a next child,
/// each following one where the one before left off.
impl<A: RenderHtml, B: RenderHtml> RenderHtml for (A, B) {
    open spec fn spec_html(&self, position: Position) -> (Seq<char>, Position) {
        let a = self.0.spec_html(position);
        let b = self.1.spec_html(Position::NextChild);
        (a.0 + b.0, b.1)
    }

    open spec fn html_ok(&self) -> bool {
        self.0.html_ok()
        && self.1.html_ok()
    }

    fn to_html_with_buf(self, buf: &mut String, position: &mut PositionState) {
        let (a, b) = self;
        a.to_html_with_buf(buf, position);
        position.set(Position::NextChild);
        b.to_html_with_buf(buf, position);
    }
}

impl<A: RenderHtml, B: RenderHtml, C: RenderHtml> RenderHtml for (A, B, C) {
    open spec fn spec_html(&self, position: Position) -> (Seq<char>, Position) {
        let a = self.0.spec_html(position);
        let b = self.1.spec_html(Position::NextChild);
        let c = self.2.spec_html(b.1);
        (a.0 + b.0 + c.0, c.1)
    }

    open spec fn html_ok(&self) -> bool {
        self.0.html_ok()
        && self.1.html_ok()
        && self.2.html_ok()
    }

    fn to_html_with_buf(self, buf: &mut String, position: &mut PositionState) {
        let (a, b, c) = self;
        a.to_html_with_buf(buf, position);
        position.set(Position::NextChild);
        b.to_html_with_buf(buf, position);
        c.to_html_with_buf(buf, position);
    }
}

impl<A: RenderHtml, B: RenderHtml, C: RenderHtml, D: RenderHtml> RenderHtml for (A, B, C, D) {
    open spec fn spec_html(&self, position: Position) -> (Seq<char>, Position) {
        let a = self.0.spec_html(position);
        let b = self.1.spec_html(Position::NextChild);
        let c = self.2.spec_html(b.1);
        let d = self.3.spec_html(c.1);
        (a.0 + b.0 + c.0 + d.0, d.1)
    }

    open spec fn html_ok(&self) -> bool {
        self.0.html_ok()
        && self.1.html_ok()
        && self.2.html_ok()
        && self.3.html_ok()
    }

    fn to_html_with_buf(self, buf: &mut String, position: &mut PositionState) {
        let (a, b, c, d) = self;
        a.to_html_with_buf(buf, position);
        position.set(Position::NextChild);
        b.to_html_with_buf(buf, position);
        c.to_html_with_buf(buf, position);
        d.to_html_with_buf(buf, position);
    }
}

impl<A: RenderHtml, B: RenderHtml, C: RenderHtml, D: RenderHtml, E: RenderHtml> RenderHtml for (A, B, C, D, E) {
    open spec fn spec_html(&self, position: Position) -> (Seq<char>, Position) {
        let a = self.0.spec_html(position);
        let b = self.1.spec_html(Position::NextChild);
        let c = self.2.spec_html(b.1);
        let d = self.3.spec_html(c.1);
        let e = self.4.spec_html(d.1);
        (a.0 + b.0 + c.0 + d.0 + e.0, e.1)
    }

    open spec fn html_ok(&self) -> bool {
        self.0.html_ok()
        && self.1.html_ok()
        && self.2.html_ok()
        && self.3.html_ok()
        && self.4.html_ok()
    }

    fn to_html_with_buf(self, buf: &mut String, position: &mut PositionState) {
        let (a, b, c, d, e) = self;
        a.to_html_with_buf(buf, position);
        position.set(Position::NextChild);
        b.to_html_with_buf(buf, position);
        c.to_html_with_buf(buf, position);
        d.to_html_with_buf(buf, position);
        e.to_html_with_buf(buf, position);
    }
}

impl<A: RenderHtml, B: RenderHtml, C: RenderHtml, D: RenderHtml, E: RenderHtml, F: RenderHtml> RenderHtml for (A, B, C, D, E, F) {
    open spec fn spec_html(&self, position: Position) -> (Seq<char>, Position) {
        let a = self.0.spec_html(position);
        let b = self.1.spec_html(Position::NextChild);
        let c = self.2.spec_html(b.1);
        let d = self.3.spec_html(c.1);
        let e = self.4.spec_html(d.1);
        let f = self.5.spec_html(e.1);
        (a.0 + b.0 + c.0 + d.0 + e.0 + f.0, f.1)
    }

    open spec fn html_ok(&self) -> bool {
        self.0.html_ok()
        && self.1.html_ok()
        && self.2.html_ok()
        && self.3.html_ok()
        && self.4.html_ok()
        && self.5.html_ok()
    }

    fn to_html_with_buf(self, buf: &mut String, position: &mut PositionState) {
        let (a, b, c, d, e, f) = self;
        a.to_html_with_buf(buf, position);
        position.set(Position::NextChild);
        b.to_html_with_buf(buf, position);
        c.to_html_with_buf(buf, position);
        d.to_html_with_buf(buf, position);
        e.to_html_with_buf(buf, position);
        f.to_html_with_buf(buf, position);
    }
}

impl<A: RenderHtml, B: RenderHtml, C: RenderHtml, D: RenderHtml, E: RenderHtml, F: RenderHtml, G: RenderHtml> RenderHtml for (A, B, C, D, E, F, G) {
    open spec fn spec_html(&self, position: Position) -> (Seq<char>, Position) {
        let a = self.0.spec_html(position);
        let b = self.1.spec_html(Position::NextChild);
        let c = self.2.spec_html(b.1);
        let d = self.3.spec_html(c.1);
        let e = self.4.spec_html(d.1);
        let f = self.5.spec_html(e.1);
        let g = self.6.spec_html(f.1);
        (a.0 + b.0 + c.0 + d.0 + e.0 + f.0 + g.0, g.1)
    }

    open spec fn html_ok(&self) -> bool {
        self.0.html_ok()
        && self.1.html_ok()
        && self.2.html_ok()
        && self.3.html_ok()
        && self.4.html_ok()
        && self.5.html_ok()
        && self.6.html_ok()
    }

    fn to_html_with_buf(self, buf: &mut String, position: &mut PositionState) {
        let (a, b, c, d, e, f, g) = self;
        a.to_html_with_buf(buf, position);
        position.set(Position::NextChild);
        b.to_html_with_buf(buf, position);
        c.to_html_with_buf(buf, position);
        d.to_html_with_buf(buf, position);
        e.to_html_with_buf(buf, position);
        f.to_html_with_buf(buf, position);
        g.to_html_with_buf(buf, position);
    }
}

impl<A: RenderHtml, B: RenderHtml, C: RenderHtml, D: RenderHtml, E: RenderHtml, F: RenderHtml, G: RenderHtml, H: RenderHtml> RenderHtml for (A, B, C, D, E, F, G, H) {
    open spec fn spec_html(&self, position: Position) -> (Seq<char>, Position) {
        let a = self.0.spec_html(position);
        let b = self.1.spec_html(Position::NextChild);
        let c = self.2.spec_html(b.1);
        let d = self.3.spec_html(c.1);
        let e = self.4.spec_html(d.1);
        let f = self.5.spec_html(e.1);
        let g = self.6.spec_html(f.1);
        let h = self.7.spec_html(g.1);
        (a.0 + b.0 + c.0 + d.0 + e.0 + f.0 + g.0 + h.0, h.1)
    }

    open spec fn html_ok(&self) -> bool {
        self.0.html_ok()
        && self.1.html_ok()
        && self.2.html_ok()
        && self.3.html_ok()
        && self.4.html_ok()
        && self.5.html_ok()
        && self.6.html_ok()
        && self.7.html_ok()
    }

    fn to_html_with_buf(self, buf: &mut String, position: &mut PositionState) {
        let (a, b, c, d, e, f, g, h) = self;
        a.to_html_with_buf(buf, position);
        position.set(Position::NextChild);
        b.to_html_with_buf(buf, position);
        c.to_html_with_buf(buf, position);
        d.to_html_with_buf(buf, position);
        e.to_html_with_buf(buf, position);
        f.to_html_with_buf(buf, position);
        g.to_html_with_buf(buf, position);
        h.to_html_with_buf(buf, position);
    }
}

impl<A: RenderHtml, B: RenderHtml, C: RenderHtml, D: RenderHtml, E: RenderHtml, F: RenderHtml, G: RenderHtml, H: RenderHtml, I: RenderHtml> RenderHtml for (A, B, C, D, E, F, G, H, I) {
    open spec fn spec_html(&self, position: Position) -> (Seq<char>, Position) {
        let a = self.0.spec_html(position);
        let b = self.1.spec_html(Position::NextChild);
        let c = self.2.spec_html(b.1);
        let d = self.3.spec_html(c.1);
        let e = self.4.spec_html(d.1);
        let f = self.5.spec_html(e.1);
        let g = self.6.spec_html(f.1);
        let h = self.7.spec_html(g.1);
        let i = self.8.spec_html(h.1);
        (a.0 + b.0 + c.0 + d.0 + e.0 + f.0 + g.0 + h.0 + i.0, i.1)
    }

    open spec fn html_ok(&self) -> bool {
        self.0.html_ok()
        && self.1.html_ok()
        && self.2.html_ok()
        && self.3.html_ok()
        && self.4.html_ok()
        && self.5.html_ok()
        && self.6.html_ok()
        && self.7.html_ok()
        && self.8.html_ok()
    }

    fn to_html_with_buf(self, buf: &mut String, position: &mut PositionState) {
        let (a, b, c, d, e, f, g, h, i) = self;
        a.to_html_with_buf(buf, position);
        position.set(Position::NextChild);
        b.to_html_with_buf(buf, position);
        c.to_html_with_buf(buf, position);
        d.to_html_with_buf(buf, position);
        e.to_html_with_buf(buf, position);
        f.to_html_with_buf(buf, position);
        g.to_html_with_buf(buf, position);
        h.to_html_with_buf(buf, position);
        i.to_html_with_buf(buf, position);
    }
}

impl<A: RenderHtml, B: RenderHtml, C: RenderHtml, D: RenderHtml, E: RenderHtml, F: RenderHtml, G: RenderHtml, H: RenderHtml, I: RenderHtml, J: RenderHtml> RenderHtml for (A, B, C, D, E, F, G, H, I, J) {
    open spec fn spec_html(&self, position: Position) -> (Seq<char>, Position) {
        let a = self.0.spec_html(position);
        let b = self.1.spec_html(Position::NextChild);
        let c = self.2.spec_html(b.1);
        let d = self.3.spec_html(c.1);
        let e = self.4.spec_html(d.1);
        let f = self.5.spec_html(e.1);
        let g = self.6.spec_html(f.1);
        let h = self.7.spec_html(g.1);
        let i = self.8.spec_html(h.1);
        let j = self.9.spec_html(i.1);
        (a.0 + b.0 + c.0 + d.0 + e.0 + f.0 + g.0 + h.0 + i.0 + j.0, j.1)
    }

    open spec fn html_ok(&self) -> bool {
        self.0.html_ok()
        && self.1.html_ok()
        && self.2.html_ok()
        && self.3.html_ok()
        && self.4.html_ok()
        && self.5.html_ok()
        && self.6.html_ok()
        && self.7.html_ok()
        && self.8.html_ok()
        && self.9.html_ok()
    }

    fn to_html_with_buf(self, buf: &mut String, position: &mut PositionState) {
        let (a, b, c, d, e, f, g, h, i, j) = self;
        a.to_html_with_buf(buf, position);
        position.set(Position::NextChild);
        b.to_html_with_buf(buf, position);
        c.to_html_with_buf(buf, position);
        d.to_html_with_buf(buf, position);
        e.to_html_with_buf(buf, position);
        f.to_html_with_buf(buf, position);
        g.to_html_with_buf(buf, position);
        h.to_html_with_buf(buf, position);
        i.to_html_with_buf(buf, position);
        j.to_html_with_buf(buf, position);
    }
}

impl<A: RenderHtml, B: RenderHtml, C: RenderHtml, D: RenderHtml, E: RenderHtml, F: RenderHtml, G: RenderHtml, H: RenderHtml, I: RenderHtml, J: RenderHtml, K: RenderHtml> RenderHtml for (A, B, C, D, E, F, G, H, I, J, K) {
    open spec fn spec_html(&self, position: Position) -> (Seq<char>, Position) {
        let a = self.0.spec_html(position);
        let b = self.1.spec_html(Position::NextChild);
        let c = self.2.spec_html(b.1);
        let d = self.3.spec_html(c.1);
        let e = self.4.spec_html(d.1);
        let f = self.5.spec_html(e.1);
        let g = self.6.spec_html(f.1);
        let h = self.7.spec_html(g.1);
        let i = self.8.spec_html(h.1);
        let j = self.9.spec_html(i.1);
        let k = self.10.spec_html(j.1);
        (a.0 + b.0 + c.0 + d.0 + e.0 + f.0 + g.0 + h.0 + i.0 + j.0 + k.0, k.1)
    }

    open spec fn html_ok(&self) -> bool {
        self.0.html_ok()
        && self.1.html_ok()
        && self.2.html_ok()
        && self.3.html_ok()
        && self.4.html_ok()
        && self.5.html_ok()
        && self.6.html_ok()
        && self.7.html_ok()
        && self.8.html_ok()
        && self.9.html_ok()
        && self.10.html_ok()
    }

    fn to_html_with_buf(self, buf: &mut String, position: &mut PositionState) {
        let (a, b, c, d, e, f, g, h, i, j, k) = self;
        a.to_html_with_buf(buf, position);
        position.set(Position::NextChild);
        b.to_html_with_buf(buf, position);
        c.to_html_with_buf(buf, position);
        d.to_html_with_buf(buf, position);
        e.to_html_with_buf(buf, position);
        f.to_html_with_buf(buf, position);
        g.to_html_with_buf(buf, position);
        h.to_html_with_buf(buf, position);
        i.to_html_with_buf(buf, position);
        j.to_html_with_buf(buf, position);
        k.to_html_with_buf(buf, position);
    }
}

impl<A: RenderHtml, B: RenderHtml, C: RenderHtml, D: RenderHtml, E: RenderHtml, F: RenderHtml, G: RenderHtml, H: RenderHtml, I: RenderHtml, J: RenderHtml, K: RenderHtml, L: RenderHtml> RenderHtml for (A, B, C, D, E, F, G, H, I, J, K, L) {
    open spec fn spec_html(&self, position: Position) -> (Seq<char>, Position) {
        let a = self.0.spec_html(position);
        let b = self.1.spec_html(Position::NextChild);
        let c = self.2.spec_html(b.1);
        let d = self.3.spec_html(c.1);
        let e = self.4.spec_html(d.1);
        let f = self.5.spec_html(e.1);
        let g = self.6.spec_html(f.1);
        let h = self.7.spec_html(g.1);
        let i = self.8.spec_html(h.1);
        let j = self.9.spec_html(i.1);
        let k = self.10.spec_html(j.1);
        let l = self.11.spec_html(k.1);
        (a.0 + b.0 + c.0 + d.0 + e.0 + f.0 + g.0 + h.0 + i.0 + j.0 + k.0 + l.0, l.1)
    }

    open spec fn html_ok(&self) -> bool {
        self.0.html_ok()
        && self.1.html_ok()
        && self.2.html_ok()
        && self.3.html_ok()
        && self.4.html_ok()
        && self.5.html_ok()
        && self.6.html_ok()
        && self.7.html_ok()
        && self.8.html_ok()
        && self.9.html_ok()
        && self.10.html_ok()
        && self.11.html_ok()
    }

    fn to_html_with_buf(self, buf: &mut String, position: &mut PositionState) {
        let (a, b, c, d, e, f, g, h, i, j, k, l) = self;
        a.to_html_with_buf(buf, position);
        position.set(Position::NextChild);
        b.to_html_with_buf(buf, position);
        c.to_html_with_buf(buf, position);
        d.to_html_with_buf(buf, position);
        e.to_html_with_buf(buf, position);
        f.to_html_with_buf(buf, position);
        g.to_html_with_buf(buf, position);
        h.to_html_with_buf(buf, position);
        i.to_html_with_buf(buf, position);
        j.to_html_with_buf(buf, position);
        k.to_html_with_buf(buf, position);
        l.to_html_with_buf(buf, position);
    }
}

impl<A: RenderHtml, B: RenderHtml, C: RenderHtml, D: RenderHtml, E: RenderHtml, F: RenderHtml, G: RenderHtml, H: RenderHtml, I: RenderHtml, J: RenderHtml, K: RenderHtml, L: RenderHtml, M: RenderHtml> RenderHtml for (A, B, C, D, E, F, G, H, I, J, K, L, M) {
    open spec fn spec_html(&self, position: Position) -> (Seq<char>, Position) {
        let a = self.0.spec_html(position);
        let b = self.1.spec_html(Position::NextChild);
        let c = self.2.spec_html(b.1);
        let d = self.3.spec_html(c.1);
        let e = self.4.spec_html(d.1);
        let f = self.5.spec_html(e.1);
        let g = self.6.spec_html(f.1);
        let h = self.7.spec_html(g.1);
        let i = self.8.spec_html(h.1);
        let j = self.9.spec_html(i.1);
        let k = self.10.spec_html(j.1);
        let l = self.11.spec_html(k.1);
        let m = self.12.spec_html(l.1);
        (a.0 + b.0 + c.0 + d.0 + e.0 + f.0 + g.0 + h.0 + i.0 + j.0 + k.0 + l.0 + m.0, m.1)
    }

    open spec fn html_ok(&self) -> bool {
        self.0.html_ok()
        && self.1.html_ok()
        && self.2.html_ok()
        && self.3.html_ok()
        && self.4.html_ok()
        && self.5.html_ok()
        && self.6.html_ok()
        && self.7.html_ok()
        && self.8.html_ok()
        && self.9.html_ok()
        && self.10.html_ok()
        && self.11.html_ok()
        && self.12.html_ok()
    }

    fn to_html_with_buf(self, buf: &mut String, position: &mut PositionState) {
        let (a, b, c, d, e, f, g, h, i, j, k, l, m) = self;
        a.to_html_with_buf(buf, position);
        position.set(Position::NextChild);
        b.to_html_with_buf(buf, position);
        c.to_html_with_buf(buf, position);
        d.to_html_with_buf(buf, position);
        e.to_html_with_buf(buf, position);
        f.to_html_with_buf(buf, position);
        g.to_html_with_buf(buf, position);
        h.to_html_with_buf(buf, position);
        i.to_html_with_buf(buf, position);
        j.to_html_with_buf(buf, position);
        k.to_html_with_buf(buf, position);
        l.to_html_with_buf(buf, position);
        m.to_html_with_buf(buf, position);
    }
}

impl<A: RenderHtml, B: RenderHtml, C: RenderHtml, D: RenderHtml, E: RenderHtml, F: RenderHtml, G: RenderHtml, H: RenderHtml, I: RenderHtml, J: RenderHtml, K: RenderHtml, L: RenderHtml, M: RenderHtml, N: RenderHtml> RenderHtml for (A, B, C, D, E, F, G, H, I, J, K, L, M, N) {
    open spec fn spec_html(&self, position: Position) -> (Seq<char>, Position) {
        let a = self.0.spec_html(position);
        let b = self.1.spec_html(Position::NextChild);
        let c = self.2.spec_html(b.1);
        let d = self.3.spec_html(c.1);
        let e = self.4.spec_html(d.1);
        let f = self.5.spec_html(e.1);
        let g = self.6.spec_html(f.1);
        let h = self.7.spec_html(g.1);
        let i = self.8.spec_html(h.1);
        let j = self.9.spec_html(i.1);
        let k = self.10.spec_html(j.1);
        let l = self.11.spec_html(k.1);
        let m = self.12.spec_html(l.1);
        let n = self.13.spec_html(m.1);
        (a.0 + b.0 + c.0 + d.0 + e.0 + f.0 + g.0 + h.0 + i.0 + j.0 + k.0 + l.0 + m.0 + n.0, n.1)
    }

    open spec fn html_ok(&self) -> bool {
        self.0.html_ok()
        && self.1.html_ok()
        && self.2.html_ok()
        && self.3.html_ok()
        && self.4.html_ok()
        && self.5.html_ok()
        && self.6.html_ok()
        && self.7.html_ok()
        && self.8.html_ok()
        && self.9.html_ok()
        && self.10.html_ok()
        && self.11.html_ok()
        && self.12.html_ok()
        && self.13.html_ok()
    }

    fn to_html_with_buf(self, buf: &mut String, position: &mut PositionState) {
        let (a, b, c, d, e, f, g, h, i, j, k, l, m, n) = self;
        a.to_html_with_buf(buf, position);
        position.set(Position::NextChild);
        b.to_html_with_buf(buf, position);
        c.to_html_with_buf(buf, position);
        d.to_html_with_buf(buf, position);
        e.to_html_with_buf(buf, position);
        f.to_html_with_buf(buf, position);
        g.to_html_with_buf(buf, position);
        h.to_html_with_buf(buf, position);
        i.to_html_with_buf(buf, position);
        j.to_html_with_buf(buf, position);
        k.to_html_with_buf(buf, position);
        l.to_html_with_buf(buf, position);
        m.to_html_with_buf(buf, position);
        n.to_html_with_buf(buf, position);
    }
}

impl<A: RenderHtml, B: RenderHtml, C: RenderHtml, D: RenderHtml, E: RenderHtml, F: RenderHtml, G: RenderHtml, H: RenderHtml, I: RenderHtml, J: RenderHtml, K: RenderHtml, L: RenderHtml, M: RenderHtml, N: RenderHtml, O: RenderHtml> RenderHtml for (A, B, C, D, E, F, G, H, I, J, K, L, M, N, O) {
    open spec fn spec_html(&self, position: Position) -> (Seq<char>, Position) {
        let a = self.0.spec_html(position);
        let b = self.1.spec_html(Position::NextChild);
        let c = self.2.spec_html(b.1);
        let d = self.3.spec_html(c.1);
        let e = self.4.spec_html(d.1);
        let f = self.5.spec_html(e.1);
        let g = self.6.spec_html(f.1);
        let h = self.7.spec_html(g.1);
        let i = self.8.spec_html(h.1);
        let j = self.9.spec_html(i.1);
        let k = self.10.spec_html(j.1);
        let l = self.11.spec_html(k.1);
        let m = self.12.spec_html(l.1);
        let n = self.13.spec_html(m.1);
        let o = self.14.spec_html(n.1);
        (a.0 + b.0 + c.0 + d.0 + e.0 + f.0 + g.0 + h.0 + i.0 + j.0 + k.0 + l.0 + m.0 + n.0 + o.0, o.1)
    }

    open spec fn html_ok(&self) -> bool {
        self.0.html_ok()
        && self.1.html_ok()
        && self.2.html_ok()
        && self.3.html_ok()
        && self.4.html_ok()
        && self.5.html_ok()
        && self.6.html_ok()
        && self.7.html_ok()
        && self.8.html_ok()
        && self.9.html_ok()
        && self.10.html_ok()
        && self.11.html_ok()
        && self.12.html_ok()
        && self.13.html_ok()
        && self.14.html_ok()
    }

    fn to_html_with_buf(self, buf: &mut String, position: &mut PositionState) {
        let (a, b, c, d, e, f, g, h, i, j, k, l, m, n, o) = self;
        a.to_html_with_buf(buf, position);
        position.set(Position::NextChild);
        b.to_html_with_buf(buf, position);
        c.to_html_with_buf(buf, position);
        d.to_html_with_buf(buf, position);
        e.to_html_with_buf(buf, position);
        f.to_html_with_buf(buf, position);
        g.to_html_with_buf(buf, position);
        h.to_html_with_buf(buf, position);
        i.to_html_with_buf(buf, position);
        j.to_html_with_buf(buf, position);
        k.to_html_with_buf(buf, position);
        l.to_html_with_buf(buf, position);
        m.to_html_with_buf(buf, position);
        n.to_html_with_buf(buf, position);
        o.to_html_with_buf(buf, position);
    }
}

impl<A: RenderHtml, B: RenderHtml, C: RenderHtml, D: RenderHtml, E: RenderHtml, F: RenderHtml, G: RenderHtml, H: RenderHtml, I: RenderHtml, J: RenderHtml, K: RenderHtml, L: RenderHtml, M: RenderHtml, N: RenderHtml, O: RenderHtml, P: RenderHtml> RenderHtml for (A, B, C, D, E, F, G, H, I, J, K, L, M, N, O, P) {
    open spec fn spec_html(&self, position: Position) -> (Seq<char>, Position) {
        let a = self.0.spec_html(position);
        let b = self.1.spec_html(Position::NextChild);
        let c = self.2.spec_html(b.1);
        let d = self.3.spec_html(c.1);
        let e = self.4.spec_html(d.1);
        let f = self.5.spec_html(e.1);
        let g = self.6.spec_html(f.1);
        let h = self.7.spec_html(g.1);
        let i = self.8.spec_html(h.1);
        let j = self.9.spec_html(i.1);
        let k = self.10.spec_html(j.1);
        let l = self.11.spec_html(k.1);
        let m = self.12.spec_html(l.1);
        let n = self.13.spec_html(m.1);
        let o = self.14.spec_html(n.1);
        let p = self.15.spec_html(o.1);
        (a.0 + b.0 + c.0 + d.0 + e.0 + f.0 + g.0 + h.0 + i.0 + j.0 + k.0 + l.0 + m.0 + n.0 + o.0 + p.0, p.1)
    }

    open spec fn html_ok(&self) -> bool {
        self.0.html_ok()
        && self.1.html_ok()
        && self.2.html_ok()
        && self.3.html_ok()
        && self.4.html_ok()
        && self.5.html_ok()
        && self.6.html_ok()
        && self.7.html_ok()
        && self.8.html_ok()
        && self.9.html_ok()
        && self.10.html_ok()
        && self.11.html_ok()
        && self.12.html_ok()
        && self.13.html_ok()
        && self.14.html_ok()
        && self.15.html_ok()
    }

    fn to_html_with_buf(self, buf: &mut String, position: &mut PositionState) {
        let (a, b, c, d, e, f, g, h, i, j, k, l, m, n, o, p) = self;
        a.to_html_with_buf(buf, position);
        position.set(Position::NextChild);
        b.to_html_with_buf(buf, position);
        c.to_html_with_buf(buf, position);
        d.to_html_with_buf(buf, position);
        e.to_html_with_buf(buf, position);
        f.to_html_with_buf(buf, position);
        g.to_html_with_buf(buf, position);
        h.to_html_with_buf(buf, position);
        i.to_html_with_buf(buf, position);
        j.to_html_with_buf(buf, position);
        k.to_html_with_buf(buf, position);
        l.to_html_with_buf(buf, position);
        m.to_html_with_buf(buf, position);
        n.to_html_with_buf(buf, position);
        o.to_html_with_buf(buf, position);
        p.to_html_with_buf(buf, position);
    }
}

impl<A: RenderHtml, B: RenderHtml, C: RenderHtml, D: RenderHtml, E: RenderHtml, F: RenderHtml, G: RenderHtml, H: RenderHtml, I: RenderHtml, J: RenderHtml, K: RenderHtml, L: RenderHtml, M: RenderHtml, N: RenderHtml, O: RenderHtml, P: RenderHtml, Q: RenderHtml> RenderHtml for (A, B, C, D, E, F, G, H, I, J, K, L, M, N, O, P, Q) {
    open spec fn spec_html(&self, position: Position) -> (Seq<char>, Position) {
        let a = self.0.spec_html(position);
        let b = self.1.spec_html(Position::NextChild);
        let c = self.2.spec_html(b.1);
        let d = self.3.spec_html(c.1);
        let e = self.4.spec_html(d.1);
        let f = self.5.spec_html(e.1);
        let g = self.6.spec_html(f.1);
        let h = self.7.spec_html(g.1);
        let i = self.8.spec_html(h.1);
        let j = self.9.spec_html(i.1);
        let k = self.10.spec_html(j.1);
        let l = self.11.spec_html(k.1);
        let m = self.12.spec_html(l.1);
        let n = self.13.spec_html(m.1);
        let o = self.14.spec_html(n.1);
        let p = self.15.spec_html(o.1);
        let q = self.16.spec_html(p.1);
        (a.0 + b.0 + c.0 + d.0 + e.0 + f.0 + g.0 + h.0 + i.0 + j.0 + k.0 + l.0 + m.0 + n.0 + o.0 + p.0 + q.0, q.1)
    }

    open spec fn html_ok(&self) -> bool {
        self.0.html_ok()
        && self.1.html_ok()
        && self.2.html_ok()
        && self.3.html_ok()
        && self.4.html_ok()
        && self.5.html_ok()
        && self.6.html_ok()
        && self.7.html_ok()
        && self.8.html_ok()
        && self.9.html_ok()
        && self.10.html_ok()
        && self.11.html_ok()
        && self.12.html_ok()
        && self.13.html_ok()
        && self.14.html_ok()
        && self.15.html_ok()
        && self.16.html_ok()
    }

    fn to_html_with_buf(self, buf: &mut String, position: &mut PositionState) {
        let (a, b, c, d, e, f, g, h, i, j, k, l, m, n, o, p, q) = self;
        a.to_html_with_buf(buf, position);
        position.set(Position::NextChild);
        b.to_html_with_buf(buf, position);
        c.to_html_with_buf(buf, position);
        d.to_html_with_buf(buf, position);
        e.to_html_with_buf(buf, position);
        f.to_html_with_buf(buf, position);
        g.to_html_with_buf(buf, position);
        h.to_html_with_buf(buf, position);
        i.to_html_with_buf(buf, position);
        j.to_html_with_buf(buf, position);
        k.to_html_with_buf(buf, position);
        l.to_html_with_buf(buf, position);
        m.to_html_with_buf(buf, position);
        n.to_html_with_buf(buf, position);
        o.to_html_with_buf(buf, position);
        p.to_html_with_buf(buf, position);
        q.to_html_with_buf(buf, position);
    }
}

impl<A: RenderHtml, B: RenderHtml, C: RenderHtml, D: RenderHtml, E: RenderHtml, F: RenderHtml, G: RenderHtml, H: RenderHtml, I: RenderHtml, J: RenderHtml, K: RenderHtml, L: RenderHtml, M: RenderHtml, N: RenderHtml, O: RenderHtml, P: RenderHtml, Q: RenderHtml, R: RenderHtml> RenderHtml for (A, B, C, D, E, F, G, H, I, J, K, L, M, N, O, P, Q, R) {
    open spec fn spec_html(&self, position: Position) -> (Seq<char>, Position) {
        let a = self.0.spec_html(position);
        let b = self.1.spec_html(Position::NextChild);
        let c = self.2.spec_html(b.1);
        let d = self.3.spec_html(c.1);
        let e = self.4.spec_html(d.1);
        let f = self.5.spec_html(e.1);
        let g = self.6.spec_html(f.1);
        let h = self.7.spec_html(g.1);
        let i = self.8.spec_html(h.1);
        let j = self.9.spec_html(i.1);
        let k = self.10.spec_html(j.1);
        let l = self.11.spec_html(k.1);
        let m = self.12.spec_html(l.1);
        let n = self.13.spec_html(m.1);
        let o = self.14.spec_html(n.1);
        let p = self.15.spec_html(o.1);
        let q = self.16.spec_html(p.1);
        let r = self.17.spec_html(q.1);
        (a.0 + b.0 + c.0 + d.0 + e.0 + f.0 + g.0 + h.0 + i.0 + j.0 + k.0 + l.0 + m.0 + n.0 + o.0 + p.0 + q.0 + r.0, r.1)
    }

    open spec fn html_ok(&self) -> bool {
        self.0.html_ok()
        && self.1.html_ok()
        && self.2.html_ok()
        && self.3.html_ok()
        && self.4.html_ok()
        && self.5.html_ok()
        && self.6.html_ok()
        && self.7.html_ok()
        && self.8.html_ok()
        && self.9.html_ok()
        && self.10.html_ok()
        && self.11.html_ok()
        && self.12.html_ok()
        && self.13.html_ok()
        && self.14.html_ok()
        && self.15.html_ok()
        && self.16.html_ok()
        && self.17.html_ok()
    }

    fn to_html_with_buf(self, buf: &mut String, position: &mut PositionState) {
        let (a, b, c, d, e, f, g, h, i, j, k, l, m, n, o, p, q, r) = self;
        a.to_html_with_buf(buf, position);
        position.set(Position::NextChild);
        b.to_html_with_buf(buf, position);
        c.to_html_with_buf(buf, position);
        d.to_html_with_buf(buf, position);
        e.to_html_with_buf(buf, position);
        f.to_html_with_buf(buf, position);
        g.to_html_with_buf(buf, position);
        h.to_html_with_buf(buf, position);
        i.to_html_with_buf(buf, position);
        j.to_html_with_buf(buf, position);
        k.to_html_with_buf(buf, position);
        l.to_html_with_buf(buf, position);
        m.to_html_with_buf(buf, position);
        n.to_html_with_buf(buf, position);
        o.to_html_with_buf(buf, position);
        p.to_html_with_buf(buf, position);
        q.to_html_with_buf(buf, position);
        r.to_html_with_buf(buf, position);
    }
}

impl<A: RenderHtml, B: RenderHtml, C: RenderHtml, D: RenderHtml, E: RenderHtml, F: RenderHtml, G: RenderHtml, H: RenderHtml, I: RenderHtml, J: RenderHtml, K: RenderHtml, L: RenderHtml, M: RenderHtml, N: RenderHtml, O: RenderHtml, P: RenderHtml, Q: RenderHtml, R: RenderHtml, S: RenderHtml> RenderHtml for (A, B, C, D, E, F, G, H, I, J, K, L, M, N, O, P, Q, R, S) {
    open spec fn spec_html(&self, position: Position) -> (Seq<char>, Position) {
        let a = self.0.spec_html(position);
        let b = self.1.spec_html(Position::NextChild);
        let c = self.2.spec_html(b.1);
        let d = self.3.spec_html(c.1);
        let e = self.4.spec_html(d.1);
        let f = self.5.spec_html(e.1);
        let g = self.6.spec_html(f.1);
        let h = self.7.spec_html(g.1);
        let i = self.8.spec_html(h.1);
        let j = self.9.spec_html(i.1);
        let k = self.10.spec_html(j.1);
        let l = self.11.spec_html(k.1);
        let m = self.12.spec_html(l.1);
        let n = self.13.spec_html(m.1);
        let o = self.14.spec_html(n.1);
        let p = self.15.spec_html(o.1);
        let q = self.16.spec_html(p.1);
        let r = self.17.spec_html(q.1);
        let s = self.18.spec_html(r.1);
        (a.0 + b.0 + c.0 + d.0 + e.0 + f.0 + g.0 + h.0 + i.0 + j.0 + k.0 + l.0 + m.0 + n.0 + o.0 + p.0 + q.0 + r.0 + s.0, s.1)
    }

    open spec fn html_ok(&self) -> bool {
        self.0.html_ok()
        && self.1.html_ok()
        && self.2.html_ok()
        && self.3.html_ok()
        && self.4.html_ok()
        && self.5.html_ok()
        && self.6.html_ok()
        && self.7.html_ok()
        && self.8.html_ok()
        && self.9.html_ok()
        && self.10.html_ok()
        && self.11.html_ok()
        && self.12.html_ok()
        && self.13.html_ok()
        && self.14.html_ok()
        && self.15.html_ok()
        && self.16.html_ok()
        && self.17.html_ok()
        && self.18.html_ok()
    }

    fn to_html_with_buf(self, buf: &mut String, position: &mut PositionState) {
        let (a, b, c, d, e, f, g, h, i, j, k, l, m, n, o, p, q, r, s) = self;
        a.to_html_with_buf(buf, position);
        position.set(Position::NextChild);
        b.to_html_with_buf(buf, position);
        c.to_html_with_buf(buf, position);
        d.to_html_with_buf(buf, position);
        e.to_html_with_buf(buf, position);
        f.to_html_with_buf(buf, position);
        g.to_html_with_buf(buf, position);
        h.to_html_with_buf(buf, position);
        i.to_html_with_buf(buf, position);
        j.to_html_with_buf(buf, position);
        k.to_html_with_buf(buf, position);
        l.to_html_with_buf(buf, position);
        m.to_html_with_buf(buf, position);
        n.to_html_with_buf(buf, position);
        o.to_html_with_buf(buf, position);
        p.to_html_with_buf(buf, position);
        q.to_html_with_buf(buf, position);
        r.to_html_with_buf(buf, position);
        s.to_html_with_buf(buf, position);
    }
}

impl<A: RenderHtml, B: RenderHtml, C: RenderHtml, D: RenderHtml, E: RenderHtml, F: RenderHtml, G: RenderHtml, H: RenderHtml, I: RenderHtml, J: RenderHtml, K: RenderHtml, L: RenderHtml, M: RenderHtml, N: RenderHtml, O: RenderHtml, P: RenderHtml, Q: RenderHtml, R: RenderHtml, S: RenderHtml, T: RenderHtml> RenderHtml for (A, B, C, D, E, F, G, H, I, J, K, L, M, N, O, P, Q, R, S, T) {
    open spec fn spec_html(&self, position: Position) -> (Seq<char>, Position) {
        let a = self.0.spec_html(position);
        let b = self.1.spec_html(Position::NextChild);
        let c = self.2.spec_html(b.1);
        let d = self.3.spec_html(c.1);
        let e = self.4.spec_html(d.1);
        let f = self.5.spec_html(e.1);
        let g = self.6.spec_html(f.1);
        let h = self.7.spec_html(g.1);
        let i = self.8.spec_html(h.1);
        let j = self.9.spec_html(i.1);
        let k = self.10.spec_html(j.1);
        let l = self.11.spec_html(k.1);
        let m = self.12.spec_html(l.1);
        let n = self.13.spec_html(m.1);
        let o = self.14.spec_html(n.1);
        let p = self.15.spec_html(o.1);
        let q = self.16.spec_html(p.1);
        let r = self.17.spec_html(q.1);
        let s = self.18.spec_html(r.1);
        let t = self.19.spec_html(s.1);
        (a.0 + b.0 + c.0 + d.0 + e.0 + f.0 + g.0 + h.0 + i.0 + j.0 + k.0 + l.0 + m.0 + n.0 + o.0 + p.0 + q.0 + r.0 + s.0 + t.0, t.1)
    }

    open spec fn html_ok(&self) -> bool {
        self.0.html_ok()
        && self.1.html_ok()
        && self.2.html_ok()
        && self.3.html_ok()
        && self.4.html_ok()
        && self.5.html_ok()
        && self.6.html_ok()
        && self.7.html_ok()
        && self.8.html_ok()
        && self.9.html_ok()
        && self.10.html_ok()
        && self.11.html_ok()
        && self.12.html_ok()
        && self.13.html_ok()
        && self.14.html_ok()
        && self.15.html_ok()
        && self.16.html_ok()
        && self.17.html_ok()
        && self.18.html_ok()
        && self.19.html_ok()
    }

    fn to_html_with_buf(self, buf: &mut String, position: &mut PositionState) {
        let (a, b, c, d, e, f, g, h, i, j, k, l, m, n, o, p, q, r, s, t) = self;
        a.to_html_with_buf(buf, position);
        position.set(Position::NextChild);
        b.to_html_with_buf(buf, position);
        c.to_html_with_buf(buf, position);
        d.to_html_with_buf(buf, position);
        e.to_html_with_buf(buf, position);
        f.to_html_with_buf(buf, position);
        g.to_html_with_buf(buf, position);
        h.to_html_with_buf(buf, position);
        i.to_html_with_buf(buf, position);
        j.to_html_with_buf(buf, position);
        k.to_html_with_buf(buf, position);
        l.to_html_with_buf(buf, position);
        m.to_html_with_buf(buf, position);
        n.to_html_with_buf(buf, position);
        o.to_html_with_buf(buf, position);
        p.to_html_with_buf(buf, position);
        q.to_html_with_buf(buf, position);
        r.to_html_with_buf(buf, position);
        s.to_html_with_buf(buf, position);
        t.to_html_with_buf(buf, position);
    }
}

impl<A: RenderHtml, B: RenderHtml, C: RenderHtml, D: RenderHtml, E: RenderHtml, F: RenderHtml, G: RenderHtml, H: RenderHtml, I: RenderHtml, J: RenderHtml, K: RenderHtml, L: RenderHtml, M: RenderHtml, N: RenderHtml, O: RenderHtml, P: RenderHtml, Q: RenderHtml, R: RenderHtml, S: RenderHtml, T: RenderHtml, U: RenderHtml> RenderHtml for (A, B, C, D, E, F, G, H, I, J, K, L, M, N, O, P, Q, R, S, T, U) {
    open spec fn spec_html(&self, position: Position) -> (Seq<char>, Position) {
        let a = self.0.spec_html(position);
        let b = self.1.spec_html(Position::NextChild);
        let c = self.2.spec_html(b.1);
        let d = self.3.spec_html(c.1);
        let e = self.4.spec_html(d.1);
        let f = self.5.spec_html(e.1);
        let g = self.6.spec_html(f.1);
        let h = self.7.spec_html(g.1);
        let i = self.8.spec_html(h.1);
        let j = self.9.spec_html(i.1);
        let k = self.10.spec_html(j.1);
        let l = self.11.spec_html(k.1);
        let m = self.12.spec_html(l.1);
        let n = self.13.spec_html(m.1);
        let o = self.14.spec_html(n.1);
        let p = self.15.spec_html(o.1);
        let q = self.16.spec_html(p.1);
        let r = self.17.spec_html(q.1);
        let s = self.18.spec_html(r.1);
        let t = self.19.spec_html(s.1);
        let u = self.20.spec_html(t.1);
        (a.0 + b.0 + c.0 + d.0 + e.0 + f.0 + g.0 + h.0 + i.0 + j.0 + k.0 + l.0 + m.0 + n.0 + o.0 + p.0 + q.0 + r.0 + s.0 + t.0 + u.0, u.1)
    }

    open spec fn html_ok(&self) -> bool {
        self.0.html_ok()
        && self.1.html_ok()
        && self.2.html_ok()
        && self.3.html_ok()
        && self.4.html_ok()
        && self.5.html_ok()
        && self.6.html_ok()
        && self.7.html_ok()
        && self.8.html_ok()
        && self.9.html_ok()
        && self.10.html_ok()
        && self.11.html_ok()
        && self.12.html_ok()
        && self.13.html_ok()
        && self.14.html_ok()
        && self.15.html_ok()
        && self.16.html_ok()
        && self.17.html_ok()
        && self.18.html_ok()
        && self.19.html_ok()
        && self.20.html_ok()
    }

    fn to_html_with_buf(self, buf: &mut String, position: &mut PositionState) {
        let (a, b, c, d, e, f, g, h, i, j, k, l, m, n, o, p, q, r, s, t, u) = self;
        a.to_html_with_buf(buf, position);
        position.set(Position::NextChild);
        b.to_html_with_buf(buf, position);
        c.to_html_with_buf(buf, position);
        d.to_html_with_buf(buf, position);
        e.to_html_with_buf(buf, position);
        f.to_html_with_buf(buf, position);
        g.to_html_with_buf(buf, position);
        h.to_html_with_buf(buf, position);
        i.to_html_with_buf(buf, position);
        j.to_html_with_buf(buf, position);
        k.to_html_with_buf(buf, position);
        l.to_html_with_buf(buf, position);
        m.to_html_with_buf(buf, position);
        n.to_html_with_buf(buf, position);
        o.to_html_with_buf(buf, position);
        p.to_html_with_buf(buf, position);
        q.to_html_with_buf(buf, position);
        r.to_html_with_buf(buf, position);
        s.to_html_with_buf(buf, position);
        t.to_html_with_buf(buf, position);
        u.to_html_with_buf(buf, position);
    }
}

impl<A: RenderHtml, B: RenderHtml, C: RenderHtml, D: RenderHtml, E: RenderHtml, F: RenderHtml, G: RenderHtml, H: RenderHtml, I: RenderHtml, J: RenderHtml, K: RenderHtml, L: RenderHtml, M: RenderHtml, N: RenderHtml, O: RenderHtml, P: RenderHtml, Q: RenderHtml, R: RenderHtml, S: RenderHtml, T: RenderHtml, U: RenderHtml, V: RenderHtml> RenderHtml for (A, B, C, D, E, F, G, H, I, J, K, L, M, N, O, P, Q, R, S, T, U, V) {
    open spec fn spec_html(&self, position: Position) -> (Seq<char>, Position) {
        let a = self.0.spec_html(position);
        let b = self.1.spec_html(Position::NextChild);
        let c = self.2.spec_html(b.1);
        let d = self.3.spec_html(c.1);
        let e = self.4.spec_html(d.1);
        let f = self.5.spec_html(e.1);
        let g = self.6.spec_html(f.1);
        let h = self.7.spec_html(g.1);
        let i = self.8.spec_html(h.1);
        let j = self.9.spec_html(i.1);
        let k = self.10.spec_html(j.1);
        let l = self.11.spec_html(k.1);
        let m = self.12.spec_html(l.1);
        let n = self.13.spec_html(m.1);
        let o = self.14.spec_html(n.1);
        let p = self.15.spec_html(o.1);
        let q = self.16.spec_html(p.1);
        let r = self.17.spec_html(q.1);
        let s = self.18.spec_html(r.1);
        let t = self.19.spec_html(s.1);
        let u = self.20.spec_html(t.1);
        let v = self.21.spec_html(u.1);
        (a.0 + b.0 + c.0 + d.0 + e.0 + f.0 + g.0 + h.0 + i.0 + j.0 + k.0 + l.0 + m.0 + n.0 + o.0 + p.0 + q.0 + r.0 + s.0 + t.0 + u.0 + v.0, v.1)
    }

    open spec fn html_ok(&self) -> bool {
        self.0.html_ok()
        && self.1.html_ok()
        && self.2.html_ok()
        && self.3.html_ok()
        && self.4.html_ok()
        && self.5.html_ok()
        && self.6.html_ok()
        && self.7.html_ok()
        && self.8.html_ok()
        && self.9.html_ok()
        && self.10.html_ok()
        && self.11.html_ok()
        && self.12.html_ok()
        && self.13.html_ok()
        && self.14.html_ok()
        && self.15.html_ok()
        && self.16.html_ok()
        && self.17.html_ok()
        && self.18.html_ok()
        && self.19.html_ok()
        && self.20.html_ok()
        && self.21.html_ok()
    }

    fn to_html_with_buf(self, buf: &mut String, position: &mut PositionState) {
        let (a, b, c, d, e, f, g, h, i, j, k, l, m, n, o, p, q, r, s, t, u, v) = self;
        a.to_html_with_buf(buf, position);
        position.set(Position::NextChild);
        b.to_html_with_buf(buf, position);
        c.to_html_with_buf(buf, position);
        d.to_html_with_buf(buf, position);
        e.to_html_with_buf(buf, position);
        f.to_html_with_buf(buf, position);
        g.to_html_with_buf(buf, position);
        h.to_html_with_buf(buf, position);
        i.to_html_with_buf(buf, position);
        j.to_html_with_buf(buf, position);
        k.to_html_with_buf(buf, position);
        l.to_html_with_buf(buf, position);
        m.to_html_with_buf(buf, position);
        n.to_html_with_buf(buf, position);
        o.to_html_with_buf(buf, position);
        p.to_html_with_buf(buf, position);
        q.to_html_with_buf(buf, position);
        r.to_html_with_buf(buf, position);
        s.to_html_with_buf(buf, position);
        t.to_html_with_buf(buf, position);
        u.to_html_with_buf(buf, position);
        v.to_html_with_buf(buf, position);
    }
}

impl<A: RenderHtml, B: RenderHtml, C: RenderHtml, D: RenderHtml, E: RenderHtml, F: RenderHtml, G: RenderHtml, H: RenderHtml, I: RenderHtml, J: RenderHtml, K: RenderHtml, L: RenderHtml, M: RenderHtml, N: RenderHtml, O: RenderHtml, P: RenderHtml, Q: RenderHtml, R: RenderHtml, S: RenderHtml, T: RenderHtml, U: RenderHtml, V: RenderHtml, W: RenderHtml> RenderHtml for (A, B, C, D, E, F, G, H, I, J, K, L, M, N, O, P, Q, R, S, T, U, V, W) {
    open spec fn spec_html(&self, position: Position) -> (Seq<char>, Position) {
        let a = self.0.spec_html(position);
        let b = self.1.spec_html(Position::NextChild);
        let c = self.2.spec_html(b.1);
        let d = self.3.spec_html(c.1);
        let e = self.4.spec_html(d.1);
        let f = self.5.spec_html(e.1);
        let g = self.6.spec_html(f.1);
        let h = self.7.spec_html(g.1);
        let i = self.8.spec_html(h.1);
        let j = self.9.spec_html(i.1);
        let k = self.10.spec_html(j.1);
        let l = self.11.spec_html(k.1);
        let m = self.12.spec_html(l.1);
        let n = self.13.spec_html(m.1);
        let o = self.14.spec_html(n.1);
        let p = self.15.spec_html(o.1);
        let q = self.16.spec_html(p.1);
        let r = self.17.spec_html(q.1);
        let s = self.18.spec_html(r.1);
        let t = self.19.spec_html(s.1);
        let u = self.20.spec_html(t.1);
        let v = self.21.spec_html(u.1);
        let w = self.22.spec_html(v.1);
        (a.0 + b.0 + c.0 + d.0 + e.0 + f.0 + g.0 + h.0 + i.0 + j.0 + k.0 + l.0 + m.0 + n.0 + o.0 + p.0 + q.0 + r.0 + s.0 + t.0 + u.0 + v.0 + w.0, w.1)
    }

    open spec fn html_ok(&self) -> bool {
        self.0.html_ok()
        && self.1.html_ok()
        && self.2.html_ok()
        && self.3.html_ok()
        && self.4.html_ok()
        && self.5.html_ok()
        && self.6.html_ok()
        && self.7.html_ok()
        && self.8.html_ok()
        && self.9.html_ok()
        && self.10.html_ok()
        && self.11.html_ok()
        && self.12.html_ok()
        && self.13.html_ok()
        && self.14.html_ok()
        && self.15.html_ok()
        && self.16.html_ok()
        && self.17.html_ok()
        && self.18.html_ok()
        && self.19.html_ok()
        && self.20.html_ok()
        && self.21.html_ok()
        && self.22.html_ok()
    }

    fn to_html_with_buf(self, buf: &mut String, position: &mut PositionState) {
        let (a, b, c, d, e, f, g, h, i, j, k, l, m, n, o, p, q, r, s, t, u, v, w) = self;
        a.to_html_with_buf(buf, position);
        position.set(Position::NextChild);
        b.to_html_with_buf(buf, position);
        c.to_html_with_buf(buf, position);
        d.to_html_with_buf(buf, position);
        e.to_html_with_buf(buf, position);
        f.to_html_with_buf(buf, position);
        g.to_html_with_buf(buf, position);
        h.to_html_with_buf(buf, position);
        i.to_html_with_buf(buf, position);
        j.to_html_with_buf(buf, position);
        k.to_html_with_buf(buf, position);
        l.to_html_with_buf(buf, position);
        m.to_html_with_buf(buf, position);
        n.to_html_with_buf(buf, position);
        o.to_html_with_buf(buf, position);
        p.to_html_with_buf(buf, position);
        q.to_html_with_buf(buf, position);
        r.to_html_with_buf(buf, position);
        s.to_html_with_buf(buf, position);
        t.to_html_with_buf(buf, position);
        u.to_html_with_buf(buf, position);
        v.to_html_with_buf(buf, position);
        w.to_html_with_buf(buf, position);
    }
}

impl<A: RenderHtml, B: RenderHtml, C: RenderHtml, D: RenderHtml, E: RenderHtml, F: RenderHtml, G: RenderHtml, H: RenderHtml, I: RenderHtml, J: RenderHtml, K: RenderHtml, L: RenderHtml, M: RenderHtml, N: RenderHtml, O: RenderHtml, P: RenderHtml, Q: RenderHtml, R: RenderHtml, S: RenderHtml, T: RenderHtml, U: RenderHtml, V: RenderHtml, W: RenderHtml, X: RenderHtml> RenderHtml for (A, B, C, D, E, F, G, H, I, J, K, L, M, N, O, P, Q, R, S, T, U, V, W, X) {
    open spec fn spec_html(&self, position: Position) -> (Seq<char>, Position) {
        let a = self.0.spec_html(position);
        let b = self.1.spec_html(Position::NextChild);
        let c = self.2.spec_html(b.1);
        let d = self.3.spec_html(c.1);
        let e = self.4.spec_html(d.1);
        let f = self.5.spec_html(e.1);
        let g = self.6.spec_html(f.1);
        let h = self.7.spec_html(g.1);
        let i = self.8.spec_html(h.1);
        let j = self.9.spec_html(i.1);
        let k = self.10.spec_html(j.1);
        let l = self.11.spec_html(k.1);
        let m = self.12.spec_html(l.1);
        let n = self.13.spec_html(m.1);
        let o = self.14.spec_html(n.1);
        let p = self.15.spec_html(o.1);
        let q = self.16.spec_html(p.1);
        let r = self.17.spec_html(q.1);
        let s = self.18.spec_html(r.1);
        let t = self.19.spec_html(s.1);
        let u = self.20.spec_html(t.1);
        let v = self.21.spec_html(u.1);
        let w = self.22.spec_html(v.1);
        let x = self.23.spec_html(w.1);
        (a.0 + b.0 + c.0 + d.0 + e.0 + f.0 + g.0 + h.0 + i.0 + j.0 + k.0 + l.0 + m.0 + n.0 + o.0 + p.0 + q.0 + r.0 + s.0 + t.0 + u.0 + v.0 + w.0 + x.0, x.1)
    }

    open spec fn html_ok(&self) -> bool {
        self.0.html_ok()
        && self.1.html_ok()
        && self.2.html_ok()
        && self.3.html_ok()
        && self.4.html_ok()
        && self.5.html_ok()
        && self.6.html_ok()
        && self.7.html_ok()
        && self.8.html_ok()
        && self.9.html_ok()
        && self.10.html_ok()
        && self.11.html_ok()
        && self.12.html_ok()
        && self.13.html_ok()
        && self.14.html_ok()
        && self.15.html_ok()
        && self.16.html_ok()
        && self.17.html_ok()
        && self.18.html_ok()
        && self.19.html_ok()
        && self.20.html_ok()
        && self.21.html_ok()
        && self.22.html_ok()
        && self.23.html_ok()
    }

    fn to_html_with_buf(self, buf: &mut String, position: &mut PositionState) {
        let (a, b, c, d, e, f, g, h, i, j, k, l, m, n, o, p, q, r, s, t, u, v, w, x) = self;
        a.to_html_with_buf(buf, position);
        position.set(Position::NextChild);
        b.to_html_with_buf(buf, position);
        c.to_html_with_buf(buf, position);
        d.to_html_with_buf(buf, position);
        e.to_html_with_buf(buf, position);
        f.to_html_with_buf(buf, position);
        g.to_html_with_buf(buf, position);
        h.to_html_with_buf(buf, position);
        i.to_html_with_buf(buf, position);
        j.to_html_with_buf(buf, position);
        k.to_html_with_buf(buf, position);
        l.to_html_with_buf(buf, position);
        m.to_html_with_buf(buf, position);
        n.to_html_with_buf(buf, position);
        o.to_html_with_buf(buf, position);
        p.to_html_with_buf(buf, position);
        q.to_html_with_buf(buf, position);
        r.to_html_with_buf(buf, position);
        s.to_html_with_buf(buf, position);
        t.to_html_with_buf(buf, position);
        u.to_html_with_buf(buf, position);
        v.to_html_with_buf(buf, position);
        w.to_html_with_buf(buf, position);
        x.to_html_with_buf(buf, position);
    }
}

impl<A: RenderHtml, B: RenderHtml, C: RenderHtml, D: RenderHtml, E: RenderHtml, F: RenderHtml, G: RenderHtml, H: RenderHtml, I: RenderHtml, J: RenderHtml, K: RenderHtml, L: RenderHtml, M: RenderHtml, N: RenderHtml, O: RenderHtml, P: RenderHtml, Q: RenderHtml, R: RenderHtml, S: RenderHtml, T: RenderHtml, U: RenderHtml, V: RenderHtml, W: RenderHtml, X: RenderHtml, Y: RenderHtml> RenderHtml for (A, B, C, D, E, F, G, H, I, J, K, L, M, N, O, P, Q, R, S, T, U, V, W, X, Y) {
    open spec fn spec_html(&self, position: Position) -> (Seq<char>, Position) {
        let a = self.0.spec_html(position);
        let b = self.1.spec_html(Position::NextChild);
        let c = self.2.spec_html(b.1);
        let d = self.3.spec_html(c.1);
        let e = self.4.spec_html(d.1);
        let f = self.5.spec_html(e.1);
        let g = self.6.spec_html(f.1);
        let h = self.7.spec_html(g.1);
        let i = self.8.spec_html(h.1);
        let j = self.9.spec_html(i.1);
        let k = self.10.spec_html(j.1);
        let l = self.11.spec_html(k.1);
        let m = self.12.spec_html(l.1);
        let n = self.13.spec_html(m.1);
        let o = self.14.spec_html(n.1);
        let p = self.15.spec_html(o.1);
        let q = self.16.spec_html(p.1);
        let r = self.17.spec_html(q.1);
        let s = self.18.spec_html(r.1);
        let t = self.19.spec_html(s.1);
        let u = self.20.spec_html(t.1);
        let v = self.21.spec_html(u.1);
        let w = self.22.spec_html(v.1);
        let x = self.23.spec_html(w.1);
        let y = self.24.spec_html(x.1);
        (a.0 + b.0 + c.0 + d.0 + e.0 + f.0 + g.0 + h.0 + i.0 + j.0 + k.0 + l.0 + m.0 + n.0 + o.0 + p.0 + q.0 + r.0 + s.0 + t.0 + u.0 + v.0 + w.0 + x.0 + y.0, y.1)
    }

    open spec fn html_ok(&self) -> bool {
        self.0.html_ok()
        && self.1.html_ok()
        && self.2.html_ok()
        && self.3.html_ok()
        && self.4.html_ok()
        && self.5.html_ok()
        && self.6.html_ok()
        && self.7.html_ok()
        && self.8.html_ok()
        && self.9.html_ok()
        && self.10.html_ok()
        && self.11.html_ok()
        && self.12.html_ok()
        && self.13.html_ok()
        && self.14.html_ok()
        && self.15.html_ok()
        && self.16.html_ok()
        && self.17.html_ok()
        && self.18.html_ok()
        && self.19.html_ok()
        && self.20.html_ok()
        && self.21.html_ok()
        && self.22.html_ok()
        && self.23.html_ok()
        && self.24.html_ok()
    }

    fn to_html_with_buf(self, buf: &mut String, position: &mut PositionState) {
        let (a, b, c, d, e, f, g, h, i, j, k, l, m, n, o, p, q, r, s, t, u, v, w, x, y) = self;
        a.to_html_with_buf(buf, position);
        position.set(Position::NextChild);
        b.to_html_with_buf(buf, position);
        c.to_html_with_buf(buf, position);
        d.to_html_with_buf(buf, position);
        e.to_html_with_buf(buf, position);
        f.to_html_with_buf(buf, position);
        g.to_html_with_buf(buf, position);
        h.to_html_with_buf(buf, position);
        i.to_html_with_buf(buf, position);
        j.to_html_with_buf(buf, position);
        k.to_html_with_buf(buf, position);
        l.to_html_with_buf(buf, position);
        m.to_html_with_buf(buf, position);
        n.to_html_with_buf(buf, position);
        o.to_html_with_buf(buf, position);
        p.to_html_with_buf(buf, position);
        q.to_html_with_buf(buf, position);
        r.to_html_with_buf(buf, position);
        s.to_html_with_buf(buf, position);
        t.to_html_with_buf(buf, position);
        u.to_html_with_buf(buf, position);
        v.to_html_with_buf(buf, position);
        w.to_html_with_buf(buf, position);
        x.to_html_with_buf(buf, position);
        y.to_html_with_buf(buf, position);
    }
}

impl<A: RenderHtml, B: RenderHtml, C: RenderHtml, D: RenderHtml, E: RenderHtml, F: RenderHtml, G: RenderHtml, H: RenderHtml, I: RenderHtml, J: RenderHtml, K: RenderHtml, L: RenderHtml, M: RenderHtml, N: RenderHtml, O: RenderHtml, P: RenderHtml, Q: RenderHtml, R: RenderHtml, S: RenderHtml, T: RenderHtml, U: RenderHtml, V: RenderHtml, W: RenderHtml, X: RenderHtml, Y: RenderHtml, Z: RenderHtml> RenderHtml for (A, B, C, D, E, F, G, H, I, J, K, L, M, N, O, P, Q, R, S, T, U, V, W, X, Y, Z) {
    open spec fn spec_html(&self, position: Position) -> (Seq<char>, Position) {
        let a = self.0.spec_html(position);
        let b = self.1.spec_html(Position::NextChild);
        let c = self.2.spec_html(b.1);
        let d = self.3.spec_html(c.1);
        let e = self.4.spec_html(d.1);
        let f = self.5.spec_html(e.1);
        let g = self.6.spec_html(f.1);
        let h = self.7.spec_html(g.1);
        let i = self.8.spec_html(h.1);
        let j = self.9.spec_html(i.1);
        let k = self.10.spec_html(j.1);
        let l = self.11.spec_html(k.1);
        let m = self.12.spec_html(l.1);
        let n = self.13.spec_html(m.1);
        let o = self.14.spec_html(n.1);
        let p = self.15.spec_html(o.1);
        let q = self.16.spec_html(p.1);
        let r = self.17.spec_html(q.1);
        let s = self.18.spec_html(r.1);
        let t = self.19.spec_html(s.1);
        let u = self.20.spec_html(t.1);
        let v = self.21.spec_html(u.1);
        let w = self.22.spec_html(v.1);
        let x = self.23.spec_html(w.1);
        let y = self.24.spec_html(x.1);
        let z = self.25.spec_html(y.1);
        (a.0 + b.0 + c.0 + d.0 + e.0 + f.0 + g.0 + h.0 + i.0 + j.0 + k.0 + l.0 + m.0 + n.0 + o.0 + p.0 + q.0 + r.0 + s.0 + t.0 + u.0 + v.0 + w.0 + x.0 + y.0 + z.0, z.1)
    }

    open spec fn html_ok(&self) -> bool {
        self.0.html_ok()
        && self.1.html_ok()
        && self.2.html_ok()
        && self.3.html_ok()
        && self.4.html_ok()
        && self.5.html_ok()
        && self.6.html_ok()
        && self.7.html_ok()
        && self.8.html_ok()
        && self.9.html_ok()
        && self.10.html_ok()
        && self.11.html_ok()
        && self.12.html_ok()
        && self.13.html_ok()
        && self.14.html_ok()
        && self.15.html_ok()
        && self.16.html_ok()
        && self.17.html_ok()
        && self.18.html_ok()
        && self.19.html_ok()
        && self.20.html_ok()
        && self.21.html_ok()
        && self.22.html_ok()
        && self.23.html_ok()
        && self.24.html_ok()
        && self.25.html_ok()
    }

    fn to_html_with_buf(self, buf: &mut String, position: &mut PositionState) {
        let (a, b, c, d, e, f, g, h, i, j, k, l, m, n, o, p, q, r, s, t, u, v, w, x, y, z) = self;
        a.to_html_with_buf(buf, position);
        position.set(Position::NextChild);
        b.to_html_with_buf(buf, position);
        c.to_html_with_buf(buf, position);
        d.to_html_with_buf(buf, position);
        e.to_html_with_buf(buf, position);
        f.to_html_with_buf(buf, position);
        g.to_html_with_buf(buf, position);
        h.to_html_with_buf(buf, position);
        i.to_html_with_buf(buf, position);
        j.to_html_with_buf(buf, position);
        k.to_html_with_buf(buf, position);
        l.to_html_with_buf(buf, position);
        m.to_html_with_buf(buf, position);
        n.to_html_with_buf(buf, position);
        o.to_html_with_buf(buf, position);
        p.to_html_with_buf(buf, position);
        q.to_html_with_buf(buf, position);
        r.to_html_with_buf(buf, position);
        s.to_html_with_buf(buf, position);
        t.to_html_with_buf(buf, position);
        u.to_html_with_buf(buf, position);
        v.to_html_with_buf(buf, position);
        w.to_html_with_buf(buf, position);
        x.to_html_with_buf(buf, position);
        y.to_html_with_buf(buf, position);
        z.to_html_with_buf(buf, position);
    }
}

/// Templates of siblings are written one after the other: the first
/// member's, then those of the rest.
impl<A: ToTemplate, B: ToTemplate> ToTemplate for (A, B) {
    open spec fn template_ok() -> bool {
        A::template_ok() && <B as ToTemplate>::template_ok()
    }

    open spec fn spec_template(position: Position) -> (Seq<char>, Seq<char>, Seq<char>, Position) {
        let a = A::spec_template(position);
        let r = <B as ToTemplate>::spec_template(a.3);
        (a.0 + r.0, a.1 + r.1, a.2 + r.2, r.3)
    }

    fn to_template(
        buf: &mut String,
        class: &mut String,
        style: &mut String,
        position: &mut Position,
    ) {
        let ghost a = A::spec_template(*position);
        let ghost r = <B as ToTemplate>::spec_template(a.3);
        A::to_template(buf, class, style, position);
        <B as ToTemplate>::to_template(buf, class, style, position);
        proof {
            assert(buf@ =~= old(buf)@ + (a.0 + r.0));
            assert(class@ =~= old(class)@ + (a.1 + r.1));
            assert(style@ =~= old(style)@ + (a.2 + r.2));
        }
    }
}

impl<A: ToTemplate, B: ToTemplate, C: ToTemplate> ToTemplate for (A, B, C) {
    open spec fn template_ok() -> bool {
        A::template_ok() && <(B, C) as ToTemplate>::template_ok()
    }

    open spec fn spec_template(position: Position) -> (Seq<char>, Seq<char>, Seq<char>, Position) {
        let a = A::spec_template(position);
        let r = <(B, C) as ToTemplate>::spec_template(a.3);
        (a.0 + r.0, a.1 + r.1, a.2 + r.2, r.3)
    }

    fn to_template(
        buf: &mut String,
        class: &mut String,
        style: &mut String,
        position: &mut Position,
    ) {
        let ghost a = A::spec_template(*position);
        let ghost r = <(B, C) as ToTemplate>::spec_template(a.3);
        A::to_template(buf, class, style, position);
        <(B, C) as ToTemplate>::to_template(buf, class, style, position);
        proof {
            assert(buf@ =~= old(buf)@ + (a.0 + r.0));
            assert(class@ =~= old(class)@ + (a.1 + r.1));
            assert(style@ =~= old(style)@ + (a.2 + r.2));
        }
    }
}

impl<A: ToTemplate, B: ToTemplate, C: ToTemplate, D: ToTemplate> ToTemplate for (A, B, C, D) {
    open spec fn template_ok() -> bool {
        A::template_ok() && <(B, C, D) as ToTemplate>::template_ok()
    }

    open spec fn spec_template(position: Position) -> (Seq<char>, Seq<char>, Seq<char>, Position) {
        let a = A::spec_template(position);
        let r = <(B, C, D) as ToTemplate>::spec_template(a.3);
        (a.0 + r.0, a.1 + r.1, a.2 + r.2, r.3)
    }

    fn to_template(
        buf: &mut String,
        class: &mut String,
        style: &mut String,
        position: &mut Position,
    ) {
        let ghost a = A::spec_template(*position);
        let ghost r = <(B, C, D) as ToTemplate>::spec_template(a.3);
        A::to_template(buf, class, style, position);
        <(B, C, D) as ToTemplate>::to_template(buf, class, style, position);
        proof {
            assert(buf@ =~= old(buf)@ + (a.0 + r.0));
            assert(class@ =~= old(class)@ + (a.1 + r.1));
            assert(style@ =~= old(style)@ + (a.2 + r.2));
        }
    }
}

impl<A: ToTemplate, B: ToTemplate, C: ToTemplate, D: ToTemplate, E: ToTemplate> ToTemplate for (A, B, C, D, E) {
    open spec fn template_ok() -> bool {
        A::template_ok() && <(B, C, D, E) as ToTemplate>::template_ok()
    }

    open spec fn spec_template(position: Position) -> (Seq<char>, Seq<char>, Seq<char>, Position) {
        let a = A::spec_template(position);
        let r = <(B, C, D, E) as ToTemplate>::spec_template(a.3);
        (a.0 + r.0, a.1 + r.1, a.2 + r.2, r.3)
    }

    fn to_template(
        buf: &mut String,
        class: &mut String,
        style: &mut String,
        position: &mut Position,
    ) {
        let ghost a = A::spec_template(*position);
        let ghost r = <(B, C, D, E) as ToTemplate>::spec_template(a.3);
        A::to_template(buf, class, style, position);
        <(B, C, D, E) as ToTemplate>::to_template(buf, class, style, position);
        proof {
            assert(buf@ =~= old(buf)@ + (a.0 + r.0));
            assert(class@ =~= old(class)@ + (a.1 + r.1));
            assert(style@ =~= old(style)@ + (a.2 + r.2));
        }
    }
}

impl<A: ToTemplate, B: ToTemplate, C: ToTemplate, D: ToTemplate, E: ToTemplate, F: ToTemplate> ToTemplate for (A, B, C, D, E, F) {
    open spec fn template_ok() -> bool {
        A::template_ok() && <(B, C, D, E, F) as ToTemplate>::template_ok()
    }

    open spec fn spec_template(position: Position) -> (Seq<char>, Seq<char>, Seq<char>, Position) {
        let a = A::spec_template(position);
        let r = <(B, C, D, E, F) as ToTemplate>::spec_template(a.3);
        (a.0 + r.0, a.1 + r.1, a.2 + r.2, r.3)
    }

    fn to_template(
        buf: &mut String,
        class: &mut String,
        style: &mut String,
        position: &mut Position,
    ) {
        let ghost a = A::spec_template(*position);
        let ghost r = <(B, C, D, E, F) as ToTemplate>::spec_template(a.3);
        A::to_template(buf, class, style, position);
        <(B, C, D, E, F) as ToTemplate>::to_template(buf, class, style, position);
        proof {
            assert(buf@ =~= old(buf)@ + (a.0 + r.0));
            assert(class@ =~= old(class)@ + (a.1 + r.1));
            assert(style@ =~= old(style)@ + (a.2 + r.2));
        }
    }
}

impl<A: ToTemplate, B: ToTemplate, C: ToTemplate, D: ToTemplate, E: ToTemplate, F: ToTemplate, G: ToTemplate> ToTemplate for (A, B, C, D, E, F, G) {
    open spec fn template_ok() -> bool {
        A::template_ok() && <(B, C, D, E, F, G) as ToTemplate>::template_ok()
    }

    open spec fn spec_template(position: Position) -> (Seq<char>, Seq<char>, Seq<char>, Position) {
        let a = A::spec_template(position);
        let r = <(B, C, D, E, F, G) as ToTemplate>::spec_template(a.3);
        (a.0 + r.0, a.1 + r.1, a.2 + r.2, r.3)
    }

    fn to_template(
        buf: &mut String,
        class: &mut String,
        style: &mut String,
        position: &mut Position,
    ) {
        let ghost a = A::spec_template(*position);
        let ghost r = <(B, C, D, E, F, G) as ToTemplate>::spec_template(a.3);
        A::to_template(buf, class, style, position);
        <(B, C, D, E, F, G) as ToTemplate>::to_template(buf, class, style, position);
        proof {
            assert(buf@ =~= old(buf)@ + (a.0 + r.0));
            assert(class@ =~= old(class)@ + (a.1 + r.1));
            assert(style@ =~= old(style)@ + (a.2 + r.2));
        }
    }
}

impl<A: ToTemplate, B: ToTemplate, C: ToTemplate, D: ToTemplate, E: ToTemplate, F: ToTemplate, G: ToTemplate, H: ToTemplate> ToTemplate for (A, B, C, D, E, F, G, H) {
    open spec fn template_ok() -> bool {
        A::template_ok() && <(B, C, D, E, F, G, H) as ToTemplate>::template_ok()
    }

    open spec fn spec_template(position: Position) -> (Seq<char>, Seq<char>, Seq<char>, Position) {
        let a = A::spec_template(position);
        let r = <(B, C, D, E, F, G, H) as ToTemplate>::spec_template(a.3);
        (a.0 + r.0, a.1 + r.1, a.2 + r.2, r.3)
    }

    fn to_template(
        buf: &mut String,
        class: &mut String,
        style: &mut String,
        position: &mut Position,
    ) {
        let ghost a = A::spec_template(*position);
        let ghost r = <(B, C, D, E, F, G, H) as ToTemplate>::spec_template(a.3);
        A::to_template(buf, class, style, position);
        <(B, C, D, E, F, G, H) as ToTemplate>::to_template(buf, class, style, position);
        proof {
            assert(buf@ =~= old(buf)@ + (a.0 + r.0));
            assert(class@ =~= old(class)@ + (a.1 + r.1));
            assert(style@ =~= old(style)@ + (a.2 + r.2));
        }
    }
}

impl<A: ToTemplate, B: ToTemplate, C: ToTemplate, D: ToTemplate, E: ToTemplate, F: ToTemplate, G: ToTemplate, H: ToTemplate, I: ToTemplate> ToTemplate for (A, B, C, D, E, F, G, H, I) {
    open spec fn template_ok() -> bool {
        A::template_ok() && <(B, C, D, E, F, G, H, I) as ToTemplate>::template_ok()
    }

    open spec fn spec_template(position: Position) -> (Seq<char>, Seq<char>, Seq<char>, Position) {
        let a = A::spec_template(position);
        let r = <(B, C, D, E, F, G, H, I) as ToTemplate>::spec_template(a.3);
        (a.0 + r.0, a.1 + r.1, a.2 + r.2, r.3)
    }

    fn to_template(
        buf: &mut String,
        class: &mut String,
        style: &mut String,
        position: &mut Position,
    ) {
        let ghost a = A::spec_template(*position);
        let ghost r = <(B, C, D, E, F, G, H, I) as ToTemplate>::spec_template(a.3);
        A::to_template(buf, class, style, position);
        <(B, C, D, E, F, G, H, I) as ToTemplate>::to_template(buf, class, style, position);
        proof {
            assert(buf@ =~= old(buf)@ + (a.0 + r.0));
            assert(class@ =~= old(class)@ + (a.1 + r.1));
            assert(style@ =~= old(style)@ + (a.2 + r.2));
        }
    }
}

impl<A: ToTemplate, B: ToTemplate, C: ToTemplate, D: ToTemplate, E: ToTemplate, F: ToTemplate, G: ToTemplate, H: ToTemplate, I: ToTemplate, J: ToTemplate> ToTemplate for (A, B, C, D, E, F, G, H, I, J) {
    open spec fn template_ok() -> bool {
        A::template_ok() && <(B, C, D, E, F, G, H, I, J) as ToTemplate>::template_ok()
    }

    open spec fn spec_template(position: Position) -> (Seq<char>, Seq<char>, Seq<char>, Position) {
        let a = A::spec_template(position);
        let r = <(B, C, D, E, F, G, H, I, J) as ToTemplate>::spec_template(a.3);
        (a.0 + r.0, a.1 + r.1, a.2 + r.2, r.3)
    }

    fn to_template(
        buf: &mut String,
        class: &mut String,
        style: &mut String,
        position: &mut Position,
    ) {
        let ghost a = A::spec_template(*position);
        let ghost r = <(B, C, D, E, F, G, H, I, J) as ToTemplate>::spec_template(a.3);
        A::to_template(buf, class, style, position);
        <(B, C, D, E, F, G, H, I, J) as ToTemplate>::to_template(buf, class, style, position);
        proof {
            assert(buf@ =~= old(buf)@ + (a.0 + r.0));
            assert(class@ =~= old(class)@ + (a.1 + r.1));
            assert(style@ =~= old(style)@ + (a.2 + r.2));
        }
    }
}

impl<A: ToTemplate, B: ToTemplate, C: ToTemplate, D: ToTemplate, E: ToTemplate, F: ToTemplate, G: ToTemplate, H: ToTemplate, I: ToTemplate, J: ToTemplate, K: ToTemplate> ToTemplate for (A, B, C, D, E, F, G, H, I, J, K) {
    open spec fn template_ok() -> bool {
        A::template_ok() && <(B, C, D, E, F, G, H, I, J, K) as ToTemplate>::template_ok()
    }

    open spec fn spec_template(position: Position) -> (Seq<char>, Seq<char>, Seq<char>, Position) {
        let a = A::spec_template(position);
        let r = <(B, C, D, E, F, G, H, I, J, K) as ToTemplate>::spec_template(a.3);
        (a.0 + r.0, a.1 + r.1, a.2 + r.2, r.3)
    }

    fn to_template(
        buf: &mut String,
        class: &mut String,
        style: &mut String,
        position: &mut Position,
    ) {
        let ghost a = A::spec_template(*position);
        let ghost r = <(B, C, D, E, F, G, H, I, J, K) as ToTemplate>::spec_template(a.3);
        A::to_template(buf, class, style, position);
        <(B, C, D, E, F, G, H, I, J, K) as ToTemplate>::to_template(buf, class, style, position);
        proof {
            assert(buf@ =~= old(buf)@ + (a.0 + r.0));
            assert(class@ =~= old(class)@ + (a.1 + r.1));
            assert(style@ =~= old(style)@ + (a.2 + r.2));
        }
    }
}

impl<A: ToTemplate, B: ToTemplate, C: ToTemplate, D: ToTemplate, E: ToTemplate, F: ToTemplate, G: ToTemplate, H: ToTemplate, I: ToTemplate, J: ToTemplate, K: ToTemplate, L: ToTemplate> ToTemplate for (A, B, C, D, E, F, G, H, I, J, K, L) {
    open spec fn template_ok() -> bool {
        A::template_ok() && <(B, C, D, E, F, G, H, I, J, K, L) as ToTemplate>::template_ok()
    }

    open spec fn spec_template(position: Position) -> (Seq<char>, Seq<char>, Seq<char>, Position) {
        let a = A::spec_template(position);
        let r = <(B, C, D, E, F, G, H, I, J, K, L) as ToTemplate>::spec_template(a.3);
        (a.0 + r.0, a.1 + r.1, a.2 + r.2, r.3)
    }

    fn to_template(
        buf: &mut String,
        class: &mut String,
        style: &mut String,
        position: &mut Position,
    ) {
        let ghost a = A::spec_template(*position);
        let ghost r = <(B, C, D, E, F, G, H, I, J, K, L) as ToTemplate>::spec_template(a.3);
        A::to_template(buf, class, style, position);
        <(B, C, D, E, F, G, H, I, J, K, L) as ToTemplate>::to_template(buf, class, style, position);
        proof {
            assert(buf@ =~= old(buf)@ + (a.0 + r.0));
            assert(class@ =~= old(class)@ + (a.1 + r.1));
            assert(style@ =~= old(style)@ + (a.2 + r.2));
        }
    }
}

impl<A: ToTemplate, B: ToTemplate, C: ToTemplate, D: ToTemplate, E: ToTemplate, F: ToTemplate, G: ToTemplate, H: ToTemplate, I: ToTemplate, J: ToTemplate, K: ToTemplate, L: ToTemplate, M: ToTemplate> ToTemplate for (A, B, C, D, E, F, G, H, I, J, K, L, M) {
    open spec fn template_ok() -> bool {
        A::template_ok() && <(B, C, D, E, F, G, H, I, J, K, L, M) as ToTemplate>::template_ok()
    }

    open spec fn spec_template(position: Position) -> (Seq<char>, Seq<char>, Seq<char>, Position) {
        let a = A::spec_template(position);
        let r = <(B, C, D, E, F, G, H, I, J, K, L, M) as ToTemplate>::spec_template(a.3);
        (a.0 + r.0, a.1 + r.1, a.2 + r.2, r.3)
    }

    fn to_template(
        buf: &mut String,
        class: &mut String,
        style: &mut String,
        position: &mut Position,
    ) {
        let ghost a = A::spec_template(*position);
        let ghost r = <(B, C, D, E, F, G, H, I, J, K, L, M) as ToTemplate>::spec_template(a.3);
        A::to_template(buf, class, style, position);
        <(B, C, D, E, F, G, H, I, J, K, L, M) as ToTemplate>::to_template(buf, class, style, position);
        proof {
            assert(buf@ =~= old(buf)@ + (a.0 + r.0));
            assert(class@ =~= old(class)@ + (a.1 + r.1));
            assert(style@ =~= old(style)@ + (a.2 + r.2));
        }
    }
}

impl<A: ToTemplate, B: ToTemplate, C: ToTemplate, D: ToTemplate, E: ToTemplate, F: ToTemplate, G: ToTemplate, H: ToTemplate, I: ToTemplate, J: ToTemplate, K: ToTemplate, L: ToTemplate, M: ToTemplate, N: ToTemplate> ToTemplate for (A, B, C, D, E, F, G, H, I, J, K, L, M, N) {
    open spec fn template_ok() -> bool {
        A::template_ok() && <(B, C, D, E, F, G, H, I, J, K, L, M, N) as ToTemplate>::template_ok()
    }

    open spec fn spec_template(position: Position) -> (Seq<char>, Seq<char>, Seq<char>, Position) {
        let a = A::spec_template(position);
        let r = <(B, C, D, E, F, G, H, I, J, K, L, M, N) as ToTemplate>::spec_template(a.3);
        (a.0 + r.0, a.1 + r.1, a.2 + r.2, r.3)
    }

    fn to_template(
        buf: &mut String,
        class: &mut String,
        style: &mut String,
        position: &mut Position,
    ) {
        let ghost a = A::spec_template(*position);
        let ghost r = <(B, C, D, E, F, G, H, I, J, K, L, M, N) as ToTemplate>::spec_template(a.3);
        A::to_template(buf, class, style, position);
        <(B, C, D, E, F, G, H, I, J, K, L, M, N) as ToTemplate>::to_template(buf, class, style, position);
        proof {
            assert(buf@ =~= old(buf)@ + (a.0 + r.0));
            assert(class@ =~= old(class)@ + (a.1 + r.1));
            assert(style@ =~= old(style)@ + (a.2 + r.2));
        }
    }
}

impl<A: ToTemplate, B: ToTemplate, C: ToTemplate, D: ToTemplate, E: ToTemplate, F: ToTemplate, G: ToTemplate, H: ToTemplate, I: ToTemplate, J: ToTemplate, K: ToTemplate, L: ToTemplate, M: ToTemplate, N: ToTemplate, O: ToTemplate> ToTemplate for (A, B, C, D, E, F, G, H, I, J, K, L, M, N, O) {
    open spec fn template_ok() -> bool {
        A::template_ok() && <(B, C, D, E, F, G, H, I, J, K, L, M, N, O) as ToTemplate>::template_ok()
    }

    open spec fn spec_template(position: Position) -> (Seq<char>, Seq<char>, Seq<char>, Position) {
        let a = A::spec_template(position);
        let r = <(B, C, D, E, F, G, H, I, J, K, L, M, N, O) as ToTemplate>::spec_template(a.3);
        (a.0 + r.0, a.1 + r.1, a.2 + r.2, r.3)
    }

    fn to_template(
        buf: &mut String,
        class: &mut String,
        style: &mut String,
        position: &mut Position,
    ) {
        let ghost a = A::spec_template(*position);
        let ghost r = <(B, C, D, E, F, G, H, I, J, K, L, M, N, O) as ToTemplate>::spec_template(a.3);
        A::to_template(buf, class, style, position);
        <(B, C, D, E, F, G, H, I, J, K, L, M, N, O) as ToTemplate>::to_template(buf, class, style, position);
        proof {
            assert(buf@ =~= old(buf)@ + (a.0 + r.0));
            assert(class@ =~= old(class)@ + (a.1 + r.1));
            assert(style@ =~= old(style)@ + (a.2 + r.2));
        }
    }
}

impl<A: ToTemplate, B: ToTemplate, C: ToTemplate, D: ToTemplate, E: ToTemplate, F: ToTemplate, G: ToTemplate, H: ToTemplate, I: ToTemplate, J: ToTemplate, K: ToTemplate, L: ToTemplate, M: ToTemplate, N: ToTemplate, O: ToTemplate, P: ToTemplate> ToTemplate for (A, B, C, D, E, F, G, H, I, J, K, L, M, N, O, P) {
    open spec fn template_ok() -> bool {
        A::template_ok() && <(B, C, D, E, F, G, H, I, J, K, L, M, N, O, P) as ToTemplate>::template_ok()
    }

    open spec fn spec_template(position: Position) -> (Seq<char>, Seq<char>, Seq<char>, Position) {
        let a = A::spec_template(position);
        let r = <(B, C, D, E, F, G, H, I, J, K, L, M, N, O, P) as ToTemplate>::spec_template(a.3);
        (a.0 + r.0, a.1 + r.1, a.2 + r.2, r.3)
    }

    fn to_template(
        buf: &mut String,
        class: &mut String,
        style: &mut String,
        position: &mut Position,
    ) {
        let ghost a = A::spec_template(*position);
        let ghost r = <(B, C, D, E, F, G, H, I, J, K, L, M, N, O, P) as ToTemplate>::spec_template(a.3);
        A::to_template(buf, class, style, position);
        <(B, C, D, E, F, G, H, I, J, K, L, M, N, O, P) as ToTemplate>::to_template(buf, class, style, position);
        proof {
            assert(buf@ =~= old(buf)@ + (a.0 + r.0));
            assert(class@ =~= old(class)@ + (a.1 + r.1));
            assert(style@ =~= old(style)@ + (a.2 + r.2));
        }
    }
}

impl<A: ToTemplate, B: ToTemplate, C: ToTemplate, D: ToTemplate, E: ToTemplate, F: ToTemplate, G: ToTemplate, H: ToTemplate, I: ToTemplate, J: ToTemplate, K: ToTemplate, L: ToTemplate, M: ToTemplate, N: ToTemplate, O: ToTemplate, P: ToTemplate, Q: ToTemplate> ToTemplate for (A, B, C, D, E, F, G, H, I, J, K, L, M, N, O, P, Q) {
    open spec fn template_ok() -> bool {
        A::template_ok() && <(B, C, D, E, F, G, H, I, J, K, L, M, N, O, P, Q) as ToTemplate>::template_ok()
    }

    open spec fn spec_template(position: Position) -> (Seq<char>, Seq<char>, Seq<char>, Position) {
        let a = A::spec_template(position);
        let r = <(B, C, D, E, F, G, H, I, J, K, L, M, N, O, P, Q) as ToTemplate>::spec_template(a.3);
        (a.0 + r.0, a.1 + r.1, a.2 + r.2, r.3)
    }

    fn to_template(
        buf: &mut String,
        class: &mut String,
        style: &mut String,
        position: &mut Position,
    ) {
        let ghost a = A::spec_template(*position);
        let ghost r = <(B, C, D, E, F, G, H, I, J, K, L, M, N, O, P, Q) as ToTemplate>::spec_template(a.3);
        A::to_template(buf, class, style, position);
        <(B, C, D, E, F, G, H, I, J, K, L, M, N, O, P, Q) as ToTemplate>::to_template(buf, class, style, position);
        proof {
            assert(buf@ =~= old(buf)@ + (a.0 + r.0));
            assert(class@ =~= old(class)@ + (a.1 + r.1));
            assert(style@ =~= old(style)@ + (a.2 + r.2));
        }
    }
}

impl<A: ToTemplate, B: ToTemplate, C: ToTemplate, D: ToTemplate, E: ToTemplate, F: ToTemplate, G: ToTemplate, H: ToTemplate, I: ToTemplate, J: ToTemplate, K: ToTemplate, L: ToTemplate, M: ToTemplate, N: ToTemplate, O: ToTemplate, P: ToTemplate, Q: ToTemplate, R: ToTemplate> ToTemplate for (A, B, C, D, E, F, G, H, I, J, K, L, M, N, O, P, Q, R) {
    open spec fn template_ok() -> bool {
        A::template_ok() && <(B, C, D, E, F, G, H, I, J, K, L, M, N, O, P, Q, R) as ToTemplate>::template_ok()
    }

    open spec fn spec_template(position: Position) -> (Seq<char>, Seq<char>, Seq<char>, Position) {
        let a = A::spec_template(position);
        let r = <(B, C, D, E, F, G, H, I, J, K, L, M, N, O, P, Q, R) as ToTemplate>::spec_template(a.3);
        (a.0 + r.0, a.1 + r.1, a.2 + r.2, r.3)
    }

    fn to_template(
        buf: &mut String,
        class: &mut String,
        style: &mut String,
        position: &mut Position,
    ) {
        let ghost a = A::spec_template(*position);
        let ghost r = <(B, C, D, E, F, G, H, I, J, K, L, M, N, O, P, Q, R) as ToTemplate>::spec_template(a.3);
        A::to_template(buf, class, style, position);
        <(B, C, D, E, F, G, H, I, J, K, L, M, N, O, P, Q, R) as ToTemplate>::to_template(buf, class, style, position);
        proof {
            assert(buf@ =~= old(buf)@ + (a.0 + r.0));
            assert(class@ =~= old(class)@ + (a.1 + r.1));
            assert(style@ =~= old(style)@ + (a.2 + r.2));
        }
    }
}

impl<A: ToTemplate, B: ToTemplate, C: ToTemplate, D: ToTemplate, E: ToTemplate, F: ToTemplate, G: ToTemplate, H: ToTemplate, I: ToTemplate, J: ToTemplate, K: ToTemplate, L: ToTemplate, M: ToTemplate, N: ToTemplate, O: ToTemplate, P: ToTemplate, Q: ToTemplate, R: ToTemplate, S: ToTemplate> ToTemplate for (A, B, C, D, E, F, G, H, I, J, K, L, M, N, O, P, Q, R, S) {
    open spec fn template_ok() -> bool {
        A::template_ok() && <(B, C, D, E, F, G, H, I, J, K, L, M, N, O, P, Q, R, S) as ToTemplate>::template_ok()
    }

    open spec fn spec_template(position: Position) -> (Seq<char>, Seq<char>, Seq<char>, Position) {
        let a = A::spec_template(position);
        let r = <(B, C, D, E, F, G, H, I, J, K, L, M, N, O, P, Q, R, S) as ToTemplate>::spec_template(a.3);
        (a.0 + r.0, a.1 + r.1, a.2 + r.2, r.3)
    }

    fn to_template(
        buf: &mut String,
        class: &mut String,
        style: &mut String,
        position: &mut Position,
    ) {
        let ghost a = A::spec_template(*position);
        let ghost r = <(B, C, D, E, F, G, H, I, J, K, L, M, N, O, P, Q, R, S) as ToTemplate>::spec_template(a.3);
        A::to_template(buf, class, style, position);
        <(B, C, D, E, F, G, H, I, J, K, L, M, N, O, P, Q, R, S) as ToTemplate>::to_template(buf, class, style, position);
        proof {
            assert(buf@ =~= old(buf)@ + (a.0 + r.0));
            assert(class@ =~= old(class)@ + (a.1 + r.1));
            assert(style@ =~= old(style)@ + (a.2 + r.2));
        }
    }
}

impl<A: ToTemplate, B: ToTemplate, C: ToTemplate, D: ToTemplate, E: ToTemplate, F: ToTemplate, G: ToTemplate, H: ToTemplate, I: ToTemplate, J: ToTemplate, K: ToTemplate, L: ToTemplate, M: ToTemplate, N: ToTemplate, O: ToTemplate, P: ToTemplate, Q: ToTemplate, R: ToTemplate, S: ToTemplate, T: ToTemplate> ToTemplate for (A, B, C, D, E, F, G, H, I, J, K, L, M, N, O, P, Q, R, S, T) {
    open spec fn template_ok() -> bool {
        A::template_ok() && <(B, C, D, E, F, G, H, I, J, K, L, M, N, O, P, Q, R, S, T) as ToTemplate>::template_ok()
    }

    open spec fn spec_template(position: Position) -> (Seq<char>, Seq<char>, Seq<char>, Position) {
        let a = A::spec_template(position);
        let r = <(B, C, D, E, F, G, H, I, J, K, L, M, N, O, P, Q, R, S, T) as ToTemplate>::spec_template(a.3);
        (a.0 + r.0, a.1 + r.1, a.2 + r.2, r.3)
    }

    fn to_template(
        buf: &mut String,
        class: &mut String,
        style: &mut String,
        position: &mut Position,
    ) {
        let ghost a = A::spec_template(*position);
        let ghost r = <(B, C, D, E, F, G, H, I, J, K, L, M, N, O, P, Q, R, S, T) as ToTemplate>::spec_template(a.3);
        A::to_template(buf, class, style, position);
        <(B, C, D, E, F, G, H, I, J, K, L, M, N, O, P, Q, R, S, T) as ToTemplate>::to_template(buf, class, style, position);
        proof {
            assert(buf@ =~= old(buf)@ + (a.0 + r.0));
            assert(class@ =~= old(class)@ + (a.1 + r.1));
            assert(style@ =~= old(style)@ + (a.2 + r.2));
        }
    }
}

impl<A: ToTemplate, B: ToTemplate, C: ToTemplate, D: ToTemplate, E: ToTemplate, F: ToTemplate, G: ToTemplate, H: ToTemplate, I: ToTemplate, J: ToTemplate, K: ToTemplate, L: ToTemplate, M: ToTemplate, N: ToTemplate, O: ToTemplate, P: ToTemplate, Q: ToTemplate, R: ToTemplate, S: ToTemplate, T: ToTemplate, U: ToTemplate> ToTemplate for (A, B, C, D, E, F, G, H, I, J, K, L, M, N, O, P, Q, R, S, T, U) {
    open spec fn template_ok() -> bool {
        A::template_ok() && <(B, C, D, E, F, G, H, I, J, K, L, M, N, O, P, Q, R, S, T, U) as ToTemplate>::template_ok()
    }

    open spec fn spec_template(position: Position) -> (Seq<char>, Seq<char>, Seq<char>, Position) {
        let a = A::spec_template(position);
        let r = <(B, C, D, E, F, G, H, I, J, K, L, M, N, O, P, Q, R, S, T, U) as ToTemplate>::spec_template(a.3);
        (a.0 + r.0, a.1 + r.1, a.2 + r.2, r.3)
    }

    fn to_template(
        buf: &mut String,
        class: &mut String,
        style: &mut String,
        position: &mut Position,
    ) {
        let ghost a = A::spec_template(*position);
        let ghost r = <(B, C, D, E, F, G, H, I, J, K, L, M, N, O, P, Q, R, S, T, U) as ToTemplate>::spec_template(a.3);
        A::to_template(buf, class, style, position);
        <(B, C, D, E, F, G, H, I, J, K, L, M, N, O, P, Q, R, S, T, U) as ToTemplate>::to_template(buf, class, style, position);
        proof {
            assert(buf@ =~= old(buf)@ + (a.0 + r.0));
            assert(class@ =~= old(class)@ + (a.1 + r.1));
            assert(style@ =~= old(style)@ + (a.2 + r.2));
        }
    }
}

impl<A: ToTemplate, B: ToTemplate, C: ToTemplate, D: ToTemplate, E: ToTemplate, F: ToTemplate, G: ToTemplate, H: ToTemplate, I: ToTemplate, J: ToTemplate, K: ToTemplate, L: ToTemplate, M: ToTemplate, N: ToTemplate, O: ToTemplate, P: ToTemplate, Q: ToTemplate, R: ToTemplate, S: ToTemplate, T: ToTemplate, U: ToTemplate, V: ToTemplate> ToTemplate for (A, B, C, D, E, F, G, H, I, J, K, L, M, N, O, P, Q, R, S, T, U, V) {
    open spec fn template_ok() -> bool {
        A::template_ok() && <(B, C, D, E, F, G, H, I, J, K, L, M, N, O, P, Q, R, S, T, U, V) as ToTemplate>::template_ok()
    }

    open spec fn spec_template(position: Position) -> (Seq<char>, Seq<char>, Seq<char>, Position) {
        let a = A::spec_template(position);
        let r = <(B, C, D, E, F, G, H, I, J, K, L, M, N, O, P, Q, R, S, T, U, V) as ToTemplate>::spec_template(a.3);
        (a.0 + r.0, a.1 + r.1, a.2 + r.2, r.3)
    }

    fn to_template(
        buf: &mut String,
        class: &mut String,
        style: &mut String,
        position: &mut Position,
    ) {
        let ghost a = A::spec_template(*position);
        let ghost r = <(B, C, D, E, F, G, H, I, J, K, L, M, N, O, P, Q, R, S, T, U, V) as ToTemplate>::spec_template(a.3);
        A::to_template(buf, class, style, position);
        <(B, C, D, E, F, G, H, I, J, K, L, M, N, O, P, Q, R, S, T, U, V) as ToTemplate>::to_template(buf, class, style, position);
        proof {
            assert(buf@ =~= old(buf)@ + (a.0 + r.0));
            assert(class@ =~= old(class)@ + (a.1 + r.1));
            assert(style@ =~= old(style)@ + (a.2 + r.2));
        }
    }
}

impl<A: ToTemplate, B: ToTemplate, C: ToTemplate, D: ToTemplate, E: ToTemplate, F: ToTemplate, G: ToTemplate, H: ToTemplate, I: ToTemplate, J: ToTemplate, K: ToTemplate, L: ToTemplate, M: ToTemplate, N: ToTemplate, O: ToTemplate, P: ToTemplate, Q: ToTemplate, R: ToTemplate, S: ToTemplate, T: ToTemplate, U: ToTemplate, V: ToTemplate, W: ToTemplate> ToTemplate for (A, B, C, D, E, F, G, H, I, J, K, L, M, N, O, P, Q, R, S, T, U, V, W) {
    open spec fn template_ok() -> bool {
        A::template_ok() && <(B, C, D, E, F, G, H, I, J, K, L, M, N, O, P, Q, R, S, T, U, V, W) as ToTemplate>::template_ok()
    }

    open spec fn spec_template(position: Position) -> (Seq<char>, Seq<char>, Seq<char>, Position) {
        let a = A::spec_template(position);
        let r = <(B, C, D, E, F, G, H, I, J, K, L, M, N, O, P, Q, R, S, T, U, V, W) as ToTemplate>::spec_template(a.3);
        (a.0 + r.0, a.1 + r.1, a.2 + r.2, r.3)
    }

    fn to_template(
        buf: &mut String,
        class: &mut String,
        style: &mut String,
        position: &mut Position,
    ) {
        let ghost a = A::spec_template(*position);
        let ghost r = <(B, C, D, E, F, G, H, I, J, K, L, M, N, O, P, Q, R, S, T, U, V, W) as ToTemplate>::spec_template(a.3);
        A::to_template(buf, class, style, position);
        <(B, C, D, E, F, G, H, I, J, K, L, M, N, O, P, Q, R, S, T, U, V, W) as ToTemplate>::to_template(buf, class, style, position);
        proof {
            assert(buf@ =~= old(buf)@ + (a.0 + r.0));
            assert(class@ =~= old(class)@ + (a.1 + r.1));
            assert(style@ =~= old(style)@ + (a.2 + r.2));
        }
    }
}

impl<A: ToTemplate, B: ToTemplate, C: ToTemplate, D: ToTemplate, E: ToTemplate, F: ToTemplate, G: ToTemplate, H: ToTemplate, I: ToTemplate, J: ToTemplate, K: ToTemplate, L: ToTemplate, M: ToTemplate, N: ToTemplate, O: ToTemplate, P: ToTemplate, Q: ToTemplate, R: ToTemplate, S: ToTemplate, T: ToTemplate, U: ToTemplate, V: ToTemplate, W: ToTemplate, X: ToTemplate> ToTemplate for (A, B, C, D, E, F, G, H, I, J, K, L, M, N, O, P, Q, R, S, T, U, V, W, X) {
    open spec fn template_ok() -> bool {
        A::template_ok() && <(B, C, D, E, F, G, H, I, J, K, L, M, N, O, P, Q, R, S, T, U, V, W, X) as ToTemplate>::template_ok()
    }

    open spec fn spec_template(position: Position) -> (Seq<char>, Seq<char>, Seq<char>, Position) {
        let a = A::spec_template(position);
        let r = <(B, C, D, E, F, G, H, I, J, K, L, M, N, O, P, Q, R, S, T, U, V, W, X) as ToTemplate>::spec_template(a.3);
        (a.0 + r.0, a.1 + r.1, a.2 + r.2, r.3)
    }

    fn to_template(
        buf: &mut String,
        class: &mut String,
        style: &mut String,
        position: &mut Position,
    ) {
        let ghost a = A::spec_template(*position);
        let ghost r = <(B, C, D, E, F, G, H, I, J, K, L, M, N, O, P, Q, R, S, T, U, V, W, X) as ToTemplate>::spec_template(a.3);
        A::to_template(buf, class, style, position);
        <(B, C, D, E, F, G, H, I, J, K, L, M, N, O, P, Q, R, S, T, U, V, W, X) as ToTemplate>::to_template(buf, class, style, position);
        proof {
            assert(buf@ =~= old(buf)@ + (a.0 + r.0));
            assert(class@ =~= old(class)@ + (a.1 + r.1));
            assert(style@ =~= old(style)@ + (a.2 + r.2));
        }
    }
}

impl<A: ToTemplate, B: ToTemplate, C: ToTemplate, D: ToTemplate, E: ToTemplate, F: ToTemplate, G: ToTemplate, H: ToTemplate, I: ToTemplate, J: ToTemplate, K: ToTemplate, L: ToTemplate, M: ToTemplate, N: ToTemplate, O: ToTemplate, P: ToTemplate, Q: ToTemplate, R: ToTemplate, S: ToTemplate, T: ToTemplate, U: ToTemplate, V: ToTemplate, W: ToTemplate, X: ToTemplate, Y: ToTemplate> ToTemplate for (A, B, C, D, E, F, G, H, I, J, K, L, M, N, O, P, Q, R, S, T, U, V, W, X, Y) {
    open spec fn template_ok() -> bool {
        A::template_ok() && <(B, C, D, E, F, G, H, I, J, K, L, M, N, O, P, Q, R, S, T, U, V, W, X, Y) as ToTemplate>::template_ok()
    }

    open spec fn spec_template(position: Position) -> (Seq<char>, Seq<char>, Seq<char>, Position) {
        let a = A::spec_template(position);
        let r = <(B, C, D, E, F, G, H, I, J, K, L, M, N, O, P, Q, R, S, T, U, V, W, X, Y) as ToTemplate>::spec_template(a.3);
        (a.0 + r.0, a.1 + r.1, a.2 + r.2, r.3)
    }

    fn to_template(
        buf: &mut String,
        class: &mut String,
        style: &mut String,
        position: &mut Position,
    ) {
        let ghost a = A::spec_template(*position);
        let ghost r = <(B, C, D, E, F, G, H, I, J, K, L, M, N, O, P, Q, R, S, T, U, V, W, X, Y) as ToTemplate>::spec_template(a.3);
        A::to_template(buf, class, style, position);
        <(B, C, D, E, F, G, H, I, J, K, L, M, N, O, P, Q, R, S, T, U, V, W, X, Y) as ToTemplate>::to_template(buf, class, style, position);
        proof {
            assert(buf@ =~= old(buf)@ + (a.0 + r.0));
            assert(class@ =~= old(class)@ + (a.1 + r.1));
            assert(style@ =~= old(style)@ + (a.2 + r.2));
        }
    }
}

impl<A: ToTemplate, B: ToTemplate, C: ToTemplate, D: ToTemplate, E: ToTemplate, F: ToTemplate, G: ToTemplate, H: ToTemplate, I: ToTemplate, J: ToTemplate, K: ToTemplate, L: ToTemplate, M: ToTemplate, N: ToTemplate, O: ToTemplate, P: ToTemplate, Q: ToTemplate, R: ToTemplate, S: ToTemplate, T: ToTemplate, U: ToTemplate, V: ToTemplate, W: ToTemplate, X: ToTemplate, Y: ToTemplate, Z: ToTemplate> ToTemplate for (A, B, C, D, E, F, G, H, I, J, K, L, M, N, O, P, Q, R, S, T, U, V, W, X, Y, Z) {
    open spec fn template_ok() -> bool {
        A::template_ok() && <(B, C, D, E, F, G, H, I, J, K, L, M, N, O, P, Q, R, S, T, U, V, W, X, Y, Z) as ToTemplate>::template_ok()
    }

    open spec fn spec_template(position: Position) -> (Seq<char>, Seq<char>, Seq<char>, Position) {
        let a = A::spec_template(position);
        let r = <(B, C, D, E, F, G, H, I, J, K, L, M, N, O, P, Q, R, S, T, U, V, W, X, Y, Z) as ToTemplate>::spec_template(a.3);
        (a.0 + r.0, a.1 + r.1, a.2 + r.2, r.3)
    }

    fn to_template(
        buf: &mut String,
        class: &mut String,
        style: &mut String,
        position: &mut Position,
    ) {
        let ghost a = A::spec_template(*position);
        let ghost r = <(B, C, D, E, F, G, H, I, J, K, L, M, N, O, P, Q, R, S, T, U, V, W, X, Y, Z) as ToTemplate>::spec_template(a.3);
        A::to_template(buf, class, style, position);
        <(B, C, D, E, F, G, H, I, J, K, L, M, N, O, P, Q, R, S, T, U, V, W, X, Y, Z) as ToTemplate>::to_template(buf, class, style, position);
        proof {
            assert(buf@ =~= old(buf)@ + (a.0 + r.0));
            assert(class@ =~= old(class)@ + (a.1 + r.1));
            assert(style@ =~= old(style)@ + (a.2 + r.2));
        }
    }
}

/// The HTML of 2 siblings is theirs in order: the first at the given
/// position, the second as a next child, each later one where the one
/// before it left off; the tuple can be written when each sibling can.
pub proof fn lemma_view_tuple_2<A: RenderHtml, B: RenderHtml>(t: (A, B), position: Position)
    ensures
        ({
            let h0 = t.0.spec_html(position);
            let h1 = t.1.spec_html(Position::NextChild);
            &&& t.spec_html(position).0 == h0.0 + h1.0
            &&& t.spec_html(position).1 == h1.1
        }),
        t.html_ok() == (t.0.html_ok() && t.1.html_ok()),
{
}

/// The HTML of 3 siblings is theirs in order: the first at the given
/// position, the second as a next child, each later one where the one
/// before it left off; the tuple can be written when each sibling can.
pub proof fn lemma_view_tuple_3<A: RenderHtml, B: RenderHtml, C: RenderHtml>(t: (A, B, C), position: Position)
    ensures
        ({
            let h0 = t.0.spec_html(position);
            let h1 = t.1.spec_html(Position::NextChild);
            let h2 = t.2.spec_html(h1.1);
            &&& t.spec_html(position).0 == h0.0 + h1.0 + h2.0
            &&& t.spec_html(position).1 == h2.1
        }),
        t.html_ok() == (t.0.html_ok() && t.1.html_ok() && t.2.html_ok()),
{
}

/// The HTML of 4 siblings is theirs in order: the first at the given
/// position, the second as a next child, each later one where the one
/// before it left off; the tuple can be written when each sibling can.
pub proof fn lemma_view_tuple_4<A: RenderHtml, B: RenderHtml, C: RenderHtml, D: RenderHtml>(t: (A, B, C, D), position: Position)
    ensures
        ({
            let h0 = t.0.spec_html(position);
            let h1 = t.1.spec_html(Position::NextChild);
            let h2 = t.2.spec_html(h1.1);
            let h3 = t.3.spec_html(h2.1);
            &&& t.spec_html(position).0 == h0.0 + h1.0 + h2.0 + h3.0
            &&& t.spec_html(position).1 == h3.1
        }),
        t.html_ok() == (t.0.html_ok() && t.1.html_ok() && t.2.html_ok() && t.3.html_ok()),
{
}

/// The HTML of 5 siblings is theirs in order: the first at the given
/// position, the second as a next child, each later one where the one
/// before it left off; the tuple can be written when each sibling can.
pub proof fn lemma_view_tuple_5<A: RenderHtml, B: RenderHtml, C: RenderHtml, D: RenderHtml, E: RenderHtml>(t: (A, B, C, D, E), position: Position)
    ensures
        ({
            let h0 = t.0.spec_html(position);
            let h1 = t.1.spec_html(Position::NextChild);
            let h2 = t.2.spec_html(h1.1);
            let h3 = t.3.spec_html(h2.1);
            let h4 = t.4.spec_html(h3.1);
            &&& t.spec_html(position).0 == h0.0 + h1.0 + h2.0 + h3.0 + h4.0
            &&& t.spec_html(position).1 == h4.1
        }),
        t.html_ok() == (t.0.html_ok() && t.1.html_ok() && t.2.html_ok() && t.3.html_ok() && t.4.html_ok()),
{
}

/// The HTML of 6 siblings is theirs in order: the first at the given
/// position, the second as a next child, each later one where the one
/// before it left off; the tuple can be written when each sibling can.
pub proof fn lemma_view_tuple_6<A: RenderHtml, B: RenderHtml, C: RenderHtml, D: RenderHtml, E: RenderHtml, F: RenderHtml>(t: (A, B, C, D, E, F), position: Position)
    ensures
        ({
            let h0 = t.0.spec_html(position);
            let h1 = t.1.spec_html(Position::NextChild);
            let h2 = t.2.spec_html(h1.1);
            let h3 = t.3.spec_html(h2.1);
            let h4 = t.4.spec_html(h3.1);
            let h5 = t.5.spec_html(h4.1);
            &&& t.spec_html(position).0 == h0.0 + h1.0 + h2.0 + h3.0 + h4.0 + h5.0
            &&& t.spec_html(position).1 == h5.1
        }),
        t.html_ok() == (t.0.html_ok() && t.1.html_ok() && t.2.html_ok() && t.3.html_ok() && t.4.html_ok() && t.5.html_ok()),
{
}

/// The HTML of 7 siblings is theirs in order: the first at the given
/// position, the second as a next child, each later one where the one
/// before it left off; the tuple can be written when each sibling can.
pub proof fn lemma_view_tuple_7<A: RenderHtml, B: RenderHtml, C: RenderHtml, D: RenderHtml, E: RenderHtml, F: RenderHtml, G: RenderHtml>(t: (A, B, C, D, E, F, G), position: Position)
    ensures
        ({
            let h0 = t.0.spec_html(position);
            let h1 = t.1.spec_html(Position::NextChild);
            let h2 = t.2.spec_html(h1.1);
            let h3 = t.3.spec_html(h2.1);
            let h4 = t.4.spec_html(h3.1);
            let h5 = t.5.spec_html(h4.1);
            let h6 = t.6.spec_html(h5.1);
            &&& t.spec_html(position).0 == h0.0 + h1.0 + h2.0 + h3.0 + h4.0 + h5.0 + h6.0
            &&& t.spec_html(position).1 == h6.1
        }),
        t.html_ok() == (t.0.html_ok() && t.1.html_ok() && t.2.html_ok() && t.3.html_ok() && t.4.html_ok() && t.5.html_ok() && t.6.html_ok()),
{
}

/// The HTML of 8 siblings is theirs in order: the first at the given
/// position, the second as a next child, each later one where the one
/// before it left off; the tuple can be written when each sibling can.
pub proof fn lemma_view_tuple_8<A: RenderHtml, B: RenderHtml, C: RenderHtml, D: RenderHtml, E: RenderHtml, F: RenderHtml, G: RenderHtml, H: RenderHtml>(t: (A, B, C, D, E, F, G, H), position: Position)
    ensures
        ({
            let h0 = t.0.spec_html(position);
            let h1 = t.1.spec_html(Position::NextChild);
            let h2 = t.2.spec_html(h1.1);
            let h3 = t.3.spec_html(h2.1);
            let h4 = t.4.spec_html(h3.1);
            let h5 = t.5.spec_html(h4.1);
            let h6 = t.6.spec_html(h5.1);
            let h7 = t.7.spec_html(h6.1);
            &&& t.spec_html(position).0 == h0.0 + h1.0 + h2.0 + h3.0 + h4.0 + h5.0 + h6.0 + h7.0
            &&& t.spec_html(position).1 == h7.1
        }),
        t.html_ok() == (t.0.html_ok() && t.1.html_ok() && t.2.html_ok() && t.3.html_ok() && t.4.html_ok() && t.5.html_ok() && t.6.html_ok() && t.7.html_ok()),
{
}

/// The HTML of 9 siblings is theirs in order: the first at the given
/// position, the second as a next child, each later one where the one
/// before it left off; the tuple can be written when each sibling can.
pub proof fn lemma_view_tuple_9<A: RenderHtml, B: RenderHtml, C: RenderHtml, D: RenderHtml, E: RenderHtml, F: RenderHtml, G: RenderHtml, H: RenderHtml, I: RenderHtml>(t: (A, B, C, D, E, F, G, H, I), position: Position)
    ensures
        ({
            let h0 = t.0.spec_html(position);
            let h1 = t.1.spec_html(Position::NextChild);
            let h2 = t.2.spec_html(h1.1);
            let h3 = t.3.spec_html(h2.1);
            let h4 = t.4.spec_html(h3.1);
            let h5 = t.5.spec_html(h4.1);
            let h6 = t.6.spec_html(h5.1);
            let h7 = t.7.spec_html(h6.1);
            let h8 = t.8.spec_html(h7.1);
            &&& t.spec_html(position).0 == h0.0 + h1.0 + h2.0 + h3.0 + h4.0 + h5.0 + h6.0 + h7.0 + h8.0
            &&& t.spec_html(position).1 == h8.1
        }),
        t.html_ok() == (t.0.html_ok() && t.1.html_ok() && t.2.html_ok() && t.3.html_ok() && t.4.html_ok() && t.5.html_ok() && t.6.html_ok() && t.7.html_ok() && t.8.html_ok()),
{
}

/// The HTML of 10 siblings is theirs in order: the first at the given
/// position, the second as a next child, each later one where the one
/// before it left off; the tuple can be written when each sibling can.
pub proof fn lemma_view_tuple_10<A: RenderHtml, B: RenderHtml, C: RenderHtml, D: RenderHtml, E: RenderHtml, F: RenderHtml, G: RenderHtml, H: RenderHtml, I: RenderHtml, J: RenderHtml>(t: (A, B, C, D, E, F, G, H, I, J), position: Position)
    ensures
        ({
            let h0 = t.0.spec_html(position);
            let h1 = t.1.spec_html(Position::NextChild);
            let h2 = t.2.spec_html(h1.1);
            let h3 = t.3.spec_html(h2.1);
            let h4 = t.4.spec_html(h3.1);
            let h5 = t.5.spec_html(h4.1);
            let h6 = t.6.spec_html(h5.1);
            let h7 = t.7.spec_html(h6.1);
            let h8 = t.8.spec_html(h7.1);
            let h9 = t.9.spec_html(h8.1);
            &&& t.spec_html(position).0 == h0.0 + h1.0 + h2.0 + h3.0 + h4.0 + h5.0 + h6.0 + h7.0 + h8.0 + h9.0
            &&& t.spec_html(position).1 == h9.1
        }),
        t.html_ok() == (t.0.html_ok() && t.1.html_ok() && t.2.html_ok() && t.3.html_ok() && t.4.html_ok() && t.5.html_ok() && t.6.html_ok() && t.7.html_ok() && t.8.html_ok() && t.9.html_ok()),
{
}

/// The HTML of 11 siblings is theirs in order: the first at the given
/// position, the second as a next child, each later one where the one
/// before it left off; the tuple can be written when each sibling can.
pub proof fn lemma_view_tuple_11<A: RenderHtml, B: RenderHtml, C: RenderHtml, D: RenderHtml, E: RenderHtml, F: RenderHtml, G: RenderHtml, H: RenderHtml, I: RenderHtml, J: RenderHtml, K: RenderHtml>(t: (A, B, C, D, E, F, G, H, I, J, K), position: Position)
    ensures
        ({
            let h0 = t.0.spec_html(position);
            let h1 = t.1.spec_html(Position::NextChild);
            let h2 = t.2.spec_html(h1.1);
            let h3 = t.3.spec_html(h2.1);
            let h4 = t.4.spec_html(h3.1);
            let h5 = t.5.spec_html(h4.1);
            let h6 = t.6.spec_html(h5.1);
            let h7 = t.7.spec_html(h6.1);
            let h8 = t.8.spec_html(h7.1);
            let h9 = t.9.spec_html(h8.1);
            let h10 = t.10.spec_html(h9.1);
            &&& t.spec_html(position).0 == h0.0 + h1.0 + h2.0 + h3.0 + h4.0 + h5.0 + h6.0 + h7.0 + h8.0 + h9.0 + h10.0
            &&& t.spec_html(position).1 == h10.1
        }),
        t.html_ok() == (t.0.html_ok() && t.1.html_ok() && t.2.html_ok() && t.3.html_ok() && t.4.html_ok() && t.5.html_ok() && t.6.html_ok() && t.7.html_ok() && t.8.html_ok() && t.9.html_ok() && t.10.html_ok()),
{
}

/// The HTML of 12 siblings is theirs in order: the first at the given
/// position, the second as a next child, each later one where the one
/// before it left off; the tuple can be written when each sibling can.
pub proof fn lemma_view_tuple_12<A: RenderHtml, B: RenderHtml, C: RenderHtml, D: RenderHtml, E: RenderHtml, F: RenderHtml, G: RenderHtml, H: RenderHtml, I: RenderHtml, J: RenderHtml, K: RenderHtml, L: RenderHtml>(t: (A, B, C, D, E, F, G, H, I, J, K, L), position: Position)
    ensures
        ({
            let h0 = t.0.spec_html(position);
            let h1 = t.1.spec_html(Position::NextChild);
            let h2 = t.2.spec_html(h1.1);
            let h3 = t.3.spec_html(h2.1);
            let h4 = t.4.spec_html(h3.1);
            let h5 = t.5.spec_html(h4.1);
            let h6 = t.6.spec_html(h5.1);
            let h7 = t.7.spec_html(h6.1);
            let h8 = t.8.spec_html(h7.1);
            let h9 = t.9.spec_html(h8.1);
            let h10 = t.10.spec_html(h9.1);
            let h11 = t.11.spec_html(h10.1);
            &&& t.spec_html(position).0 == h0.0 + h1.0 + h2.0 + h3.0 + h4.0 + h5.0 + h6.0 + h7.0 + h8.0 + h9.0 + h10.0 + h11.0
            &&& t.spec_html(position).1 == h11.1
        }),
        t.html_ok() == (t.0.html_ok() && t.1.html_ok() && t.2.html_ok() && t.3.html_ok() && t.4.html_ok() && t.5.html_ok() && t.6.html_ok() && t.7.html_ok() && t.8.html_ok() && t.9.html_ok() && t.10.html_ok() && t.11.html_ok()),
{
}

/// The HTML of 13 siblings is theirs in order: the first at the given
/// position, the second as a next child, each later one where the one
/// before it left off; the tuple can be written when each sibling can.
pub proof fn lemma_view_tuple_13<A: RenderHtml, B: RenderHtml, C: RenderHtml, D: RenderHtml, E: RenderHtml, F: RenderHtml, G: RenderHtml, H: RenderHtml, I: RenderHtml, J: RenderHtml, K: RenderHtml, L: RenderHtml, M: RenderHtml>(t: (A, B, C, D, E, F, G, H, I, J, K, L, M), position: Position)
    ensures
        ({
            let h0 = t.0.spec_html(position);
            let h1 = t.1.spec_html(Position::NextChild);
            let h2 = t.2.spec_html(h1.1);
            let h3 = t.3.spec_html(h2.1);
            let h4 = t.4.spec_html(h3.1);
            let h5 = t.5.spec_html(h4.1);
            let h6 = t.6.spec_html(h5.1);
            let h7 = t.7.spec_html(h6.1);
            let h8 = t.8.spec_html(h7.1);
            let h9 = t.9.spec_html(h8.1);
            let h10 = t.10.spec_html(h9.1);
            let h11 = t.11.spec_html(h10.1);
            let h12 = t.12.spec_html(h11.1);
            &&& t.spec_html(position).0 == h0.0 + h1.0 + h2.0 + h3.0 + h4.0 + h5.0 + h6.0 + h7.0 + h8.0 + h9.0 + h10.0 + h11.0 + h12.0
            &&& t.spec_html(position).1 == h12.1
        }),
        t.html_ok() == (t.0.html_ok() && t.1.html_ok() && t.2.html_ok() && t.3.html_ok() && t.4.html_ok() && t.5.html_ok() && t.6.html_ok() && t.7.html_ok() && t.8.html_ok() && t.9.html_ok() && t.10.html_ok() && t.11.html_ok() && t.12.html_ok()),
{
}

/// The HTML of 14 siblings is theirs in order: the first at the given
/// position, the second as a next child, each later one where the one
/// before it left off; the tuple can be written when each sibling can.
pub proof fn lemma_view_tuple_14<A: RenderHtml, B: RenderHtml, C: RenderHtml, D: RenderHtml, E: RenderHtml, F: RenderHtml, G: RenderHtml, H: RenderHtml, I: RenderHtml, J: RenderHtml, K: RenderHtml, L: RenderHtml, M: RenderHtml, N: RenderHtml>(t: (A, B, C, D, E, F, G, H, I, J, K, L, M, N), position: Position)
    ensures
        ({
            let h0 = t.0.spec_html(position);
            let h1 = t.1.spec_html(Position::NextChild);
            let h2 = t.2.spec_html(h1.1);
            let h3 = t.3.spec_html(h2.1);
            let h4 = t.4.spec_html(h3.1);
            let h5 = t.5.spec_html(h4.1);
            let h6 = t.6.spec_html(h5.1);
            let h7 = t.7.spec_html(h6.1);
            let h8 = t.8.spec_html(h7.1);
            let h9 = t.9.spec_html(h8.1);
            let h10 = t.10.spec_html(h9.1);
            let h11 = t.11.spec_html(h10.1);
            let h12 = t.12.spec_html(h11.1);
            let h13 = t.13.spec_html(h12.1);
            &&& t.spec_html(position).0 == h0.0 + h1.0 + h2.0 + h3.0 + h4.0 + h5.0 + h6.0 + h7.0 + h8.0 + h9.0 + h10.0 + h11.0 + h12.0 + h13.0
            &&& t.spec_html(position).1 == h13.1
        }),
        t.html_ok() == (t.0.html_ok() && t.1.html_ok() && t.2.html_ok() && t.3.html_ok() && t.4.html_ok() && t.5.html_ok() && t.6.html_ok() && t.7.html_ok() && t.8.html_ok() && t.9.html_ok() && t.10.html_ok() && t.11.html_ok() && t.12.html_ok() && t.13.html_ok()),
{
}

/// The HTML of 15 siblings is theirs in order: the first at the given
/// position, the second as a next child, each later one where the one
/// before it left off; the tuple can be written when each sibling can.
pub proof fn lemma_view_tuple_15<A: RenderHtml, B: RenderHtml, C: RenderHtml, D: RenderHtml, E: RenderHtml, F: RenderHtml, G: RenderHtml, H: RenderHtml, I: RenderHtml, J: RenderHtml, K: RenderHtml, L: RenderHtml, M: RenderHtml, N: RenderHtml, O: RenderHtml>(t: (A, B, C, D, E, F, G, H, I, J, K, L, M, N, O), position: Position)
    ensures
        ({
            let h0 = t.0.spec_html(position);
            let h1 = t.1.spec_html(Position::NextChild);
            let h2 = t.2.spec_html(h1.1);
            let h3 = t.3.spec_html(h2.1);
            let h4 = t.4.spec_html(h3.1);
            let h5 = t.5.spec_html(h4.1);
            let h6 = t.6.spec_html(h5.1);
            let h7 = t.7.spec_html(h6.1);
            let h8 = t.8.spec_html(h7.1);
            let h9 = t.9.spec_html(h8.1);
            let h10 = t.10.spec_html(h9.1);
            let h11 = t.11.spec_html(h10.1);
            let h12 = t.12.spec_html(h11.1);
            let h13 = t.13.spec_html(h12.1);
            let h14 = t.14.spec_html(h13.1);
            &&& t.spec_html(position).0 == h0.0 + h1.0 + h2.0 + h3.0 + h4.0 + h5.0 + h6.0 + h7.0 + h8.0 + h9.0 + h10.0 + h11.0 + h12.0 + h13.0 + h14.0
            &&& t.spec_html(position).1 == h14.1
        }),
        t.html_ok() == (t.0.html_ok() && t.1.html_ok() && t.2.html_ok() && t.3.html_ok() && t.4.html_ok() && t.5.html_ok() && t.6.html_ok() && t.7.html_ok() && t.8.html_ok() && t.9.html_ok() && t.10.html_ok() && t.11.html_ok() && t.12.html_ok() && t.13.html_ok() && t.14.html_ok()),
{
}

/// The HTML of 16 siblings is theirs in order: the first at the given
/// position, the second as a next child, each later one where the one
/// before it left off; the tuple can be written when each sibling can.
pub proof fn lemma_view_tuple_16<A: RenderHtml, B: RenderHtml, C: RenderHtml, D: RenderHtml, E: RenderHtml, F: RenderHtml, G: RenderHtml, H: RenderHtml, I: RenderHtml, J: RenderHtml, K: RenderHtml, L: RenderHtml, M: RenderHtml, N: RenderHtml, O: RenderHtml, P: RenderHtml>(t: (A, B, C, D, E, F, G, H, I, J, K, L, M, N, O, P), position: Position)
    ensures
        ({
            let h0 = t.0.spec_html(position);
            let h1 = t.1.spec_html(Position::NextChild);
            let h2 = t.2.spec_html(h1.1);
            let h3 = t.3.spec_html(h2.1);
            let h4 = t.4.spec_html(h3.1);
            let h5 = t.5.spec_html(h4.1);
            let h6 = t.6.spec_html(h5.1);
            let h7 = t.7.spec_html(h6.1);
            let h8 = t.8.spec_html(h7.1);
            let h9 = t.9.spec_html(h8.1);
            let h10 = t.10.spec_html(h9.1);
            let h11 = t.11.spec_html(h10.1);
            let h12 = t.12.spec_html(h11.1);
            let h13 = t.13.spec_html(h12.1);
            let h14 = t.14.spec_html(h13.1);
            let h15 = t.15.spec_html(h14.1);
            &&& t.spec_html(position).0 == h0.0 + h1.0 + h2.0 + h3.0 + h4.0 + h5.0 + h6.0 + h7.0 + h8.0 + h9.0 + h10.0 + h11.0 + h12.0 + h13.0 + h14.0 + h15.0
            &&& t.spec_html(position).1 == h15.1
        }),
        t.html_ok() == (t.0.html_ok() && t.1.html_ok() && t.2.html_ok() && t.3.html_ok() && t.4.html_ok() && t.5.html_ok() && t.6.html_ok() && t.7.html_ok() && t.8.html_ok() && t.9.html_ok() && t.10.html_ok() && t.11.html_ok() && t.12.html_ok() && t.13.html_ok() && t.14.html_ok() && t.15.html_ok()),
{
}

/// The HTML of 17 siblings is theirs in order: the first at the given
/// position, the second as a next child, each later one where the one
/// before it left off; the tuple can be written when each sibling can.
pub proof fn lemma_view_tuple_17<A: RenderHtml, B: RenderHtml, C: RenderHtml, D: RenderHtml, E: RenderHtml, F: RenderHtml, G: RenderHtml, H: RenderHtml, I: RenderHtml, J: RenderHtml, K: RenderHtml, L: RenderHtml, M: RenderHtml, N: RenderHtml, O: RenderHtml, P: RenderHtml, Q: RenderHtml>(t: (A, B, C, D, E, F, G, H, I, J, K, L, M, N, O, P, Q), position: Position)
    ensures
        ({
            let h0 = t.0.spec_html(position);
            let h1 = t.1.spec_html(Position::NextChild);
            let h2 = t.2.spec_html(h1.1);
            let h3 = t.3.spec_html(h2.1);
            let h4 = t.4.spec_html(h3.1);
            let h5 = t.5.spec_html(h4.1);
            let h6 = t.6.spec_html(h5.1);
            let h7 = t.7.spec_html(h6.1);
            let h8 = t.8.spec_html(h7.1);
            let h9 = t.9.spec_html(h8.1);
            let h10 = t.10.spec_html(h9.1);
            let h11 = t.11.spec_html(h10.1);
            let h12 = t.12.spec_html(h11.1);
            let h13 = t.13.spec_html(h12.1);
            let h14 = t.14.spec_html(h13.1);
            let h15 = t.15.spec_html(h14.1);
            let h16 = t.16.spec_html(h15.1);
            &&& t.spec_html(position).0 == h0.0 + h1.0 + h2.0 + h3.0 + h4.0 + h5.0 + h6.0 + h7.0 + h8.0 + h9.0 + h10.0 + h11.0 + h12.0 + h13.0 + h14.0 + h15.0 + h16.0
            &&& t.spec_html(position).1 == h16.1
        }),
        t.html_ok() == (t.0.html_ok() && t.1.html_ok() && t.2.html_ok() && t.3.html_ok() && t.4.html_ok() && t.5.html_ok() && t.6.html_ok() && t.7.html_ok() && t.8.html_ok() && t.9.html_ok() && t.10.html_ok() && t.11.html_ok() && t.12.html_ok() && t.13.html_ok() && t.14.html_ok() && t.15.html_ok() && t.16.html_ok()),
{
}

/// The HTML of 18 siblings is theirs in order: the first at the given
/// position, the second as a next child, each later one where the one
/// before it left off; the tuple can be written when each sibling can.
pub proof fn lemma_view_tuple_18<A: RenderHtml, B: RenderHtml, C: RenderHtml, D: RenderHtml, E: RenderHtml, F: RenderHtml, G: RenderHtml, H: RenderHtml, I: RenderHtml, J: RenderHtml, K: RenderHtml, L: RenderHtml, M: RenderHtml, N: RenderHtml, O: RenderHtml, P: RenderHtml, Q: RenderHtml, R: RenderHtml>(t: (A, B, C, D, E, F, G, H, I, J, K, L, M, N, O, P, Q, R), position: Position)
    ensures
        ({
            let h0 = t.0.spec_html(position);
            let h1 = t.1.spec_html(Position::NextChild);
            let h2 = t.2.spec_html(h1.1);
            let h3 = t.3.spec_html(h2.1);
            let h4 = t.4.spec_html(h3.1);
            let h5 = t.5.spec_html(h4.1);
            let h6 = t.6.spec_html(h5.1);
            let h7 = t.7.spec_html(h6.1);
            let h8 = t.8.spec_html(h7.1);
            let h9 = t.9.spec_html(h8.1);
            let h10 = t.10.spec_html(h9.1);
            let h11 = t.11.spec_html(h10.1);
            let h12 = t.12.spec_html(h11.1);
            let h13 = t.13.spec_html(h12.1);
            let h14 = t.14.spec_html(h13.1);
            let h15 = t.15.spec_html(h14.1);
            let h16 = t.16.spec_html(h15.1);
            let h17 = t.17.spec_html(h16.1);
            &&& t.spec_html(position).0 == h0.0 + h1.0 + h2.0 + h3.0 + h4.0 + h5.0 + h6.0 + h7.0 + h8.0 + h9.0 + h10.0 + h11.0 + h12.0 + h13.0 + h14.0 + h15.0 + h16.0 + h17.0
            &&& t.spec_html(position).1 == h17.1
        }),
        t.html_ok() == (t.0.html_ok() && t.1.html_ok() && t.2.html_ok() && t.3.html_ok() && t.4.html_ok() && t.5.html_ok() && t.6.html_ok() && t.7.html_ok() && t.8.html_ok() && t.9.html_ok() && t.10.html_ok() && t.11.html_ok() && t.12.html_ok() && t.13.html_ok() && t.14.html_ok() && t.15.html_ok() && t.16.html_ok() && t.17.html_ok()),
{
}

/// The HTML of 19 siblings is theirs in order: the first at the given
/// position, the second as a next child, each later one where the one
/// before it left off; the tuple can be written when each sibling can.
pub proof fn lemma_view_tuple_19<A: RenderHtml, B: RenderHtml, C: RenderHtml, D: RenderHtml, E: RenderHtml, F: RenderHtml, G: RenderHtml, H: RenderHtml, I: RenderHtml, J: RenderHtml, K: RenderHtml, L: RenderHtml, M: RenderHtml, N: RenderHtml, O: RenderHtml, P: RenderHtml, Q: RenderHtml, R: RenderHtml, S: RenderHtml>(t: (A, B, C, D, E, F, G, H, I, J, K, L, M, N, O, P, Q, R, S), position: Position)
    ensures
        ({
            let h0 = t.0.spec_html(position);
            let h1 = t.1.spec_html(Position::NextChild);
            let h2 = t.2.spec_html(h1.1);
            let h3 = t.3.spec_html(h2.1);
            let h4 = t.4.spec_html(h3.1);
            let h5 = t.5.spec_html(h4.1);
            let h6 = t.6.spec_html(h5.1);
            let h7 = t.7.spec_html(h6.1);
            let h8 = t.8.spec_html(h7.1);
            let h9 = t.9.spec_html(h8.1);
            let h10 = t.10.spec_html(h9.1);
            let h11 = t.11.spec_html(h10.1);
            let h12 = t.12.spec_html(h11.1);
            let h13 = t.13.spec_html(h12.1);
            let h14 = t.14.spec_html(h13.1);
            let h15 = t.15.spec_html(h14.1);
            let h16 = t.16.spec_html(h15.1);
            let h17 = t.17.spec_html(h16.1);
            let h18 = t.18.spec_html(h17.1);
            &&& t.spec_html(position).0 == h0.0 + h1.0 + h2.0 + h3.0 + h4.0 + h5.0 + h6.0 + h7.0 + h8.0 + h9.0 + h10.0 + h11.0 + h12.0 + h13.0 + h14.0 + h15.0 + h16.0 + h17.0 + h18.0
            &&& t.spec_html(position).1 == h18.1
        }),
        t.html_ok() == (t.0.html_ok() && t.1.html_ok() && t.2.html_ok() && t.3.html_ok() && t.4.html_ok() && t.5.html_ok() && t.6.html_ok() && t.7.html_ok() && t.8.html_ok() && t.9.html_ok() && t.10.html_ok() && t.11.html_ok() && t.12.html_ok() && t.13.html_ok() && t.14.html_ok() && t.15.html_ok() && t.16.html_ok() && t.17.html_ok() && t.18.html_ok()),
{
}

/// The HTML of 20 siblings is theirs in order: the first at the given
/// position, the second as a next child, each later one where the one
/// before it left off; the tuple can be written when each sibling can.
pub proof fn lemma_view_tuple_20<A: RenderHtml, B: RenderHtml, C: RenderHtml, D: RenderHtml, E: RenderHtml, F: RenderHtml, G: RenderHtml, H: RenderHtml, I: RenderHtml, J: RenderHtml, K: RenderHtml, L: RenderHtml, M: RenderHtml, N: RenderHtml, O: RenderHtml, P: RenderHtml, Q: RenderHtml, R: RenderHtml, S: RenderHtml, T: RenderHtml>(t: (A, B, C, D, E, F, G, H, I, J, K, L, M, N, O, P, Q, R, S, T), position: Position)
    ensures
        ({
            let h0 = t.0.spec_html(position);
            let h1 = t.1.spec_html(Position::NextChild);
            let h2 = t.2.spec_html(h1.1);
            let h3 = t.3.spec_html(h2.1);
            let h4 = t.4.spec_html(h3.1);
            let h5 = t.5.spec_html(h4.1);
            let h6 = t.6.spec_html(h5.1);
            let h7 = t.7.spec_html(h6.1);
            let h8 = t.8.spec_html(h7.1);
            let h9 = t.9.spec_html(h8.1);
            let h10 = t.10.spec_html(h9.1);
            let h11 = t.11.spec_html(h10.1);
            let h12 = t.12.spec_html(h11.1);
            let h13 = t.13.spec_html(h12.1);
            let h14 = t.14.spec_html(h13.1);
            let h15 = t.15.spec_html(h14.1);
            let h16 = t.16.spec_html(h15.1);
            let h17 = t.17.spec_html(h16.1);
            let h18 = t.18.spec_html(h17.1);
            let h19 = t.19.spec_html(h18.1);
            &&& t.spec_html(position).0 == h0.0 + h1.0 + h2.0 + h3.0 + h4.0 + h5.0 + h6.0 + h7.0 + h8.0 + h9.0 + h10.0 + h11.0 + h12.0 + h13.0 + h14.0 + h15.0 + h16.0 + h17.0 + h18.0 + h19.0
            &&& t.spec_html(position).1 == h19.1
        }),
        t.html_ok() == (t.0.html_ok() && t.1.html_ok() && t.2.html_ok() && t.3.html_ok() && t.4.html_ok() && t.5.html_ok() && t.6.html_ok() && t.7.html_ok() && t.8.html_ok() && t.9.html_ok() && t.10.html_ok() && t.11.html_ok() && t.12.html_ok() && t.13.html_ok() && t.14.html_ok() && t.15.html_ok() && t.16.html_ok() && t.17.html_ok() && t.18.html_ok() && t.19.html_ok()),
{
}

/// The HTML of 21 siblings is theirs in order: the first at the given
/// position, the second as a next child, each later one where the one
/// before it left off; the tuple can be written when each sibling can.
pub proof fn lemma_view_tuple_21<A: RenderHtml, B: RenderHtml, C: RenderHtml, D: RenderHtml, E: RenderHtml, F: RenderHtml, G: RenderHtml, H: RenderHtml, I: RenderHtml, J: RenderHtml, K: RenderHtml, L: RenderHtml, M: RenderHtml, N: RenderHtml, O: RenderHtml, P: RenderHtml, Q: RenderHtml, R: RenderHtml, S: RenderHtml, T: RenderHtml, U: RenderHtml>(t: (A, B, C, D, E, F, G, H, I, J, K, L, M, N, O, P, Q, R, S, T, U), position: Position)
    ensures
        ({
            let h0 = t.0.spec_html(position);
            let h1 = t.1.spec_html(Position::NextChild);
            let h2 = t.2.spec_html(h1.1);
            let h3 = t.3.spec_html(h2.1);
            let h4 = t.4.spec_html(h3.1);
            let h5 = t.5.spec_html(h4.1);
            let h6 = t.6.spec_html(h5.1);
            let h7 = t.7.spec_html(h6.1);
            let h8 = t.8.spec_html(h7.1);
            let h9 = t.9.spec_html(h8.1);
            let h10 = t.10.spec_html(h9.1);
            let h11 = t.11.spec_html(h10.1);
            let h12 = t.12.spec_html(h11.1);
            let h13 = t.13.spec_html(h12.1);
            let h14 = t.14.spec_html(h13.1);
            let h15 = t.15.spec_html(h14.1);
            let h16 = t.16.spec_html(h15.1);
            let h17 = t.17.spec_html(h16.1);
            let h18 = t.18.spec_html(h17.1);
            let h19 = t.19.spec_html(h18.1);
            let h20 = t.20.spec_html(h19.1);
            &&& t.spec_html(position).0 == h0.0 + h1.0 + h2.0 + h3.0 + h4.0 + h5.0 + h6.0 + h7.0 + h8.0 + h9.0 + h10.0 + h11.0 + h12.0 + h13.0 + h14.0 + h15.0 + h16.0 + h17.0 + h18.0 + h19.0 + h20.0
            &&& t.spec_html(position).1 == h20.1
        }),
        t.html_ok() == (t.0.html_ok() && t.1.html_ok() && t.2.html_ok() && t.3.html_ok() && t.4.html_ok() && t.5.html_ok() && t.6.html_ok() && t.7.html_ok() && t.8.html_ok() && t.9.html_ok() && t.10.html_ok() && t.11.html_ok() && t.12.html_ok() && t.13.html_ok() && t.14.html_ok() && t.15.html_ok() && t.16.html_ok() && t.17.html_ok() && t.18.html_ok() && t.19.html_ok() && t.20.html_ok()),
{
}

/// The HTML of 22 siblings is theirs in order: the first at the given
/// position, the second as a next child, each later one where the one
/// before it left off; the tuple can be written when each sibling can.
pub proof fn lemma_view_tuple_22<A: RenderHtml, B: RenderHtml, C: RenderHtml, D: RenderHtml, E: RenderHtml, F: RenderHtml, G: RenderHtml, H: RenderHtml, I: RenderHtml, J: RenderHtml, K: RenderHtml, L: RenderHtml, M: RenderHtml, N: RenderHtml, O: RenderHtml, P: RenderHtml, Q: RenderHtml, R: RenderHtml, S: RenderHtml, T: RenderHtml, U: RenderHtml, V: RenderHtml>(t: (A, B, C, D, E, F, G, H, I, J, K, L, M, N, O, P, Q, R, S, T, U, V), position: Position)
    ensures
        ({
            let h0 = t.0.spec_html(position);
            let h1 = t.1.spec_html(Position::NextChild);
            let h2 = t.2.spec_html(h1.1);
            let h3 = t.3.spec_html(h2.1);
            let h4 = t.4.spec_html(h3.1);
            let h5 = t.5.spec_html(h4.1);
            let h6 = t.6.spec_html(h5.1);
            let h7 = t.7.spec_html(h6.1);
            let h8 = t.8.spec_html(h7.1);
            let h9 = t.9.spec_html(h8.1);
            let h10 = t.10.spec_html(h9.1);
            let h11 = t.11.spec_html(h10.1);
            let h12 = t.12.spec_html(h11.1);
            let h13 = t.13.spec_html(h12.1);
            let h14 = t.14.spec_html(h13.1);
            let h15 = t.15.spec_html(h14.1);
            let h16 = t.16.spec_html(h15.1);
            let h17 = t.17.spec_html(h16.1);
            let h18 = t.18.spec_html(h17.1);
            let h19 = t.19.spec_html(h18.1);
            let h20 = t.20.spec_html(h19.1);
            let h21 = t.21.spec_html(h20.1);
            &&& t.spec_html(position).0 == h0.0 + h1.0 + h2.0 + h3.0 + h4.0 + h5.0 + h6.0 + h7.0 + h8.0 + h9.0 + h10.0 + h11.0 + h12.0 + h13.0 + h14.0 + h15.0 + h16.0 + h17.0 + h18.0 + h19.0 + h20.0 + h21.0
            &&& t.spec_html(position).1 == h21.1
        }),
        t.html_ok() == (t.0.html_ok() && t.1.html_ok() && t.2.html_ok() && t.3.html_ok() && t.4.html_ok() && t.5.html_ok() && t.6.html_ok() && t.7.html_ok() && t.8.html_ok() && t.9.html_ok() && t.10.html_ok() && t.11.html_ok() && t.12.html_ok() && t.13.html_ok() && t.14.html_ok() && t.15.html_ok() && t.16.html_ok() && t.17.html_ok() && t.18.html_ok() && t.19.html_ok() && t.20.html_ok() && t.21.html_ok()),
{
}

/// The HTML of 23 siblings is theirs in order: the first at the given
/// position, the second as a next child, each later one where the one
/// before it left off; the tuple can be written when each sibling can.
pub proof fn lemma_view_tuple_23<A: RenderHtml, B: RenderHtml, C: RenderHtml, D: RenderHtml, E: RenderHtml, F: RenderHtml, G: RenderHtml, H: RenderHtml, I: RenderHtml, J: RenderHtml, K: RenderHtml, L: RenderHtml, M: RenderHtml, N: RenderHtml, O: RenderHtml, P: RenderHtml, Q: RenderHtml, R: RenderHtml, S: RenderHtml, T: RenderHtml, U: RenderHtml, V: RenderHtml, W: RenderHtml>(t: (A, B, C, D, E, F, G, H, I, J, K, L, M, N, O, P, Q, R, S, T, U, V, W), position: Position)
    ensures
        ({
            let h0 = t.0.spec_html(position);
            let h1 = t.1.spec_html(Position::NextChild);
            let h2 = t.2.spec_html(h1.1);
            let h3 = t.3.spec_html(h2.1);
            let h4 = t.4.spec_html(h3.1);
            let h5 = t.5.spec_html(h4.1);
            let h6 = t.6.spec_html(h5.1);
            let h7 = t.7.spec_html(h6.1);
            let h8 = t.8.spec_html(h7.1);
            let h9 = t.9.spec_html(h8.1);
            let h10 = t.10.spec_html(h9.1);
            let h11 = t.11.spec_html(h10.1);
            let h12 = t.12.spec_html(h11.1);
            let h13 = t.13.spec_html(h12.1);
            let h14 = t.14.spec_html(h13.1);
            let h15 = t.15.spec_html(h14.1);
            let h16 = t.16.spec_html(h15.1);
            let h17 = t.17.spec_html(h16.1);
            let h18 = t.18.spec_html(h17.1);
            let h19 = t.19.spec_html(h18.1);
            let h20 = t.20.spec_html(h19.1);
            let h21 = t.21.spec_html(h20.1);
            let h22 = t.22.spec_html(h21.1);
            &&& t.spec_html(position).0 == h0.0 + h1.0 + h2.0 + h3.0 + h4.0 + h5.0 + h6.0 + h7.0 + h8.0 + h9.0 + h10.0 + h11.0 + h12.0 + h13.0 + h14.0 + h15.0 + h16.0 + h17.0 + h18.0 + h19.0 + h20.0 + h21.0 + h22.0
            &&& t.spec_html(position).1 == h22.1
        }),
        t.html_ok() == (t.0.html_ok() && t.1.html_ok() && t.2.html_ok() && t.3.html_ok() && t.4.html_ok() && t.5.html_ok() && t.6.html_ok() && t.7.html_ok() && t.8.html_ok() && t.9.html_ok() && t.10.html_ok() && t.11.html_ok() && t.12.html_ok() && t.13.html_ok() && t.14.html_ok() && t.15.html_ok() && t.16.html_ok() && t.17.html_ok() && t.18.html_ok() && t.19.html_ok() && t.20.html_ok() && t.21.html_ok() && t.22.html_ok()),
{
}

/// The HTML of 24 siblings is theirs in order: the first at the given
/// position, the second as a next child, each later one where the one
/// before it left off; the tuple can be written when each sibling can.
pub proof fn lemma_view_tuple_24<A: RenderHtml, B: RenderHtml, C: RenderHtml, D: RenderHtml, E: RenderHtml, F: RenderHtml, G: RenderHtml, H: RenderHtml, I: RenderHtml, J: RenderHtml, K: RenderHtml, L: RenderHtml, M: RenderHtml, N: RenderHtml, O: RenderHtml, P: RenderHtml, Q: RenderHtml, R: RenderHtml, S: RenderHtml, T: RenderHtml, U: RenderHtml, V: RenderHtml, W: RenderHtml, X: RenderHtml>(t: (A, B, C, D, E, F, G, H, I, J, K, L, M, N, O, P, Q, R, S, T, U, V, W, X), position: Position)
    ensures
        ({
            let h0 = t.0.spec_html(position);
            let h1 = t.1.spec_html(Position::NextChild);
            let h2 = t.2.spec_html(h1.1);
            let h3 = t.3.spec_html(h2.1);
            let h4 = t.4.spec_html(h3.1);
            let h5 = t.5.spec_html(h4.1);
            let h6 = t.6.spec_html(h5.1);
            let h7 = t.7.spec_html(h6.1);
            let h8 = t.8.spec_html(h7.1);
            let h9 = t.9.spec_html(h8.1);
            let h10 = t.10.spec_html(h9.1);
            let h11 = t.11.spec_html(h10.1);
            let h12 = t.12.spec_html(h11.1);
            let h13 = t.13.spec_html(h12.1);
            let h14 = t.14.spec_html(h13.1);
            let h15 = t.15.spec_html(h14.1);
            let h16 = t.16.spec_html(h15.1);
            let h17 = t.17.spec_html(h16.1);
            let h18 = t.18.spec_html(h17.1);
            let h19 = t.19.spec_html(h18.1);
            let h20 = t.20.spec_html(h19.1);
            let h21 = t.21.spec_html(h20.1);
            let h22 = t.22.spec_html(h21.1);
            let h23 = t.23.spec_html(h22.1);
            &&& t.spec_html(position).0 == h0.0 + h1.0 + h2.0 + h3.0 + h4.0 + h5.0 + h6.0 + h7.0 + h8.0 + h9.0 + h10.0 + h11.0 + h12.0 + h13.0 + h14.0 + h15.0 + h16.0 + h17.0 + h18.0 + h19.0 + h20.0 + h21.0 + h22.0 + h23.0
            &&& t.spec_html(position).1 == h23.1
        }),
        t.html_ok() == (t.0.html_ok() && t.1.html_ok() && t.2.html_ok() && t.3.html_ok() && t.4.html_ok() && t.5.html_ok() && t.6.html_ok() && t.7.html_ok() && t.8.html_ok() && t.9.html_ok() && t.10.html_ok() && t.11.html_ok() && t.12.html_ok() && t.13.html_ok() && t.14.html_ok() && t.15.html_ok() && t.16.html_ok() && t.17.html_ok() && t.18.html_ok() && t.19.html_ok() && t.20.html_ok() && t.21.html_ok() && t.22.html_ok() && t.23.html_ok()),
{
}

/// The HTML of 25 siblings is theirs in order: the first at the given
/// position, the second as a next child, each later one where the one
/// before it left off; the tuple can be written when each sibling can.
pub proof fn lemma_view_tuple_25<A: RenderHtml, B: RenderHtml, C: RenderHtml, D: RenderHtml, E: RenderHtml, F: RenderHtml, G: RenderHtml, H: RenderHtml, I: RenderHtml, J: RenderHtml, K: RenderHtml, L: RenderHtml, M: RenderHtml, N: RenderHtml, O: RenderHtml, P: RenderHtml, Q: RenderHtml, R: RenderHtml, S: RenderHtml, T: RenderHtml, U: RenderHtml, V: RenderHtml, W: RenderHtml, X: RenderHtml, Y: RenderHtml>(t: (A, B, C, D, E, F, G, H, I, J, K, L, M, N, O, P, Q, R, S, T, U, V, W, X, Y), position: Position)
    ensures
        ({
            let h0 = t.0.spec_html(position);
            let h1 = t.1.spec_html(Position::NextChild);
            let h2 = t.2.spec_html(h1.1);
            let h3 = t.3.spec_html(h2.1);
            let h4 = t.4.spec_html(h3.1);
            let h5 = t.5.spec_html(h4.1);
            let h6 = t.6.spec_html(h5.1);
            let h7 = t.7.spec_html(h6.1);
            let h8 = t.8.spec_html(h7.1);
            let h9 = t.9.spec_html(h8.1);
            let h10 = t.10.spec_html(h9.1);
            let h11 = t.11.spec_html(h10.1);
            let h12 = t.12.spec_html(h11.1);
            let h13 = t.13.spec_html(h12.1);
            let h14 = t.14.spec_html(h13.1);
            let h15 = t.15.spec_html(h14.1);
            let h16 = t.16.spec_html(h15.1);
            let h17 = t.17.spec_html(h16.1);
            let h18 = t.18.spec_html(h17.1);
            let h19 = t.19.spec_html(h18.1);
            let h20 = t.20.spec_html(h19.1);
            let h21 = t.21.spec_html(h20.1);
            let h22 = t.22.spec_html(h21.1);
            let h23 = t.23.spec_html(h22.1);
            let h24 = t.24.spec_html(h23.1);
            &&& t.spec_html(position).0 == h0.0 + h1.0 + h2.0 + h3.0 + h4.0 + h5.0 + h6.0 + h7.0 + h8.0 + h9.0 + h10.0 + h11.0 + h12.0 + h13.0 + h14.0 + h15.0 + h16.0 + h17.0 + h18.0 + h19.0 + h20.0 + h21.0 + h22.0 + h23.0 + h24.0
            &&& t.spec_html(position).1 == h24.1
        }),
        t.html_ok() == (t.0.html_ok() && t.1.html_ok() && t.2.html_ok() && t.3.html_ok() && t.4.html_ok() && t.5.html_ok() && t.6.html_ok() && t.7.html_ok() && t.8.html_ok() && t.9.html_ok() && t.10.html_ok() && t.11.html_ok() && t.12.html_ok() && t.13.html_ok() && t.14.html_ok() && t.15.html_ok() && t.16.html_ok() && t.17.html_ok() && t.18.html_ok() && t.19.html_ok() && t.20.html_ok() && t.21.html_ok() && t.22.html_ok() && t.23.html_ok() && t.24.html_ok()),
{
}

/// The HTML of 26 siblings is theirs in order: the first at the given
/// position, the second as a next child, each later one where the one
/// before it left off; the tuple can be written when each sibling can.
pub proof fn lemma_view_tuple_26<A: RenderHtml, B: RenderHtml, C: RenderHtml, D: RenderHtml, E: RenderHtml, F: RenderHtml, G: RenderHtml, H: RenderHtml, I: RenderHtml, J: RenderHtml, K: RenderHtml, L: RenderHtml, M: RenderHtml, N: RenderHtml, O: RenderHtml, P: RenderHtml, Q: RenderHtml, R: RenderHtml, S: RenderHtml, T: RenderHtml, U: RenderHtml, V: RenderHtml, W: RenderHtml, X: RenderHtml, Y: RenderHtml, Z: RenderHtml>(t: (A, B, C, D, E, F, G, H, I, J, K, L, M, N, O, P, Q, R, S, T, U, V, W, X, Y, Z), position: Position)
    ensures
        ({
            let h0 = t.0.spec_html(position);
            let h1 = t.1.spec_html(Position::NextChild);
            let h2 = t.2.spec_html(h1.1);
            let h3 = t.3.spec_html(h2.1);
            let h4 = t.4.spec_html(h3.1);
            let h5 = t.5.spec_html(h4.1);
            let h6 = t.6.spec_html(h5.1);
            let h7 = t.7.spec_html(h6.1);
            let h8 = t.8.spec_html(h7.1);
            let h9 = t.9.spec_html(h8.1);
            let h10 = t.10.spec_html(h9.1);
            let h11 = t.11.spec_html(h10.1);
            let h12 = t.12.spec_html(h11.1);
            let h13 = t.13.spec_html(h12.1);
            let h14 = t.14.spec_html(h13.1);
            let h15 = t.15.spec_html(h14.1);
            let h16 = t.16.spec_html(h15.1);
            let h17 = t.17.spec_html(h16.1);
            let h18 = t.18.spec_html(h17.1);
            let h19 = t.19.spec_html(h18.1);
            let h20 = t.20.spec_html(h19.1);
            let h21 = t.21.spec_html(h20.1);
            let h22 = t.22.spec_html(h21.1);
            let h23 = t.23.spec_html(h22.1);
            let h24 = t.24.spec_html(h23.1);
            let h25 = t.25.spec_html(h24.1);
            &&& t.spec_html(position).0 == h0.0 + h1.0 + h2.0 + h3.0 + h4.0 + h5.0 + h6.0 + h7.0 + h8.0 + h9.0 + h10.0 + h11.0 + h12.0 + h13.0 + h14.0 + h15.0 + h16.0 + h17.0 + h18.0 + h19.0 + h20.0 + h21.0 + h22.0 + h23.0 + h24.0 + h25.0
            &&& t.spec_html(position).1 == h25.1
        }),
        t.html_ok() == (t.0.html_ok() && t.1.html_ok() && t.2.html_ok() && t.3.html_ok() && t.4.html_ok() && t.5.html_ok() && t.6.html_ok() && t.7.html_ok() && t.8.html_ok() && t.9.html_ok() && t.10.html_ok() && t.11.html_ok() && t.12.html_ok() && t.13.html_ok() && t.14.html_ok() && t.15.html_ok() && t.16.html_ok() && t.17.html_ok() && t.18.html_ok() && t.19.html_ok() && t.20.html_ok() && t.21.html_ok() && t.22.html_ok() && t.23.html_ok() && t.24.html_ok() && t.25.html_ok()),
{
}

/// The template of 2 siblings is the first one's, then that of the rest
/// written where the first left off; it can be written when each part's can.
pub proof fn lemma_template_tuple_2<A: ToTemplate, B: ToTemplate>(position: Position)
    ensures
        ({
            let first = A::spec_template(position);
            let rest = <B as ToTemplate>::spec_template(first.3);
            let whole = <(A, B) as ToTemplate>::spec_template(position);
            &&& whole.0 == first.0 + rest.0
            &&& whole.1 == first.1 + rest.1
            &&& whole.2 == first.2 + rest.2
            &&& whole.3 == rest.3
        }),
        <(A, B) as ToTemplate>::template_ok() == (A::template_ok() && <B as ToTemplate>::template_ok()),
{
}

/// The template of 3 siblings is the first one's, then that of the rest
/// written where the first left off; it can be written when each part's can.
pub proof fn lemma_template_tuple_3<A: ToTemplate, B: ToTemplate, C: ToTemplate>(position: Position)
    ensures
        ({
            let first = A::spec_template(position);
            let rest = <(B, C) as ToTemplate>::spec_template(first.3);
            let whole = <(A, B, C) as ToTemplate>::spec_template(position);
            &&& whole.0 == first.0 + rest.0
            &&& whole.1 == first.1 + rest.1
            &&& whole.2 == first.2 + rest.2
            &&& whole.3 == rest.3
        }),
        <(A, B, C) as ToTemplate>::template_ok() == (A::template_ok() && <(B, C) as ToTemplate>::template_ok()),
{
}

/// The template of 4 siblings is the first one's, then that of the rest
/// written where the first left off; it can be written when each part's can.
pub proof fn lemma_template_tuple_4<A: ToTemplate, B: ToTemplate, C: ToTemplate, D: ToTemplate>(position: Position)
    ensures
        ({
            let first = A::spec_template(position);
            let rest = <(B, C, D) as ToTemplate>::spec_template(first.3);
            let whole = <(A, B, C, D) as ToTemplate>::spec_template(position);
            &&& whole.0 == first.0 + rest.0
            &&& whole.1 == first.1 + rest.1
            &&& whole.2 == first.2 + rest.2
            &&& whole.3 == rest.3
        }),
        <(A, B, C, D) as ToTemplate>::template_ok() == (A::template_ok() && <(B, C, D) as ToTemplate>::template_ok()),
{
}

/// The template of 5 siblings is the first one's, then that of the rest
/// written where the first left off; it can be written when each part's can.
pub proof fn lemma_template_tuple_5<A: ToTemplate, B: ToTemplate, C: ToTemplate, D: ToTemplate, E: ToTemplate>(position: Position)
    ensures
        ({
            let first = A::spec_template(position);
            let rest = <(B, C, D, E) as ToTemplate>::spec_template(first.3);
            let whole = <(A, B, C, D, E) as ToTemplate>::spec_template(position);
            &&& whole.0 == first.0 + rest.0
            &&& whole.1 == first.1 + rest.1
            &&& whole.2 == first.2 + rest.2
            &&& whole.3 == rest.3
        }),
        <(A, B, C, D, E) as ToTemplate>::template_ok() == (A::template_ok() && <(B, C, D, E) as ToTemplate>::template_ok()),
{
}

/// The template of 6 siblings is the first one's, then that of the rest
/// written where the first left off; it can be written when each part's can.
pub proof fn lemma_template_tuple_6<A: ToTemplate, B: ToTemplate, C: ToTemplate, D: ToTemplate, E: ToTemplate, F: ToTemplate>(position: Position)
    ensures
        ({
            let first = A::spec_template(position);
            let rest = <(B, C, D, E, F) as ToTemplate>::spec_template(first.3);
            let whole = <(A, B, C, D, E, F) as ToTemplate>::spec_template(position);
            &&& whole.0 == first.0 + rest.0
            &&& whole.1 == first.1 + rest.1
            &&& whole.2 == first.2 + rest.2
            &&& whole.3 == rest.3
        }),
        <(A, B, C, D, E, F) as ToTemplate>::template_ok() == (A::template_ok() && <(B, C, D, E, F) as ToTemplate>::template_ok()),
{
}

/// The template of 7 siblings is the first one's, then that of the rest
/// written where the first left off; it can be written when each part's can.
pub proof fn lemma_template_tuple_7<A: ToTemplate, B: ToTemplate, C: ToTemplate, D: ToTemplate, E: ToTemplate, F: ToTemplate, G: ToTemplate>(position: Position)
    ensures
        ({
            let first = A::spec_template(position);
            let rest = <(B, C, D, E, F, G) as ToTemplate>::spec_template(first.3);
            let whole = <(A, B, C, D, E, F, G) as ToTemplate>::spec_template(position);
            &&& whole.0 == first.0 + rest.0
            &&& whole.1 == first.1 + rest.1
            &&& whole.2 == first.2 + rest.2
            &&& whole.3 == rest.3
        }),
        <(A, B, C, D, E, F, G) as ToTemplate>::template_ok() == (A::template_ok() && <(B, C, D, E, F, G) as ToTemplate>::template_ok()),
{
}

/// The template of 8 siblings is the first one's, then that of the rest
/// written where the first left off; it can be written when each part's can.
pub proof fn lemma_template_tuple_8<A: ToTemplate, B: ToTemplate, C: ToTemplate, D: ToTemplate, E: ToTemplate, F: ToTemplate, G: ToTemplate, H: ToTemplate>(position: Position)
    ensures
        ({
            let first = A::spec_template(position);
            let rest = <(B, C, D, E, F, G, H) as ToTemplate>::spec_template(first.3);
            let whole = <(A, B, C, D, E, F, G, H) as ToTemplate>::spec_template(position);
            &&& whole.0 == first.0 + rest.0
            &&& whole.1 == first.1 + rest.1
            &&& whole.2 == first.2 + rest.2
            &&& whole.3 == rest.3
        }),
        <(A, B, C, D, E, F, G, H) as ToTemplate>::template_ok() == (A::template_ok() && <(B, C, D, E, F, G, H) as ToTemplate>::template_ok()),
{
}

/// The template of 9 siblings is the first one's, then that of the rest
/// written where the first left off; it can be written when each part's can.
pub proof fn lemma_template_tuple_9<A: ToTemplate, B: ToTemplate, C: ToTemplate, D: ToTemplate, E: ToTemplate, F: ToTemplate, G: ToTemplate, H: ToTemplate, I: ToTemplate>(position: Position)
    ensures
        ({
            let first = A::spec_template(position);
            let rest = <(B, C, D, E, F, G, H, I) as ToTemplate>::spec_template(first.3);
            let whole = <(A, B, C, D, E, F, G, H, I) as ToTemplate>::spec_template(position);
            &&& whole.0 == first.0 + rest.0
            &&& whole.1 == first.1 + rest.1
            &&& whole.2 == first.2 + rest.2
            &&& whole.3 == rest.3
        }),
        <(A, B, C, D, E, F, G, H, I) as ToTemplate>::template_ok() == (A::template_ok() && <(B, C, D, E, F, G, H, I) as ToTemplate>::template_ok()),
{
}

/// The template of 10 siblings is the first one's, then that of the rest
/// written where the first left off; it can be written when each part's can.
pub proof fn lemma_template_tuple_10<A: ToTemplate, B: ToTemplate, C: ToTemplate, D: ToTemplate, E: ToTemplate, F: ToTemplate, G: ToTemplate, H: ToTemplate, I: ToTemplate, J: ToTemplate>(position: Position)
    ensures
        ({
            let first = A::spec_template(position);
            let rest = <(B, C, D, E, F, G, H, I, J) as ToTemplate>::spec_template(first.3);
            let whole = <(A, B, C, D, E, F, G, H, I, J) as ToTemplate>::spec_template(position);
            &&& whole.0 == first.0 + rest.0
            &&& whole.1 == first.1 + rest.1
            &&& whole.2 == first.2 + rest.2
            &&& whole.3 == rest.3
        }),
        <(A, B, C, D, E, F, G, H, I, J) as ToTemplate>::template_ok() == (A::template_ok() && <(B, C, D, E, F, G, H, I, J) as ToTemplate>::template_ok()),
{
}

/// The template of 11 siblings is the first one's, then that of the rest
/// written where the first left off; it can be written when each part's can.
pub proof fn lemma_template_tuple_11<A: ToTemplate, B: ToTemplate, C: ToTemplate, D: ToTemplate, E: ToTemplate, F: ToTemplate, G: ToTemplate, H: ToTemplate, I: ToTemplate, J: ToTemplate, K: ToTemplate>(position: Position)
    ensures
        ({
            let first = A::spec_template(position);
            let rest = <(B, C, D, E, F, G, H, I, J, K) as ToTemplate>::spec_template(first.3);
            let whole = <(A, B, C, D, E, F, G, H, I, J, K) as ToTemplate>::spec_template(position);
            &&& whole.0 == first.0 + rest.0
            &&& whole.1 == first.1 + rest.1
            &&& whole.2 == first.2 + rest.2
            &&& whole.3 == rest.3
        }),
        <(A, B, C, D, E, F, G, H, I, J, K) as ToTemplate>::template_ok() == (A::template_ok() && <(B, C, D, E, F, G, H, I, J, K) as ToTemplate>::template_ok()),
{
}

/// The template of 12 siblings is the first one's, then that of the rest
/// written where the first left off; it can be written when each part's can.
pub proof fn lemma_template_tuple_12<A: ToTemplate, B: ToTemplate, C: ToTemplate, D: ToTemplate, E: ToTemplate, F: ToTemplate, G: ToTemplate, H: ToTemplate, I: ToTemplate, J: ToTemplate, K: ToTemplate, L: ToTemplate>(position: Position)
    ensures
        ({
            let first = A::spec_template(position);
            let rest = <(B, C, D, E, F, G, H, I, J, K, L) as ToTemplate>::spec_template(first.3);
            let whole = <(A, B, C, D, E, F, G, H, I, J, K, L) as ToTemplate>::spec_template(position);
            &&& whole.0 == first.0 + rest.0
            &&& whole.1 == first.1 + rest.1
            &&& whole.2 == first.2 + rest.2
            &&& whole.3 == rest.3
        }),
        <(A, B, C, D, E, F, G, H, I, J, K, L) as ToTemplate>::template_ok() == (A::template_ok() && <(B, C, D, E, F, G, H, I, J, K, L) as ToTemplate>::template_ok()),
{
}

/// The template of 13 siblings is the first one's, then that of the rest
/// written where the first left off; it can be written when each part's can.
pub proof fn lemma_template_tuple_13<A: ToTemplate, B: ToTemplate, C: ToTemplate, D: ToTemplate, E: ToTemplate, F: ToTemplate, G: ToTemplate, H: ToTemplate, I: ToTemplate, J: ToTemplate, K: ToTemplate, L: ToTemplate, M: ToTemplate>(position: Position)
    ensures
        ({
            let first = A::spec_template(position);
            let rest = <(B, C, D, E, F, G, H, I, J, K, L, M) as ToTemplate>::spec_template(first.3);
            let whole = <(A, B, C, D, E, F, G, H, I, J, K, L, M) as ToTemplate>::spec_template(position);
            &&& whole.0 == first.0 + rest.0
            &&& whole.1 == first.1 + rest.1
            &&& whole.2 == first.2 + rest.2
            &&& whole.3 == rest.3
        }),
        <(A, B, C, D, E, F, G, H, I, J, K, L, M) as ToTemplate>::template_ok() == (A::template_ok() && <(B, C, D, E, F, G, H, I, J, K, L, M) as ToTemplate>::template_ok()),
{
}

/// The template of 14 siblings is the first one's, then that of the rest
/// written where the first left off; it can be written when each part's can.
pub proof fn lemma_template_tuple_14<A: ToTemplate, B: ToTemplate, C: ToTemplate, D: ToTemplate, E: ToTemplate, F: ToTemplate, G: ToTemplate, H: ToTemplate, I: ToTemplate, J: ToTemplate, K: ToTemplate, L: ToTemplate, M: ToTemplate, N: ToTemplate>(position: Position)
    ensures
        ({
            let first = A::spec_template(position);
            let rest = <(B, C, D, E, F, G, H, I, J, K, L, M, N) as ToTemplate>::spec_template(first.3);
            let whole = <(A, B, C, D, E, F, G, H, I, J, K, L, M, N) as ToTemplate>::spec_template(position);
            &&& whole.0 == first.0 + rest.0
            &&& whole.1 == first.1 + rest.1
            &&& whole.2 == first.2 + rest.2
            &&& whole.3 == rest.3
        }),
        <(A, B, C, D, E, F, G, H, I, J, K, L, M, N) as ToTemplate>::template_ok() == (A::template_ok() && <(B, C, D, E, F, G, H, I, J, K, L, M, N) as ToTemplate>::template_ok()),
{
}

/// The template of 15 siblings is the first one's, then that of the rest
/// written where the first left off; it can be written when each part's can.
pub proof fn lemma_template_tuple_15<A: ToTemplate, B: ToTemplate, C: ToTemplate, D: ToTemplate, E: ToTemplate, F: ToTemplate, G: ToTemplate, H: ToTemplate, I: ToTemplate, J: ToTemplate, K: ToTemplate, L: ToTemplate, M: ToTemplate, N: ToTemplate, O: ToTemplate>(position: Position)
    ensures
        ({
            let first = A::spec_template(position);
            let rest = <(B, C, D, E, F, G, H, I, J, K, L, M, N, O) as ToTemplate>::spec_template(first.3);
            let whole = <(A, B, C, D, E, F, G, H, I, J, K, L, M, N, O) as ToTemplate>::spec_template(position);
            &&& whole.0 == first.0 + rest.0
            &&& whole.1 == first.1 + rest.1
            &&& whole.2 == first.2 + rest.2
            &&& whole.3 == rest.3
        }),
        <(A, B, C, D, E, F, G, H, I, J, K, L, M, N, O) as ToTemplate>::template_ok() == (A::template_ok() && <(B, C, D, E, F, G, H, I, J, K, L, M, N, O) as ToTemplate>::template_ok()),
{
}

/// The template of 16 siblings is the first one's, then that of the rest
/// written where the first left off; it can be written when each part's can.
pub proof fn lemma_template_tuple_16<A: ToTemplate, B: ToTemplate, C: ToTemplate, D: ToTemplate, E: ToTemplate, F: ToTemplate, G: ToTemplate, H: ToTemplate, I: ToTemplate, J: ToTemplate, K: ToTemplate, L: ToTemplate, M: ToTemplate, N: ToTemplate, O: ToTemplate, P: ToTemplate>(position: Position)
    ensures
        ({
            let first = A::spec_template(position);
            let rest = <(B, C, D, E, F, G, H, I, J, K, L, M, N, O, P) as ToTemplate>::spec_template(first.3);
            let whole = <(A, B, C, D, E, F, G, H, I, J, K, L, M, N, O, P) as ToTemplate>::spec_template(position);
            &&& whole.0 == first.0 + rest.0
            &&& whole.1 == first.1 + rest.1
            &&& whole.2 == first.2 + rest.2
            &&& whole.3 == rest.3
        }),
        <(A, B, C, D, E, F, G, H, I, J, K, L, M, N, O, P) as ToTemplate>::template_ok() == (A::template_ok() && <(B, C, D, E, F, G, H, I, J, K, L, M, N, O, P) as ToTemplate>::template_ok()),
{
}

/// The template of 17 siblings is the first one's, then that of the rest
/// written where the first left off; it can be written when each part's can.
pub proof fn lemma_template_tuple_17<A: ToTemplate, B: ToTemplate, C: ToTemplate, D: ToTemplate, E: ToTemplate, F: ToTemplate, G: ToTemplate, H: ToTemplate, I: ToTemplate, J: ToTemplate, K: ToTemplate, L: ToTemplate, M: ToTemplate, N: ToTemplate, O: ToTemplate, P: ToTemplate, Q: ToTemplate>(position: Position)
    ensures
        ({
            let first = A::spec_template(position);
            let rest = <(B, C, D, E, F, G, H, I, J, K, L, M, N, O, P, Q) as ToTemplate>::spec_template(first.3);
            let whole = <(A, B, C, D, E, F, G, H, I, J, K, L, M, N, O, P, Q) as ToTemplate>::spec_template(position);
            &&& whole.0 == first.0 + rest.0
            &&& whole.1 == first.1 + rest.1
            &&& whole.2 == first.2 + rest.2
            &&& whole.3 == rest.3
        }),
        <(A, B, C, D, E, F, G, H, I, J, K, L, M, N, O, P, Q) as ToTemplate>::template_ok() == (A::template_ok() && <(B, C, D, E, F, G, H, I, J, K, L, M, N, O, P, Q) as ToTemplate>::template_ok()),
{
}

/// The template of 18 siblings is the first one's, then that of the rest
/// written where the first left off; it can be written when each part's can.
pub proof fn lemma_template_tuple_18<A: ToTemplate, B: ToTemplate, C: ToTemplate, D: ToTemplate, E: ToTemplate, F: ToTemplate, G: ToTemplate, H: ToTemplate, I: ToTemplate, J: ToTemplate, K: ToTemplate, L: ToTemplate, M: ToTemplate, N: ToTemplate, O: ToTemplate, P: ToTemplate, Q: ToTemplate, R: ToTemplate>(position: Position)
    ensures
        ({
            let first = A::spec_template(position);
            let rest = <(B, C, D, E, F, G, H, I, J, K, L, M, N, O, P, Q, R) as ToTemplate>::spec_template(first.3);
            let whole = <(A, B, C, D, E, F, G, H, I, J, K, L, M, N, O, P, Q, R) as ToTemplate>::spec_template(position);
            &&& whole.0 == first.0 + rest.0
            &&& whole.1 == first.1 + rest.1
            &&& whole.2 == first.2 + rest.2
            &&& whole.3 == rest.3
        }),
        <(A, B, C, D, E, F, G, H, I, J, K, L, M, N, O, P, Q, R) as ToTemplate>::template_ok() == (A::template_ok() && <(B, C, D, E, F, G, H, I, J, K, L, M, N, O, P, Q, R) as ToTemplate>::template_ok()),
{
}

/// The template of 19 siblings is the first one's, then that of the rest
/// written where the first left off; it can be written when each part's can.
pub proof fn lemma_template_tuple_19<A: ToTemplate, B: ToTemplate, C: ToTemplate, D: ToTemplate, E: ToTemplate, F: ToTemplate, G: ToTemplate, H: ToTemplate, I: ToTemplate, J: ToTemplate, K: ToTemplate, L: ToTemplate, M: ToTemplate, N: ToTemplate, O: ToTemplate, P: ToTemplate, Q: ToTemplate, R: ToTemplate, S: ToTemplate>(position: Position)
    ensures
        ({
            let first = A::spec_template(position);
            let rest = <(B, C, D, E, F, G, H, I, J, K, L, M, N, O, P, Q, R, S) as ToTemplate>::spec_template(first.3);
            let whole = <(A, B, C, D, E, F, G, H, I, J, K, L, M, N, O, P, Q, R, S) as ToTemplate>::spec_template(position);
            &&& whole.0 == first.0 + rest.0
            &&& whole.1 == first.1 + rest.1
            &&& whole.2 == first.2 + rest.2
            &&& whole.3 == rest.3
        }),
        <(A, B, C, D, E, F, G, H, I, J, K, L, M, N, O, P, Q, R, S) as ToTemplate>::template_ok() == (A::template_ok() && <(B, C, D, E, F, G, H, I, J, K, L, M, N, O, P, Q, R, S) as ToTemplate>::template_ok()),
{
}

/// The template of 20 siblings is the first one's, then that of the rest
/// written where the first left off; it can be written when each part's can.
pub proof fn lemma_template_tuple_20<A: ToTemplate, B: ToTemplate, C: ToTemplate, D: ToTemplate, E: ToTemplate, F: ToTemplate, G: ToTemplate, H: ToTemplate, I: ToTemplate, J: ToTemplate, K: ToTemplate, L: ToTemplate, M: ToTemplate, N: ToTemplate, O: ToTemplate, P: ToTemplate, Q: ToTemplate, R: ToTemplate, S: ToTemplate, T: ToTemplate>(position: Position)
    ensures
        ({
            let first = A::spec_template(position);
            let rest = <(B, C, D, E, F, G, H, I, J, K, L, M, N, O, P, Q, R, S, T) as ToTemplate>::spec_template(first.3);
            let whole = <(A, B, C, D, E, F, G, H, I, J, K, L, M, N, O, P, Q, R, S, T) as ToTemplate>::spec_template(position);
            &&& whole.0 == first.0 + rest.0
            &&& whole.1 == first.1 + rest.1
            &&& whole.2 == first.2 + rest.2
            &&& whole.3 == rest.3
        }),
        <(A, B, C, D, E, F, G, H, I, J, K, L, M, N, O, P, Q, R, S, T) as ToTemplate>::template_ok() == (A::template_ok() && <(B, C, D, E, F, G, H, I, J, K, L, M, N, O, P, Q, R, S, T) as ToTemplate>::template_ok()),
{
}

/// The template of 21 siblings is the first one's, then that of the rest
/// written where the first left off; it can be written when each part's can.
pub proof fn lemma_template_tuple_21<A: ToTemplate, B: ToTemplate, C: ToTemplate, D: ToTemplate, E: ToTemplate, F: ToTemplate, G: ToTemplate, H: ToTemplate, I: ToTemplate, J: ToTemplate, K: ToTemplate, L: ToTemplate, M: ToTemplate, N: ToTemplate, O: ToTemplate, P: ToTemplate, Q: ToTemplate, R: ToTemplate, S: ToTemplate, T: ToTemplate, U: ToTemplate>(position: Position)
    ensures
        ({
            let first = A::spec_template(position);
            let rest = <(B, C, D, E, F, G, H, I, J, K, L, M, N, O, P, Q, R, S, T, U) as ToTemplate>::spec_template(first.3);
            let whole = <(A, B, C, D, E, F, G, H, I, J, K, L, M, N, O, P, Q, R, S, T, U) as ToTemplate>::spec_template(position);
            &&& whole.0 == first.0 + rest.0
            &&& whole.1 == first.1 + rest.1
            &&& whole.2 == first.2 + rest.2
            &&& whole.3 == rest.3
        }),
        <(A, B, C, D, E, F, G, H, I, J, K, L, M, N, O, P, Q, R, S, T, U) as ToTemplate>::template_ok() == (A::template_ok() && <(B, C, D, E, F, G, H, I, J, K, L, M, N, O, P, Q, R, S, T, U) as ToTemplate>::template_ok()),
{
}

/// The template of 22 siblings is the first one's, then that of the rest
/// written where the first left off; it can be written when each part's can.
pub proof fn lemma_template_tuple_22<A: ToTemplate, B: ToTemplate, C: ToTemplate, D: ToTemplate, E: ToTemplate, F: ToTemplate, G: ToTemplate, H: ToTemplate, I: ToTemplate, J: ToTemplate, K: ToTemplate, L: ToTemplate, M: ToTemplate, N: ToTemplate, O: ToTemplate, P: ToTemplate, Q: ToTemplate, R: ToTemplate, S: ToTemplate, T: ToTemplate, U: ToTemplate, V: ToTemplate>(position: Position)
    ensures
        ({
            let first = A::spec_template(position);
            let rest = <(B, C, D, E, F, G, H, I, J, K, L, M, N, O, P, Q, R, S, T, U, V) as ToTemplate>::spec_template(first.3);
            let whole = <(A, B, C, D, E, F, G, H, I, J, K, L, M, N, O, P, Q, R, S, T, U, V) as ToTemplate>::spec_template(position);
            &&& whole.0 == first.0 + rest.0
            &&& whole.1 == first.1 + rest.1
            &&& whole.2 == first.2 + rest.2
            &&& whole.3 == rest.3
        }),
        <(A, B, C, D, E, F, G, H, I, J, K, L, M, N, O, P, Q, R, S, T, U, V) as ToTemplate>::template_ok() == (A::template_ok() && <(B, C, D, E, F, G, H, I, J, K, L, M, N, O, P, Q, R, S, T, U, V) as ToTemplate>::template_ok()),
{
}

/// The template of 23 siblings is the first one's, then that of the rest
/// written where the first left off; it can be written when each part's can.
pub proof fn lemma_template_tuple_23<A: ToTemplate, B: ToTemplate, C: ToTemplate, D: ToTemplate, E: ToTemplate, F: ToTemplate, G: ToTemplate, H: ToTemplate, I: ToTemplate, J: ToTemplate, K: ToTemplate, L: ToTemplate, M: ToTemplate, N: ToTemplate, O: ToTemplate, P: ToTemplate, Q: ToTemplate, R: ToTemplate, S: ToTemplate, T: ToTemplate, U: ToTemplate, V: ToTemplate, W: ToTemplate>(position: Position)
    ensures
        ({
            let first = A::spec_template(position);
            let rest = <(B, C, D, E, F, G, H, I, J, K, L, M, N, O, P, Q, R, S, T, U, V, W) as ToTemplate>::spec_template(first.3);
            let whole = <(A, B, C, D, E, F, G, H, I, J, K, L, M, N, O, P, Q, R, S, T, U, V, W) as ToTemplate>::spec_template(position);
            &&& whole.0 == first.0 + rest.0
            &&& whole.1 == first.1 + rest.1
            &&& whole.2 == first.2 + rest.2
            &&& whole.3 == rest.3
        }),
        <(A, B, C, D, E, F, G, H, I, J, K, L, M, N, O, P, Q, R, S, T, U, V, W) as ToTemplate>::template_ok() == (A::template_ok() && <(B, C, D, E, F, G, H, I, J, K, L, M, N, O, P, Q, R, S, T, U, V, W) as ToTemplate>::template_ok()),
{
}

/// The template of 24 siblings is the first one's, then that of the rest
/// written where the first left off; it can be written when each part's can.
pub proof fn lemma_template_tuple_24<A: ToTemplate, B: ToTemplate, C: ToTemplate, D: ToTemplate, E: ToTemplate, F: ToTemplate, G: ToTemplate, H: ToTemplate, I: ToTemplate, J: ToTemplate, K: ToTemplate, L: ToTemplate, M: ToTemplate, N: ToTemplate, O: ToTemplate, P: ToTemplate, Q: ToTemplate, R: ToTemplate, S: ToTemplate, T: ToTemplate, U: ToTemplate, V: ToTemplate, W: ToTemplate, X: ToTemplate>(position: Position)
    ensures
        ({
            let first = A::spec_template(position);
            let rest = <(B, C, D, E, F, G, H, I, J, K, L, M, N, O, P, Q, R, S, T, U, V, W, X) as ToTemplate>::spec_template(first.3);
            let whole = <(A, B, C, D, E, F, G, H, I, J, K, L, M, N, O, P, Q, R, S, T, U, V, W, X) as ToTemplate>::spec_template(position);
            &&& whole.0 == first.0 + rest.0
            &&& whole.1 == first.1 + rest.1
            &&& whole.2 == first.2 + rest.2
            &&& whole.3 == rest.3
        }),
        <(A, B, C, D, E, F, G, H, I, J, K, L, M, N, O, P, Q, R, S, T, U, V, W, X) as ToTemplate>::template_ok() == (A::template_ok() && <(B, C, D, E, F, G, H, I, J, K, L, M, N, O, P, Q, R, S, T, U, V, W, X) as ToTemplate>::template_ok()),
{
}

/// The template of 25 siblings is the first one's, then that of the rest
/// written where the first left off; it can be written when each part's can.
pub proof fn lemma_template_tuple_25<A: ToTemplate, B: ToTemplate, C: ToTemplate, D: ToTemplate, E: ToTemplate, F: ToTemplate, G: ToTemplate, H: ToTemplate, I: ToTemplate, J: ToTemplate, K: ToTemplate, L: ToTemplate, M: ToTemplate, N: ToTemplate, O: ToTemplate, P: ToTemplate, Q: ToTemplate, R: ToTemplate, S: ToTemplate, T: ToTemplate, U: ToTemplate, V: ToTemplate, W: ToTemplate, X: ToTemplate, Y: ToTemplate>(position: Position)
    ensures
        ({
            let first = A::spec_template(position);
            let rest = <(B, C, D, E, F, G, H, I, J, K, L, M, N, O, P, Q, R, S, T, U, V, W, X, Y) as ToTemplate>::spec_template(first.3);
            let whole = <(A, B, C, D, E, F, G, H, I, J, K, L, M, N, O, P, Q, R, S, T, U, V, W, X, Y) as ToTemplate>::spec_template(position);
            &&& whole.0 == first.0 + rest.0
            &&& whole.1 == first.1 + rest.1
            &&& whole.2 == first.2 + rest.2
            &&& whole.3 == rest.3
        }),
        <(A, B, C, D, E, F, G, H, I, J, K, L, M, N, O, P, Q, R, S, T, U, V, W, X, Y) as ToTemplate>::template_ok() == (A::template_ok() && <(B, C, D, E, F, G, H, I, J, K, L, M, N, O, P, Q, R, S, T, U, V, W, X, Y) as ToTemplate>::template_ok()),
{
}

/// The template of 26 siblings is the first one's, then that of the rest
/// written where the first left off; it can be written when each part's can.
pub proof fn lemma_template_tuple_26<A: ToTemplate, B: ToTemplate, C: ToTemplate, D: ToTemplate, E: ToTemplate, F: ToTemplate, G: ToTemplate, H: ToTemplate, I: ToTemplate, J: ToTemplate, K: ToTemplate, L: ToTemplate, M: ToTemplate, N: ToTemplate, O: ToTemplate, P: ToTemplate, Q: ToTemplate, R: ToTemplate, S: ToTemplate, T: ToTemplate, U: ToTemplate, V: ToTemplate, W: ToTemplate, X: ToTemplate, Y: ToTemplate, Z: ToTemplate>(position: Position)
    ensures
        ({
            let first = A::spec_template(position);
            let rest = <(B, C, D, E, F, G, H, I, J, K, L, M, N, O, P, Q, R, S, T, U, V, W, X, Y, Z) as ToTemplate>::spec_template(first.3);
            let whole = <(A, B, C, D, E, F, G, H, I, J, K, L, M, N, O, P, Q, R, S, T, U, V, W, X, Y, Z) as ToTemplate>::spec_template(position);
            &&& whole.0 == first.0 + rest.0
            &&& whole.1 == first.1 + rest.1
            &&& whole.2 == first.2 + rest.2
            &&& whole.3 == rest.3
        }),
        <(A, B, C, D, E, F, G, H, I, J, K, L, M, N, O, P, Q, R, S, T, U, V, W, X, Y, Z) as ToTemplate>::template_ok() == (A::template_ok() && <(B, C, D, E, F, G, H, I, J, K, L, M, N, O, P, Q, R, S, T, U, V, W, X, Y, Z) as ToTemplate>::template_ok()),
{
}

} // verus!
