//! Views made by a function, written with what the function gives.
use crate::html::class::{answer, ask, steady};
use crate::view::{Position, PositionState, RenderHtml, ToTemplate};
use vstd::prelude::*;

verus! {

impl<F: Fn() -> V, V: RenderHtml> RenderHtml for F {
    /// The HTML of the view the function gives.
    open spec fn spec_html(&self, position: Position) -> (Seq<char>, Position) {
        answer(self).spec_html(position)
    }

    /// The function gives the same view each time, and that view can be
    /// written.
    open spec fn html_ok(&self) -> bool {
        steady(self) && answer(self).html_ok()
    }

    fn to_html_with_buf(self, buf: &mut String, position: &mut PositionState) {
        let value = ask(&self);
        value.to_html_with_buf(buf, position)
    }
}

impl<F: Fn() -> V, V: ToTemplate> ToTemplate for F {
    /// The template of the view type the function gives.
    open spec fn spec_template(position: Position) -> (Seq<char>, Seq<char>, Seq<char>, Position) {
        V::spec_template(position)
    }

    open spec fn template_ok() -> bool {
        V::template_ok()
    }

    fn to_template(
        buf: &mut String,
        class: &mut String,
        style: &mut String,
        position: &mut Position,
    ) {
        V::to_template(buf, class, style, position)
    }
}

/// A function view writes the HTML, and the template, of the view it gives.
pub proof fn lemma_function_view_law<F: Fn() -> V, V: RenderHtml + ToTemplate>(f: F, position: Position)
    ensures
        f.spec_html(position) == answer(&f).spec_html(position),
        f.html_ok() == (steady(&f) && answer(&f).html_ok()),
        <F as ToTemplate>::spec_template(position) == V::spec_template(position),
{
}

} // verus!
