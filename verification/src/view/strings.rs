//! Text views.
use crate::view::{
    marker, needs_marker, push_marker, Position, PositionState, RenderHtml, ToTemplate,
};
use vstd::prelude::*;
use vstd::string::*;

verus! {

/// The HTML of a text node: the text, preceded by a `<!>` marker when a text
/// node may stand right before it.
pub open spec fn text_html(s: Seq<char>, position: Position) -> Seq<char> {
    if needs_marker(position) {
        marker() + s
    } else {
        s
    }
}

fn push_text(buf: &mut String, s: &str, position: &PositionState)
    ensures
        final(buf)@ == old(buf)@ + text_html(s@, position.value()),
{
    let p = position.get();
    if matches!(p, Position::NextChild | Position::LastChild) {
        push_marker(buf);
    }
    buf.append(s);
}

impl<'a> RenderHtml for &'a str {
    open spec fn spec_html(&self, position: Position) -> (Seq<char>, Position) {
        (text_html((*self)@, position), position)
    }

    open spec fn html_ok(&self) -> bool {
        true
    }

    fn to_html_with_buf(self, buf: &mut String, position: &mut PositionState) {
        push_text(buf, self, position);
    }
}

impl RenderHtml for String {
    open spec fn spec_html(&self, position: Position) -> (Seq<char>, Position) {
        (text_html(self@, position), position)
    }

    open spec fn html_ok(&self) -> bool {
        true
    }

    fn to_html_with_buf(self, buf: &mut String, position: &mut PositionState) {
        push_text(buf, self.as_str(), position);
    }
}

/// The template of a text node: a `<!>` marker, after which a next child
/// follows.
pub open spec fn text_template(position: Position) -> (Seq<char>, Seq<char>, Seq<char>, Position) {
    (marker(), Seq::empty(), Seq::empty(), Position::NextChild)
}

fn text_to_template(
    buf: &mut String,
    class: &mut String,
    style: &mut String,
    position: &mut Position,
)
    ensures
        final(buf)@ == old(buf)@ + marker(),
        final(class)@ == old(class)@ + Seq::<char>::empty(),
        final(style)@ == old(style)@ + Seq::<char>::empty(),
        *final(position) == Position::NextChild,
{
    push_marker(buf);
    *position = Position::NextChild;
    assert(class@ =~= class@ + Seq::<char>::empty());
    assert(style@ =~= style@ + Seq::<char>::empty());
}

impl<'a> ToTemplate for &'a str {
    open spec fn template_ok() -> bool {
        true
    }

    open spec fn spec_template(position: Position) -> (Seq<char>, Seq<char>, Seq<char>, Position) {
        text_template(position)
    }

    fn to_template(
        buf: &mut String,
        class: &mut String,
        style: &mut String,
        position: &mut Position,
    ) {
        text_to_template(buf, class, style, position);
    }
}

impl ToTemplate for String {
    open spec fn template_ok() -> bool {
        true
    }

    open spec fn spec_template(position: Position) -> (Seq<char>, Seq<char>, Seq<char>, Position) {
        text_template(position)
    }

    fn to_template(
        buf: &mut String,
        class: &mut String,
        style: &mut String,
        position: &mut Position,
    ) {
        text_to_template(buf, class, style, position);
    }
}

/// What a mounted owned text view keeps: its text node and its text.
pub struct StringState<T> {
    pub node: T,
    pub str: String,
}

/// What a mounted borrowed text view keeps: its text node and its text.
pub struct StrState<'a, T> {
    pub node: T,
    pub str: &'a str,
}

/// A text is written as it is, preceded by a `<!>` marker when it follows a
/// sibling (a next or last child); the position stays as it was.
pub proof fn lemma_text_html_law(s: &str, t: String, position: Position)
    ensures
        s.spec_html(position) == (
            if position == Position::NextChild || position == Position::LastChild {
                seq!['<', '!', '>'] + s@
            } else {
                s@
            },
            position,
        ),
        t.spec_html(position) == (
            if position == Position::NextChild || position == Position::LastChild {
                seq!['<', '!', '>'] + t@
            } else {
                t@
            },
            position,
        ),
{
}

/// The template of a text is a `<!>` marker, with no class or style, after
/// which a next child follows.
pub proof fn lemma_text_template_law(position: Position)
    ensures
        <&str as ToTemplate>::spec_template(position) == (
            seq!['<', '!', '>'],
            Seq::<char>::empty(),
            Seq::<char>::empty(),
            Position::NextChild,
        ),
        <String as ToTemplate>::spec_template(position) == (
            seq!['<', '!', '>'],
            Seq::<char>::empty(),
            Seq::<char>::empty(),
            Position::NextChild,
        ),
{
}

} // verus!
