//! Views: things that can be rendered to HTML text.
pub mod dynamic;
pub mod either;
pub mod iterators;
pub mod static_types;
pub mod strings;
pub mod template;
pub mod tuples;

use vstd::prelude::*;
use vstd::string::*;

verus! {

/// Where a node stands among its siblings while HTML is written.
#[derive(Debug, Copy, Clone, PartialEq, Eq, Structural)]
pub enum Position {
    FirstChild,
    NextChild,
    OnlyChild,
    LastChild,
}

impl Default for Position {
    fn default() -> (r: Self)
        ensures
            r == Position::FirstChild,
    {
        Position::FirstChild
    }
}

/// The comment `<!>` that separates adjacent text nodes and marks the place of
/// a view that may change.
pub open spec fn marker() -> Seq<char> {
    seq!['<', '!', '>']
}

/// Whether a text node at this position needs a `<!>` before it.
pub open spec fn needs_marker(p: Position) -> bool {
    p == Position::NextChild || p == Position::LastChild
}

/// Appends the `<!>` marker.
pub fn push_marker(buf: &mut String)
    ensures
        final(buf)@ == old(buf)@ + marker(),
{
    buf.append("<!>");
    proof {
        reveal_strlit("<!>");
    }
}

/// The position of the next node to be written, owned by the writer and
/// changed through `&mut` as HTML is written.
#[derive(Debug)]
pub struct PositionState(Position);

impl Default for PositionState {
    fn default() -> (r: Self)
        ensures
            r.value() == Position::FirstChild,
    {
        PositionState(Position::FirstChild)
    }
}

impl PositionState {
    pub closed spec fn value(&self) -> Position {
        self.0
    }

    pub fn new(position: Position) -> (r: Self)
        ensures
            r.value() == position,
    {
        PositionState(position)
    }

    pub fn set(&mut self, position: Position)
        ensures
            final(self).value() == position,
    {
        self.0 = position;
    }

    pub fn get(&self) -> (r: Position)
        ensures
            r == self.value(),
    {
        self.0
    }
}

/// Indicates where a node should be mounted to its parent.
pub enum MountKind<N> {
    /// Node should be mounted before this marker node.
    Before(N),
    /// Node should be appended to the parent's children.
    Append,
}

/// A view that can be written as HTML text.
pub trait RenderHtml: Sized {
    /// The HTML this view writes when it starts at the given position, and the
    /// position it leaves for what follows.
    spec fn spec_html(&self, position: Position) -> (Seq<char>, Position);

    /// Whether this view can be written (some views call functions that must
    /// accept being called).
    spec fn html_ok(&self) -> bool;

    /// Writes the view's HTML at the end of `buf`.
    fn to_html_with_buf(self, buf: &mut String, position: &mut PositionState)
        requires
            self.html_ok(),
        ensures
            final(buf)@ == old(buf)@ + self.spec_html(old(position).value()).0,
            final(position).value() == self.spec_html(old(position).value()).1,
    ;

    /// The view's HTML, starting as a first child.
    fn to_html(self) -> (r: String)
        requires
            self.html_ok(),
        ensures
            r@ == self.spec_html(Position::FirstChild).0,
    {
        let mut buf = String::new();
        let mut position = PositionState::default();
        self.to_html_with_buf(&mut buf, &mut position);
        buf
    }
}

/// A view type that can be written into a static HTML template: its template
/// depends on its type alone, not on the data it holds.
pub trait ToTemplate {
    /// The template text written at the given position, the text added to the
    /// class list and to the style, and the position left.
    spec fn spec_template(position: Position) -> (Seq<char>, Seq<char>, Seq<char>, Position);

    /// Whether the template can be written (some types call functions that
    /// must give the same answer each time).
    spec fn template_ok() -> bool;

    fn to_template(
        buf: &mut String,
        class: &mut String,
        style: &mut String,
        position: &mut Position,
    )
        requires
            Self::template_ok(),
        ensures
            final(buf)@ == old(buf)@ + Self::spec_template(*old(position)).0,
            final(class)@ == old(class)@ + Self::spec_template(*old(position)).1,
            final(style)@ == old(style)@ + Self::spec_template(*old(position)).2,
            *final(position) == Self::spec_template(*old(position)).3,
    ;
}

} // verus!
