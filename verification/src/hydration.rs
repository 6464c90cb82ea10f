//! The decisions made when a view is attached to nodes already in the page
//! (hydration) and when a mounted view is updated (rebuilding).
//!
//! Moving through the page's nodes, creating and replacing them is left to
//! the caller, which carries out each step decided here.
use crate::strs::str_eq;
use crate::view::either::Either;
use crate::view::Position;
use vstd::prelude::*;

verus! {

/// Where the cursor over the page's nodes moves to reach a view's first node.
#[derive(Debug, Clone, Copy, PartialEq, Eq, Structural)]
pub enum CursorMove {
    /// To the first child of the current node.
    Child,
    /// To the next sibling of the current node.
    Sibling,
}

/// A view that starts as a first child is reached by moving to the first
/// child; any other by moving to the next sibling.
pub open spec fn entry_move(position: Position) -> CursorMove {
    if position == Position::FirstChild {
        CursorMove::Child
    } else {
        CursorMove::Sibling
    }
}

/// How the cursor moves to reach a view that starts at the given position.
pub fn cursor_move(position: Position) -> (r: CursorMove)
    ensures
        r == entry_move(position),
{
    if position == Position::FirstChild {
        CursorMove::Child
    } else {
        CursorMove::Sibling
    }
}

/// The steps of attaching a text node.
#[derive(Debug, Clone, Copy, PartialEq, Eq, Structural)]
pub struct TextHydration {
    /// How to reach the text node.
    pub enter: CursorMove,
    /// Whether to step over the `<!>` marker written before the text.
    pub skip_marker: bool,
    /// Whether to replace the node found by a new text node (the nodes came
    /// from a template, not from HTML written for this text).
    pub replace_node: bool,
    /// The position of what follows.
    pub next: Position,
}

/// The steps of attaching a text node at the given position; `from_server`
/// tells whether the nodes were made from HTML written for this view.
pub fn text_hydration_step(position: Position, from_server: bool) -> (r: TextHydration)
    ensures
        r.enter == (if position == Position::FirstChild {
            CursorMove::Child
        } else {
            CursorMove::Sibling
        }),
        r.skip_marker == (from_server && (position == Position::NextChild || position
            == Position::LastChild)),
        r.replace_node == !from_server,
        r.next == Position::NextChild,
{
    let enter = cursor_move(position);
    let skip_marker = from_server && matches!(position, Position::NextChild | Position::LastChild);
    TextHydration { enter, skip_marker, replace_node: !from_server, next: Position::NextChild }
}

/// The steps of attaching an element.
#[derive(Debug, Clone, Copy, PartialEq, Eq, Structural)]
pub struct ElementHydration {
    /// How to reach the element.
    pub enter: CursorMove,
    /// The position its children start at.
    pub children: Position,
    /// The position of what follows the element, once the cursor is set back
    /// to it.
    pub next: Position,
}

/// The steps of attaching an element at the given position: reach it, attach
/// its children from a first-child position, set the cursor back to it, and
/// go on as a next child.
pub fn element_hydration_step(position: Position) -> (r: ElementHydration)
    ensures
        r.enter == entry_move(position),
        r.children == Position::FirstChild,
        r.next == Position::NextChild,
{
    ElementHydration {
        enter: cursor_move(position),
        children: Position::FirstChild,
        next: Position::NextChild,
    }
}

/// The steps of attaching the placeholder of an optional view, after the view
/// itself: how to reach it, and the position of what follows.
pub fn placeholder_hydration_step(position: Position) -> (r: (CursorMove, Position))
    ensures
        r.0 == entry_move(position),
        r.1 == Position::NextChild,
{
    (cursor_move(position), Position::NextChild)
}

/// Whether a text node must be given a new text: exactly when it changed.
pub fn text_needs_update(old: &str, new: &str) -> (r: bool)
    ensures
        r == (old@ != new@),
{
    !str_eq(old, new)
}

/// How a mounted alternative is updated.
#[derive(Debug, Clone, Copy, PartialEq, Eq, Structural)]
pub enum EitherRebuild {
    /// The same side is shown: update its view in place.
    InPlace,
    /// The other side is shown: unmount the old view, build the new one and
    /// mount it before the marker.
    Replace,
}

/// Whether two alternatives show the same side.
pub open spec fn same_side<A, B, C, D>(new: Either<A, B>, old: Either<C, D>) -> bool {
    (new is Left && old is Left) || (new is Right && old is Right)
}

/// How to update a mounted alternative whose state is `old` to show `new`.
pub fn either_rebuild_step<A, B, C, D>(new: &Either<A, B>, old: &Either<C, D>) -> (r: EitherRebuild)
    ensures
        r == (if same_side(*new, *old) {
            EitherRebuild::InPlace
        } else {
            EitherRebuild::Replace
        }),
{
    match (new, old) {
        (Either::Left(_), Either::Left(_)) => EitherRebuild::InPlace,
        (Either::Right(_), Either::Right(_)) => EitherRebuild::InPlace,
        _ => EitherRebuild::Replace,
    }
}

/// How a mounted optional view is updated.
#[derive(Debug, Clone, Copy, PartialEq, Eq, Structural)]
pub enum OptionRebuild {
    /// Nothing was shown and nothing is: nothing to do.
    Nothing,
    /// A view was shown and one is: update it in place.
    InPlace,
    /// A view was shown and none is: unmount it.
    Unmount,
    /// Nothing was shown and a view is: build it and mount it before the
    /// placeholder.
    BuildAndMount,
}

/// How to update a mounted optional view whose state is `old` to show `new`.
pub fn option_rebuild_step<S, T>(old: &Option<S>, new: &Option<T>) -> (r: OptionRebuild)
    ensures
        r == match (*old, *new) {
            (None, None) => OptionRebuild::Nothing,
            (Some(_), Some(_)) => OptionRebuild::InPlace,
            (Some(_), None) => OptionRebuild::Unmount,
            (None, Some(_)) => OptionRebuild::BuildAndMount,
        },
{
    match (old, new) {
        (None, None) => OptionRebuild::Nothing,
        (Some(_), Some(_)) => OptionRebuild::InPlace,
        (Some(_), None) => OptionRebuild::Unmount,
        (None, Some(_)) => OptionRebuild::BuildAndMount,
    }
}

/// A view that starts as a first child is reached by moving to the first
/// child; one at any other position by moving to the next sibling.
pub proof fn lemma_entry_move_law(position: Position)
    ensures
        position == Position::FirstChild ==> entry_move(position) == CursorMove::Child,
        position != Position::FirstChild ==> entry_move(position) == CursorMove::Sibling,
{
}

} // verus!
