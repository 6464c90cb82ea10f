//! Route definitions whose segments match characters of the path directly.
pub mod param_segments;
pub mod static_segment;

pub use param_segments::{ParamSegment, WildcardSegment};
pub use static_segment::StaticSegment;

use crate::matching::RouteMatch;
use vstd::prelude::*;

verus! {

/// A single route in a tree of routes: the path it matches, the routes nested
/// within it, and the function that makes its view.
#[derive(Clone)]
pub struct RouteDefinition<Pat, ViewFn, Children> {
    pub path: Pat,
    pub children: Children,
    pub view: ViewFn,
}

impl<Pat, ViewFn, Children> RouteDefinition<Pat, ViewFn, Children> {
    pub fn new<View>(path: Pat, children: Children, view: ViewFn) -> (r: Self) where
        Pat: RouteMatch,
        ViewFn: Fn() -> View,

        ensures
            r.path == path,
            r.children == children,
            r.view == view,
    {
        RouteDefinition { path, children, view }
    }
}

} // verus!
