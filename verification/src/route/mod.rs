//! Route definitions: a path to match, nested routes, and the view to show.
pub mod nested_routes;
pub mod params_map;
pub mod path_segment;
pub mod path_sequence;
pub mod route_child;

pub use params_map::ParamsMap;
pub use path_segment::{ParamSegment, PathMatch, RoutePath, SplatSegment, StaticSegment};

use crate::matching::{params_view, PartialPathMatch, RouteMatch};
use crate::route::params_map::{find_param, first_value, opt_str_view};
use crate::strs::empty_or_slash;
use vstd::prelude::*;

verus! {

/// A single route in a tree of routes: the path it matches, the routes nested
/// within it, and the function that makes its view.
#[derive(Clone)]
pub struct RouteDefinition<Pat, ViewFn, Children> {
    pub path: Pat,
    pub children: Children,
    pub view: ViewFn,
}

/// A route that matched: the parameters it captured and the text it matched.
pub struct MatchedRoute {
    pub params: Vec<(&'static str, String)>,
    pub matched: String,
}

/// The mathematical content of a matched route.
pub struct MatchedRouteView {
    pub params: Seq<(Seq<char>, Seq<char>)>,
    pub matched: Seq<char>,
}

impl View for MatchedRoute {
    type V = MatchedRouteView;

    open spec fn view(&self) -> MatchedRouteView {
        MatchedRouteView { params: params_view(self.params@), matched: self.matched@ }
    }
}

impl MatchedRoute {
    /// The value of the first parameter named `key`.
    pub fn param(&self, key: &str) -> (r: Option<&str>)
        ensures
            opt_str_view(r) == first_value(self@.params, key@),
    {
        find_param(self.params.as_slice(), key)
    }
}

impl<Pat, ViewFn, Children> RouteDefinition<Pat, ViewFn, Children> {
    /// The view of this route for the given match.
    pub fn view<View>(&self, matched: MatchedRoute) -> (r: View) where
        ViewFn: Fn(MatchedRoute) -> View,

        requires
            call_requires(self.view, (matched,)),
        ensures
            call_ensures(self.view, (matched,), r),
    {
        (self.view)(matched)
    }

    pub fn new<View>(path: Pat, children: Children, view: ViewFn) -> (r: Self) where
        Pat: RouteMatch,
        Children: PossibleRoutes,
        ViewFn: Fn(MatchedRoute) -> View,

        ensures
            r.path == path,
            r.children == children,
            r.view == view,
    {
        RouteDefinition { path, children, view }
    }
}

/// A route that matched a whole path: its parameters, the text it matched and
/// the function that makes its view.
pub struct FullRouteMatch<'a, ViewFn> {
    params: Vec<(&'static str, String)>,
    matched: String,
    view: &'a ViewFn,
}

impl<'a, ViewFn> FullRouteMatch<'a, ViewFn> {
    pub closed spec fn spec_params(&self) -> Seq<(Seq<char>, Seq<char>)> {
        params_view(self.params@)
    }

    pub closed spec fn spec_matched(&self) -> Seq<char> {
        self.matched@
    }

    pub closed spec fn spec_view(&self) -> ViewFn {
        *self.view
    }

    pub fn params(&self) -> (r: &[(&'static str, String)])
        ensures
            params_view(r@) == self.spec_params(),
    {
        self.params.as_slice()
    }

    pub fn matched(&self) -> (r: &str)
        ensures
            r@ == self.spec_matched(),
    {
        self.matched.as_str()
    }

    /// Makes the view of the route that matched.
    pub fn state<View>(&self) -> (r: View) where ViewFn: Fn() -> View
        requires
            call_requires(self.spec_view(), ()),
        ensures
            call_ensures(self.spec_view(), (), r),
    {
        (self.view)()
    }
}

/// A set of routes of which one may match a whole path.
pub trait PossibleRoutes {
    type ViewFn;

    /// The parameters and the matched text of the route that matches the whole
    /// path, if one does.
    spec fn spec_match(&self, path: Seq<char>) -> Option<(Seq<(Seq<char>, Seq<char>)>, Seq<char>)>;

    /// The paths on which matching is defined.
    spec fn match_ok(&self, path: Seq<char>) -> bool;

    fn match_route<'a>(&'a self, path: &str) -> (r: Option<FullRouteMatch<'a, Self::ViewFn>>)
        requires
            self.match_ok(path@),
        ensures
            match r {
                Some(m) => self.spec_match(path@) == Some((m.spec_params(), m.spec_matched())),
                None => self.spec_match(path@) is None,
            },
    ;
}

impl PossibleRoutes for () {
    type ViewFn = ();

    open spec fn spec_match(&self, path: Seq<char>) -> Option<(Seq<(Seq<char>, Seq<char>)>, Seq<char>)> {
        None
    }

    open spec fn match_ok(&self, path: Seq<char>) -> bool {
        true
    }

    fn match_route<'a>(&'a self, path: &str) -> (r: Option<FullRouteMatch<'a, ()>>) {
        None
    }
}

/// A route matches a whole path when its path pattern matches and leaves
/// nothing over.
pub open spec fn full_match<Pat: RouteMatch>(pat: &Pat, path: Seq<char>) -> Option<
    (Seq<(Seq<char>, Seq<char>)>, Seq<char>),
> {
    match pat.spec_test(path) {
        Some(m) => if m.remaining.len() == 0 {
            Some((m.params, m.matched))
        } else {
            None
        },
        None => None,
    }
}

/// A route that matches a whole path has matched exactly that path: on a path
/// that is empty or starts with `/`, the matched text of a full match is the
/// path itself.
pub proof fn lemma_full_match_is_path<Pat: RouteMatch>(pat: &Pat, path: Seq<char>)
    requires
        empty_or_slash(path),
        full_match(pat, path) is Some,
    ensures
        (full_match(pat, path)->0).1 == path,
{
    pat.lemma_slash_path(path);
    let m = pat.spec_test(path)->0;
    assert(m.matched + m.remaining =~= m.matched);
}

impl<Pat: RouteMatch, ViewFn, Children> PossibleRoutes for RouteDefinition<Pat, ViewFn, Children> {
    type ViewFn = ViewFn;

    open spec fn spec_match(&self, path: Seq<char>) -> Option<(Seq<(Seq<char>, Seq<char>)>, Seq<char>)> {
        full_match(&self.path, path)
    }

    open spec fn match_ok(&self, path: Seq<char>) -> bool {
        self.path.test_ok(path)
    }

    /// A route that matches holds this route's view function.
    fn match_route<'a>(&'a self, path: &str) -> (r: Option<FullRouteMatch<'a, ViewFn>>)
        ensures
            r matches Some(m) ==> m.spec_view() == self.view,
    {
        if self.path.matches(path) {
            match self.path.test(path) {
                Some(PartialPathMatch { params, matched, remaining }) => {
                    if remaining.is_empty() {
                        return Some(FullRouteMatch { params, matched, view: &self.view });
                    }
                },
                None => {},
            }
        }
        None
    }
}

impl<Pat: RouteMatch, ViewFn, Children> PossibleRoutes for (
    RouteDefinition<Pat, ViewFn, Children>,
) {
    type ViewFn = ViewFn;

    open spec fn spec_match(&self, path: Seq<char>) -> Option<(Seq<(Seq<char>, Seq<char>)>, Seq<char>)> {
        self.0.spec_match(path)
    }

    open spec fn match_ok(&self, path: Seq<char>) -> bool {
        self.0.match_ok(path)
    }

    fn match_route<'a>(&'a self, path: &str) -> (r: Option<FullRouteMatch<'a, ViewFn>>)
        ensures
            r matches Some(m) ==> m.spec_view() == self.0.view,
    {
        self.0.match_route(path)
    }
}

/// A route pattern matches a whole path exactly when its match leaves
/// nothing over; the full match then holds that match's parameters and
/// matched text. A route definition matches a whole path as its pattern does.
pub proof fn lemma_full_match_law<Pat: RouteMatch, ViewFn, Children>(
    def: RouteDefinition<Pat, ViewFn, Children>,
    path: Seq<char>,
)
    ensures
        full_match(&def.path, path) is Some <==> (def.path.spec_test(path) matches Some(m)
            && m.remaining.len() == 0),
        def.path.spec_test(path) matches Some(m) ==> (m.remaining.len() == 0 ==> full_match(
            &def.path,
            path,
        ) == Some((m.params, m.matched))),
        def.spec_match(path) == full_match(&def.path, path),
{
}

} // verus!
