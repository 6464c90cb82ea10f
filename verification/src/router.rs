//! The router: shows the view of the route that matches the current location,
//! or a fallback when none does.
use crate::location::{Location, UrlView};
use crate::matching::{PartialPathMatch, RouteMatch};
use crate::route::route_child::{all_none, first_some_at};
use crate::route::{full_match, lemma_full_match_is_path, MatchedRoute, MatchedRouteView, RouteDefinition};
use crate::strs::empty_or_slash;
use crate::view::either::{
    Either, EitherOf10, EitherOf11, EitherOf12, EitherOf13, EitherOf14, EitherOf15, EitherOf16,
    EitherOf3, EitherOf4, EitherOf5, EitherOf6, EitherOf7, EitherOf8, EitherOf9,
};
use crate::view::{Position, PositionState, RenderHtml};
use vstd::prelude::*;

verus! {

/// Routes, the location they are matched against, and the function that makes
/// the view shown when no route matches.
pub struct Router<Loc, Defs, FallbackFn> {
    location: Loc,
    routes: Defs,
    fallback: FallbackFn,
}

impl<Loc, Defs, FallbackFn> Router<Loc, Defs, FallbackFn> {
    pub closed spec fn spec_location(&self) -> Loc {
        self.location
    }

    pub closed spec fn spec_routes(&self) -> Defs {
        self.routes
    }

    pub closed spec fn spec_fallback(&self) -> FallbackFn {
        self.fallback
    }
}

impl<Loc: Location, Defs, FallbackFn> Router<Loc, Defs, FallbackFn> {
    pub fn new<Fallback>(location: Loc, routes: Defs, fallback: FallbackFn) -> (r: Self) where
        FallbackFn: Fn() -> Fallback,

        ensures
            r.spec_location() == location,
            r.spec_routes() == routes,
            r.spec_fallback() == fallback,
    {
        Router { location, routes, fallback }
    }

    /// Moves the router to another location; the routes and the fallback stay.
    pub fn set_location(&mut self, new_location: Loc)
        ensures
            final(self).spec_location() == new_location,
            final(self).spec_routes() == old(self).spec_routes(),
            final(self).spec_fallback() == old(self).spec_fallback(),
    {
        self.location = new_location;
    }
}

impl<Loc, Defs, FallbackFn> Router<Loc, Defs, FallbackFn> {

    /// Makes the fallback view.
    pub fn fallback<Fal>(&self) -> (r: Fal) where FallbackFn: Fn() -> Fal
        requires
            call_requires(self.spec_fallback(), ()),
        ensures
            call_ensures(self.spec_fallback(), (), r),
    {
        (self.fallback)()
    }
}

/// The parameters and the matched text of a route pattern that matches the
/// whole path of a URL; `None` when there is no URL or the pattern does not
/// match all of its path.
pub open spec fn location_match<Pat: RouteMatch>(pat: &Pat, url: Option<UrlView>) -> Option<
    (Seq<(Seq<char>, Seq<char>)>, Seq<char>),
> {
    match url {
        Some(u) => full_match(pat, u.pathname),
        None => None,
    }
}

/// Whether `view` is a view that the route's view function may make for a
/// match with the given parameters and matched text.
pub open spec fn made_view<ViewFn: Fn(MatchedRoute) -> View, View>(
    view_fn: ViewFn,
    found: (Seq<(Seq<char>, Seq<char>)>, Seq<char>),
    view: View,
) -> bool {
    exists|m: MatchedRoute|
        m@ == (MatchedRouteView { params: found.0, matched: found.1 }) && #[trigger] call_ensures(
            view_fn,
            (m,),
            view,
        )
}

/// Whether a route's view function accepts every match.
pub open spec fn accepts_all<ViewFn: Fn(MatchedRoute) -> View, View>(view_fn: ViewFn) -> bool {
    forall|m: MatchedRoute| #[trigger] call_requires(view_fn, (m,))
}

/// Showing the fallback: the name `"Fal"` and a view the fallback function
/// may make.
pub open spec fn fallback_outcome<FallbackFn: Fn() -> Fal, Fal>(
    fallback: FallbackFn,
    name: Seq<char>,
    output: Fal,
) -> bool {
    name == "Fal"@ && call_ensures(fallback, (), output)
}

/// Routing with one route: the route (named `"Route"`) when its path matches
/// the whole path of the URL; otherwise, and when there is no URL, the
/// fallback.
pub open spec fn one_route_outcome<
    APat: RouteMatch,
    AViewFn: Fn(MatchedRoute) -> AView,
    AView,
    FallbackFn: Fn() -> Fal,
    Fal,
>(
    url: Option<UrlView>,
    a_path: &APat,
    a_view: AViewFn,
    fallback: FallbackFn,
    name: Seq<char>,
    output: Either<Fal, AView>,
) -> bool {
    match location_match(a_path, url) {
        Some(found) => name == "Route"@ && (output matches Either::Right(v) && made_view(
            a_view,
            found,
            v,
        )),
        None => output matches Either::Left(f) && fallback_outcome(fallback, name, f),
    }
}

/// Routing with two routes: the first, in order, whose path matches the whole
/// path of the URL (named `"A"` or `"B"`); when none does, or there is no
/// URL, the fallback.
pub open spec fn two_route_outcome<
    APat: RouteMatch,
    AViewFn: Fn(MatchedRoute) -> AView,
    AView,
    BPat: RouteMatch,
    BViewFn: Fn(MatchedRoute) -> BView,
    BView,
    FallbackFn: Fn() -> Fal,
    Fal,
>(
    url: Option<UrlView>,
    a_path: &APat,
    a_view: AViewFn,
    b_path: &BPat,
    b_view: BViewFn,
    fallback: FallbackFn,
    name: Seq<char>,
    output: EitherOf3<AView, BView, Fal>,
) -> bool {
    match location_match(a_path, url) {
        Some(found) => name == "A"@ && (output matches EitherOf3::A(v) && made_view(
            a_view,
            found,
            v,
        )),
        None => match location_match(b_path, url) {
            Some(found) => name == "B"@ && (output matches EitherOf3::B(v) && made_view(
                b_view,
                found,
                v,
            )),
            None => output matches EitherOf3::C(f) && fallback_outcome(fallback, name, f),
        },
    }
}

/// Routing with three routes: the first, in order, whose path matches the
/// whole path of the URL (named `"A"`, `"B"` or `"C"`); when none does, or
/// there is no URL, the fallback.
pub open spec fn three_route_outcome<
    APat: RouteMatch,
    AViewFn: Fn(MatchedRoute) -> AView,
    AView,
    BPat: RouteMatch,
    BViewFn: Fn(MatchedRoute) -> BView,
    BView,
    CPat: RouteMatch,
    CViewFn: Fn(MatchedRoute) -> CView,
    CView,
    FallbackFn: Fn() -> Fal,
    Fal,
>(
    url: Option<UrlView>,
    a_path: &APat,
    a_view: AViewFn,
    b_path: &BPat,
    b_view: BViewFn,
    c_path: &CPat,
    c_view: CViewFn,
    fallback: FallbackFn,
    name: Seq<char>,
    output: EitherOf4<AView, BView, CView, Fal>,
) -> bool {
    match location_match(a_path, url) {
        Some(found) => name == "A"@ && (output matches EitherOf4::A(v) && made_view(
            a_view,
            found,
            v,
        )),
        None => match location_match(b_path, url) {
            Some(found) => name == "B"@ && (output matches EitherOf4::B(v) && made_view(
                b_view,
                found,
                v,
            )),
            None => match location_match(c_path, url) {
                Some(found) => name == "C"@ && (output matches EitherOf4::C(v) && made_view(
                    c_view,
                    found,
                    v,
                )),
                None => output matches EitherOf4::D(f) && fallback_outcome(fallback, name, f),
            },
        },
    }
}

/// What routing picked: the name of the route shown (`"Fal"` for the
/// fallback) and its view. Written as HTML, it is the view alone.
pub struct Routed<V>(pub &'static str, pub V);

impl<V: RenderHtml> RenderHtml for Routed<V> {
    /// The HTML of the view; the name is not written.
    open spec fn spec_html(&self, position: Position) -> (Seq<char>, Position) {
        self.1.spec_html(position)
    }

    open spec fn html_ok(&self) -> bool {
        self.1.html_ok()
    }

    fn to_html_with_buf(self, buf: &mut String, position: &mut PositionState) {
        self.1.to_html_with_buf(buf, position)
    }
}

/// A router that picks what to show: the name of the route shown (`"Fal"` for
/// the fallback) and its view.
pub trait FallbackOrView {
    type Output: RenderHtml;

    /// Whether `name` and `output` are a possible outcome of routing.
    spec fn routed(&self, name: Seq<char>, output: Self::Output) -> bool;

    /// Whether the router's functions accept the calls routing makes.
    spec fn fov_ok(&self) -> bool;

    fn fallback_or_view(&self) -> (r: Routed<Self::Output>)
        requires
            self.fov_ok(),
        ensures
            self.routed(r.0@, r.1),
    ;
}

impl<Loc: Location, FallbackFn: Fn() -> Fal, Fal: RenderHtml> FallbackOrView for Router<
    Loc,
    (),
    FallbackFn,
> {
    type Output = Fal;

    /// With no routes, the fallback is always shown.
    open spec fn routed(&self, name: Seq<char>, output: Fal) -> bool {
        fallback_outcome::<FallbackFn, Fal>(self.spec_fallback(), name, output)
    }

    open spec fn fov_ok(&self) -> bool {
        call_requires(self.spec_fallback(), ())
    }

    fn fallback_or_view(&self) -> (r: Routed<Fal>) {
        Routed("Fal", (self.fallback)())
    }
}

/// The match of a route pattern on the whole of a path, as a matched route.
fn match_path<Pat: RouteMatch>(pat: &Pat, path: &str) -> (r: Option<MatchedRoute>)
    requires
        empty_or_slash(path@),
    ensures
        match r {
            Some(m) => full_match(pat, path@) == Some((m@.params, m@.matched)),
            None => full_match(pat, path@) is None,
        },
{
    proof {
        pat.lemma_slash_path(path@);
    }
    if pat.matches(path) {
        match pat.test(path) {
            Some(PartialPathMatch { params, matched, remaining }) => {
                if remaining.is_empty() {
                    return Some(MatchedRoute { params, matched });
                }
            },
            None => {},
        }
    }
    None
}

impl<
    Loc: Location,
    FallbackFn: Fn() -> Fal,
    Fal: RenderHtml,
    APat: RouteMatch,
    AViewFn: Fn(MatchedRoute) -> AView,
    AView: RenderHtml,
    AChildren,
> FallbackOrView for Router<Loc, RouteDefinition<APat, AViewFn, AChildren>, FallbackFn> {
    type Output = Either<Fal, AView>;

    /// The route is shown when its path matches the whole path of the
    /// location's URL; otherwise, and when there is no URL, the fallback.
    open spec fn routed(&self, name: Seq<char>, output: Either<Fal, AView>) -> bool {
        one_route_outcome(
            self.spec_location().spec_url(),
            &self.spec_routes().path,
            self.spec_routes().view,
            self.spec_fallback(),
            name,
            output,
        )
    }

    open spec fn fov_ok(&self) -> bool {
        call_requires(self.spec_fallback(), ()) && accepts_all(self.spec_routes().view)
    }

    fn fallback_or_view(&self) -> (r: Routed<Either<Fal, AView>>) {
        if let Ok(url) = self.location.try_to_url() {
            if let Some(m) = match_path(&self.routes.path, url.pathname.as_str()) {
                let ghost g = m;
                let v = self.routes.view(m);
                assert(made_view(self.routes.view, (g@.params, g@.matched), v));
                return Routed("Route", Either::Right(v));
            }
        }
        Routed("Fal", Either::Left((self.fallback)()))
    }
}

/// When a router with one route shows that route, the route's view was made
/// for a match whose text is the whole path of the location's URL; when it
/// shows its fallback, the route does not match that whole path.
pub proof fn lemma_single_route_outcome<
    Loc: Location,
    FallbackFn: Fn() -> Fal,
    Fal: RenderHtml,
    APat: RouteMatch,
    AViewFn: Fn(MatchedRoute) -> AView,
    AView: RenderHtml,
    AChildren,
>(
    router: &Router<Loc, RouteDefinition<APat, AViewFn, AChildren>, FallbackFn>,
    name: Seq<char>,
    output: Either<Fal, AView>,
    url: UrlView,
)
    requires
        router.spec_location().spec_url() == Some(url),
        empty_or_slash(url.pathname),
        router.routed(name, output),
    ensures
        output matches Either::Right(v) ==> exists|m: MatchedRoute|
            m@.matched == url.pathname && #[trigger] call_ensures(router.spec_routes().view, (m,), v),
        output is Left ==> full_match(&router.spec_routes().path, url.pathname) is None,
{
    if let Either::Right(v) = output {
        let found = location_match(&router.spec_routes().path, Some(url))->0;
        lemma_full_match_is_path(&router.spec_routes().path, url.pathname);
        let m = choose|m: MatchedRoute|
            m@ == (MatchedRouteView { params: found.0, matched: found.1 }) && #[trigger] call_ensures(
                router.spec_routes().view,
                (m,),
                v,
            );
        assert(m@.matched == url.pathname);
    }
}

impl<
    Loc: Location,
    FallbackFn: Fn() -> Fal,
    Fal: RenderHtml,
    APat: RouteMatch,
    AViewFn: Fn(MatchedRoute) -> AView,
    AView: RenderHtml,
    AChildren,
    BPat: RouteMatch,
    BViewFn: Fn(MatchedRoute) -> BView,
    BView: RenderHtml,
    BChildren,
> FallbackOrView for Router<
    Loc,
    (RouteDefinition<APat, AViewFn, AChildren>, RouteDefinition<BPat, BViewFn, BChildren>),
    FallbackFn,
> {
    type Output = EitherOf3<AView, BView, Fal>;

    /// The first route, in order, whose path matches the whole path of the
    /// location's URL is shown; when none does, or there is no URL, the
    /// fallback.
    open spec fn routed(&self, name: Seq<char>, output: EitherOf3<AView, BView, Fal>) -> bool {
        two_route_outcome(
            self.spec_location().spec_url(),
            &self.spec_routes().0.path,
            self.spec_routes().0.view,
            &self.spec_routes().1.path,
            self.spec_routes().1.view,
            self.spec_fallback(),
            name,
            output,
        )
    }

    open spec fn fov_ok(&self) -> bool {
        &&& call_requires(self.spec_fallback(), ())
        &&& accepts_all(self.spec_routes().0.view)
        &&& accepts_all(self.spec_routes().1.view)
    }

    fn fallback_or_view(&self) -> (r: Routed<EitherOf3<AView, BView, Fal>>) {
        let (a, b) = &self.routes;
        if let Ok(url) = self.location.try_to_url() {
            if let Some(m) = match_path(&a.path, url.pathname.as_str()) {
                let ghost g = m;
                let v = a.view(m);
                assert(made_view(a.view, (g@.params, g@.matched), v));
                return Routed("A", EitherOf3::A(v));
            }
            if let Some(m) = match_path(&b.path, url.pathname.as_str()) {
                let ghost g = m;
                let v = b.view(m);
                assert(made_view(b.view, (g@.params, g@.matched), v));
                return Routed("B", EitherOf3::B(v));
            }
        }
        Routed("Fal", EitherOf3::C((self.fallback)()))
    }
}

impl<
    Loc: Location,
    FallbackFn: Fn() -> Fal,
    Fal: RenderHtml,
    APat: RouteMatch,
    AViewFn: Fn(MatchedRoute) -> AView,
    AView: RenderHtml,
    AChildren,
    BPat: RouteMatch,
    BViewFn: Fn(MatchedRoute) -> BView,
    BView: RenderHtml,
    BChildren,
    CPat: RouteMatch,
    CViewFn: Fn(MatchedRoute) -> CView,
    CView: RenderHtml,
    CChildren,
> FallbackOrView for Router<
    Loc,
    (
        RouteDefinition<APat, AViewFn, AChildren>,
        RouteDefinition<BPat, BViewFn, BChildren>,
        RouteDefinition<CPat, CViewFn, CChildren>,
    ),
    FallbackFn,
> {
    type Output = EitherOf4<AView, BView, CView, Fal>;

    /// The first route, in order, whose path matches the whole path of the
    /// location's URL is shown; when none does, or there is no URL, the
    /// fallback.
    open spec fn routed(&self, name: Seq<char>, output: EitherOf4<AView, BView, CView, Fal>) -> bool {
        three_route_outcome(
            self.spec_location().spec_url(),
            &self.spec_routes().0.path,
            self.spec_routes().0.view,
            &self.spec_routes().1.path,
            self.spec_routes().1.view,
            &self.spec_routes().2.path,
            self.spec_routes().2.view,
            self.spec_fallback(),
            name,
            output,
        )
    }

    open spec fn fov_ok(&self) -> bool {
        &&& call_requires(self.spec_fallback(), ())
        &&& accepts_all(self.spec_routes().0.view)
        &&& accepts_all(self.spec_routes().1.view)
        &&& accepts_all(self.spec_routes().2.view)
    }

    fn fallback_or_view(&self) -> (r: Routed<EitherOf4<AView, BView, CView, Fal>>) {
        let (a, b, c) = &self.routes;
        if let Ok(url) = self.location.try_to_url() {
            if let Some(m) = match_path(&a.path, url.pathname.as_str()) {
                let ghost g = m;
                let v = a.view(m);
                assert(made_view(a.view, (g@.params, g@.matched), v));
                return Routed("A", EitherOf4::A(v));
            }
            if let Some(m) = match_path(&b.path, url.pathname.as_str()) {
                let ghost g = m;
                let v = b.view(m);
                assert(made_view(b.view, (g@.params, g@.matched), v));
                return Routed("B", EitherOf4::B(v));
            }
            if let Some(m) = match_path(&c.path, url.pathname.as_str()) {
                let ghost g = m;
                let v = c.view(m);
                assert(made_view(c.view, (g@.params, g@.matched), v));
                return Routed("C", EitherOf4::C(v));
            }
        }
        Routed("Fal", EitherOf4::D((self.fallback)()))
    }
}

impl<
    Loc: Location,
    FallbackFn: Fn() -> Fal,
    Fal: RenderHtml,
    APat: RouteMatch,
    AViewFn: Fn(MatchedRoute) -> AView,
    AView: RenderHtml,
    AChildren,
    BPat: RouteMatch,
    BViewFn: Fn(MatchedRoute) -> BView,
    BView: RenderHtml,
    BChildren,
    CPat: RouteMatch,
    CViewFn: Fn(MatchedRoute) -> CView,
    CView: RenderHtml,
    CChildren,
    DPat: RouteMatch,
    DViewFn: Fn(MatchedRoute) -> DView,
    DView: RenderHtml,
    DChildren,
> FallbackOrView for Router<
    Loc,
    (
        RouteDefinition<APat, AViewFn, AChildren>,
        RouteDefinition<BPat, BViewFn, BChildren>,
        RouteDefinition<CPat, CViewFn, CChildren>,
        RouteDefinition<DPat, DViewFn, DChildren>,
    ),
    FallbackFn,
> {
    type Output = EitherOf5<AView, BView, CView, DView, Fal>;

    /// The first route, in order, whose path matches the whole path of the
    /// location's URL is shown; when none does, or there is no URL, the
    /// fallback.
    open spec fn routed(&self, name: Seq<char>, output: EitherOf5<AView, BView, CView, DView, Fal>) -> bool {
        let url = self.spec_location().spec_url();
        match location_match(&self.spec_routes().0.path, url) {
            Some(found) => name == "A"@ && (output matches EitherOf5::A(v) && made_view(
                self.spec_routes().0.view,
                found,
                v,
            )),
            None => match location_match(&self.spec_routes().1.path, url) {
                Some(found) => name == "B"@ && (output matches EitherOf5::B(v) && made_view(
                    self.spec_routes().1.view,
                    found,
                    v,
                )),
                None => match location_match(&self.spec_routes().2.path, url) {
                    Some(found) => name == "C"@ && (output matches EitherOf5::C(v) && made_view(
                        self.spec_routes().2.view,
                        found,
                        v,
                    )),
                    None => match location_match(&self.spec_routes().3.path, url) {
                        Some(found) => name == "D"@ && (output matches EitherOf5::D(v) && made_view(
                            self.spec_routes().3.view,
                            found,
                            v,
                        )),
                        None => output matches EitherOf5::E(f) && fallback_outcome(self.spec_fallback(), name, f),
                    },
                },
            },
        }
    }

    open spec fn fov_ok(&self) -> bool {
        &&& call_requires(self.spec_fallback(), ())
        &&& accepts_all(self.spec_routes().0.view)
        &&& accepts_all(self.spec_routes().1.view)
        &&& accepts_all(self.spec_routes().2.view)
        &&& accepts_all(self.spec_routes().3.view)
    }

    fn fallback_or_view(&self) -> (r: Routed<EitherOf5<AView, BView, CView, DView, Fal>>) {
        let (a, b, c, d) = &self.routes;
        if let Ok(url) = self.location.try_to_url() {
            if let Some(hit) = match_path(&a.path, url.pathname.as_str()) {
                let ghost seen = hit;
                let view = a.view(hit);
                assert(made_view(a.view, (seen@.params, seen@.matched), view));
                return Routed("A", EitherOf5::A(view));
            }
            if let Some(hit) = match_path(&b.path, url.pathname.as_str()) {
                let ghost seen = hit;
                let view = b.view(hit);
                assert(made_view(b.view, (seen@.params, seen@.matched), view));
                return Routed("B", EitherOf5::B(view));
            }
            if let Some(hit) = match_path(&c.path, url.pathname.as_str()) {
                let ghost seen = hit;
                let view = c.view(hit);
                assert(made_view(c.view, (seen@.params, seen@.matched), view));
                return Routed("C", EitherOf5::C(view));
            }
            if let Some(hit) = match_path(&d.path, url.pathname.as_str()) {
                let ghost seen = hit;
                let view = d.view(hit);
                assert(made_view(d.view, (seen@.params, seen@.matched), view));
                return Routed("D", EitherOf5::D(view));
            }
        }
        Routed("Fal", EitherOf5::E((self.fallback)()))
    }
}

impl<
    Loc: Location,
    FallbackFn: Fn() -> Fal,
    Fal: RenderHtml,
    APat: RouteMatch,
    AViewFn: Fn(MatchedRoute) -> AView,
    AView: RenderHtml,
    AChildren,
    BPat: RouteMatch,
    BViewFn: Fn(MatchedRoute) -> BView,
    BView: RenderHtml,
    BChildren,
    CPat: RouteMatch,
    CViewFn: Fn(MatchedRoute) -> CView,
    CView: RenderHtml,
    CChildren,
    DPat: RouteMatch,
    DViewFn: Fn(MatchedRoute) -> DView,
    DView: RenderHtml,
    DChildren,
    EPat: RouteMatch,
    EViewFn: Fn(MatchedRoute) -> EView,
    EView: RenderHtml,
    EChildren,
> FallbackOrView for Router<
    Loc,
    (
        RouteDefinition<APat, AViewFn, AChildren>,
        RouteDefinition<BPat, BViewFn, BChildren>,
        RouteDefinition<CPat, CViewFn, CChildren>,
        RouteDefinition<DPat, DViewFn, DChildren>,
        RouteDefinition<EPat, EViewFn, EChildren>,
    ),
    FallbackFn,
> {
    type Output = EitherOf6<AView, BView, CView, DView, EView, Fal>;

    /// The first route, in order, whose path matches the whole path of the
    /// location's URL is shown; when none does, or there is no URL, the
    /// fallback.
    open spec fn routed(&self, name: Seq<char>, output: EitherOf6<AView, BView, CView, DView, EView, Fal>) -> bool {
        let url = self.spec_location().spec_url();
        match location_match(&self.spec_routes().0.path, url) {
            Some(found) => name == "A"@ && (output matches EitherOf6::A(v) && made_view(
                self.spec_routes().0.view,
                found,
                v,
            )),
            None => match location_match(&self.spec_routes().1.path, url) {
                Some(found) => name == "B"@ && (output matches EitherOf6::B(v) && made_view(
                    self.spec_routes().1.view,
                    found,
                    v,
                )),
                None => match location_match(&self.spec_routes().2.path, url) {
                    Some(found) => name == "C"@ && (output matches EitherOf6::C(v) && made_view(
                        self.spec_routes().2.view,
                        found,
                        v,
                    )),
                    None => match location_match(&self.spec_routes().3.path, url) {
                        Some(found) => name == "D"@ && (output matches EitherOf6::D(v) && made_view(
                            self.spec_routes().3.view,
                            found,
                            v,
                        )),
                        None => match location_match(&self.spec_routes().4.path, url) {
                            Some(found) => name == "E"@ && (output matches EitherOf6::E(v) && made_view(
                                self.spec_routes().4.view,
                                found,
                                v,
                            )),
                            None => output matches EitherOf6::F(f) && fallback_outcome(self.spec_fallback(), name, f),
                        },
                    },
                },
            },
        }
    }

    open spec fn fov_ok(&self) -> bool {
        &&& call_requires(self.spec_fallback(), ())
        &&& accepts_all(self.spec_routes().0.view)
        &&& accepts_all(self.spec_routes().1.view)
        &&& accepts_all(self.spec_routes().2.view)
        &&& accepts_all(self.spec_routes().3.view)
        &&& accepts_all(self.spec_routes().4.view)
    }

    fn fallback_or_view(&self) -> (r: Routed<EitherOf6<AView, BView, CView, DView, EView, Fal>>) {
        let (a, b, c, d, e) = &self.routes;
        if let Ok(url) = self.location.try_to_url() {
            if let Some(hit) = match_path(&a.path, url.pathname.as_str()) {
                let ghost seen = hit;
                let view = a.view(hit);
                assert(made_view(a.view, (seen@.params, seen@.matched), view));
                return Routed("A", EitherOf6::A(view));
            }
            if let Some(hit) = match_path(&b.path, url.pathname.as_str()) {
                let ghost seen = hit;
                let view = b.view(hit);
                assert(made_view(b.view, (seen@.params, seen@.matched), view));
                return Routed("B", EitherOf6::B(view));
            }
            if let Some(hit) = match_path(&c.path, url.pathname.as_str()) {
                let ghost seen = hit;
                let view = c.view(hit);
                assert(made_view(c.view, (seen@.params, seen@.matched), view));
                return Routed("C", EitherOf6::C(view));
            }
            if let Some(hit) = match_path(&d.path, url.pathname.as_str()) {
                let ghost seen = hit;
                let view = d.view(hit);
                assert(made_view(d.view, (seen@.params, seen@.matched), view));
                return Routed("D", EitherOf6::D(view));
            }
            if let Some(hit) = match_path(&e.path, url.pathname.as_str()) {
                let ghost seen = hit;
                let view = e.view(hit);
                assert(made_view(e.view, (seen@.params, seen@.matched), view));
                return Routed("E", EitherOf6::E(view));
            }
        }
        Routed("Fal", EitherOf6::F((self.fallback)()))
    }
}

impl<
    Loc: Location,
    FallbackFn: Fn() -> Fal,
    Fal: RenderHtml,
    APat: RouteMatch,
    AViewFn: Fn(MatchedRoute) -> AView,
    AView: RenderHtml,
    AChildren,
    BPat: RouteMatch,
    BViewFn: Fn(MatchedRoute) -> BView,
    BView: RenderHtml,
    BChildren,
    CPat: RouteMatch,
    CViewFn: Fn(MatchedRoute) -> CView,
    CView: RenderHtml,
    CChildren,
    DPat: RouteMatch,
    DViewFn: Fn(MatchedRoute) -> DView,
    DView: RenderHtml,
    DChildren,
    EPat: RouteMatch,
    EViewFn: Fn(MatchedRoute) -> EView,
    EView: RenderHtml,
    EChildren,
    FPat: RouteMatch,
    FViewFn: Fn(MatchedRoute) -> FView,
    FView: RenderHtml,
    FChildren,
> FallbackOrView for Router<
    Loc,
    (
        RouteDefinition<APat, AViewFn, AChildren>,
        RouteDefinition<BPat, BViewFn, BChildren>,
        RouteDefinition<CPat, CViewFn, CChildren>,
        RouteDefinition<DPat, DViewFn, DChildren>,
        RouteDefinition<EPat, EViewFn, EChildren>,
        RouteDefinition<FPat, FViewFn, FChildren>,
    ),
    FallbackFn,
> {
    type Output = EitherOf7<AView, BView, CView, DView, EView, FView, Fal>;

    /// The first route, in order, whose path matches the whole path of the
    /// location's URL is shown; when none does, or there is no URL, the
    /// fallback.
    open spec fn routed(&self, name: Seq<char>, output: EitherOf7<AView, BView, CView, DView, EView, FView, Fal>) -> bool {
        let url = self.spec_location().spec_url();
        match location_match(&self.spec_routes().0.path, url) {
            Some(found) => name == "A"@ && (output matches EitherOf7::A(v) && made_view(
                self.spec_routes().0.view,
                found,
                v,
            )),
            None => match location_match(&self.spec_routes().1.path, url) {
                Some(found) => name == "B"@ && (output matches EitherOf7::B(v) && made_view(
                    self.spec_routes().1.view,
                    found,
                    v,
                )),
                None => match location_match(&self.spec_routes().2.path, url) {
                    Some(found) => name == "C"@ && (output matches EitherOf7::C(v) && made_view(
                        self.spec_routes().2.view,
                        found,
                        v,
                    )),
                    None => match location_match(&self.spec_routes().3.path, url) {
                        Some(found) => name == "D"@ && (output matches EitherOf7::D(v) && made_view(
                            self.spec_routes().3.view,
                            found,
                            v,
                        )),
                        None => match location_match(&self.spec_routes().4.path, url) {
                            Some(found) => name == "E"@ && (output matches EitherOf7::E(v) && made_view(
                                self.spec_routes().4.view,
                                found,
                                v,
                            )),
                            None => match location_match(&self.spec_routes().5.path, url) {
                                Some(found) => name == "F"@ && (output matches EitherOf7::F(v) && made_view(
                                    self.spec_routes().5.view,
                                    found,
                                    v,
                                )),
                                None => output matches EitherOf7::G(f) && fallback_outcome(self.spec_fallback(), name, f),
                            },
                        },
                    },
                },
            },
        }
    }

    open spec fn fov_ok(&self) -> bool {
        &&& call_requires(self.spec_fallback(), ())
        &&& accepts_all(self.spec_routes().0.view)
        &&& accepts_all(self.spec_routes().1.view)
        &&& accepts_all(self.spec_routes().2.view)
        &&& accepts_all(self.spec_routes().3.view)
        &&& accepts_all(self.spec_routes().4.view)
        &&& accepts_all(self.spec_routes().5.view)
    }

    fn fallback_or_view(&self) -> (r: Routed<EitherOf7<AView, BView, CView, DView, EView, FView, Fal>>) {
        let (a, b, c, d, e, f) = &self.routes;
        if let Ok(url) = self.location.try_to_url() {
            if let Some(hit) = match_path(&a.path, url.pathname.as_str()) {
                let ghost seen = hit;
                let view = a.view(hit);
                assert(made_view(a.view, (seen@.params, seen@.matched), view));
                return Routed("A", EitherOf7::A(view));
            }
            if let Some(hit) = match_path(&b.path, url.pathname.as_str()) {
                let ghost seen = hit;
                let view = b.view(hit);
                assert(made_view(b.view, (seen@.params, seen@.matched), view));
                return Routed("B", EitherOf7::B(view));
            }
            if let Some(hit) = match_path(&c.path, url.pathname.as_str()) {
                let ghost seen = hit;
                let view = c.view(hit);
                assert(made_view(c.view, (seen@.params, seen@.matched), view));
                return Routed("C", EitherOf7::C(view));
            }
            if let Some(hit) = match_path(&d.path, url.pathname.as_str()) {
                let ghost seen = hit;
                let view = d.view(hit);
                assert(made_view(d.view, (seen@.params, seen@.matched), view));
                return Routed("D", EitherOf7::D(view));
            }
            if let Some(hit) = match_path(&e.path, url.pathname.as_str()) {
                let ghost seen = hit;
                let view = e.view(hit);
                assert(made_view(e.view, (seen@.params, seen@.matched), view));
                return Routed("E", EitherOf7::E(view));
            }
            if let Some(hit) = match_path(&f.path, url.pathname.as_str()) {
                let ghost seen = hit;
                let view = f.view(hit);
                assert(made_view(f.view, (seen@.params, seen@.matched), view));
                return Routed("F", EitherOf7::F(view));
            }
        }
        Routed("Fal", EitherOf7::G((self.fallback)()))
    }
}

impl<
    Loc: Location,
    FallbackFn: Fn() -> Fal,
    Fal: RenderHtml,
    APat: RouteMatch,
    AViewFn: Fn(MatchedRoute) -> AView,
    AView: RenderHtml,
    AChildren,
    BPat: RouteMatch,
    BViewFn: Fn(MatchedRoute) -> BView,
    BView: RenderHtml,
    BChildren,
    CPat: RouteMatch,
    CViewFn: Fn(MatchedRoute) -> CView,
    CView: RenderHtml,
    CChildren,
    DPat: RouteMatch,
    DViewFn: Fn(MatchedRoute) -> DView,
    DView: RenderHtml,
    DChildren,
    EPat: RouteMatch,
    EViewFn: Fn(MatchedRoute) -> EView,
    EView: RenderHtml,
    EChildren,
    FPat: RouteMatch,
    FViewFn: Fn(MatchedRoute) -> FView,
    FView: RenderHtml,
    FChildren,
    GPat: RouteMatch,
    GViewFn: Fn(MatchedRoute) -> GView,
    GView: RenderHtml,
    GChildren,
> FallbackOrView for Router<
    Loc,
    (
        RouteDefinition<APat, AViewFn, AChildren>,
        RouteDefinition<BPat, BViewFn, BChildren>,
        RouteDefinition<CPat, CViewFn, CChildren>,
        RouteDefinition<DPat, DViewFn, DChildren>,
        RouteDefinition<EPat, EViewFn, EChildren>,
        RouteDefinition<FPat, FViewFn, FChildren>,
        RouteDefinition<GPat, GViewFn, GChildren>,
    ),
    FallbackFn,
> {
    type Output = EitherOf8<AView, BView, CView, DView, EView, FView, GView, Fal>;

    /// The first route, in order, whose path matches the whole path of the
    /// location's URL is shown; when none does, or there is no URL, the
    /// fallback.
    open spec fn routed(&self, name: Seq<char>, output: EitherOf8<AView, BView, CView, DView, EView, FView, GView, Fal>) -> bool {
        let url = self.spec_location().spec_url();
        match location_match(&self.spec_routes().0.path, url) {
            Some(found) => name == "A"@ && (output matches EitherOf8::A(v) && made_view(
                self.spec_routes().0.view,
                found,
                v,
            )),
            None => match location_match(&self.spec_routes().1.path, url) {
                Some(found) => name == "B"@ && (output matches EitherOf8::B(v) && made_view(
                    self.spec_routes().1.view,
                    found,
                    v,
                )),
                None => match location_match(&self.spec_routes().2.path, url) {
                    Some(found) => name == "C"@ && (output matches EitherOf8::C(v) && made_view(
                        self.spec_routes().2.view,
                        found,
                        v,
                    )),
                    None => match location_match(&self.spec_routes().3.path, url) {
                        Some(found) => name == "D"@ && (output matches EitherOf8::D(v) && made_view(
                            self.spec_routes().3.view,
                            found,
                            v,
                        )),
                        None => match location_match(&self.spec_routes().4.path, url) {
                            Some(found) => name == "E"@ && (output matches EitherOf8::E(v) && made_view(
                                self.spec_routes().4.view,
                                found,
                                v,
                            )),
                            None => match location_match(&self.spec_routes().5.path, url) {
                                Some(found) => name == "F"@ && (output matches EitherOf8::F(v) && made_view(
                                    self.spec_routes().5.view,
                                    found,
                                    v,
                                )),
                                None => match location_match(&self.spec_routes().6.path, url) {
                                    Some(found) => name == "G"@ && (output matches EitherOf8::G(v) && made_view(
                                        self.spec_routes().6.view,
                                        found,
                                        v,
                                    )),
                                    None => output matches EitherOf8::H(f) && fallback_outcome(self.spec_fallback(), name, f),
                                },
                            },
                        },
                    },
                },
            },
        }
    }

    open spec fn fov_ok(&self) -> bool {
        &&& call_requires(self.spec_fallback(), ())
        &&& accepts_all(self.spec_routes().0.view)
        &&& accepts_all(self.spec_routes().1.view)
        &&& accepts_all(self.spec_routes().2.view)
        &&& accepts_all(self.spec_routes().3.view)
        &&& accepts_all(self.spec_routes().4.view)
        &&& accepts_all(self.spec_routes().5.view)
        &&& accepts_all(self.spec_routes().6.view)
    }

    fn fallback_or_view(&self) -> (r: Routed<EitherOf8<AView, BView, CView, DView, EView, FView, GView, Fal>>) {
        let (a, b, c, d, e, f, g) = &self.routes;
        if let Ok(url) = self.location.try_to_url() {
            if let Some(hit) = match_path(&a.path, url.pathname.as_str()) {
                let ghost seen = hit;
                let view = a.view(hit);
                assert(made_view(a.view, (seen@.params, seen@.matched), view));
                return Routed("A", EitherOf8::A(view));
            }
            if let Some(hit) = match_path(&b.path, url.pathname.as_str()) {
                let ghost seen = hit;
                let view = b.view(hit);
                assert(made_view(b.view, (seen@.params, seen@.matched), view));
                return Routed("B", EitherOf8::B(view));
            }
            if let Some(hit) = match_path(&c.path, url.pathname.as_str()) {
                let ghost seen = hit;
                let view = c.view(hit);
                assert(made_view(c.view, (seen@.params, seen@.matched), view));
                return Routed("C", EitherOf8::C(view));
            }
            if let Some(hit) = match_path(&d.path, url.pathname.as_str()) {
                let ghost seen = hit;
                let view = d.view(hit);
                assert(made_view(d.view, (seen@.params, seen@.matched), view));
                return Routed("D", EitherOf8::D(view));
            }
            if let Some(hit) = match_path(&e.path, url.pathname.as_str()) {
                let ghost seen = hit;
                let view = e.view(hit);
                assert(made_view(e.view, (seen@.params, seen@.matched), view));
                return Routed("E", EitherOf8::E(view));
            }
            if let Some(hit) = match_path(&f.path, url.pathname.as_str()) {
                let ghost seen = hit;
                let view = f.view(hit);
                assert(made_view(f.view, (seen@.params, seen@.matched), view));
                return Routed("F", EitherOf8::F(view));
            }
            if let Some(hit) = match_path(&g.path, url.pathname.as_str()) {
                let ghost seen = hit;
                let view = g.view(hit);
                assert(made_view(g.view, (seen@.params, seen@.matched), view));
                return Routed("G", EitherOf8::G(view));
            }
        }
        Routed("Fal", EitherOf8::H((self.fallback)()))
    }
}

impl<
    Loc: Location,
    FallbackFn: Fn() -> Fal,
    Fal: RenderHtml,
    APat: RouteMatch,
    AViewFn: Fn(MatchedRoute) -> AView,
    AView: RenderHtml,
    AChildren,
    BPat: RouteMatch,
    BViewFn: Fn(MatchedRoute) -> BView,
    BView: RenderHtml,
    BChildren,
    CPat: RouteMatch,
    CViewFn: Fn(MatchedRoute) -> CView,
    CView: RenderHtml,
    CChildren,
    DPat: RouteMatch,
    DViewFn: Fn(MatchedRoute) -> DView,
    DView: RenderHtml,
    DChildren,
    EPat: RouteMatch,
    EViewFn: Fn(MatchedRoute) -> EView,
    EView: RenderHtml,
    EChildren,
    FPat: RouteMatch,
    FViewFn: Fn(MatchedRoute) -> FView,
    FView: RenderHtml,
    FChildren,
    GPat: RouteMatch,
    GViewFn: Fn(MatchedRoute) -> GView,
    GView: RenderHtml,
    GChildren,
    HPat: RouteMatch,
    HViewFn: Fn(MatchedRoute) -> HView,
    HView: RenderHtml,
    HChildren,
> FallbackOrView for Router<
    Loc,
    (
        RouteDefinition<APat, AViewFn, AChildren>,
        RouteDefinition<BPat, BViewFn, BChildren>,
        RouteDefinition<CPat, CViewFn, CChildren>,
        RouteDefinition<DPat, DViewFn, DChildren>,
        RouteDefinition<EPat, EViewFn, EChildren>,
        RouteDefinition<FPat, FViewFn, FChildren>,
        RouteDefinition<GPat, GViewFn, GChildren>,
        RouteDefinition<HPat, HViewFn, HChildren>,
    ),
    FallbackFn,
> {
    type Output = EitherOf9<AView, BView, CView, DView, EView, FView, GView, HView, Fal>;

    /// The first route, in order, whose path matches the whole path of the
    /// location's URL is shown; when none does, or there is no URL, the
    /// fallback.
    open spec fn routed(&self, name: Seq<char>, output: EitherOf9<AView, BView, CView, DView, EView, FView, GView, HView, Fal>) -> bool {
        let url = self.spec_location().spec_url();
        match location_match(&self.spec_routes().0.path, url) {
            Some(found) => name == "A"@ && (output matches EitherOf9::A(v) && made_view(
                self.spec_routes().0.view,
                found,
                v,
            )),
            None => match location_match(&self.spec_routes().1.path, url) {
                Some(found) => name == "B"@ && (output matches EitherOf9::B(v) && made_view(
                    self.spec_routes().1.view,
                    found,
                    v,
                )),
                None => match location_match(&self.spec_routes().2.path, url) {
                    Some(found) => name == "C"@ && (output matches EitherOf9::C(v) && made_view(
                        self.spec_routes().2.view,
                        found,
                        v,
                    )),
                    None => match location_match(&self.spec_routes().3.path, url) {
                        Some(found) => name == "D"@ && (output matches EitherOf9::D(v) && made_view(
                            self.spec_routes().3.view,
                            found,
                            v,
                        )),
                        None => match location_match(&self.spec_routes().4.path, url) {
                            Some(found) => name == "E"@ && (output matches EitherOf9::E(v) && made_view(
                                self.spec_routes().4.view,
                                found,
                                v,
                            )),
                            None => match location_match(&self.spec_routes().5.path, url) {
                                Some(found) => name == "F"@ && (output matches EitherOf9::F(v) && made_view(
                                    self.spec_routes().5.view,
                                    found,
                                    v,
                                )),
                                None => match location_match(&self.spec_routes().6.path, url) {
                                    Some(found) => name == "G"@ && (output matches EitherOf9::G(v) && made_view(
                                        self.spec_routes().6.view,
                                        found,
                                        v,
                                    )),
                                    None => match location_match(&self.spec_routes().7.path, url) {
                                        Some(found) => name == "H"@ && (output matches EitherOf9::H(v) && made_view(
                                            self.spec_routes().7.view,
                                            found,
                                            v,
                                        )),
                                        None => output matches EitherOf9::I(f) && fallback_outcome(self.spec_fallback(), name, f),
                                    },
                                },
                            },
                        },
                    },
                },
            },
        }
    }

    open spec fn fov_ok(&self) -> bool {
        &&& call_requires(self.spec_fallback(), ())
        &&& accepts_all(self.spec_routes().0.view)
        &&& accepts_all(self.spec_routes().1.view)
        &&& accepts_all(self.spec_routes().2.view)
        &&& accepts_all(self.spec_routes().3.view)
        &&& accepts_all(self.spec_routes().4.view)
        &&& accepts_all(self.spec_routes().5.view)
        &&& accepts_all(self.spec_routes().6.view)
        &&& accepts_all(self.spec_routes().7.view)
    }

    fn fallback_or_view(&self) -> (r: Routed<EitherOf9<AView, BView, CView, DView, EView, FView, GView, HView, Fal>>) {
        let (a, b, c, d, e, f, g, h) = &self.routes;
        if let Ok(url) = self.location.try_to_url() {
            if let Some(hit) = match_path(&a.path, url.pathname.as_str()) {
                let ghost seen = hit;
                let view = a.view(hit);
                assert(made_view(a.view, (seen@.params, seen@.matched), view));
                return Routed("A", EitherOf9::A(view));
            }
            if let Some(hit) = match_path(&b.path, url.pathname.as_str()) {
                let ghost seen = hit;
                let view = b.view(hit);
                assert(made_view(b.view, (seen@.params, seen@.matched), view));
                return Routed("B", EitherOf9::B(view));
            }
            if let Some(hit) = match_path(&c.path, url.pathname.as_str()) {
                let ghost seen = hit;
                let view = c.view(hit);
                assert(made_view(c.view, (seen@.params, seen@.matched), view));
                return Routed("C", EitherOf9::C(view));
            }
            if let Some(hit) = match_path(&d.path, url.pathname.as_str()) {
                let ghost seen = hit;
                let view = d.view(hit);
                assert(made_view(d.view, (seen@.params, seen@.matched), view));
                return Routed("D", EitherOf9::D(view));
            }
            if let Some(hit) = match_path(&e.path, url.pathname.as_str()) {
                let ghost seen = hit;
                let view = e.view(hit);
                assert(made_view(e.view, (seen@.params, seen@.matched), view));
                return Routed("E", EitherOf9::E(view));
            }
            if let Some(hit) = match_path(&f.path, url.pathname.as_str()) {
                let ghost seen = hit;
                let view = f.view(hit);
                assert(made_view(f.view, (seen@.params, seen@.matched), view));
                return Routed("F", EitherOf9::F(view));
            }
            if let Some(hit) = match_path(&g.path, url.pathname.as_str()) {
                let ghost seen = hit;
                let view = g.view(hit);
                assert(made_view(g.view, (seen@.params, seen@.matched), view));
                return Routed("G", EitherOf9::G(view));
            }
            if let Some(hit) = match_path(&h.path, url.pathname.as_str()) {
                let ghost seen = hit;
                let view = h.view(hit);
                assert(made_view(h.view, (seen@.params, seen@.matched), view));
                return Routed("H", EitherOf9::H(view));
            }
        }
        Routed("Fal", EitherOf9::I((self.fallback)()))
    }
}

impl<
    Loc: Location,
    FallbackFn: Fn() -> Fal,
    Fal: RenderHtml,
    APat: RouteMatch,
    AViewFn: Fn(MatchedRoute) -> AView,
    AView: RenderHtml,
    AChildren,
    BPat: RouteMatch,
    BViewFn: Fn(MatchedRoute) -> BView,
    BView: RenderHtml,
    BChildren,
    CPat: RouteMatch,
    CViewFn: Fn(MatchedRoute) -> CView,
    CView: RenderHtml,
    CChildren,
    DPat: RouteMatch,
    DViewFn: Fn(MatchedRoute) -> DView,
    DView: RenderHtml,
    DChildren,
    EPat: RouteMatch,
    EViewFn: Fn(MatchedRoute) -> EView,
    EView: RenderHtml,
    EChildren,
    FPat: RouteMatch,
    FViewFn: Fn(MatchedRoute) -> FView,
    FView: RenderHtml,
    FChildren,
    GPat: RouteMatch,
    GViewFn: Fn(MatchedRoute) -> GView,
    GView: RenderHtml,
    GChildren,
    HPat: RouteMatch,
    HViewFn: Fn(MatchedRoute) -> HView,
    HView: RenderHtml,
    HChildren,
    IPat: RouteMatch,
    IViewFn: Fn(MatchedRoute) -> IView,
    IView: RenderHtml,
    IChildren,
> FallbackOrView for Router<
    Loc,
    (
        RouteDefinition<APat, AViewFn, AChildren>,
        RouteDefinition<BPat, BViewFn, BChildren>,
        RouteDefinition<CPat, CViewFn, CChildren>,
        RouteDefinition<DPat, DViewFn, DChildren>,
        RouteDefinition<EPat, EViewFn, EChildren>,
        RouteDefinition<FPat, FViewFn, FChildren>,
        RouteDefinition<GPat, GViewFn, GChildren>,
        RouteDefinition<HPat, HViewFn, HChildren>,
        RouteDefinition<IPat, IViewFn, IChildren>,
    ),
    FallbackFn,
> {
    type Output = EitherOf10<AView, BView, CView, DView, EView, FView, GView, HView, IView, Fal>;

    /// The first route, in order, whose path matches the whole path of the
    /// location's URL is shown; when none does, or there is no URL, the
    /// fallback.
    open spec fn routed(&self, name: Seq<char>, output: EitherOf10<AView, BView, CView, DView, EView, FView, GView, HView, IView, Fal>) -> bool {
        let url = self.spec_location().spec_url();
        match location_match(&self.spec_routes().0.path, url) {
            Some(found) => name == "A"@ && (output matches EitherOf10::A(v) && made_view(
                self.spec_routes().0.view,
                found,
                v,
            )),
            None => match location_match(&self.spec_routes().1.path, url) {
                Some(found) => name == "B"@ && (output matches EitherOf10::B(v) && made_view(
                    self.spec_routes().1.view,
                    found,
                    v,
                )),
                None => match location_match(&self.spec_routes().2.path, url) {
                    Some(found) => name == "C"@ && (output matches EitherOf10::C(v) && made_view(
                        self.spec_routes().2.view,
                        found,
                        v,
                    )),
                    None => match location_match(&self.spec_routes().3.path, url) {
                        Some(found) => name == "D"@ && (output matches EitherOf10::D(v) && made_view(
                            self.spec_routes().3.view,
                            found,
                            v,
                        )),
                        None => match location_match(&self.spec_routes().4.path, url) {
                            Some(found) => name == "E"@ && (output matches EitherOf10::E(v) && made_view(
                                self.spec_routes().4.view,
                                found,
                                v,
                            )),
                            None => match location_match(&self.spec_routes().5.path, url) {
                                Some(found) => name == "F"@ && (output matches EitherOf10::F(v) && made_view(
                                    self.spec_routes().5.view,
                                    found,
                                    v,
                                )),
                                None => match location_match(&self.spec_routes().6.path, url) {
                                    Some(found) => name == "G"@ && (output matches EitherOf10::G(v) && made_view(
                                        self.spec_routes().6.view,
                                        found,
                                        v,
                                    )),
                                    None => match location_match(&self.spec_routes().7.path, url) {
                                        Some(found) => name == "H"@ && (output matches EitherOf10::H(v) && made_view(
                                            self.spec_routes().7.view,
                                            found,
                                            v,
                                        )),
                                        None => match location_match(&self.spec_routes().8.path, url) {
                                            Some(found) => name == "I"@ && (output matches EitherOf10::I(v) && made_view(
                                                self.spec_routes().8.view,
                                                found,
                                                v,
                                            )),
                                            None => output matches EitherOf10::J(f) && fallback_outcome(self.spec_fallback(), name, f),
                                        },
                                    },
                                },
                            },
                        },
                    },
                },
            },
        }
    }

    open spec fn fov_ok(&self) -> bool {
        &&& call_requires(self.spec_fallback(), ())
        &&& accepts_all(self.spec_routes().0.view)
        &&& accepts_all(self.spec_routes().1.view)
        &&& accepts_all(self.spec_routes().2.view)
        &&& accepts_all(self.spec_routes().3.view)
        &&& accepts_all(self.spec_routes().4.view)
        &&& accepts_all(self.spec_routes().5.view)
        &&& accepts_all(self.spec_routes().6.view)
        &&& accepts_all(self.spec_routes().7.view)
        &&& accepts_all(self.spec_routes().8.view)
    }

    fn fallback_or_view(&self) -> (r: Routed<EitherOf10<AView, BView, CView, DView, EView, FView, GView, HView, IView, Fal>>) {
        let (a, b, c, d, e, f, g, h, i) = &self.routes;
        if let Ok(url) = self.location.try_to_url() {
            if let Some(hit) = match_path(&a.path, url.pathname.as_str()) {
                let ghost seen = hit;
                let view = a.view(hit);
                assert(made_view(a.view, (seen@.params, seen@.matched), view));
                return Routed("A", EitherOf10::A(view));
            }
            if let Some(hit) = match_path(&b.path, url.pathname.as_str()) {
                let ghost seen = hit;
                let view = b.view(hit);
                assert(made_view(b.view, (seen@.params, seen@.matched), view));
                return Routed("B", EitherOf10::B(view));
            }
            if let Some(hit) = match_path(&c.path, url.pathname.as_str()) {
                let ghost seen = hit;
                let view = c.view(hit);
                assert(made_view(c.view, (seen@.params, seen@.matched), view));
                return Routed("C", EitherOf10::C(view));
            }
            if let Some(hit) = match_path(&d.path, url.pathname.as_str()) {
                let ghost seen = hit;
                let view = d.view(hit);
                assert(made_view(d.view, (seen@.params, seen@.matched), view));
                return Routed("D", EitherOf10::D(view));
            }
            if let Some(hit) = match_path(&e.path, url.pathname.as_str()) {
                let ghost seen = hit;
                let view = e.view(hit);
                assert(made_view(e.view, (seen@.params, seen@.matched), view));
                return Routed("E", EitherOf10::E(view));
            }
            if let Some(hit) = match_path(&f.path, url.pathname.as_str()) {
                let ghost seen = hit;
                let view = f.view(hit);
                assert(made_view(f.view, (seen@.params, seen@.matched), view));
                return Routed("F", EitherOf10::F(view));
            }
            if let Some(hit) = match_path(&g.path, url.pathname.as_str()) {
                let ghost seen = hit;
                let view = g.view(hit);
                assert(made_view(g.view, (seen@.params, seen@.matched), view));
                return Routed("G", EitherOf10::G(view));
            }
            if let Some(hit) = match_path(&h.path, url.pathname.as_str()) {
                let ghost seen = hit;
                let view = h.view(hit);
                assert(made_view(h.view, (seen@.params, seen@.matched), view));
                return Routed("H", EitherOf10::H(view));
            }
            if let Some(hit) = match_path(&i.path, url.pathname.as_str()) {
                let ghost seen = hit;
                let view = i.view(hit);
                assert(made_view(i.view, (seen@.params, seen@.matched), view));
                return Routed("I", EitherOf10::I(view));
            }
        }
        Routed("Fal", EitherOf10::J((self.fallback)()))
    }
}

impl<
    Loc: Location,
    FallbackFn: Fn() -> Fal,
    Fal: RenderHtml,
    APat: RouteMatch,
    AViewFn: Fn(MatchedRoute) -> AView,
    AView: RenderHtml,
    AChildren,
    BPat: RouteMatch,
    BViewFn: Fn(MatchedRoute) -> BView,
    BView: RenderHtml,
    BChildren,
    CPat: RouteMatch,
    CViewFn: Fn(MatchedRoute) -> CView,
    CView: RenderHtml,
    CChildren,
    DPat: RouteMatch,
    DViewFn: Fn(MatchedRoute) -> DView,
    DView: RenderHtml,
    DChildren,
    EPat: RouteMatch,
    EViewFn: Fn(MatchedRoute) -> EView,
    EView: RenderHtml,
    EChildren,
    FPat: RouteMatch,
    FViewFn: Fn(MatchedRoute) -> FView,
    FView: RenderHtml,
    FChildren,
    GPat: RouteMatch,
    GViewFn: Fn(MatchedRoute) -> GView,
    GView: RenderHtml,
    GChildren,
    HPat: RouteMatch,
    HViewFn: Fn(MatchedRoute) -> HView,
    HView: RenderHtml,
    HChildren,
    IPat: RouteMatch,
    IViewFn: Fn(MatchedRoute) -> IView,
    IView: RenderHtml,
    IChildren,
    JPat: RouteMatch,
    JViewFn: Fn(MatchedRoute) -> JView,
    JView: RenderHtml,
    JChildren,
> FallbackOrView for Router<
    Loc,
    (
        RouteDefinition<APat, AViewFn, AChildren>,
        RouteDefinition<BPat, BViewFn, BChildren>,
        RouteDefinition<CPat, CViewFn, CChildren>,
        RouteDefinition<DPat, DViewFn, DChildren>,
        RouteDefinition<EPat, EViewFn, EChildren>,
        RouteDefinition<FPat, FViewFn, FChildren>,
        RouteDefinition<GPat, GViewFn, GChildren>,
        RouteDefinition<HPat, HViewFn, HChildren>,
        RouteDefinition<IPat, IViewFn, IChildren>,
        RouteDefinition<JPat, JViewFn, JChildren>,
    ),
    FallbackFn,
> {
    type Output = EitherOf11<AView, BView, CView, DView, EView, FView, GView, HView, IView, JView, Fal>;

    /// The first route, in order, whose path matches the whole path of the
    /// location's URL is shown; when none does, or there is no URL, the
    /// fallback.
    open spec fn routed(&self, name: Seq<char>, output: EitherOf11<AView, BView, CView, DView, EView, FView, GView, HView, IView, JView, Fal>) -> bool {
        let url = self.spec_location().spec_url();
        match location_match(&self.spec_routes().0.path, url) {
            Some(found) => name == "A"@ && (output matches EitherOf11::A(v) && made_view(
                self.spec_routes().0.view,
                found,
                v,
            )),
            None => match location_match(&self.spec_routes().1.path, url) {
                Some(found) => name == "B"@ && (output matches EitherOf11::B(v) && made_view(
                    self.spec_routes().1.view,
                    found,
                    v,
                )),
                None => match location_match(&self.spec_routes().2.path, url) {
                    Some(found) => name == "C"@ && (output matches EitherOf11::C(v) && made_view(
                        self.spec_routes().2.view,
                        found,
                        v,
                    )),
                    None => match location_match(&self.spec_routes().3.path, url) {
                        Some(found) => name == "D"@ && (output matches EitherOf11::D(v) && made_view(
                            self.spec_routes().3.view,
                            found,
                            v,
                        )),
                        None => match location_match(&self.spec_routes().4.path, url) {
                            Some(found) => name == "E"@ && (output matches EitherOf11::E(v) && made_view(
                                self.spec_routes().4.view,
                                found,
                                v,
                            )),
                            None => match location_match(&self.spec_routes().5.path, url) {
                                Some(found) => name == "F"@ && (output matches EitherOf11::F(v) && made_view(
                                    self.spec_routes().5.view,
                                    found,
                                    v,
                                )),
                                None => match location_match(&self.spec_routes().6.path, url) {
                                    Some(found) => name == "G"@ && (output matches EitherOf11::G(v) && made_view(
                                        self.spec_routes().6.view,
                                        found,
                                        v,
                                    )),
                                    None => match location_match(&self.spec_routes().7.path, url) {
                                        Some(found) => name == "H"@ && (output matches EitherOf11::H(v) && made_view(
                                            self.spec_routes().7.view,
                                            found,
                                            v,
                                        )),
                                        None => match location_match(&self.spec_routes().8.path, url) {
                                            Some(found) => name == "I"@ && (output matches EitherOf11::I(v) && made_view(
                                                self.spec_routes().8.view,
                                                found,
                                                v,
                                            )),
                                            None => match location_match(&self.spec_routes().9.path, url) {
                                                Some(found) => name == "J"@ && (output matches EitherOf11::J(v) && made_view(
                                                    self.spec_routes().9.view,
                                                    found,
                                                    v,
                                                )),
                                                None => output matches EitherOf11::K(f) && fallback_outcome(self.spec_fallback(), name, f),
                                            },
                                        },
                                    },
                                },
                            },
                        },
                    },
                },
            },
        }
    }

    open spec fn fov_ok(&self) -> bool {
        &&& call_requires(self.spec_fallback(), ())
        &&& accepts_all(self.spec_routes().0.view)
        &&& accepts_all(self.spec_routes().1.view)
        &&& accepts_all(self.spec_routes().2.view)
        &&& accepts_all(self.spec_routes().3.view)
        &&& accepts_all(self.spec_routes().4.view)
        &&& accepts_all(self.spec_routes().5.view)
        &&& accepts_all(self.spec_routes().6.view)
        &&& accepts_all(self.spec_routes().7.view)
        &&& accepts_all(self.spec_routes().8.view)
        &&& accepts_all(self.spec_routes().9.view)
    }

    fn fallback_or_view(&self) -> (r: Routed<EitherOf11<AView, BView, CView, DView, EView, FView, GView, HView, IView, JView, Fal>>) {
        let (a, b, c, d, e, f, g, h, i, j) = &self.routes;
        if let Ok(url) = self.location.try_to_url() {
            if let Some(hit) = match_path(&a.path, url.pathname.as_str()) {
                let ghost seen = hit;
                let view = a.view(hit);
                assert(made_view(a.view, (seen@.params, seen@.matched), view));
                return Routed("A", EitherOf11::A(view));
            }
            if let Some(hit) = match_path(&b.path, url.pathname.as_str()) {
                let ghost seen = hit;
                let view = b.view(hit);
                assert(made_view(b.view, (seen@.params, seen@.matched), view));
                return Routed("B", EitherOf11::B(view));
            }
            if let Some(hit) = match_path(&c.path, url.pathname.as_str()) {
                let ghost seen = hit;
                let view = c.view(hit);
                assert(made_view(c.view, (seen@.params, seen@.matched), view));
                return Routed("C", EitherOf11::C(view));
            }
            if let Some(hit) = match_path(&d.path, url.pathname.as_str()) {
                let ghost seen = hit;
                let view = d.view(hit);
                assert(made_view(d.view, (seen@.params, seen@.matched), view));
                return Routed("D", EitherOf11::D(view));
            }
            if let Some(hit) = match_path(&e.path, url.pathname.as_str()) {
                let ghost seen = hit;
                let view = e.view(hit);
                assert(made_view(e.view, (seen@.params, seen@.matched), view));
                return Routed("E", EitherOf11::E(view));
            }
            if let Some(hit) = match_path(&f.path, url.pathname.as_str()) {
                let ghost seen = hit;
                let view = f.view(hit);
                assert(made_view(f.view, (seen@.params, seen@.matched), view));
                return Routed("F", EitherOf11::F(view));
            }
            if let Some(hit) = match_path(&g.path, url.pathname.as_str()) {
                let ghost seen = hit;
                let view = g.view(hit);
                assert(made_view(g.view, (seen@.params, seen@.matched), view));
                return Routed("G", EitherOf11::G(view));
            }
            if let Some(hit) = match_path(&h.path, url.pathname.as_str()) {
                let ghost seen = hit;
                let view = h.view(hit);
                assert(made_view(h.view, (seen@.params, seen@.matched), view));
                return Routed("H", EitherOf11::H(view));
            }
            if let Some(hit) = match_path(&i.path, url.pathname.as_str()) {
                let ghost seen = hit;
                let view = i.view(hit);
                assert(made_view(i.view, (seen@.params, seen@.matched), view));
                return Routed("I", EitherOf11::I(view));
            }
            if let Some(hit) = match_path(&j.path, url.pathname.as_str()) {
                let ghost seen = hit;
                let view = j.view(hit);
                assert(made_view(j.view, (seen@.params, seen@.matched), view));
                return Routed("J", EitherOf11::J(view));
            }
        }
        Routed("Fal", EitherOf11::K((self.fallback)()))
    }
}

impl<
    Loc: Location,
    FallbackFn: Fn() -> Fal,
    Fal: RenderHtml,
    APat: RouteMatch,
    AViewFn: Fn(MatchedRoute) -> AView,
    AView: RenderHtml,
    AChildren,
    BPat: RouteMatch,
    BViewFn: Fn(MatchedRoute) -> BView,
    BView: RenderHtml,
    BChildren,
    CPat: RouteMatch,
    CViewFn: Fn(MatchedRoute) -> CView,
    CView: RenderHtml,
    CChildren,
    DPat: RouteMatch,
    DViewFn: Fn(MatchedRoute) -> DView,
    DView: RenderHtml,
    DChildren,
    EPat: RouteMatch,
    EViewFn: Fn(MatchedRoute) -> EView,
    EView: RenderHtml,
    EChildren,
    FPat: RouteMatch,
    FViewFn: Fn(MatchedRoute) -> FView,
    FView: RenderHtml,
    FChildren,
    GPat: RouteMatch,
    GViewFn: Fn(MatchedRoute) -> GView,
    GView: RenderHtml,
    GChildren,
    HPat: RouteMatch,
    HViewFn: Fn(MatchedRoute) -> HView,
    HView: RenderHtml,
    HChildren,
    IPat: RouteMatch,
    IViewFn: Fn(MatchedRoute) -> IView,
    IView: RenderHtml,
    IChildren,
    JPat: RouteMatch,
    JViewFn: Fn(MatchedRoute) -> JView,
    JView: RenderHtml,
    JChildren,
    KPat: RouteMatch,
    KViewFn: Fn(MatchedRoute) -> KView,
    KView: RenderHtml,
    KChildren,
> FallbackOrView for Router<
    Loc,
    (
        RouteDefinition<APat, AViewFn, AChildren>,
        RouteDefinition<BPat, BViewFn, BChildren>,
        RouteDefinition<CPat, CViewFn, CChildren>,
        RouteDefinition<DPat, DViewFn, DChildren>,
        RouteDefinition<EPat, EViewFn, EChildren>,
        RouteDefinition<FPat, FViewFn, FChildren>,
        RouteDefinition<GPat, GViewFn, GChildren>,
        RouteDefinition<HPat, HViewFn, HChildren>,
        RouteDefinition<IPat, IViewFn, IChildren>,
        RouteDefinition<JPat, JViewFn, JChildren>,
        RouteDefinition<KPat, KViewFn, KChildren>,
    ),
    FallbackFn,
> {
    type Output = EitherOf12<AView, BView, CView, DView, EView, FView, GView, HView, IView, JView, KView, Fal>;

    /// The first route, in order, whose path matches the whole path of the
    /// location's URL is shown; when none does, or there is no URL, the
    /// fallback.
    open spec fn routed(&self, name: Seq<char>, output: EitherOf12<AView, BView, CView, DView, EView, FView, GView, HView, IView, JView, KView, Fal>) -> bool {
        let url = self.spec_location().spec_url();
        match location_match(&self.spec_routes().0.path, url) {
            Some(found) => name == "A"@ && (output matches EitherOf12::A(v) && made_view(
                self.spec_routes().0.view,
                found,
                v,
            )),
            None => match location_match(&self.spec_routes().1.path, url) {
                Some(found) => name == "B"@ && (output matches EitherOf12::B(v) && made_view(
                    self.spec_routes().1.view,
                    found,
                    v,
                )),
                None => match location_match(&self.spec_routes().2.path, url) {
                    Some(found) => name == "C"@ && (output matches EitherOf12::C(v) && made_view(
                        self.spec_routes().2.view,
                        found,
                        v,
                    )),
                    None => match location_match(&self.spec_routes().3.path, url) {
                        Some(found) => name == "D"@ && (output matches EitherOf12::D(v) && made_view(
                            self.spec_routes().3.view,
                            found,
                            v,
                        )),
                        None => match location_match(&self.spec_routes().4.path, url) {
                            Some(found) => name == "E"@ && (output matches EitherOf12::E(v) && made_view(
                                self.spec_routes().4.view,
                                found,
                                v,
                            )),
                            None => match location_match(&self.spec_routes().5.path, url) {
                                Some(found) => name == "F"@ && (output matches EitherOf12::F(v) && made_view(
                                    self.spec_routes().5.view,
                                    found,
                                    v,
                                )),
                                None => match location_match(&self.spec_routes().6.path, url) {
                                    Some(found) => name == "G"@ && (output matches EitherOf12::G(v) && made_view(
                                        self.spec_routes().6.view,
                                        found,
                                        v,
                                    )),
                                    None => match location_match(&self.spec_routes().7.path, url) {
                                        Some(found) => name == "H"@ && (output matches EitherOf12::H(v) && made_view(
                                            self.spec_routes().7.view,
                                            found,
                                            v,
                                        )),
                                        None => match location_match(&self.spec_routes().8.path, url) {
                                            Some(found) => name == "I"@ && (output matches EitherOf12::I(v) && made_view(
                                                self.spec_routes().8.view,
                                                found,
                                                v,
                                            )),
                                            None => match location_match(&self.spec_routes().9.path, url) {
                                                Some(found) => name == "J"@ && (output matches EitherOf12::J(v) && made_view(
                                                    self.spec_routes().9.view,
                                                    found,
                                                    v,
                                                )),
                                                None => match location_match(&self.spec_routes().10.path, url) {
                                                    Some(found) => name == "K"@ && (output matches EitherOf12::K(v) && made_view(
                                                        self.spec_routes().10.view,
                                                        found,
                                                        v,
                                                    )),
                                                    None => output matches EitherOf12::L(f) && fallback_outcome(self.spec_fallback(), name, f),
                                                },
                                            },
                                        },
                                    },
                                },
                            },
                        },
                    },
                },
            },
        }
    }

    open spec fn fov_ok(&self) -> bool {
        &&& call_requires(self.spec_fallback(), ())
        &&& accepts_all(self.spec_routes().0.view)
        &&& accepts_all(self.spec_routes().1.view)
        &&& accepts_all(self.spec_routes().2.view)
        &&& accepts_all(self.spec_routes().3.view)
        &&& accepts_all(self.spec_routes().4.view)
        &&& accepts_all(self.spec_routes().5.view)
        &&& accepts_all(self.spec_routes().6.view)
        &&& accepts_all(self.spec_routes().7.view)
        &&& accepts_all(self.spec_routes().8.view)
        &&& accepts_all(self.spec_routes().9.view)
        &&& accepts_all(self.spec_routes().10.view)
    }

    fn fallback_or_view(&self) -> (r: Routed<EitherOf12<AView, BView, CView, DView, EView, FView, GView, HView, IView, JView, KView, Fal>>) {
        let (a, b, c, d, e, f, g, h, i, j, k) = &self.routes;
        if let Ok(url) = self.location.try_to_url() {
            if let Some(hit) = match_path(&a.path, url.pathname.as_str()) {
                let ghost seen = hit;
                let view = a.view(hit);
                assert(made_view(a.view, (seen@.params, seen@.matched), view));
                return Routed("A", EitherOf12::A(view));
            }
            if let Some(hit) = match_path(&b.path, url.pathname.as_str()) {
                let ghost seen = hit;
                let view = b.view(hit);
                assert(made_view(b.view, (seen@.params, seen@.matched), view));
                return Routed("B", EitherOf12::B(view));
            }
            if let Some(hit) = match_path(&c.path, url.pathname.as_str()) {
                let ghost seen = hit;
                let view = c.view(hit);
                assert(made_view(c.view, (seen@.params, seen@.matched), view));
                return Routed("C", EitherOf12::C(view));
            }
            if let Some(hit) = match_path(&d.path, url.pathname.as_str()) {
                let ghost seen = hit;
                let view = d.view(hit);
                assert(made_view(d.view, (seen@.params, seen@.matched), view));
                return Routed("D", EitherOf12::D(view));
            }
            if let Some(hit) = match_path(&e.path, url.pathname.as_str()) {
                let ghost seen = hit;
                let view = e.view(hit);
                assert(made_view(e.view, (seen@.params, seen@.matched), view));
                return Routed("E", EitherOf12::E(view));
            }
            if let Some(hit) = match_path(&f.path, url.pathname.as_str()) {
                let ghost seen = hit;
                let view = f.view(hit);
                assert(made_view(f.view, (seen@.params, seen@.matched), view));
                return Routed("F", EitherOf12::F(view));
            }
            if let Some(hit) = match_path(&g.path, url.pathname.as_str()) {
                let ghost seen = hit;
                let view = g.view(hit);
                assert(made_view(g.view, (seen@.params, seen@.matched), view));
                return Routed("G", EitherOf12::G(view));
            }
            if let Some(hit) = match_path(&h.path, url.pathname.as_str()) {
                let ghost seen = hit;
                let view = h.view(hit);
                assert(made_view(h.view, (seen@.params, seen@.matched), view));
                return Routed("H", EitherOf12::H(view));
            }
            if let Some(hit) = match_path(&i.path, url.pathname.as_str()) {
                let ghost seen = hit;
                let view = i.view(hit);
                assert(made_view(i.view, (seen@.params, seen@.matched), view));
                return Routed("I", EitherOf12::I(view));
            }
            if let Some(hit) = match_path(&j.path, url.pathname.as_str()) {
                let ghost seen = hit;
                let view = j.view(hit);
                assert(made_view(j.view, (seen@.params, seen@.matched), view));
                return Routed("J", EitherOf12::J(view));
            }
            if let Some(hit) = match_path(&k.path, url.pathname.as_str()) {
                let ghost seen = hit;
                let view = k.view(hit);
                assert(made_view(k.view, (seen@.params, seen@.matched), view));
                return Routed("K", EitherOf12::K(view));
            }
        }
        Routed("Fal", EitherOf12::L((self.fallback)()))
    }
}

impl<
    Loc: Location,
    FallbackFn: Fn() -> Fal,
    Fal: RenderHtml,
    APat: RouteMatch,
    AViewFn: Fn(MatchedRoute) -> AView,
    AView: RenderHtml,
    AChildren,
    BPat: RouteMatch,
    BViewFn: Fn(MatchedRoute) -> BView,
    BView: RenderHtml,
    BChildren,
    CPat: RouteMatch,
    CViewFn: Fn(MatchedRoute) -> CView,
    CView: RenderHtml,
    CChildren,
    DPat: RouteMatch,
    DViewFn: Fn(MatchedRoute) -> DView,
    DView: RenderHtml,
    DChildren,
    EPat: RouteMatch,
    EViewFn: Fn(MatchedRoute) -> EView,
    EView: RenderHtml,
    EChildren,
    FPat: RouteMatch,
    FViewFn: Fn(MatchedRoute) -> FView,
    FView: RenderHtml,
    FChildren,
    GPat: RouteMatch,
    GViewFn: Fn(MatchedRoute) -> GView,
    GView: RenderHtml,
    GChildren,
    HPat: RouteMatch,
    HViewFn: Fn(MatchedRoute) -> HView,
    HView: RenderHtml,
    HChildren,
    IPat: RouteMatch,
    IViewFn: Fn(MatchedRoute) -> IView,
    IView: RenderHtml,
    IChildren,
    JPat: RouteMatch,
    JViewFn: Fn(MatchedRoute) -> JView,
    JView: RenderHtml,
    JChildren,
    KPat: RouteMatch,
    KViewFn: Fn(MatchedRoute) -> KView,
    KView: RenderHtml,
    KChildren,
    LPat: RouteMatch,
    LViewFn: Fn(MatchedRoute) -> LView,
    LView: RenderHtml,
    LChildren,
> FallbackOrView for Router<
    Loc,
    (
        RouteDefinition<APat, AViewFn, AChildren>,
        RouteDefinition<BPat, BViewFn, BChildren>,
        RouteDefinition<CPat, CViewFn, CChildren>,
        RouteDefinition<DPat, DViewFn, DChildren>,
        RouteDefinition<EPat, EViewFn, EChildren>,
        RouteDefinition<FPat, FViewFn, FChildren>,
        RouteDefinition<GPat, GViewFn, GChildren>,
        RouteDefinition<HPat, HViewFn, HChildren>,
        RouteDefinition<IPat, IViewFn, IChildren>,
        RouteDefinition<JPat, JViewFn, JChildren>,
        RouteDefinition<KPat, KViewFn, KChildren>,
        RouteDefinition<LPat, LViewFn, LChildren>,
    ),
    FallbackFn,
> {
    type Output = EitherOf13<AView, BView, CView, DView, EView, FView, GView, HView, IView, JView, KView, LView, Fal>;

    /// The first route, in order, whose path matches the whole path of the
    /// location's URL is shown; when none does, or there is no URL, the
    /// fallback.
    open spec fn routed(&self, name: Seq<char>, output: EitherOf13<AView, BView, CView, DView, EView, FView, GView, HView, IView, JView, KView, LView, Fal>) -> bool {
        let url = self.spec_location().spec_url();
        match location_match(&self.spec_routes().0.path, url) {
            Some(found) => name == "A"@ && (output matches EitherOf13::A(v) && made_view(
                self.spec_routes().0.view,
                found,
                v,
            )),
            None => match location_match(&self.spec_routes().1.path, url) {
                Some(found) => name == "B"@ && (output matches EitherOf13::B(v) && made_view(
                    self.spec_routes().1.view,
                    found,
                    v,
                )),
                None => match location_match(&self.spec_routes().2.path, url) {
                    Some(found) => name == "C"@ && (output matches EitherOf13::C(v) && made_view(
                        self.spec_routes().2.view,
                        found,
                        v,
                    )),
                    None => match location_match(&self.spec_routes().3.path, url) {
                        Some(found) => name == "D"@ && (output matches EitherOf13::D(v) && made_view(
                            self.spec_routes().3.view,
                            found,
                            v,
                        )),
                        None => match location_match(&self.spec_routes().4.path, url) {
                            Some(found) => name == "E"@ && (output matches EitherOf13::E(v) && made_view(
                                self.spec_routes().4.view,
                                found,
                                v,
                            )),
                            None => match location_match(&self.spec_routes().5.path, url) {
                                Some(found) => name == "F"@ && (output matches EitherOf13::F(v) && made_view(
                                    self.spec_routes().5.view,
                                    found,
                                    v,
                                )),
                                None => match location_match(&self.spec_routes().6.path, url) {
                                    Some(found) => name == "G"@ && (output matches EitherOf13::G(v) && made_view(
                                        self.spec_routes().6.view,
                                        found,
                                        v,
                                    )),
                                    None => match location_match(&self.spec_routes().7.path, url) {
                                        Some(found) => name == "H"@ && (output matches EitherOf13::H(v) && made_view(
                                            self.spec_routes().7.view,
                                            found,
                                            v,
                                        )),
                                        None => match location_match(&self.spec_routes().8.path, url) {
                                            Some(found) => name == "I"@ && (output matches EitherOf13::I(v) && made_view(
                                                self.spec_routes().8.view,
                                                found,
                                                v,
                                            )),
                                            None => match location_match(&self.spec_routes().9.path, url) {
                                                Some(found) => name == "J"@ && (output matches EitherOf13::J(v) && made_view(
                                                    self.spec_routes().9.view,
                                                    found,
                                                    v,
                                                )),
                                                None => match location_match(&self.spec_routes().10.path, url) {
                                                    Some(found) => name == "K"@ && (output matches EitherOf13::K(v) && made_view(
                                                        self.spec_routes().10.view,
                                                        found,
                                                        v,
                                                    )),
                                                    None => match location_match(&self.spec_routes().11.path, url) {
                                                        Some(found) => name == "L"@ && (output matches EitherOf13::L(v) && made_view(
                                                            self.spec_routes().11.view,
                                                            found,
                                                            v,
                                                        )),
                                                        None => output matches EitherOf13::M(f) && fallback_outcome(self.spec_fallback(), name, f),
                                                    },
                                                },
                                            },
                                        },
                                    },
                                },
                            },
                        },
                    },
                },
            },
        }
    }

    open spec fn fov_ok(&self) -> bool {
        &&& call_requires(self.spec_fallback(), ())
        &&& accepts_all(self.spec_routes().0.view)
        &&& accepts_all(self.spec_routes().1.view)
        &&& accepts_all(self.spec_routes().2.view)
        &&& accepts_all(self.spec_routes().3.view)
        &&& accepts_all(self.spec_routes().4.view)
        &&& accepts_all(self.spec_routes().5.view)
        &&& accepts_all(self.spec_routes().6.view)
        &&& accepts_all(self.spec_routes().7.view)
        &&& accepts_all(self.spec_routes().8.view)
        &&& accepts_all(self.spec_routes().9.view)
        &&& accepts_all(self.spec_routes().10.view)
        &&& accepts_all(self.spec_routes().11.view)
    }

    fn fallback_or_view(&self) -> (r: Routed<EitherOf13<AView, BView, CView, DView, EView, FView, GView, HView, IView, JView, KView, LView, Fal>>) {
        let (a, b, c, d, e, f, g, h, i, j, k, l) = &self.routes;
        if let Ok(url) = self.location.try_to_url() {
            if let Some(hit) = match_path(&a.path, url.pathname.as_str()) {
                let ghost seen = hit;
                let view = a.view(hit);
                assert(made_view(a.view, (seen@.params, seen@.matched), view));
                return Routed("A", EitherOf13::A(view));
            }
            if let Some(hit) = match_path(&b.path, url.pathname.as_str()) {
                let ghost seen = hit;
                let view = b.view(hit);
                assert(made_view(b.view, (seen@.params, seen@.matched), view));
                return Routed("B", EitherOf13::B(view));
            }
            if let Some(hit) = match_path(&c.path, url.pathname.as_str()) {
                let ghost seen = hit;
                let view = c.view(hit);
                assert(made_view(c.view, (seen@.params, seen@.matched), view));
                return Routed("C", EitherOf13::C(view));
            }
            if let Some(hit) = match_path(&d.path, url.pathname.as_str()) {
                let ghost seen = hit;
                let view = d.view(hit);
                assert(made_view(d.view, (seen@.params, seen@.matched), view));
                return Routed("D", EitherOf13::D(view));
            }
            if let Some(hit) = match_path(&e.path, url.pathname.as_str()) {
                let ghost seen = hit;
                let view = e.view(hit);
                assert(made_view(e.view, (seen@.params, seen@.matched), view));
                return Routed("E", EitherOf13::E(view));
            }
            if let Some(hit) = match_path(&f.path, url.pathname.as_str()) {
                let ghost seen = hit;
                let view = f.view(hit);
                assert(made_view(f.view, (seen@.params, seen@.matched), view));
                return Routed("F", EitherOf13::F(view));
            }
            if let Some(hit) = match_path(&g.path, url.pathname.as_str()) {
                let ghost seen = hit;
                let view = g.view(hit);
                assert(made_view(g.view, (seen@.params, seen@.matched), view));
                return Routed("G", EitherOf13::G(view));
            }
            if let Some(hit) = match_path(&h.path, url.pathname.as_str()) {
                let ghost seen = hit;
                let view = h.view(hit);
                assert(made_view(h.view, (seen@.params, seen@.matched), view));
                return Routed("H", EitherOf13::H(view));
            }
            if let Some(hit) = match_path(&i.path, url.pathname.as_str()) {
                let ghost seen = hit;
                let view = i.view(hit);
                assert(made_view(i.view, (seen@.params, seen@.matched), view));
                return Routed("I", EitherOf13::I(view));
            }
            if let Some(hit) = match_path(&j.path, url.pathname.as_str()) {
                let ghost seen = hit;
                let view = j.view(hit);
                assert(made_view(j.view, (seen@.params, seen@.matched), view));
                return Routed("J", EitherOf13::J(view));
            }
            if let Some(hit) = match_path(&k.path, url.pathname.as_str()) {
                let ghost seen = hit;
                let view = k.view(hit);
                assert(made_view(k.view, (seen@.params, seen@.matched), view));
                return Routed("K", EitherOf13::K(view));
            }
            if let Some(hit) = match_path(&l.path, url.pathname.as_str()) {
                let ghost seen = hit;
                let view = l.view(hit);
                assert(made_view(l.view, (seen@.params, seen@.matched), view));
                return Routed("L", EitherOf13::L(view));
            }
        }
        Routed("Fal", EitherOf13::M((self.fallback)()))
    }
}

impl<
    Loc: Location,
    FallbackFn: Fn() -> Fal,
    Fal: RenderHtml,
    APat: RouteMatch,
    AViewFn: Fn(MatchedRoute) -> AView,
    AView: RenderHtml,
    AChildren,
    BPat: RouteMatch,
    BViewFn: Fn(MatchedRoute) -> BView,
    BView: RenderHtml,
    BChildren,
    CPat: RouteMatch,
    CViewFn: Fn(MatchedRoute) -> CView,
    CView: RenderHtml,
    CChildren,
    DPat: RouteMatch,
    DViewFn: Fn(MatchedRoute) -> DView,
    DView: RenderHtml,
    DChildren,
    EPat: RouteMatch,
    EViewFn: Fn(MatchedRoute) -> EView,
    EView: RenderHtml,
    EChildren,
    FPat: RouteMatch,
    FViewFn: Fn(MatchedRoute) -> FView,
    FView: RenderHtml,
    FChildren,
    GPat: RouteMatch,
    GViewFn: Fn(MatchedRoute) -> GView,
    GView: RenderHtml,
    GChildren,
    HPat: RouteMatch,
    HViewFn: Fn(MatchedRoute) -> HView,
    HView: RenderHtml,
    HChildren,
    IPat: RouteMatch,
    IViewFn: Fn(MatchedRoute) -> IView,
    IView: RenderHtml,
    IChildren,
    JPat: RouteMatch,
    JViewFn: Fn(MatchedRoute) -> JView,
    JView: RenderHtml,
    JChildren,
    KPat: RouteMatch,
    KViewFn: Fn(MatchedRoute) -> KView,
    KView: RenderHtml,
    KChildren,
    LPat: RouteMatch,
    LViewFn: Fn(MatchedRoute) -> LView,
    LView: RenderHtml,
    LChildren,
    MPat: RouteMatch,
    MViewFn: Fn(MatchedRoute) -> MView,
    MView: RenderHtml,
    MChildren,
> FallbackOrView for Router<
    Loc,
    (
        RouteDefinition<APat, AViewFn, AChildren>,
        RouteDefinition<BPat, BViewFn, BChildren>,
        RouteDefinition<CPat, CViewFn, CChildren>,
        RouteDefinition<DPat, DViewFn, DChildren>,
        RouteDefinition<EPat, EViewFn, EChildren>,
        RouteDefinition<FPat, FViewFn, FChildren>,
        RouteDefinition<GPat, GViewFn, GChildren>,
        RouteDefinition<HPat, HViewFn, HChildren>,
        RouteDefinition<IPat, IViewFn, IChildren>,
        RouteDefinition<JPat, JViewFn, JChildren>,
        RouteDefinition<KPat, KViewFn, KChildren>,
        RouteDefinition<LPat, LViewFn, LChildren>,
        RouteDefinition<MPat, MViewFn, MChildren>,
    ),
    FallbackFn,
> {
    type Output = EitherOf14<AView, BView, CView, DView, EView, FView, GView, HView, IView, JView, KView, LView, MView, Fal>;

    /// The first route, in order, whose path matches the whole path of the
    /// location's URL is shown; when none does, or there is no URL, the
    /// fallback.
    open spec fn routed(&self, name: Seq<char>, output: EitherOf14<AView, BView, CView, DView, EView, FView, GView, HView, IView, JView, KView, LView, MView, Fal>) -> bool {
        let url = self.spec_location().spec_url();
        match location_match(&self.spec_routes().0.path, url) {
            Some(found) => name == "A"@ && (output matches EitherOf14::A(v) && made_view(
                self.spec_routes().0.view,
                found,
                v,
            )),
            None => match location_match(&self.spec_routes().1.path, url) {
                Some(found) => name == "B"@ && (output matches EitherOf14::B(v) && made_view(
                    self.spec_routes().1.view,
                    found,
                    v,
                )),
                None => match location_match(&self.spec_routes().2.path, url) {
                    Some(found) => name == "C"@ && (output matches EitherOf14::C(v) && made_view(
                        self.spec_routes().2.view,
                        found,
                        v,
                    )),
                    None => match location_match(&self.spec_routes().3.path, url) {
                        Some(found) => name == "D"@ && (output matches EitherOf14::D(v) && made_view(
                            self.spec_routes().3.view,
                            found,
                            v,
                        )),
                        None => match location_match(&self.spec_routes().4.path, url) {
                            Some(found) => name == "E"@ && (output matches EitherOf14::E(v) && made_view(
                                self.spec_routes().4.view,
                                found,
                                v,
                            )),
                            None => match location_match(&self.spec_routes().5.path, url) {
                                Some(found) => name == "F"@ && (output matches EitherOf14::F(v) && made_view(
                                    self.spec_routes().5.view,
                                    found,
                                    v,
                                )),
                                None => match location_match(&self.spec_routes().6.path, url) {
                                    Some(found) => name == "G"@ && (output matches EitherOf14::G(v) && made_view(
                                        self.spec_routes().6.view,
                                        found,
                                        v,
                                    )),
                                    None => match location_match(&self.spec_routes().7.path, url) {
                                        Some(found) => name == "H"@ && (output matches EitherOf14::H(v) && made_view(
                                            self.spec_routes().7.view,
                                            found,
                                            v,
                                        )),
                                        None => match location_match(&self.spec_routes().8.path, url) {
                                            Some(found) => name == "I"@ && (output matches EitherOf14::I(v) && made_view(
                                                self.spec_routes().8.view,
                                                found,
                                                v,
                                            )),
                                            None => match location_match(&self.spec_routes().9.path, url) {
                                                Some(found) => name == "J"@ && (output matches EitherOf14::J(v) && made_view(
                                                    self.spec_routes().9.view,
                                                    found,
                                                    v,
                                                )),
                                                None => match location_match(&self.spec_routes().10.path, url) {
                                                    Some(found) => name == "K"@ && (output matches EitherOf14::K(v) && made_view(
                                                        self.spec_routes().10.view,
                                                        found,
                                                        v,
                                                    )),
                                                    None => match location_match(&self.spec_routes().11.path, url) {
                                                        Some(found) => name == "L"@ && (output matches EitherOf14::L(v) && made_view(
                                                            self.spec_routes().11.view,
                                                            found,
                                                            v,
                                                        )),
                                                        None => match location_match(&self.spec_routes().12.path, url) {
                                                            Some(found) => name == "M"@ && (output matches EitherOf14::M(v) && made_view(
                                                                self.spec_routes().12.view,
                                                                found,
                                                                v,
                                                            )),
                                                            None => output matches EitherOf14::N(f) && fallback_outcome(self.spec_fallback(), name, f),
                                                        },
                                                    },
                                                },
                                            },
                                        },
                                    },
                                },
                            },
                        },
                    },
                },
            },
        }
    }

    open spec fn fov_ok(&self) -> bool {
        &&& call_requires(self.spec_fallback(), ())
        &&& accepts_all(self.spec_routes().0.view)
        &&& accepts_all(self.spec_routes().1.view)
        &&& accepts_all(self.spec_routes().2.view)
        &&& accepts_all(self.spec_routes().3.view)
        &&& accepts_all(self.spec_routes().4.view)
        &&& accepts_all(self.spec_routes().5.view)
        &&& accepts_all(self.spec_routes().6.view)
        &&& accepts_all(self.spec_routes().7.view)
        &&& accepts_all(self.spec_routes().8.view)
        &&& accepts_all(self.spec_routes().9.view)
        &&& accepts_all(self.spec_routes().10.view)
        &&& accepts_all(self.spec_routes().11.view)
        &&& accepts_all(self.spec_routes().12.view)
    }

    fn fallback_or_view(&self) -> (r: Routed<EitherOf14<AView, BView, CView, DView, EView, FView, GView, HView, IView, JView, KView, LView, MView, Fal>>) {
        let (a, b, c, d, e, f, g, h, i, j, k, l, m) = &self.routes;
        if let Ok(url) = self.location.try_to_url() {
            if let Some(hit) = match_path(&a.path, url.pathname.as_str()) {
                let ghost seen = hit;
                let view = a.view(hit);
                assert(made_view(a.view, (seen@.params, seen@.matched), view));
                return Routed("A", EitherOf14::A(view));
            }
            if let Some(hit) = match_path(&b.path, url.pathname.as_str()) {
                let ghost seen = hit;
                let view = b.view(hit);
                assert(made_view(b.view, (seen@.params, seen@.matched), view));
                return Routed("B", EitherOf14::B(view));
            }
            if let Some(hit) = match_path(&c.path, url.pathname.as_str()) {
                let ghost seen = hit;
                let view = c.view(hit);
                assert(made_view(c.view, (seen@.params, seen@.matched), view));
                return Routed("C", EitherOf14::C(view));
            }
            if let Some(hit) = match_path(&d.path, url.pathname.as_str()) {
                let ghost seen = hit;
                let view = d.view(hit);
                assert(made_view(d.view, (seen@.params, seen@.matched), view));
                return Routed("D", EitherOf14::D(view));
            }
            if let Some(hit) = match_path(&e.path, url.pathname.as_str()) {
                let ghost seen = hit;
                let view = e.view(hit);
                assert(made_view(e.view, (seen@.params, seen@.matched), view));
                return Routed("E", EitherOf14::E(view));
            }
            if let Some(hit) = match_path(&f.path, url.pathname.as_str()) {
                let ghost seen = hit;
                let view = f.view(hit);
                assert(made_view(f.view, (seen@.params, seen@.matched), view));
                return Routed("F", EitherOf14::F(view));
            }
            if let Some(hit) = match_path(&g.path, url.pathname.as_str()) {
                let ghost seen = hit;
                let view = g.view(hit);
                assert(made_view(g.view, (seen@.params, seen@.matched), view));
                return Routed("G", EitherOf14::G(view));
            }
            if let Some(hit) = match_path(&h.path, url.pathname.as_str()) {
                let ghost seen = hit;
                let view = h.view(hit);
                assert(made_view(h.view, (seen@.params, seen@.matched), view));
                return Routed("H", EitherOf14::H(view));
            }
            if let Some(hit) = match_path(&i.path, url.pathname.as_str()) {
                let ghost seen = hit;
                let view = i.view(hit);
                assert(made_view(i.view, (seen@.params, seen@.matched), view));
                return Routed("I", EitherOf14::I(view));
            }
            if let Some(hit) = match_path(&j.path, url.pathname.as_str()) {
                let ghost seen = hit;
                let view = j.view(hit);
                assert(made_view(j.view, (seen@.params, seen@.matched), view));
                return Routed("J", EitherOf14::J(view));
            }
            if let Some(hit) = match_path(&k.path, url.pathname.as_str()) {
                let ghost seen = hit;
                let view = k.view(hit);
                assert(made_view(k.view, (seen@.params, seen@.matched), view));
                return Routed("K", EitherOf14::K(view));
            }
            if let Some(hit) = match_path(&l.path, url.pathname.as_str()) {
                let ghost seen = hit;
                let view = l.view(hit);
                assert(made_view(l.view, (seen@.params, seen@.matched), view));
                return Routed("L", EitherOf14::L(view));
            }
            if let Some(hit) = match_path(&m.path, url.pathname.as_str()) {
                let ghost seen = hit;
                let view = m.view(hit);
                assert(made_view(m.view, (seen@.params, seen@.matched), view));
                return Routed("M", EitherOf14::M(view));
            }
        }
        Routed("Fal", EitherOf14::N((self.fallback)()))
    }
}

impl<
    Loc: Location,
    FallbackFn: Fn() -> Fal,
    Fal: RenderHtml,
    APat: RouteMatch,
    AViewFn: Fn(MatchedRoute) -> AView,
    AView: RenderHtml,
    AChildren,
    BPat: RouteMatch,
    BViewFn: Fn(MatchedRoute) -> BView,
    BView: RenderHtml,
    BChildren,
    CPat: RouteMatch,
    CViewFn: Fn(MatchedRoute) -> CView,
    CView: RenderHtml,
    CChildren,
    DPat: RouteMatch,
    DViewFn: Fn(MatchedRoute) -> DView,
    DView: RenderHtml,
    DChildren,
    EPat: RouteMatch,
    EViewFn: Fn(MatchedRoute) -> EView,
    EView: RenderHtml,
    EChildren,
    FPat: RouteMatch,
    FViewFn: Fn(MatchedRoute) -> FView,
    FView: RenderHtml,
    FChildren,
    GPat: RouteMatch,
    GViewFn: Fn(MatchedRoute) -> GView,
    GView: RenderHtml,
    GChildren,
    HPat: RouteMatch,
    HViewFn: Fn(MatchedRoute) -> HView,
    HView: RenderHtml,
    HChildren,
    IPat: RouteMatch,
    IViewFn: Fn(MatchedRoute) -> IView,
    IView: RenderHtml,
    IChildren,
    JPat: RouteMatch,
    JViewFn: Fn(MatchedRoute) -> JView,
    JView: RenderHtml,
    JChildren,
    KPat: RouteMatch,
    KViewFn: Fn(MatchedRoute) -> KView,
    KView: RenderHtml,
    KChildren,
    LPat: RouteMatch,
    LViewFn: Fn(MatchedRoute) -> LView,
    LView: RenderHtml,
    LChildren,
    MPat: RouteMatch,
    MViewFn: Fn(MatchedRoute) -> MView,
    MView: RenderHtml,
    MChildren,
    NPat: RouteMatch,
    NViewFn: Fn(MatchedRoute) -> NView,
    NView: RenderHtml,
    NChildren,
> FallbackOrView for Router<
    Loc,
    (
        RouteDefinition<APat, AViewFn, AChildren>,
        RouteDefinition<BPat, BViewFn, BChildren>,
        RouteDefinition<CPat, CViewFn, CChildren>,
        RouteDefinition<DPat, DViewFn, DChildren>,
        RouteDefinition<EPat, EViewFn, EChildren>,
        RouteDefinition<FPat, FViewFn, FChildren>,
        RouteDefinition<GPat, GViewFn, GChildren>,
        RouteDefinition<HPat, HViewFn, HChildren>,
        RouteDefinition<IPat, IViewFn, IChildren>,
        RouteDefinition<JPat, JViewFn, JChildren>,
        RouteDefinition<KPat, KViewFn, KChildren>,
        RouteDefinition<LPat, LViewFn, LChildren>,
        RouteDefinition<MPat, MViewFn, MChildren>,
        RouteDefinition<NPat, NViewFn, NChildren>,
    ),
    FallbackFn,
> {
    type Output = EitherOf15<AView, BView, CView, DView, EView, FView, GView, HView, IView, JView, KView, LView, MView, NView, Fal>;

    /// The first route, in order, whose path matches the whole path of the
    /// location's URL is shown; when none does, or there is no URL, the
    /// fallback.
    open spec fn routed(&self, name: Seq<char>, output: EitherOf15<AView, BView, CView, DView, EView, FView, GView, HView, IView, JView, KView, LView, MView, NView, Fal>) -> bool {
        let url = self.spec_location().spec_url();
        match location_match(&self.spec_routes().0.path, url) {
            Some(found) => name == "A"@ && (output matches EitherOf15::A(v) && made_view(
                self.spec_routes().0.view,
                found,
                v,
            )),
            None => match location_match(&self.spec_routes().1.path, url) {
                Some(found) => name == "B"@ && (output matches EitherOf15::B(v) && made_view(
                    self.spec_routes().1.view,
                    found,
                    v,
                )),
                None => match location_match(&self.spec_routes().2.path, url) {
                    Some(found) => name == "C"@ && (output matches EitherOf15::C(v) && made_view(
                        self.spec_routes().2.view,
                        found,
                        v,
                    )),
                    None => match location_match(&self.spec_routes().3.path, url) {
                        Some(found) => name == "D"@ && (output matches EitherOf15::D(v) && made_view(
                            self.spec_routes().3.view,
                            found,
                            v,
                        )),
                        None => match location_match(&self.spec_routes().4.path, url) {
                            Some(found) => name == "E"@ && (output matches EitherOf15::E(v) && made_view(
                                self.spec_routes().4.view,
                                found,
                                v,
                            )),
                            None => match location_match(&self.spec_routes().5.path, url) {
                                Some(found) => name == "F"@ && (output matches EitherOf15::F(v) && made_view(
                                    self.spec_routes().5.view,
                                    found,
                                    v,
                                )),
                                None => match location_match(&self.spec_routes().6.path, url) {
                                    Some(found) => name == "G"@ && (output matches EitherOf15::G(v) && made_view(
                                        self.spec_routes().6.view,
                                        found,
                                        v,
                                    )),
                                    None => match location_match(&self.spec_routes().7.path, url) {
                                        Some(found) => name == "H"@ && (output matches EitherOf15::H(v) && made_view(
                                            self.spec_routes().7.view,
                                            found,
                                            v,
                                        )),
                                        None => match location_match(&self.spec_routes().8.path, url) {
                                            Some(found) => name == "I"@ && (output matches EitherOf15::I(v) && made_view(
                                                self.spec_routes().8.view,
                                                found,
                                                v,
                                            )),
                                            None => match location_match(&self.spec_routes().9.path, url) {
                                                Some(found) => name == "J"@ && (output matches EitherOf15::J(v) && made_view(
                                                    self.spec_routes().9.view,
                                                    found,
                                                    v,
                                                )),
                                                None => match location_match(&self.spec_routes().10.path, url) {
                                                    Some(found) => name == "K"@ && (output matches EitherOf15::K(v) && made_view(
                                                        self.spec_routes().10.view,
                                                        found,
                                                        v,
                                                    )),
                                                    None => match location_match(&self.spec_routes().11.path, url) {
                                                        Some(found) => name == "L"@ && (output matches EitherOf15::L(v) && made_view(
                                                            self.spec_routes().11.view,
                                                            found,
                                                            v,
                                                        )),
                                                        None => match location_match(&self.spec_routes().12.path, url) {
                                                            Some(found) => name == "M"@ && (output matches EitherOf15::M(v) && made_view(
                                                                self.spec_routes().12.view,
                                                                found,
                                                                v,
                                                            )),
                                                            None => match location_match(&self.spec_routes().13.path, url) {
                                                                Some(found) => name == "N"@ && (output matches EitherOf15::N(v) && made_view(
                                                                    self.spec_routes().13.view,
                                                                    found,
                                                                    v,
                                                                )),
                                                                None => output matches EitherOf15::O(f) && fallback_outcome(self.spec_fallback(), name, f),
                                                            },
                                                        },
                                                    },
                                                },
                                            },
                                        },
                                    },
                                },
                            },
                        },
                    },
                },
            },
        }
    }

    open spec fn fov_ok(&self) -> bool {
        &&& call_requires(self.spec_fallback(), ())
        &&& accepts_all(self.spec_routes().0.view)
        &&& accepts_all(self.spec_routes().1.view)
        &&& accepts_all(self.spec_routes().2.view)
        &&& accepts_all(self.spec_routes().3.view)
        &&& accepts_all(self.spec_routes().4.view)
        &&& accepts_all(self.spec_routes().5.view)
        &&& accepts_all(self.spec_routes().6.view)
        &&& accepts_all(self.spec_routes().7.view)
        &&& accepts_all(self.spec_routes().8.view)
        &&& accepts_all(self.spec_routes().9.view)
        &&& accepts_all(self.spec_routes().10.view)
        &&& accepts_all(self.spec_routes().11.view)
        &&& accepts_all(self.spec_routes().12.view)
        &&& accepts_all(self.spec_routes().13.view)
    }

    fn fallback_or_view(&self) -> (r: Routed<EitherOf15<AView, BView, CView, DView, EView, FView, GView, HView, IView, JView, KView, LView, MView, NView, Fal>>) {
        let (a, b, c, d, e, f, g, h, i, j, k, l, m, n) = &self.routes;
        if let Ok(url) = self.location.try_to_url() {
            if let Some(hit) = match_path(&a.path, url.pathname.as_str()) {
                let ghost seen = hit;
                let view = a.view(hit);
                assert(made_view(a.view, (seen@.params, seen@.matched), view));
                return Routed("A", EitherOf15::A(view));
            }
            if let Some(hit) = match_path(&b.path, url.pathname.as_str()) {
                let ghost seen = hit;
                let view = b.view(hit);
                assert(made_view(b.view, (seen@.params, seen@.matched), view));
                return Routed("B", EitherOf15::B(view));
            }
            if let Some(hit) = match_path(&c.path, url.pathname.as_str()) {
                let ghost seen = hit;
                let view = c.view(hit);
                assert(made_view(c.view, (seen@.params, seen@.matched), view));
                return Routed("C", EitherOf15::C(view));
            }
            if let Some(hit) = match_path(&d.path, url.pathname.as_str()) {
                let ghost seen = hit;
                let view = d.view(hit);
                assert(made_view(d.view, (seen@.params, seen@.matched), view));
                return Routed("D", EitherOf15::D(view));
            }
            if let Some(hit) = match_path(&e.path, url.pathname.as_str()) {
                let ghost seen = hit;
                let view = e.view(hit);
                assert(made_view(e.view, (seen@.params, seen@.matched), view));
                return Routed("E", EitherOf15::E(view));
            }
            if let Some(hit) = match_path(&f.path, url.pathname.as_str()) {
                let ghost seen = hit;
                let view = f.view(hit);
                assert(made_view(f.view, (seen@.params, seen@.matched), view));
                return Routed("F", EitherOf15::F(view));
            }
            if let Some(hit) = match_path(&g.path, url.pathname.as_str()) {
                let ghost seen = hit;
                let view = g.view(hit);
                assert(made_view(g.view, (seen@.params, seen@.matched), view));
                return Routed("G", EitherOf15::G(view));
            }
            if let Some(hit) = match_path(&h.path, url.pathname.as_str()) {
                let ghost seen = hit;
                let view = h.view(hit);
                assert(made_view(h.view, (seen@.params, seen@.matched), view));
                return Routed("H", EitherOf15::H(view));
            }
            if let Some(hit) = match_path(&i.path, url.pathname.as_str()) {
                let ghost seen = hit;
                let view = i.view(hit);
                assert(made_view(i.view, (seen@.params, seen@.matched), view));
                return Routed("I", EitherOf15::I(view));
            }
            if let Some(hit) = match_path(&j.path, url.pathname.as_str()) {
                let ghost seen = hit;
                let view = j.view(hit);
                assert(made_view(j.view, (seen@.params, seen@.matched), view));
                return Routed("J", EitherOf15::J(view));
            }
            if let Some(hit) = match_path(&k.path, url.pathname.as_str()) {
                let ghost seen = hit;
                let view = k.view(hit);
                assert(made_view(k.view, (seen@.params, seen@.matched), view));
                return Routed("K", EitherOf15::K(view));
            }
            if let Some(hit) = match_path(&l.path, url.pathname.as_str()) {
                let ghost seen = hit;
                let view = l.view(hit);
                assert(made_view(l.view, (seen@.params, seen@.matched), view));
                return Routed("L", EitherOf15::L(view));
            }
            if let Some(hit) = match_path(&m.path, url.pathname.as_str()) {
                let ghost seen = hit;
                let view = m.view(hit);
                assert(made_view(m.view, (seen@.params, seen@.matched), view));
                return Routed("M", EitherOf15::M(view));
            }
            if let Some(hit) = match_path(&n.path, url.pathname.as_str()) {
                let ghost seen = hit;
                let view = n.view(hit);
                assert(made_view(n.view, (seen@.params, seen@.matched), view));
                return Routed("N", EitherOf15::N(view));
            }
        }
        Routed("Fal", EitherOf15::O((self.fallback)()))
    }
}

impl<
    Loc: Location,
    FallbackFn: Fn() -> Fal,
    Fal: RenderHtml,
    APat: RouteMatch,
    AViewFn: Fn(MatchedRoute) -> AView,
    AView: RenderHtml,
    AChildren,
    BPat: RouteMatch,
    BViewFn: Fn(MatchedRoute) -> BView,
    BView: RenderHtml,
    BChildren,
    CPat: RouteMatch,
    CViewFn: Fn(MatchedRoute) -> CView,
    CView: RenderHtml,
    CChildren,
    DPat: RouteMatch,
    DViewFn: Fn(MatchedRoute) -> DView,
    DView: RenderHtml,
    DChildren,
    EPat: RouteMatch,
    EViewFn: Fn(MatchedRoute) -> EView,
    EView: RenderHtml,
    EChildren,
    FPat: RouteMatch,
    FViewFn: Fn(MatchedRoute) -> FView,
    FView: RenderHtml,
    FChildren,
    GPat: RouteMatch,
    GViewFn: Fn(MatchedRoute) -> GView,
    GView: RenderHtml,
    GChildren,
    HPat: RouteMatch,
    HViewFn: Fn(MatchedRoute) -> HView,
    HView: RenderHtml,
    HChildren,
    IPat: RouteMatch,
    IViewFn: Fn(MatchedRoute) -> IView,
    IView: RenderHtml,
    IChildren,
    JPat: RouteMatch,
    JViewFn: Fn(MatchedRoute) -> JView,
    JView: RenderHtml,
    JChildren,
    KPat: RouteMatch,
    KViewFn: Fn(MatchedRoute) -> KView,
    KView: RenderHtml,
    KChildren,
    LPat: RouteMatch,
    LViewFn: Fn(MatchedRoute) -> LView,
    LView: RenderHtml,
    LChildren,
    MPat: RouteMatch,
    MViewFn: Fn(MatchedRoute) -> MView,
    MView: RenderHtml,
    MChildren,
    NPat: RouteMatch,
    NViewFn: Fn(MatchedRoute) -> NView,
    NView: RenderHtml,
    NChildren,
    OPat: RouteMatch,
    OViewFn: Fn(MatchedRoute) -> OView,
    OView: RenderHtml,
    OChildren,
> FallbackOrView for Router<
    Loc,
    (
        RouteDefinition<APat, AViewFn, AChildren>,
        RouteDefinition<BPat, BViewFn, BChildren>,
        RouteDefinition<CPat, CViewFn, CChildren>,
        RouteDefinition<DPat, DViewFn, DChildren>,
        RouteDefinition<EPat, EViewFn, EChildren>,
        RouteDefinition<FPat, FViewFn, FChildren>,
        RouteDefinition<GPat, GViewFn, GChildren>,
        RouteDefinition<HPat, HViewFn, HChildren>,
        RouteDefinition<IPat, IViewFn, IChildren>,
        RouteDefinition<JPat, JViewFn, JChildren>,
        RouteDefinition<KPat, KViewFn, KChildren>,
        RouteDefinition<LPat, LViewFn, LChildren>,
        RouteDefinition<MPat, MViewFn, MChildren>,
        RouteDefinition<NPat, NViewFn, NChildren>,
        RouteDefinition<OPat, OViewFn, OChildren>,
    ),
    FallbackFn,
> {
    type Output = EitherOf16<AView, BView, CView, DView, EView, FView, GView, HView, IView, JView, KView, LView, MView, NView, OView, Fal>;

    /// The first route, in order, whose path matches the whole path of the
    /// location's URL is shown; when none does, or there is no URL, the
    /// fallback.
    open spec fn routed(&self, name: Seq<char>, output: EitherOf16<AView, BView, CView, DView, EView, FView, GView, HView, IView, JView, KView, LView, MView, NView, OView, Fal>) -> bool {
        let url = self.spec_location().spec_url();
        match location_match(&self.spec_routes().0.path, url) {
            Some(found) => name == "A"@ && (output matches EitherOf16::A(v) && made_view(
                self.spec_routes().0.view,
                found,
                v,
            )),
            None => match location_match(&self.spec_routes().1.path, url) {
                Some(found) => name == "B"@ && (output matches EitherOf16::B(v) && made_view(
                    self.spec_routes().1.view,
                    found,
                    v,
                )),
                None => match location_match(&self.spec_routes().2.path, url) {
                    Some(found) => name == "C"@ && (output matches EitherOf16::C(v) && made_view(
                        self.spec_routes().2.view,
                        found,
                        v,
                    )),
                    None => match location_match(&self.spec_routes().3.path, url) {
                        Some(found) => name == "D"@ && (output matches EitherOf16::D(v) && made_view(
                            self.spec_routes().3.view,
                            found,
                            v,
                        )),
                        None => match location_match(&self.spec_routes().4.path, url) {
                            Some(found) => name == "E"@ && (output matches EitherOf16::E(v) && made_view(
                                self.spec_routes().4.view,
                                found,
                                v,
                            )),
                            None => match location_match(&self.spec_routes().5.path, url) {
                                Some(found) => name == "F"@ && (output matches EitherOf16::F(v) && made_view(
                                    self.spec_routes().5.view,
                                    found,
                                    v,
                                )),
                                None => match location_match(&self.spec_routes().6.path, url) {
                                    Some(found) => name == "G"@ && (output matches EitherOf16::G(v) && made_view(
                                        self.spec_routes().6.view,
                                        found,
                                        v,
                                    )),
                                    None => match location_match(&self.spec_routes().7.path, url) {
                                        Some(found) => name == "H"@ && (output matches EitherOf16::H(v) && made_view(
                                            self.spec_routes().7.view,
                                            found,
                                            v,
                                        )),
                                        None => match location_match(&self.spec_routes().8.path, url) {
                                            Some(found) => name == "I"@ && (output matches EitherOf16::I(v) && made_view(
                                                self.spec_routes().8.view,
                                                found,
                                                v,
                                            )),
                                            None => match location_match(&self.spec_routes().9.path, url) {
                                                Some(found) => name == "J"@ && (output matches EitherOf16::J(v) && made_view(
                                                    self.spec_routes().9.view,
                                                    found,
                                                    v,
                                                )),
                                                None => match location_match(&self.spec_routes().10.path, url) {
                                                    Some(found) => name == "K"@ && (output matches EitherOf16::K(v) && made_view(
                                                        self.spec_routes().10.view,
                                                        found,
                                                        v,
                                                    )),
                                                    None => match location_match(&self.spec_routes().11.path, url) {
                                                        Some(found) => name == "L"@ && (output matches EitherOf16::L(v) && made_view(
                                                            self.spec_routes().11.view,
                                                            found,
                                                            v,
                                                        )),
                                                        None => match location_match(&self.spec_routes().12.path, url) {
                                                            Some(found) => name == "M"@ && (output matches EitherOf16::M(v) && made_view(
                                                                self.spec_routes().12.view,
                                                                found,
                                                                v,
                                                            )),
                                                            None => match location_match(&self.spec_routes().13.path, url) {
                                                                Some(found) => name == "N"@ && (output matches EitherOf16::N(v) && made_view(
                                                                    self.spec_routes().13.view,
                                                                    found,
                                                                    v,
                                                                )),
                                                                None => match location_match(&self.spec_routes().14.path, url) {
                                                                    Some(found) => name == "O"@ && (output matches EitherOf16::O(v) && made_view(
                                                                        self.spec_routes().14.view,
                                                                        found,
                                                                        v,
                                                                    )),
                                                                    None => output matches EitherOf16::P(f) && fallback_outcome(self.spec_fallback(), name, f),
                                                                },
                                                            },
                                                        },
                                                    },
                                                },
                                            },
                                        },
                                    },
                                },
                            },
                        },
                    },
                },
            },
        }
    }

    open spec fn fov_ok(&self) -> bool {
        &&& call_requires(self.spec_fallback(), ())
        &&& accepts_all(self.spec_routes().0.view)
        &&& accepts_all(self.spec_routes().1.view)
        &&& accepts_all(self.spec_routes().2.view)
        &&& accepts_all(self.spec_routes().3.view)
        &&& accepts_all(self.spec_routes().4.view)
        &&& accepts_all(self.spec_routes().5.view)
        &&& accepts_all(self.spec_routes().6.view)
        &&& accepts_all(self.spec_routes().7.view)
        &&& accepts_all(self.spec_routes().8.view)
        &&& accepts_all(self.spec_routes().9.view)
        &&& accepts_all(self.spec_routes().10.view)
        &&& accepts_all(self.spec_routes().11.view)
        &&& accepts_all(self.spec_routes().12.view)
        &&& accepts_all(self.spec_routes().13.view)
        &&& accepts_all(self.spec_routes().14.view)
    }

    fn fallback_or_view(&self) -> (r: Routed<EitherOf16<AView, BView, CView, DView, EView, FView, GView, HView, IView, JView, KView, LView, MView, NView, OView, Fal>>) {
        let (a, b, c, d, e, f, g, h, i, j, k, l, m, n, o) = &self.routes;
        if let Ok(url) = self.location.try_to_url() {
            if let Some(hit) = match_path(&a.path, url.pathname.as_str()) {
                let ghost seen = hit;
                let view = a.view(hit);
                assert(made_view(a.view, (seen@.params, seen@.matched), view));
                return Routed("A", EitherOf16::A(view));
            }
            if let Some(hit) = match_path(&b.path, url.pathname.as_str()) {
                let ghost seen = hit;
                let view = b.view(hit);
                assert(made_view(b.view, (seen@.params, seen@.matched), view));
                return Routed("B", EitherOf16::B(view));
            }
            if let Some(hit) = match_path(&c.path, url.pathname.as_str()) {
                let ghost seen = hit;
                let view = c.view(hit);
                assert(made_view(c.view, (seen@.params, seen@.matched), view));
                return Routed("C", EitherOf16::C(view));
            }
            if let Some(hit) = match_path(&d.path, url.pathname.as_str()) {
                let ghost seen = hit;
                let view = d.view(hit);
                assert(made_view(d.view, (seen@.params, seen@.matched), view));
                return Routed("D", EitherOf16::D(view));
            }
            if let Some(hit) = match_path(&e.path, url.pathname.as_str()) {
                let ghost seen = hit;
                let view = e.view(hit);
                assert(made_view(e.view, (seen@.params, seen@.matched), view));
                return Routed("E", EitherOf16::E(view));
            }
            if let Some(hit) = match_path(&f.path, url.pathname.as_str()) {
                let ghost seen = hit;
                let view = f.view(hit);
                assert(made_view(f.view, (seen@.params, seen@.matched), view));
                return Routed("F", EitherOf16::F(view));
            }
            if let Some(hit) = match_path(&g.path, url.pathname.as_str()) {
                let ghost seen = hit;
                let view = g.view(hit);
                assert(made_view(g.view, (seen@.params, seen@.matched), view));
                return Routed("G", EitherOf16::G(view));
            }
            if let Some(hit) = match_path(&h.path, url.pathname.as_str()) {
                let ghost seen = hit;
                let view = h.view(hit);
                assert(made_view(h.view, (seen@.params, seen@.matched), view));
                return Routed("H", EitherOf16::H(view));
            }
            if let Some(hit) = match_path(&i.path, url.pathname.as_str()) {
                let ghost seen = hit;
                let view = i.view(hit);
                assert(made_view(i.view, (seen@.params, seen@.matched), view));
                return Routed("I", EitherOf16::I(view));
            }
            if let Some(hit) = match_path(&j.path, url.pathname.as_str()) {
                let ghost seen = hit;
                let view = j.view(hit);
                assert(made_view(j.view, (seen@.params, seen@.matched), view));
                return Routed("J", EitherOf16::J(view));
            }
            if let Some(hit) = match_path(&k.path, url.pathname.as_str()) {
                let ghost seen = hit;
                let view = k.view(hit);
                assert(made_view(k.view, (seen@.params, seen@.matched), view));
                return Routed("K", EitherOf16::K(view));
            }
            if let Some(hit) = match_path(&l.path, url.pathname.as_str()) {
                let ghost seen = hit;
                let view = l.view(hit);
                assert(made_view(l.view, (seen@.params, seen@.matched), view));
                return Routed("L", EitherOf16::L(view));
            }
            if let Some(hit) = match_path(&m.path, url.pathname.as_str()) {
                let ghost seen = hit;
                let view = m.view(hit);
                assert(made_view(m.view, (seen@.params, seen@.matched), view));
                return Routed("M", EitherOf16::M(view));
            }
            if let Some(hit) = match_path(&n.path, url.pathname.as_str()) {
                let ghost seen = hit;
                let view = n.view(hit);
                assert(made_view(n.view, (seen@.params, seen@.matched), view));
                return Routed("N", EitherOf16::N(view));
            }
            if let Some(hit) = match_path(&o.path, url.pathname.as_str()) {
                let ghost seen = hit;
                let view = o.view(hit);
                assert(made_view(o.view, (seen@.params, seen@.matched), view));
                return Routed("O", EitherOf16::O(view));
            }
        }
        Routed("Fal", EitherOf16::P((self.fallback)()))
    }
}

/// A router writes the HTML of what routing shows.
impl<Loc, Defs, FallbackFn> RenderHtml for Router<Loc, Defs, FallbackFn> where
    Router<Loc, Defs, FallbackFn>: FallbackOrView,
 {
    /// The HTML of an outcome of routing.
    open spec fn spec_html(&self, position: Position) -> (Seq<char>, Position) {
        let (name, output) = choose|name: Seq<char>, output: <Self as FallbackOrView>::Output|
            self.routed(name, output);
        output.spec_html(position)
    }

    /// Routing can be done, every outcome can be written, and all outcomes
    /// write the same HTML.
    open spec fn html_ok(&self) -> bool {
        &&& self.fov_ok()
        &&& forall|n1: Seq<char>, o1: <Self as FallbackOrView>::Output, n2: Seq<char>, o2: <Self as FallbackOrView>::Output|
            #![trigger self.routed(n1, o1), self.routed(n2, o2)]
            self.routed(n1, o1) && self.routed(n2, o2) ==> {
                &&& o1.html_ok()
                &&& forall|p: Position| o1.spec_html(p) == o2.spec_html(p)
            }
    }

    fn to_html_with_buf(self, buf: &mut String, position: &mut PositionState) {
        let Routed(name, output) = self.fallback_or_view();
        proof {
            let (n, o) = choose|n: Seq<char>, o: <Self as FallbackOrView>::Output| self.routed(n, o);
            assert(self.routed(n, o) && self.routed(name@, output));
            assert(output.spec_html(old(position).value()) == o.spec_html(old(position).value()));
        }
        output.to_html_with_buf(buf, position);
    }
}

/// A router with no routes always shows its fallback.
pub proof fn lemma_routes_0<Loc: Location, FallbackFn: Fn() -> Fal, Fal: RenderHtml>(
    router: &Router<Loc, (), FallbackFn>,
    name: Seq<char>,
    output: Fal,
)
    requires
        router.routed(name, output),
    ensures
        name == "Fal"@,
        call_ensures(router.spec_fallback(), (), output),
{
}

/// Routing with one route shows it (as `"Route"`, with a view its view
/// function made for the match) when its path matches the whole path of the
/// location's URL, and the fallback otherwise.
pub proof fn lemma_routes_1<
    Loc: Location,
    FallbackFn: Fn() -> Fal,
    Fal: RenderHtml,
    APat: RouteMatch,
    AViewFn: Fn(MatchedRoute) -> AView,
    AView: RenderHtml,
    AChildren,
>(
    router: &Router<Loc, RouteDefinition<APat, AViewFn, AChildren>, FallbackFn>,
    name: Seq<char>,
    output: Either<Fal, AView>,
)
    requires
        router.routed(name, output),
    ensures
        ({
            let url = router.spec_location().spec_url();
            let found = match url {
                Some(u) => full_match(&router.spec_routes().path, u.pathname),
                None => None,
            };
            &&& found is Some ==> name == "Route"@ && (output matches Either::Right(v) && made_view(
                router.spec_routes().view,
                found->0,
                v,
            ))
            &&& found is None ==> name == "Fal"@ && (output matches Either::Left(f) && call_ensures(
                router.spec_fallback(),
                (),
                f,
            ))
        }),
{
}

/// Routing with 2 routes shows the first route, in order, whose own path
/// matches the whole path of the location's URL: its name and a view its
/// view function made for that match; when no route's path matches (or there
/// is no URL), the fallback.
pub proof fn lemma_routes_2<
    Loc: Location,
    FallbackFn: Fn() -> Fal,
    Fal: RenderHtml,
    APat: RouteMatch,
    AViewFn: Fn(MatchedRoute) -> AView,
    AView: RenderHtml,
    AChildren,
    BPat: RouteMatch,
    BViewFn: Fn(MatchedRoute) -> BView,
    BView: RenderHtml,
    BChildren,
>(
    router: &Router<
        Loc,
        (
            RouteDefinition<APat, AViewFn, AChildren>,
            RouteDefinition<BPat, BViewFn, BChildren>,
        ),
        FallbackFn,
    >,
    name: Seq<char>,
    output: EitherOf3<AView, BView, Fal>,
)
    requires
        router.routed(name, output),
    ensures
        ({
            let url = router.spec_location().spec_url();
            &&& url is None ==> name == "Fal"@ && (output matches EitherOf3::C(f)
                && call_ensures(router.spec_fallback(), (), f))
            &&& url matches Some(u) ==> {
                let fulls = seq![
                    full_match(&router.spec_routes().0.path, u.pathname),
                    full_match(&router.spec_routes().1.path, u.pathname),
                ];
                &&& first_some_at(fulls, 0) ==> name == "A"@ && (output matches EitherOf3::A(v)
                    && made_view(router.spec_routes().0.view, fulls[0]->0, v))
                &&& first_some_at(fulls, 1) ==> name == "B"@ && (output matches EitherOf3::B(v)
                    && made_view(router.spec_routes().1.view, fulls[1]->0, v))
                &&& all_none(fulls) ==> name == "Fal"@ && (output matches EitherOf3::C(f)
                    && call_ensures(router.spec_fallback(), (), f))
            }
        }),
{
    if let Some(u) = router.spec_location().spec_url() {
        let fulls = seq![
            full_match(&router.spec_routes().0.path, u.pathname),
            full_match(&router.spec_routes().1.path, u.pathname),
        ];
        assert(fulls[0] == full_match(&router.spec_routes().0.path, u.pathname));
        assert(fulls[1] == full_match(&router.spec_routes().1.path, u.pathname));
    }
}

/// Routing with 3 routes shows the first route, in order, whose own path
/// matches the whole path of the location's URL: its name and a view its
/// view function made for that match; when no route's path matches (or there
/// is no URL), the fallback.
pub proof fn lemma_routes_3<
    Loc: Location,
    FallbackFn: Fn() -> Fal,
    Fal: RenderHtml,
    APat: RouteMatch,
    AViewFn: Fn(MatchedRoute) -> AView,
    AView: RenderHtml,
    AChildren,
    BPat: RouteMatch,
    BViewFn: Fn(MatchedRoute) -> BView,
    BView: RenderHtml,
    BChildren,
    CPat: RouteMatch,
    CViewFn: Fn(MatchedRoute) -> CView,
    CView: RenderHtml,
    CChildren,
>(
    router: &Router<
        Loc,
        (
            RouteDefinition<APat, AViewFn, AChildren>,
            RouteDefinition<BPat, BViewFn, BChildren>,
            RouteDefinition<CPat, CViewFn, CChildren>,
        ),
        FallbackFn,
    >,
    name: Seq<char>,
    output: EitherOf4<AView, BView, CView, Fal>,
)
    requires
        router.routed(name, output),
    ensures
        ({
            let url = router.spec_location().spec_url();
            &&& url is None ==> name == "Fal"@ && (output matches EitherOf4::D(f)
                && call_ensures(router.spec_fallback(), (), f))
            &&& url matches Some(u) ==> {
                let fulls = seq![
                    full_match(&router.spec_routes().0.path, u.pathname),
                    full_match(&router.spec_routes().1.path, u.pathname),
                    full_match(&router.spec_routes().2.path, u.pathname),
                ];
                &&& first_some_at(fulls, 0) ==> name == "A"@ && (output matches EitherOf4::A(v)
                    && made_view(router.spec_routes().0.view, fulls[0]->0, v))
                &&& first_some_at(fulls, 1) ==> name == "B"@ && (output matches EitherOf4::B(v)
                    && made_view(router.spec_routes().1.view, fulls[1]->0, v))
                &&& first_some_at(fulls, 2) ==> name == "C"@ && (output matches EitherOf4::C(v)
                    && made_view(router.spec_routes().2.view, fulls[2]->0, v))
                &&& all_none(fulls) ==> name == "Fal"@ && (output matches EitherOf4::D(f)
                    && call_ensures(router.spec_fallback(), (), f))
            }
        }),
{
    if let Some(u) = router.spec_location().spec_url() {
        let fulls = seq![
            full_match(&router.spec_routes().0.path, u.pathname),
            full_match(&router.spec_routes().1.path, u.pathname),
            full_match(&router.spec_routes().2.path, u.pathname),
        ];
        assert(fulls[0] == full_match(&router.spec_routes().0.path, u.pathname));
        assert(fulls[1] == full_match(&router.spec_routes().1.path, u.pathname));
        assert(fulls[2] == full_match(&router.spec_routes().2.path, u.pathname));
    }
}

/// Routing with 4 routes shows the first route, in order, whose own path
/// matches the whole path of the location's URL: its name and a view its
/// view function made for that match; when no route's path matches (or there
/// is no URL), the fallback.
pub proof fn lemma_routes_4<
    Loc: Location,
    FallbackFn: Fn() -> Fal,
    Fal: RenderHtml,
    APat: RouteMatch,
    AViewFn: Fn(MatchedRoute) -> AView,
    AView: RenderHtml,
    AChildren,
    BPat: RouteMatch,
    BViewFn: Fn(MatchedRoute) -> BView,
    BView: RenderHtml,
    BChildren,
    CPat: RouteMatch,
    CViewFn: Fn(MatchedRoute) -> CView,
    CView: RenderHtml,
    CChildren,
    DPat: RouteMatch,
    DViewFn: Fn(MatchedRoute) -> DView,
    DView: RenderHtml,
    DChildren,
>(
    router: &Router<
        Loc,
        (
            RouteDefinition<APat, AViewFn, AChildren>,
            RouteDefinition<BPat, BViewFn, BChildren>,
            RouteDefinition<CPat, CViewFn, CChildren>,
            RouteDefinition<DPat, DViewFn, DChildren>,
        ),
        FallbackFn,
    >,
    name: Seq<char>,
    output: EitherOf5<AView, BView, CView, DView, Fal>,
)
    requires
        router.routed(name, output),
    ensures
        ({
            let url = router.spec_location().spec_url();
            &&& url is None ==> name == "Fal"@ && (output matches EitherOf5::E(f)
                && call_ensures(router.spec_fallback(), (), f))
            &&& url matches Some(u) ==> {
                let fulls = seq![
                    full_match(&router.spec_routes().0.path, u.pathname),
                    full_match(&router.spec_routes().1.path, u.pathname),
                    full_match(&router.spec_routes().2.path, u.pathname),
                    full_match(&router.spec_routes().3.path, u.pathname),
                ];
                &&& first_some_at(fulls, 0) ==> name == "A"@ && (output matches EitherOf5::A(v)
                    && made_view(router.spec_routes().0.view, fulls[0]->0, v))
                &&& first_some_at(fulls, 1) ==> name == "B"@ && (output matches EitherOf5::B(v)
                    && made_view(router.spec_routes().1.view, fulls[1]->0, v))
                &&& first_some_at(fulls, 2) ==> name == "C"@ && (output matches EitherOf5::C(v)
                    && made_view(router.spec_routes().2.view, fulls[2]->0, v))
                &&& first_some_at(fulls, 3) ==> name == "D"@ && (output matches EitherOf5::D(v)
                    && made_view(router.spec_routes().3.view, fulls[3]->0, v))
                &&& all_none(fulls) ==> name == "Fal"@ && (output matches EitherOf5::E(f)
                    && call_ensures(router.spec_fallback(), (), f))
            }
        }),
{
    if let Some(u) = router.spec_location().spec_url() {
        let fulls = seq![
            full_match(&router.spec_routes().0.path, u.pathname),
            full_match(&router.spec_routes().1.path, u.pathname),
            full_match(&router.spec_routes().2.path, u.pathname),
            full_match(&router.spec_routes().3.path, u.pathname),
        ];
        assert(fulls[0] == full_match(&router.spec_routes().0.path, u.pathname));
        assert(fulls[1] == full_match(&router.spec_routes().1.path, u.pathname));
        assert(fulls[2] == full_match(&router.spec_routes().2.path, u.pathname));
        assert(fulls[3] == full_match(&router.spec_routes().3.path, u.pathname));
    }
}

/// Routing with 5 routes shows the first route, in order, whose own path
/// matches the whole path of the location's URL: its name and a view its
/// view function made for that match; when no route's path matches (or there
/// is no URL), the fallback.
pub proof fn lemma_routes_5<
    Loc: Location,
    FallbackFn: Fn() -> Fal,
    Fal: RenderHtml,
    APat: RouteMatch,
    AViewFn: Fn(MatchedRoute) -> AView,
    AView: RenderHtml,
    AChildren,
    BPat: RouteMatch,
    BViewFn: Fn(MatchedRoute) -> BView,
    BView: RenderHtml,
    BChildren,
    CPat: RouteMatch,
    CViewFn: Fn(MatchedRoute) -> CView,
    CView: RenderHtml,
    CChildren,
    DPat: RouteMatch,
    DViewFn: Fn(MatchedRoute) -> DView,
    DView: RenderHtml,
    DChildren,
    EPat: RouteMatch,
    EViewFn: Fn(MatchedRoute) -> EView,
    EView: RenderHtml,
    EChildren,
>(
    router: &Router<
        Loc,
        (
            RouteDefinition<APat, AViewFn, AChildren>,
            RouteDefinition<BPat, BViewFn, BChildren>,
            RouteDefinition<CPat, CViewFn, CChildren>,
            RouteDefinition<DPat, DViewFn, DChildren>,
            RouteDefinition<EPat, EViewFn, EChildren>,
        ),
        FallbackFn,
    >,
    name: Seq<char>,
    output: EitherOf6<AView, BView, CView, DView, EView, Fal>,
)
    requires
        router.routed(name, output),
    ensures
        ({
            let url = router.spec_location().spec_url();
            &&& url is None ==> name == "Fal"@ && (output matches EitherOf6::F(f)
                && call_ensures(router.spec_fallback(), (), f))
            &&& url matches Some(u) ==> {
                let fulls = seq![
                    full_match(&router.spec_routes().0.path, u.pathname),
                    full_match(&router.spec_routes().1.path, u.pathname),
                    full_match(&router.spec_routes().2.path, u.pathname),
                    full_match(&router.spec_routes().3.path, u.pathname),
                    full_match(&router.spec_routes().4.path, u.pathname),
                ];
                &&& first_some_at(fulls, 0) ==> name == "A"@ && (output matches EitherOf6::A(v)
                    && made_view(router.spec_routes().0.view, fulls[0]->0, v))
                &&& first_some_at(fulls, 1) ==> name == "B"@ && (output matches EitherOf6::B(v)
                    && made_view(router.spec_routes().1.view, fulls[1]->0, v))
                &&& first_some_at(fulls, 2) ==> name == "C"@ && (output matches EitherOf6::C(v)
                    && made_view(router.spec_routes().2.view, fulls[2]->0, v))
                &&& first_some_at(fulls, 3) ==> name == "D"@ && (output matches EitherOf6::D(v)
                    && made_view(router.spec_routes().3.view, fulls[3]->0, v))
                &&& first_some_at(fulls, 4) ==> name == "E"@ && (output matches EitherOf6::E(v)
                    && made_view(router.spec_routes().4.view, fulls[4]->0, v))
                &&& all_none(fulls) ==> name == "Fal"@ && (output matches EitherOf6::F(f)
                    && call_ensures(router.spec_fallback(), (), f))
            }
        }),
{
    if let Some(u) = router.spec_location().spec_url() {
        let fulls = seq![
            full_match(&router.spec_routes().0.path, u.pathname),
            full_match(&router.spec_routes().1.path, u.pathname),
            full_match(&router.spec_routes().2.path, u.pathname),
            full_match(&router.spec_routes().3.path, u.pathname),
            full_match(&router.spec_routes().4.path, u.pathname),
        ];
        assert(fulls[0] == full_match(&router.spec_routes().0.path, u.pathname));
        assert(fulls[1] == full_match(&router.spec_routes().1.path, u.pathname));
        assert(fulls[2] == full_match(&router.spec_routes().2.path, u.pathname));
        assert(fulls[3] == full_match(&router.spec_routes().3.path, u.pathname));
        assert(fulls[4] == full_match(&router.spec_routes().4.path, u.pathname));
    }
}

/// Routing with 6 routes shows the first route, in order, whose own path
/// matches the whole path of the location's URL: its name and a view its
/// view function made for that match; when no route's path matches (or there
/// is no URL), the fallback.
pub proof fn lemma_routes_6<
    Loc: Location,
    FallbackFn: Fn() -> Fal,
    Fal: RenderHtml,
    APat: RouteMatch,
    AViewFn: Fn(MatchedRoute) -> AView,
    AView: RenderHtml,
    AChildren,
    BPat: RouteMatch,
    BViewFn: Fn(MatchedRoute) -> BView,
    BView: RenderHtml,
    BChildren,
    CPat: RouteMatch,
    CViewFn: Fn(MatchedRoute) -> CView,
    CView: RenderHtml,
    CChildren,
    DPat: RouteMatch,
    DViewFn: Fn(MatchedRoute) -> DView,
    DView: RenderHtml,
    DChildren,
    EPat: RouteMatch,
    EViewFn: Fn(MatchedRoute) -> EView,
    EView: RenderHtml,
    EChildren,
    FPat: RouteMatch,
    FViewFn: Fn(MatchedRoute) -> FView,
    FView: RenderHtml,
    FChildren,
>(
    router: &Router<
        Loc,
        (
            RouteDefinition<APat, AViewFn, AChildren>,
            RouteDefinition<BPat, BViewFn, BChildren>,
            RouteDefinition<CPat, CViewFn, CChildren>,
            RouteDefinition<DPat, DViewFn, DChildren>,
            RouteDefinition<EPat, EViewFn, EChildren>,
            RouteDefinition<FPat, FViewFn, FChildren>,
        ),
        FallbackFn,
    >,
    name: Seq<char>,
    output: EitherOf7<AView, BView, CView, DView, EView, FView, Fal>,
)
    requires
        router.routed(name, output),
    ensures
        ({
            let url = router.spec_location().spec_url();
            &&& url is None ==> name == "Fal"@ && (output matches EitherOf7::G(f)
                && call_ensures(router.spec_fallback(), (), f))
            &&& url matches Some(u) ==> {
                let fulls = seq![
                    full_match(&router.spec_routes().0.path, u.pathname),
                    full_match(&router.spec_routes().1.path, u.pathname),
                    full_match(&router.spec_routes().2.path, u.pathname),
                    full_match(&router.spec_routes().3.path, u.pathname),
                    full_match(&router.spec_routes().4.path, u.pathname),
                    full_match(&router.spec_routes().5.path, u.pathname),
                ];
                &&& first_some_at(fulls, 0) ==> name == "A"@ && (output matches EitherOf7::A(v)
                    && made_view(router.spec_routes().0.view, fulls[0]->0, v))
                &&& first_some_at(fulls, 1) ==> name == "B"@ && (output matches EitherOf7::B(v)
                    && made_view(router.spec_routes().1.view, fulls[1]->0, v))
                &&& first_some_at(fulls, 2) ==> name == "C"@ && (output matches EitherOf7::C(v)
                    && made_view(router.spec_routes().2.view, fulls[2]->0, v))
                &&& first_some_at(fulls, 3) ==> name == "D"@ && (output matches EitherOf7::D(v)
                    && made_view(router.spec_routes().3.view, fulls[3]->0, v))
                &&& first_some_at(fulls, 4) ==> name == "E"@ && (output matches EitherOf7::E(v)
                    && made_view(router.spec_routes().4.view, fulls[4]->0, v))
                &&& first_some_at(fulls, 5) ==> name == "F"@ && (output matches EitherOf7::F(v)
                    && made_view(router.spec_routes().5.view, fulls[5]->0, v))
                &&& all_none(fulls) ==> name == "Fal"@ && (output matches EitherOf7::G(f)
                    && call_ensures(router.spec_fallback(), (), f))
            }
        }),
{
    if let Some(u) = router.spec_location().spec_url() {
        let fulls = seq![
            full_match(&router.spec_routes().0.path, u.pathname),
            full_match(&router.spec_routes().1.path, u.pathname),
            full_match(&router.spec_routes().2.path, u.pathname),
            full_match(&router.spec_routes().3.path, u.pathname),
            full_match(&router.spec_routes().4.path, u.pathname),
            full_match(&router.spec_routes().5.path, u.pathname),
        ];
        assert(fulls[0] == full_match(&router.spec_routes().0.path, u.pathname));
        assert(fulls[1] == full_match(&router.spec_routes().1.path, u.pathname));
        assert(fulls[2] == full_match(&router.spec_routes().2.path, u.pathname));
        assert(fulls[3] == full_match(&router.spec_routes().3.path, u.pathname));
        assert(fulls[4] == full_match(&router.spec_routes().4.path, u.pathname));
        assert(fulls[5] == full_match(&router.spec_routes().5.path, u.pathname));
    }
}

/// Routing with 7 routes shows the first route, in order, whose own path
/// matches the whole path of the location's URL: its name and a view its
/// view function made for that match; when no route's path matches (or there
/// is no URL), the fallback.
pub proof fn lemma_routes_7<
    Loc: Location,
    FallbackFn: Fn() -> Fal,
    Fal: RenderHtml,
    APat: RouteMatch,
    AViewFn: Fn(MatchedRoute) -> AView,
    AView: RenderHtml,
    AChildren,
    BPat: RouteMatch,
    BViewFn: Fn(MatchedRoute) -> BView,
    BView: RenderHtml,
    BChildren,
    CPat: RouteMatch,
    CViewFn: Fn(MatchedRoute) -> CView,
    CView: RenderHtml,
    CChildren,
    DPat: RouteMatch,
    DViewFn: Fn(MatchedRoute) -> DView,
    DView: RenderHtml,
    DChildren,
    EPat: RouteMatch,
    EViewFn: Fn(MatchedRoute) -> EView,
    EView: RenderHtml,
    EChildren,
    FPat: RouteMatch,
    FViewFn: Fn(MatchedRoute) -> FView,
    FView: RenderHtml,
    FChildren,
    GPat: RouteMatch,
    GViewFn: Fn(MatchedRoute) -> GView,
    GView: RenderHtml,
    GChildren,
>(
    router: &Router<
        Loc,
        (
            RouteDefinition<APat, AViewFn, AChildren>,
            RouteDefinition<BPat, BViewFn, BChildren>,
            RouteDefinition<CPat, CViewFn, CChildren>,
            RouteDefinition<DPat, DViewFn, DChildren>,
            RouteDefinition<EPat, EViewFn, EChildren>,
            RouteDefinition<FPat, FViewFn, FChildren>,
            RouteDefinition<GPat, GViewFn, GChildren>,
        ),
        FallbackFn,
    >,
    name: Seq<char>,
    output: EitherOf8<AView, BView, CView, DView, EView, FView, GView, Fal>,
)
    requires
        router.routed(name, output),
    ensures
        ({
            let url = router.spec_location().spec_url();
            &&& url is None ==> name == "Fal"@ && (output matches EitherOf8::H(f)
                && call_ensures(router.spec_fallback(), (), f))
            &&& url matches Some(u) ==> {
                let fulls = seq![
                    full_match(&router.spec_routes().0.path, u.pathname),
                    full_match(&router.spec_routes().1.path, u.pathname),
                    full_match(&router.spec_routes().2.path, u.pathname),
                    full_match(&router.spec_routes().3.path, u.pathname),
                    full_match(&router.spec_routes().4.path, u.pathname),
                    full_match(&router.spec_routes().5.path, u.pathname),
                    full_match(&router.spec_routes().6.path, u.pathname),
                ];
                &&& first_some_at(fulls, 0) ==> name == "A"@ && (output matches EitherOf8::A(v)
                    && made_view(router.spec_routes().0.view, fulls[0]->0, v))
                &&& first_some_at(fulls, 1) ==> name == "B"@ && (output matches EitherOf8::B(v)
                    && made_view(router.spec_routes().1.view, fulls[1]->0, v))
                &&& first_some_at(fulls, 2) ==> name == "C"@ && (output matches EitherOf8::C(v)
                    && made_view(router.spec_routes().2.view, fulls[2]->0, v))
                &&& first_some_at(fulls, 3) ==> name == "D"@ && (output matches EitherOf8::D(v)
                    && made_view(router.spec_routes().3.view, fulls[3]->0, v))
                &&& first_some_at(fulls, 4) ==> name == "E"@ && (output matches EitherOf8::E(v)
                    && made_view(router.spec_routes().4.view, fulls[4]->0, v))
                &&& first_some_at(fulls, 5) ==> name == "F"@ && (output matches EitherOf8::F(v)
                    && made_view(router.spec_routes().5.view, fulls[5]->0, v))
                &&& first_some_at(fulls, 6) ==> name == "G"@ && (output matches EitherOf8::G(v)
                    && made_view(router.spec_routes().6.view, fulls[6]->0, v))
                &&& all_none(fulls) ==> name == "Fal"@ && (output matches EitherOf8::H(f)
                    && call_ensures(router.spec_fallback(), (), f))
            }
        }),
{
    if let Some(u) = router.spec_location().spec_url() {
        let fulls = seq![
            full_match(&router.spec_routes().0.path, u.pathname),
            full_match(&router.spec_routes().1.path, u.pathname),
            full_match(&router.spec_routes().2.path, u.pathname),
            full_match(&router.spec_routes().3.path, u.pathname),
            full_match(&router.spec_routes().4.path, u.pathname),
            full_match(&router.spec_routes().5.path, u.pathname),
            full_match(&router.spec_routes().6.path, u.pathname),
        ];
        assert(fulls[0] == full_match(&router.spec_routes().0.path, u.pathname));
        assert(fulls[1] == full_match(&router.spec_routes().1.path, u.pathname));
        assert(fulls[2] == full_match(&router.spec_routes().2.path, u.pathname));
        assert(fulls[3] == full_match(&router.spec_routes().3.path, u.pathname));
        assert(fulls[4] == full_match(&router.spec_routes().4.path, u.pathname));
        assert(fulls[5] == full_match(&router.spec_routes().5.path, u.pathname));
        assert(fulls[6] == full_match(&router.spec_routes().6.path, u.pathname));
    }
}

/// Routing with 8 routes shows the first route, in order, whose own path
/// matches the whole path of the location's URL: its name and a view its
/// view function made for that match; when no route's path matches (or there
/// is no URL), the fallback.
pub proof fn lemma_routes_8<
    Loc: Location,
    FallbackFn: Fn() -> Fal,
    Fal: RenderHtml,
    APat: RouteMatch,
    AViewFn: Fn(MatchedRoute) -> AView,
    AView: RenderHtml,
    AChildren,
    BPat: RouteMatch,
    BViewFn: Fn(MatchedRoute) -> BView,
    BView: RenderHtml,
    BChildren,
    CPat: RouteMatch,
    CViewFn: Fn(MatchedRoute) -> CView,
    CView: RenderHtml,
    CChildren,
    DPat: RouteMatch,
    DViewFn: Fn(MatchedRoute) -> DView,
    DView: RenderHtml,
    DChildren,
    EPat: RouteMatch,
    EViewFn: Fn(MatchedRoute) -> EView,
    EView: RenderHtml,
    EChildren,
    FPat: RouteMatch,
    FViewFn: Fn(MatchedRoute) -> FView,
    FView: RenderHtml,
    FChildren,
    GPat: RouteMatch,
    GViewFn: Fn(MatchedRoute) -> GView,
    GView: RenderHtml,
    GChildren,
    HPat: RouteMatch,
    HViewFn: Fn(MatchedRoute) -> HView,
    HView: RenderHtml,
    HChildren,
>(
    router: &Router<
        Loc,
        (
            RouteDefinition<APat, AViewFn, AChildren>,
            RouteDefinition<BPat, BViewFn, BChildren>,
            RouteDefinition<CPat, CViewFn, CChildren>,
            RouteDefinition<DPat, DViewFn, DChildren>,
            RouteDefinition<EPat, EViewFn, EChildren>,
            RouteDefinition<FPat, FViewFn, FChildren>,
            RouteDefinition<GPat, GViewFn, GChildren>,
            RouteDefinition<HPat, HViewFn, HChildren>,
        ),
        FallbackFn,
    >,
    name: Seq<char>,
    output: EitherOf9<AView, BView, CView, DView, EView, FView, GView, HView, Fal>,
)
    requires
        router.routed(name, output),
    ensures
        ({
            let url = router.spec_location().spec_url();
            &&& url is None ==> name == "Fal"@ && (output matches EitherOf9::I(f)
                && call_ensures(router.spec_fallback(), (), f))
            &&& url matches Some(u) ==> {
                let fulls = seq![
                    full_match(&router.spec_routes().0.path, u.pathname),
                    full_match(&router.spec_routes().1.path, u.pathname),
                    full_match(&router.spec_routes().2.path, u.pathname),
                    full_match(&router.spec_routes().3.path, u.pathname),
                    full_match(&router.spec_routes().4.path, u.pathname),
                    full_match(&router.spec_routes().5.path, u.pathname),
                    full_match(&router.spec_routes().6.path, u.pathname),
                    full_match(&router.spec_routes().7.path, u.pathname),
                ];
                &&& first_some_at(fulls, 0) ==> name == "A"@ && (output matches EitherOf9::A(v)
                    && made_view(router.spec_routes().0.view, fulls[0]->0, v))
                &&& first_some_at(fulls, 1) ==> name == "B"@ && (output matches EitherOf9::B(v)
                    && made_view(router.spec_routes().1.view, fulls[1]->0, v))
                &&& first_some_at(fulls, 2) ==> name == "C"@ && (output matches EitherOf9::C(v)
                    && made_view(router.spec_routes().2.view, fulls[2]->0, v))
                &&& first_some_at(fulls, 3) ==> name == "D"@ && (output matches EitherOf9::D(v)
                    && made_view(router.spec_routes().3.view, fulls[3]->0, v))
                &&& first_some_at(fulls, 4) ==> name == "E"@ && (output matches EitherOf9::E(v)
                    && made_view(router.spec_routes().4.view, fulls[4]->0, v))
                &&& first_some_at(fulls, 5) ==> name == "F"@ && (output matches EitherOf9::F(v)
                    && made_view(router.spec_routes().5.view, fulls[5]->0, v))
                &&& first_some_at(fulls, 6) ==> name == "G"@ && (output matches EitherOf9::G(v)
                    && made_view(router.spec_routes().6.view, fulls[6]->0, v))
                &&& first_some_at(fulls, 7) ==> name == "H"@ && (output matches EitherOf9::H(v)
                    && made_view(router.spec_routes().7.view, fulls[7]->0, v))
                &&& all_none(fulls) ==> name == "Fal"@ && (output matches EitherOf9::I(f)
                    && call_ensures(router.spec_fallback(), (), f))
            }
        }),
{
    if let Some(u) = router.spec_location().spec_url() {
        let fulls = seq![
            full_match(&router.spec_routes().0.path, u.pathname),
            full_match(&router.spec_routes().1.path, u.pathname),
            full_match(&router.spec_routes().2.path, u.pathname),
            full_match(&router.spec_routes().3.path, u.pathname),
            full_match(&router.spec_routes().4.path, u.pathname),
            full_match(&router.spec_routes().5.path, u.pathname),
            full_match(&router.spec_routes().6.path, u.pathname),
            full_match(&router.spec_routes().7.path, u.pathname),
        ];
        assert(fulls[0] == full_match(&router.spec_routes().0.path, u.pathname));
        assert(fulls[1] == full_match(&router.spec_routes().1.path, u.pathname));
        assert(fulls[2] == full_match(&router.spec_routes().2.path, u.pathname));
        assert(fulls[3] == full_match(&router.spec_routes().3.path, u.pathname));
        assert(fulls[4] == full_match(&router.spec_routes().4.path, u.pathname));
        assert(fulls[5] == full_match(&router.spec_routes().5.path, u.pathname));
        assert(fulls[6] == full_match(&router.spec_routes().6.path, u.pathname));
        assert(fulls[7] == full_match(&router.spec_routes().7.path, u.pathname));
    }
}

/// Routing with 9 routes shows the first route, in order, whose own path
/// matches the whole path of the location's URL: its name and a view its
/// view function made for that match; when no route's path matches (or there
/// is no URL), the fallback.
pub proof fn lemma_routes_9<
    Loc: Location,
    FallbackFn: Fn() -> Fal,
    Fal: RenderHtml,
    APat: RouteMatch,
    AViewFn: Fn(MatchedRoute) -> AView,
    AView: RenderHtml,
    AChildren,
    BPat: RouteMatch,
    BViewFn: Fn(MatchedRoute) -> BView,
    BView: RenderHtml,
    BChildren,
    CPat: RouteMatch,
    CViewFn: Fn(MatchedRoute) -> CView,
    CView: RenderHtml,
    CChildren,
    DPat: RouteMatch,
    DViewFn: Fn(MatchedRoute) -> DView,
    DView: RenderHtml,
    DChildren,
    EPat: RouteMatch,
    EViewFn: Fn(MatchedRoute) -> EView,
    EView: RenderHtml,
    EChildren,
    FPat: RouteMatch,
    FViewFn: Fn(MatchedRoute) -> FView,
    FView: RenderHtml,
    FChildren,
    GPat: RouteMatch,
    GViewFn: Fn(MatchedRoute) -> GView,
    GView: RenderHtml,
    GChildren,
    HPat: RouteMatch,
    HViewFn: Fn(MatchedRoute) -> HView,
    HView: RenderHtml,
    HChildren,
    IPat: RouteMatch,
    IViewFn: Fn(MatchedRoute) -> IView,
    IView: RenderHtml,
    IChildren,
>(
    router: &Router<
        Loc,
        (
            RouteDefinition<APat, AViewFn, AChildren>,
            RouteDefinition<BPat, BViewFn, BChildren>,
            RouteDefinition<CPat, CViewFn, CChildren>,
            RouteDefinition<DPat, DViewFn, DChildren>,
            RouteDefinition<EPat, EViewFn, EChildren>,
            RouteDefinition<FPat, FViewFn, FChildren>,
            RouteDefinition<GPat, GViewFn, GChildren>,
            RouteDefinition<HPat, HViewFn, HChildren>,
            RouteDefinition<IPat, IViewFn, IChildren>,
        ),
        FallbackFn,
    >,
    name: Seq<char>,
    output: EitherOf10<AView, BView, CView, DView, EView, FView, GView, HView, IView, Fal>,
)
    requires
        router.routed(name, output),
    ensures
        ({
            let url = router.spec_location().spec_url();
            &&& url is None ==> name == "Fal"@ && (output matches EitherOf10::J(f)
                && call_ensures(router.spec_fallback(), (), f))
            &&& url matches Some(u) ==> {
                let fulls = seq![
                    full_match(&router.spec_routes().0.path, u.pathname),
                    full_match(&router.spec_routes().1.path, u.pathname),
                    full_match(&router.spec_routes().2.path, u.pathname),
                    full_match(&router.spec_routes().3.path, u.pathname),
                    full_match(&router.spec_routes().4.path, u.pathname),
                    full_match(&router.spec_routes().5.path, u.pathname),
                    full_match(&router.spec_routes().6.path, u.pathname),
                    full_match(&router.spec_routes().7.path, u.pathname),
                    full_match(&router.spec_routes().8.path, u.pathname),
                ];
                &&& first_some_at(fulls, 0) ==> name == "A"@ && (output matches EitherOf10::A(v)
                    && made_view(router.spec_routes().0.view, fulls[0]->0, v))
                &&& first_some_at(fulls, 1) ==> name == "B"@ && (output matches EitherOf10::B(v)
                    && made_view(router.spec_routes().1.view, fulls[1]->0, v))
                &&& first_some_at(fulls, 2) ==> name == "C"@ && (output matches EitherOf10::C(v)
                    && made_view(router.spec_routes().2.view, fulls[2]->0, v))
                &&& first_some_at(fulls, 3) ==> name == "D"@ && (output matches EitherOf10::D(v)
                    && made_view(router.spec_routes().3.view, fulls[3]->0, v))
                &&& first_some_at(fulls, 4) ==> name == "E"@ && (output matches EitherOf10::E(v)
                    && made_view(router.spec_routes().4.view, fulls[4]->0, v))
                &&& first_some_at(fulls, 5) ==> name == "F"@ && (output matches EitherOf10::F(v)
                    && made_view(router.spec_routes().5.view, fulls[5]->0, v))
                &&& first_some_at(fulls, 6) ==> name == "G"@ && (output matches EitherOf10::G(v)
                    && made_view(router.spec_routes().6.view, fulls[6]->0, v))
                &&& first_some_at(fulls, 7) ==> name == "H"@ && (output matches EitherOf10::H(v)
                    && made_view(router.spec_routes().7.view, fulls[7]->0, v))
                &&& first_some_at(fulls, 8) ==> name == "I"@ && (output matches EitherOf10::I(v)
                    && made_view(router.spec_routes().8.view, fulls[8]->0, v))
                &&& all_none(fulls) ==> name == "Fal"@ && (output matches EitherOf10::J(f)
                    && call_ensures(router.spec_fallback(), (), f))
            }
        }),
{
    if let Some(u) = router.spec_location().spec_url() {
        let fulls = seq![
            full_match(&router.spec_routes().0.path, u.pathname),
            full_match(&router.spec_routes().1.path, u.pathname),
            full_match(&router.spec_routes().2.path, u.pathname),
            full_match(&router.spec_routes().3.path, u.pathname),
            full_match(&router.spec_routes().4.path, u.pathname),
            full_match(&router.spec_routes().5.path, u.pathname),
            full_match(&router.spec_routes().6.path, u.pathname),
            full_match(&router.spec_routes().7.path, u.pathname),
            full_match(&router.spec_routes().8.path, u.pathname),
        ];
        assert(fulls[0] == full_match(&router.spec_routes().0.path, u.pathname));
        assert(fulls[1] == full_match(&router.spec_routes().1.path, u.pathname));
        assert(fulls[2] == full_match(&router.spec_routes().2.path, u.pathname));
        assert(fulls[3] == full_match(&router.spec_routes().3.path, u.pathname));
        assert(fulls[4] == full_match(&router.spec_routes().4.path, u.pathname));
        assert(fulls[5] == full_match(&router.spec_routes().5.path, u.pathname));
        assert(fulls[6] == full_match(&router.spec_routes().6.path, u.pathname));
        assert(fulls[7] == full_match(&router.spec_routes().7.path, u.pathname));
        assert(fulls[8] == full_match(&router.spec_routes().8.path, u.pathname));
    }
}

/// Routing with 10 routes shows the first route, in order, whose own path
/// matches the whole path of the location's URL: its name and a view its
/// view function made for that match; when no route's path matches (or there
/// is no URL), the fallback.
pub proof fn lemma_routes_10<
    Loc: Location,
    FallbackFn: Fn() -> Fal,
    Fal: RenderHtml,
    APat: RouteMatch,
    AViewFn: Fn(MatchedRoute) -> AView,
    AView: RenderHtml,
    AChildren,
    BPat: RouteMatch,
    BViewFn: Fn(MatchedRoute) -> BView,
    BView: RenderHtml,
    BChildren,
    CPat: RouteMatch,
    CViewFn: Fn(MatchedRoute) -> CView,
    CView: RenderHtml,
    CChildren,
    DPat: RouteMatch,
    DViewFn: Fn(MatchedRoute) -> DView,
    DView: RenderHtml,
    DChildren,
    EPat: RouteMatch,
    EViewFn: Fn(MatchedRoute) -> EView,
    EView: RenderHtml,
    EChildren,
    FPat: RouteMatch,
    FViewFn: Fn(MatchedRoute) -> FView,
    FView: RenderHtml,
    FChildren,
    GPat: RouteMatch,
    GViewFn: Fn(MatchedRoute) -> GView,
    GView: RenderHtml,
    GChildren,
    HPat: RouteMatch,
    HViewFn: Fn(MatchedRoute) -> HView,
    HView: RenderHtml,
    HChildren,
    IPat: RouteMatch,
    IViewFn: Fn(MatchedRoute) -> IView,
    IView: RenderHtml,
    IChildren,
    JPat: RouteMatch,
    JViewFn: Fn(MatchedRoute) -> JView,
    JView: RenderHtml,
    JChildren,
>(
    router: &Router<
        Loc,
        (
            RouteDefinition<APat, AViewFn, AChildren>,
            RouteDefinition<BPat, BViewFn, BChildren>,
            RouteDefinition<CPat, CViewFn, CChildren>,
            RouteDefinition<DPat, DViewFn, DChildren>,
            RouteDefinition<EPat, EViewFn, EChildren>,
            RouteDefinition<FPat, FViewFn, FChildren>,
            RouteDefinition<GPat, GViewFn, GChildren>,
            RouteDefinition<HPat, HViewFn, HChildren>,
            RouteDefinition<IPat, IViewFn, IChildren>,
            RouteDefinition<JPat, JViewFn, JChildren>,
        ),
        FallbackFn,
    >,
    name: Seq<char>,
    output: EitherOf11<AView, BView, CView, DView, EView, FView, GView, HView, IView, JView, Fal>,
)
    requires
        router.routed(name, output),
    ensures
        ({
            let url = router.spec_location().spec_url();
            &&& url is None ==> name == "Fal"@ && (output matches EitherOf11::K(f)
                && call_ensures(router.spec_fallback(), (), f))
            &&& url matches Some(u) ==> {
                let fulls = seq![
                    full_match(&router.spec_routes().0.path, u.pathname),
                    full_match(&router.spec_routes().1.path, u.pathname),
                    full_match(&router.spec_routes().2.path, u.pathname),
                    full_match(&router.spec_routes().3.path, u.pathname),
                    full_match(&router.spec_routes().4.path, u.pathname),
                    full_match(&router.spec_routes().5.path, u.pathname),
                    full_match(&router.spec_routes().6.path, u.pathname),
                    full_match(&router.spec_routes().7.path, u.pathname),
                    full_match(&router.spec_routes().8.path, u.pathname),
                    full_match(&router.spec_routes().9.path, u.pathname),
                ];
                &&& first_some_at(fulls, 0) ==> name == "A"@ && (output matches EitherOf11::A(v)
                    && made_view(router.spec_routes().0.view, fulls[0]->0, v))
                &&& first_some_at(fulls, 1) ==> name == "B"@ && (output matches EitherOf11::B(v)
                    && made_view(router.spec_routes().1.view, fulls[1]->0, v))
                &&& first_some_at(fulls, 2) ==> name == "C"@ && (output matches EitherOf11::C(v)
                    && made_view(router.spec_routes().2.view, fulls[2]->0, v))
                &&& first_some_at(fulls, 3) ==> name == "D"@ && (output matches EitherOf11::D(v)
                    && made_view(router.spec_routes().3.view, fulls[3]->0, v))
                &&& first_some_at(fulls, 4) ==> name == "E"@ && (output matches EitherOf11::E(v)
                    && made_view(router.spec_routes().4.view, fulls[4]->0, v))
                &&& first_some_at(fulls, 5) ==> name == "F"@ && (output matches EitherOf11::F(v)
                    && made_view(router.spec_routes().5.view, fulls[5]->0, v))
                &&& first_some_at(fulls, 6) ==> name == "G"@ && (output matches EitherOf11::G(v)
                    && made_view(router.spec_routes().6.view, fulls[6]->0, v))
                &&& first_some_at(fulls, 7) ==> name == "H"@ && (output matches EitherOf11::H(v)
                    && made_view(router.spec_routes().7.view, fulls[7]->0, v))
                &&& first_some_at(fulls, 8) ==> name == "I"@ && (output matches EitherOf11::I(v)
                    && made_view(router.spec_routes().8.view, fulls[8]->0, v))
                &&& first_some_at(fulls, 9) ==> name == "J"@ && (output matches EitherOf11::J(v)
                    && made_view(router.spec_routes().9.view, fulls[9]->0, v))
                &&& all_none(fulls) ==> name == "Fal"@ && (output matches EitherOf11::K(f)
                    && call_ensures(router.spec_fallback(), (), f))
            }
        }),
{
    if let Some(u) = router.spec_location().spec_url() {
        let fulls = seq![
            full_match(&router.spec_routes().0.path, u.pathname),
            full_match(&router.spec_routes().1.path, u.pathname),
            full_match(&router.spec_routes().2.path, u.pathname),
            full_match(&router.spec_routes().3.path, u.pathname),
            full_match(&router.spec_routes().4.path, u.pathname),
            full_match(&router.spec_routes().5.path, u.pathname),
            full_match(&router.spec_routes().6.path, u.pathname),
            full_match(&router.spec_routes().7.path, u.pathname),
            full_match(&router.spec_routes().8.path, u.pathname),
            full_match(&router.spec_routes().9.path, u.pathname),
        ];
        assert(fulls[0] == full_match(&router.spec_routes().0.path, u.pathname));
        assert(fulls[1] == full_match(&router.spec_routes().1.path, u.pathname));
        assert(fulls[2] == full_match(&router.spec_routes().2.path, u.pathname));
        assert(fulls[3] == full_match(&router.spec_routes().3.path, u.pathname));
        assert(fulls[4] == full_match(&router.spec_routes().4.path, u.pathname));
        assert(fulls[5] == full_match(&router.spec_routes().5.path, u.pathname));
        assert(fulls[6] == full_match(&router.spec_routes().6.path, u.pathname));
        assert(fulls[7] == full_match(&router.spec_routes().7.path, u.pathname));
        assert(fulls[8] == full_match(&router.spec_routes().8.path, u.pathname));
        assert(fulls[9] == full_match(&router.spec_routes().9.path, u.pathname));
    }
}

/// Routing with 11 routes shows the first route, in order, whose own path
/// matches the whole path of the location's URL: its name and a view its
/// view function made for that match; when no route's path matches (or there
/// is no URL), the fallback.
pub proof fn lemma_routes_11<
    Loc: Location,
    FallbackFn: Fn() -> Fal,
    Fal: RenderHtml,
    APat: RouteMatch,
    AViewFn: Fn(MatchedRoute) -> AView,
    AView: RenderHtml,
    AChildren,
    BPat: RouteMatch,
    BViewFn: Fn(MatchedRoute) -> BView,
    BView: RenderHtml,
    BChildren,
    CPat: RouteMatch,
    CViewFn: Fn(MatchedRoute) -> CView,
    CView: RenderHtml,
    CChildren,
    DPat: RouteMatch,
    DViewFn: Fn(MatchedRoute) -> DView,
    DView: RenderHtml,
    DChildren,
    EPat: RouteMatch,
    EViewFn: Fn(MatchedRoute) -> EView,
    EView: RenderHtml,
    EChildren,
    FPat: RouteMatch,
    FViewFn: Fn(MatchedRoute) -> FView,
    FView: RenderHtml,
    FChildren,
    GPat: RouteMatch,
    GViewFn: Fn(MatchedRoute) -> GView,
    GView: RenderHtml,
    GChildren,
    HPat: RouteMatch,
    HViewFn: Fn(MatchedRoute) -> HView,
    HView: RenderHtml,
    HChildren,
    IPat: RouteMatch,
    IViewFn: Fn(MatchedRoute) -> IView,
    IView: RenderHtml,
    IChildren,
    JPat: RouteMatch,
    JViewFn: Fn(MatchedRoute) -> JView,
    JView: RenderHtml,
    JChildren,
    KPat: RouteMatch,
    KViewFn: Fn(MatchedRoute) -> KView,
    KView: RenderHtml,
    KChildren,
>(
    router: &Router<
        Loc,
        (
            RouteDefinition<APat, AViewFn, AChildren>,
            RouteDefinition<BPat, BViewFn, BChildren>,
            RouteDefinition<CPat, CViewFn, CChildren>,
            RouteDefinition<DPat, DViewFn, DChildren>,
            RouteDefinition<EPat, EViewFn, EChildren>,
            RouteDefinition<FPat, FViewFn, FChildren>,
            RouteDefinition<GPat, GViewFn, GChildren>,
            RouteDefinition<HPat, HViewFn, HChildren>,
            RouteDefinition<IPat, IViewFn, IChildren>,
            RouteDefinition<JPat, JViewFn, JChildren>,
            RouteDefinition<KPat, KViewFn, KChildren>,
        ),
        FallbackFn,
    >,
    name: Seq<char>,
    output: EitherOf12<AView, BView, CView, DView, EView, FView, GView, HView, IView, JView, KView, Fal>,
)
    requires
        router.routed(name, output),
    ensures
        ({
            let url = router.spec_location().spec_url();
            &&& url is None ==> name == "Fal"@ && (output matches EitherOf12::L(f)
                && call_ensures(router.spec_fallback(), (), f))
            &&& url matches Some(u) ==> {
                let fulls = seq![
                    full_match(&router.spec_routes().0.path, u.pathname),
                    full_match(&router.spec_routes().1.path, u.pathname),
                    full_match(&router.spec_routes().2.path, u.pathname),
                    full_match(&router.spec_routes().3.path, u.pathname),
                    full_match(&router.spec_routes().4.path, u.pathname),
                    full_match(&router.spec_routes().5.path, u.pathname),
                    full_match(&router.spec_routes().6.path, u.pathname),
                    full_match(&router.spec_routes().7.path, u.pathname),
                    full_match(&router.spec_routes().8.path, u.pathname),
                    full_match(&router.spec_routes().9.path, u.pathname),
                    full_match(&router.spec_routes().10.path, u.pathname),
                ];
                &&& first_some_at(fulls, 0) ==> name == "A"@ && (output matches EitherOf12::A(v)
                    && made_view(router.spec_routes().0.view, fulls[0]->0, v))
                &&& first_some_at(fulls, 1) ==> name == "B"@ && (output matches EitherOf12::B(v)
                    && made_view(router.spec_routes().1.view, fulls[1]->0, v))
                &&& first_some_at(fulls, 2) ==> name == "C"@ && (output matches EitherOf12::C(v)
                    && made_view(router.spec_routes().2.view, fulls[2]->0, v))
                &&& first_some_at(fulls, 3) ==> name == "D"@ && (output matches EitherOf12::D(v)
                    && made_view(router.spec_routes().3.view, fulls[3]->0, v))
                &&& first_some_at(fulls, 4) ==> name == "E"@ && (output matches EitherOf12::E(v)
                    && made_view(router.spec_routes().4.view, fulls[4]->0, v))
                &&& first_some_at(fulls, 5) ==> name == "F"@ && (output matches EitherOf12::F(v)
                    && made_view(router.spec_routes().5.view, fulls[5]->0, v))
                &&& first_some_at(fulls, 6) ==> name == "G"@ && (output matches EitherOf12::G(v)
                    && made_view(router.spec_routes().6.view, fulls[6]->0, v))
                &&& first_some_at(fulls, 7) ==> name == "H"@ && (output matches EitherOf12::H(v)
                    && made_view(router.spec_routes().7.view, fulls[7]->0, v))
                &&& first_some_at(fulls, 8) ==> name == "I"@ && (output matches EitherOf12::I(v)
                    && made_view(router.spec_routes().8.view, fulls[8]->0, v))
                &&& first_some_at(fulls, 9) ==> name == "J"@ && (output matches EitherOf12::J(v)
                    && made_view(router.spec_routes().9.view, fulls[9]->0, v))
                &&& first_some_at(fulls, 10) ==> name == "K"@ && (output matches EitherOf12::K(v)
                    && made_view(router.spec_routes().10.view, fulls[10]->0, v))
                &&& all_none(fulls) ==> name == "Fal"@ && (output matches EitherOf12::L(f)
                    && call_ensures(router.spec_fallback(), (), f))
            }
        }),
{
    if let Some(u) = router.spec_location().spec_url() {
        let fulls = seq![
            full_match(&router.spec_routes().0.path, u.pathname),
            full_match(&router.spec_routes().1.path, u.pathname),
            full_match(&router.spec_routes().2.path, u.pathname),
            full_match(&router.spec_routes().3.path, u.pathname),
            full_match(&router.spec_routes().4.path, u.pathname),
            full_match(&router.spec_routes().5.path, u.pathname),
            full_match(&router.spec_routes().6.path, u.pathname),
            full_match(&router.spec_routes().7.path, u.pathname),
            full_match(&router.spec_routes().8.path, u.pathname),
            full_match(&router.spec_routes().9.path, u.pathname),
            full_match(&router.spec_routes().10.path, u.pathname),
        ];
        assert(fulls[0] == full_match(&router.spec_routes().0.path, u.pathname));
        assert(fulls[1] == full_match(&router.spec_routes().1.path, u.pathname));
        assert(fulls[2] == full_match(&router.spec_routes().2.path, u.pathname));
        assert(fulls[3] == full_match(&router.spec_routes().3.path, u.pathname));
        assert(fulls[4] == full_match(&router.spec_routes().4.path, u.pathname));
        assert(fulls[5] == full_match(&router.spec_routes().5.path, u.pathname));
        assert(fulls[6] == full_match(&router.spec_routes().6.path, u.pathname));
        assert(fulls[7] == full_match(&router.spec_routes().7.path, u.pathname));
        assert(fulls[8] == full_match(&router.spec_routes().8.path, u.pathname));
        assert(fulls[9] == full_match(&router.spec_routes().9.path, u.pathname));
        assert(fulls[10] == full_match(&router.spec_routes().10.path, u.pathname));
    }
}

/// Routing with 12 routes shows the first route, in order, whose own path
/// matches the whole path of the location's URL: its name and a view its
/// view function made for that match; when no route's path matches (or there
/// is no URL), the fallback.
pub proof fn lemma_routes_12<
    Loc: Location,
    FallbackFn: Fn() -> Fal,
    Fal: RenderHtml,
    APat: RouteMatch,
    AViewFn: Fn(MatchedRoute) -> AView,
    AView: RenderHtml,
    AChildren,
    BPat: RouteMatch,
    BViewFn: Fn(MatchedRoute) -> BView,
    BView: RenderHtml,
    BChildren,
    CPat: RouteMatch,
    CViewFn: Fn(MatchedRoute) -> CView,
    CView: RenderHtml,
    CChildren,
    DPat: RouteMatch,
    DViewFn: Fn(MatchedRoute) -> DView,
    DView: RenderHtml,
    DChildren,
    EPat: RouteMatch,
    EViewFn: Fn(MatchedRoute) -> EView,
    EView: RenderHtml,
    EChildren,
    FPat: RouteMatch,
    FViewFn: Fn(MatchedRoute) -> FView,
    FView: RenderHtml,
    FChildren,
    GPat: RouteMatch,
    GViewFn: Fn(MatchedRoute) -> GView,
    GView: RenderHtml,
    GChildren,
    HPat: RouteMatch,
    HViewFn: Fn(MatchedRoute) -> HView,
    HView: RenderHtml,
    HChildren,
    IPat: RouteMatch,
    IViewFn: Fn(MatchedRoute) -> IView,
    IView: RenderHtml,
    IChildren,
    JPat: RouteMatch,
    JViewFn: Fn(MatchedRoute) -> JView,
    JView: RenderHtml,
    JChildren,
    KPat: RouteMatch,
    KViewFn: Fn(MatchedRoute) -> KView,
    KView: RenderHtml,
    KChildren,
    LPat: RouteMatch,
    LViewFn: Fn(MatchedRoute) -> LView,
    LView: RenderHtml,
    LChildren,
>(
    router: &Router<
        Loc,
        (
            RouteDefinition<APat, AViewFn, AChildren>,
            RouteDefinition<BPat, BViewFn, BChildren>,
            RouteDefinition<CPat, CViewFn, CChildren>,
            RouteDefinition<DPat, DViewFn, DChildren>,
            RouteDefinition<EPat, EViewFn, EChildren>,
            RouteDefinition<FPat, FViewFn, FChildren>,
            RouteDefinition<GPat, GViewFn, GChildren>,
            RouteDefinition<HPat, HViewFn, HChildren>,
            RouteDefinition<IPat, IViewFn, IChildren>,
            RouteDefinition<JPat, JViewFn, JChildren>,
            RouteDefinition<KPat, KViewFn, KChildren>,
            RouteDefinition<LPat, LViewFn, LChildren>,
        ),
        FallbackFn,
    >,
    name: Seq<char>,
    output: EitherOf13<AView, BView, CView, DView, EView, FView, GView, HView, IView, JView, KView, LView, Fal>,
)
    requires
        router.routed(name, output),
    ensures
        ({
            let url = router.spec_location().spec_url();
            &&& url is None ==> name == "Fal"@ && (output matches EitherOf13::M(f)
                && call_ensures(router.spec_fallback(), (), f))
            &&& url matches Some(u) ==> {
                let fulls = seq![
                    full_match(&router.spec_routes().0.path, u.pathname),
                    full_match(&router.spec_routes().1.path, u.pathname),
                    full_match(&router.spec_routes().2.path, u.pathname),
                    full_match(&router.spec_routes().3.path, u.pathname),
                    full_match(&router.spec_routes().4.path, u.pathname),
                    full_match(&router.spec_routes().5.path, u.pathname),
                    full_match(&router.spec_routes().6.path, u.pathname),
                    full_match(&router.spec_routes().7.path, u.pathname),
                    full_match(&router.spec_routes().8.path, u.pathname),
                    full_match(&router.spec_routes().9.path, u.pathname),
                    full_match(&router.spec_routes().10.path, u.pathname),
                    full_match(&router.spec_routes().11.path, u.pathname),
                ];
                &&& first_some_at(fulls, 0) ==> name == "A"@ && (output matches EitherOf13::A(v)
                    && made_view(router.spec_routes().0.view, fulls[0]->0, v))
                &&& first_some_at(fulls, 1) ==> name == "B"@ && (output matches EitherOf13::B(v)
                    && made_view(router.spec_routes().1.view, fulls[1]->0, v))
                &&& first_some_at(fulls, 2) ==> name == "C"@ && (output matches EitherOf13::C(v)
                    && made_view(router.spec_routes().2.view, fulls[2]->0, v))
                &&& first_some_at(fulls, 3) ==> name == "D"@ && (output matches EitherOf13::D(v)
                    && made_view(router.spec_routes().3.view, fulls[3]->0, v))
                &&& first_some_at(fulls, 4) ==> name == "E"@ && (output matches EitherOf13::E(v)
                    && made_view(router.spec_routes().4.view, fulls[4]->0, v))
                &&& first_some_at(fulls, 5) ==> name == "F"@ && (output matches EitherOf13::F(v)
                    && made_view(router.spec_routes().5.view, fulls[5]->0, v))
                &&& first_some_at(fulls, 6) ==> name == "G"@ && (output matches EitherOf13::G(v)
                    && made_view(router.spec_routes().6.view, fulls[6]->0, v))
                &&& first_some_at(fulls, 7) ==> name == "H"@ && (output matches EitherOf13::H(v)
                    && made_view(router.spec_routes().7.view, fulls[7]->0, v))
                &&& first_some_at(fulls, 8) ==> name == "I"@ && (output matches EitherOf13::I(v)
                    && made_view(router.spec_routes().8.view, fulls[8]->0, v))
                &&& first_some_at(fulls, 9) ==> name == "J"@ && (output matches EitherOf13::J(v)
                    && made_view(router.spec_routes().9.view, fulls[9]->0, v))
                &&& first_some_at(fulls, 10) ==> name == "K"@ && (output matches EitherOf13::K(v)
                    && made_view(router.spec_routes().10.view, fulls[10]->0, v))
                &&& first_some_at(fulls, 11) ==> name == "L"@ && (output matches EitherOf13::L(v)
                    && made_view(router.spec_routes().11.view, fulls[11]->0, v))
                &&& all_none(fulls) ==> name == "Fal"@ && (output matches EitherOf13::M(f)
                    && call_ensures(router.spec_fallback(), (), f))
            }
        }),
{
    if let Some(u) = router.spec_location().spec_url() {
        let fulls = seq![
            full_match(&router.spec_routes().0.path, u.pathname),
            full_match(&router.spec_routes().1.path, u.pathname),
            full_match(&router.spec_routes().2.path, u.pathname),
            full_match(&router.spec_routes().3.path, u.pathname),
            full_match(&router.spec_routes().4.path, u.pathname),
            full_match(&router.spec_routes().5.path, u.pathname),
            full_match(&router.spec_routes().6.path, u.pathname),
            full_match(&router.spec_routes().7.path, u.pathname),
            full_match(&router.spec_routes().8.path, u.pathname),
            full_match(&router.spec_routes().9.path, u.pathname),
            full_match(&router.spec_routes().10.path, u.pathname),
            full_match(&router.spec_routes().11.path, u.pathname),
        ];
        assert(fulls[0] == full_match(&router.spec_routes().0.path, u.pathname));
        assert(fulls[1] == full_match(&router.spec_routes().1.path, u.pathname));
        assert(fulls[2] == full_match(&router.spec_routes().2.path, u.pathname));
        assert(fulls[3] == full_match(&router.spec_routes().3.path, u.pathname));
        assert(fulls[4] == full_match(&router.spec_routes().4.path, u.pathname));
        assert(fulls[5] == full_match(&router.spec_routes().5.path, u.pathname));
        assert(fulls[6] == full_match(&router.spec_routes().6.path, u.pathname));
        assert(fulls[7] == full_match(&router.spec_routes().7.path, u.pathname));
        assert(fulls[8] == full_match(&router.spec_routes().8.path, u.pathname));
        assert(fulls[9] == full_match(&router.spec_routes().9.path, u.pathname));
        assert(fulls[10] == full_match(&router.spec_routes().10.path, u.pathname));
        assert(fulls[11] == full_match(&router.spec_routes().11.path, u.pathname));
    }
}

/// Routing with 13 routes shows the first route, in order, whose own path
/// matches the whole path of the location's URL: its name and a view its
/// view function made for that match; when no route's path matches (or there
/// is no URL), the fallback.
pub proof fn lemma_routes_13<
    Loc: Location,
    FallbackFn: Fn() -> Fal,
    Fal: RenderHtml,
    APat: RouteMatch,
    AViewFn: Fn(MatchedRoute) -> AView,
    AView: RenderHtml,
    AChildren,
    BPat: RouteMatch,
    BViewFn: Fn(MatchedRoute) -> BView,
    BView: RenderHtml,
    BChildren,
    CPat: RouteMatch,
    CViewFn: Fn(MatchedRoute) -> CView,
    CView: RenderHtml,
    CChildren,
    DPat: RouteMatch,
    DViewFn: Fn(MatchedRoute) -> DView,
    DView: RenderHtml,
    DChildren,
    EPat: RouteMatch,
    EViewFn: Fn(MatchedRoute) -> EView,
    EView: RenderHtml,
    EChildren,
    FPat: RouteMatch,
    FViewFn: Fn(MatchedRoute) -> FView,
    FView: RenderHtml,
    FChildren,
    GPat: RouteMatch,
    GViewFn: Fn(MatchedRoute) -> GView,
    GView: RenderHtml,
    GChildren,
    HPat: RouteMatch,
    HViewFn: Fn(MatchedRoute) -> HView,
    HView: RenderHtml,
    HChildren,
    IPat: RouteMatch,
    IViewFn: Fn(MatchedRoute) -> IView,
    IView: RenderHtml,
    IChildren,
    JPat: RouteMatch,
    JViewFn: Fn(MatchedRoute) -> JView,
    JView: RenderHtml,
    JChildren,
    KPat: RouteMatch,
    KViewFn: Fn(MatchedRoute) -> KView,
    KView: RenderHtml,
    KChildren,
    LPat: RouteMatch,
    LViewFn: Fn(MatchedRoute) -> LView,
    LView: RenderHtml,
    LChildren,
    MPat: RouteMatch,
    MViewFn: Fn(MatchedRoute) -> MView,
    MView: RenderHtml,
    MChildren,
>(
    router: &Router<
        Loc,
        (
            RouteDefinition<APat, AViewFn, AChildren>,
            RouteDefinition<BPat, BViewFn, BChildren>,
            RouteDefinition<CPat, CViewFn, CChildren>,
            RouteDefinition<DPat, DViewFn, DChildren>,
            RouteDefinition<EPat, EViewFn, EChildren>,
            RouteDefinition<FPat, FViewFn, FChildren>,
            RouteDefinition<GPat, GViewFn, GChildren>,
            RouteDefinition<HPat, HViewFn, HChildren>,
            RouteDefinition<IPat, IViewFn, IChildren>,
            RouteDefinition<JPat, JViewFn, JChildren>,
            RouteDefinition<KPat, KViewFn, KChildren>,
            RouteDefinition<LPat, LViewFn, LChildren>,
            RouteDefinition<MPat, MViewFn, MChildren>,
        ),
        FallbackFn,
    >,
    name: Seq<char>,
    output: EitherOf14<AView, BView, CView, DView, EView, FView, GView, HView, IView, JView, KView, LView, MView, Fal>,
)
    requires
        router.routed(name, output),
    ensures
        ({
            let url = router.spec_location().spec_url();
            &&& url is None ==> name == "Fal"@ && (output matches EitherOf14::N(f)
                && call_ensures(router.spec_fallback(), (), f))
            &&& url matches Some(u) ==> {
                let fulls = seq![
                    full_match(&router.spec_routes().0.path, u.pathname),
                    full_match(&router.spec_routes().1.path, u.pathname),
                    full_match(&router.spec_routes().2.path, u.pathname),
                    full_match(&router.spec_routes().3.path, u.pathname),
                    full_match(&router.spec_routes().4.path, u.pathname),
                    full_match(&router.spec_routes().5.path, u.pathname),
                    full_match(&router.spec_routes().6.path, u.pathname),
                    full_match(&router.spec_routes().7.path, u.pathname),
                    full_match(&router.spec_routes().8.path, u.pathname),
                    full_match(&router.spec_routes().9.path, u.pathname),
                    full_match(&router.spec_routes().10.path, u.pathname),
                    full_match(&router.spec_routes().11.path, u.pathname),
                    full_match(&router.spec_routes().12.path, u.pathname),
                ];
                &&& first_some_at(fulls, 0) ==> name == "A"@ && (output matches EitherOf14::A(v)
                    && made_view(router.spec_routes().0.view, fulls[0]->0, v))
                &&& first_some_at(fulls, 1) ==> name == "B"@ && (output matches EitherOf14::B(v)
                    && made_view(router.spec_routes().1.view, fulls[1]->0, v))
                &&& first_some_at(fulls, 2) ==> name == "C"@ && (output matches EitherOf14::C(v)
                    && made_view(router.spec_routes().2.view, fulls[2]->0, v))
                &&& first_some_at(fulls, 3) ==> name == "D"@ && (output matches EitherOf14::D(v)
                    && made_view(router.spec_routes().3.view, fulls[3]->0, v))
                &&& first_some_at(fulls, 4) ==> name == "E"@ && (output matches EitherOf14::E(v)
                    && made_view(router.spec_routes().4.view, fulls[4]->0, v))
                &&& first_some_at(fulls, 5) ==> name == "F"@ && (output matches EitherOf14::F(v)
                    && made_view(router.spec_routes().5.view, fulls[5]->0, v))
                &&& first_some_at(fulls, 6) ==> name == "G"@ && (output matches EitherOf14::G(v)
                    && made_view(router.spec_routes().6.view, fulls[6]->0, v))
                &&& first_some_at(fulls, 7) ==> name == "H"@ && (output matches EitherOf14::H(v)
                    && made_view(router.spec_routes().7.view, fulls[7]->0, v))
                &&& first_some_at(fulls, 8) ==> name == "I"@ && (output matches EitherOf14::I(v)
                    && made_view(router.spec_routes().8.view, fulls[8]->0, v))
                &&& first_some_at(fulls, 9) ==> name == "J"@ && (output matches EitherOf14::J(v)
                    && made_view(router.spec_routes().9.view, fulls[9]->0, v))
                &&& first_some_at(fulls, 10) ==> name == "K"@ && (output matches EitherOf14::K(v)
                    && made_view(router.spec_routes().10.view, fulls[10]->0, v))
                &&& first_some_at(fulls, 11) ==> name == "L"@ && (output matches EitherOf14::L(v)
                    && made_view(router.spec_routes().11.view, fulls[11]->0, v))
                &&& first_some_at(fulls, 12) ==> name == "M"@ && (output matches EitherOf14::M(v)
                    && made_view(router.spec_routes().12.view, fulls[12]->0, v))
                &&& all_none(fulls) ==> name == "Fal"@ && (output matches EitherOf14::N(f)
                    && call_ensures(router.spec_fallback(), (), f))
            }
        }),
{
    if let Some(u) = router.spec_location().spec_url() {
        let fulls = seq![
            full_match(&router.spec_routes().0.path, u.pathname),
            full_match(&router.spec_routes().1.path, u.pathname),
            full_match(&router.spec_routes().2.path, u.pathname),
            full_match(&router.spec_routes().3.path, u.pathname),
            full_match(&router.spec_routes().4.path, u.pathname),
            full_match(&router.spec_routes().5.path, u.pathname),
            full_match(&router.spec_routes().6.path, u.pathname),
            full_match(&router.spec_routes().7.path, u.pathname),
            full_match(&router.spec_routes().8.path, u.pathname),
            full_match(&router.spec_routes().9.path, u.pathname),
            full_match(&router.spec_routes().10.path, u.pathname),
            full_match(&router.spec_routes().11.path, u.pathname),
            full_match(&router.spec_routes().12.path, u.pathname),
        ];
        assert(fulls[0] == full_match(&router.spec_routes().0.path, u.pathname));
        assert(fulls[1] == full_match(&router.spec_routes().1.path, u.pathname));
        assert(fulls[2] == full_match(&router.spec_routes().2.path, u.pathname));
        assert(fulls[3] == full_match(&router.spec_routes().3.path, u.pathname));
        assert(fulls[4] == full_match(&router.spec_routes().4.path, u.pathname));
        assert(fulls[5] == full_match(&router.spec_routes().5.path, u.pathname));
        assert(fulls[6] == full_match(&router.spec_routes().6.path, u.pathname));
        assert(fulls[7] == full_match(&router.spec_routes().7.path, u.pathname));
        assert(fulls[8] == full_match(&router.spec_routes().8.path, u.pathname));
        assert(fulls[9] == full_match(&router.spec_routes().9.path, u.pathname));
        assert(fulls[10] == full_match(&router.spec_routes().10.path, u.pathname));
        assert(fulls[11] == full_match(&router.spec_routes().11.path, u.pathname));
        assert(fulls[12] == full_match(&router.spec_routes().12.path, u.pathname));
    }
}

/// Routing with 14 routes shows the first route, in order, whose own path
/// matches the whole path of the location's URL: its name and a view its
/// view function made for that match; when no route's path matches (or there
/// is no URL), the fallback.
pub proof fn lemma_routes_14<
    Loc: Location,
    FallbackFn: Fn() -> Fal,
    Fal: RenderHtml,
    APat: RouteMatch,
    AViewFn: Fn(MatchedRoute) -> AView,
    AView: RenderHtml,
    AChildren,
    BPat: RouteMatch,
    BViewFn: Fn(MatchedRoute) -> BView,
    BView: RenderHtml,
    BChildren,
    CPat: RouteMatch,
    CViewFn: Fn(MatchedRoute) -> CView,
    CView: RenderHtml,
    CChildren,
    DPat: RouteMatch,
    DViewFn: Fn(MatchedRoute) -> DView,
    DView: RenderHtml,
    DChildren,
    EPat: RouteMatch,
    EViewFn: Fn(MatchedRoute) -> EView,
    EView: RenderHtml,
    EChildren,
    FPat: RouteMatch,
    FViewFn: Fn(MatchedRoute) -> FView,
    FView: RenderHtml,
    FChildren,
    GPat: RouteMatch,
    GViewFn: Fn(MatchedRoute) -> GView,
    GView: RenderHtml,
    GChildren,
    HPat: RouteMatch,
    HViewFn: Fn(MatchedRoute) -> HView,
    HView: RenderHtml,
    HChildren,
    IPat: RouteMatch,
    IViewFn: Fn(MatchedRoute) -> IView,
    IView: RenderHtml,
    IChildren,
    JPat: RouteMatch,
    JViewFn: Fn(MatchedRoute) -> JView,
    JView: RenderHtml,
    JChildren,
    KPat: RouteMatch,
    KViewFn: Fn(MatchedRoute) -> KView,
    KView: RenderHtml,
    KChildren,
    LPat: RouteMatch,
    LViewFn: Fn(MatchedRoute) -> LView,
    LView: RenderHtml,
    LChildren,
    MPat: RouteMatch,
    MViewFn: Fn(MatchedRoute) -> MView,
    MView: RenderHtml,
    MChildren,
    NPat: RouteMatch,
    NViewFn: Fn(MatchedRoute) -> NView,
    NView: RenderHtml,
    NChildren,
>(
    router: &Router<
        Loc,
        (
            RouteDefinition<APat, AViewFn, AChildren>,
            RouteDefinition<BPat, BViewFn, BChildren>,
            RouteDefinition<CPat, CViewFn, CChildren>,
            RouteDefinition<DPat, DViewFn, DChildren>,
            RouteDefinition<EPat, EViewFn, EChildren>,
            RouteDefinition<FPat, FViewFn, FChildren>,
            RouteDefinition<GPat, GViewFn, GChildren>,
            RouteDefinition<HPat, HViewFn, HChildren>,
            RouteDefinition<IPat, IViewFn, IChildren>,
            RouteDefinition<JPat, JViewFn, JChildren>,
            RouteDefinition<KPat, KViewFn, KChildren>,
            RouteDefinition<LPat, LViewFn, LChildren>,
            RouteDefinition<MPat, MViewFn, MChildren>,
            RouteDefinition<NPat, NViewFn, NChildren>,
        ),
        FallbackFn,
    >,
    name: Seq<char>,
    output: EitherOf15<AView, BView, CView, DView, EView, FView, GView, HView, IView, JView, KView, LView, MView, NView, Fal>,
)
    requires
        router.routed(name, output),
    ensures
        ({
            let url = router.spec_location().spec_url();
            &&& url is None ==> name == "Fal"@ && (output matches EitherOf15::O(f)
                && call_ensures(router.spec_fallback(), (), f))
            &&& url matches Some(u) ==> {
                let fulls = seq![
                    full_match(&router.spec_routes().0.path, u.pathname),
                    full_match(&router.spec_routes().1.path, u.pathname),
                    full_match(&router.spec_routes().2.path, u.pathname),
                    full_match(&router.spec_routes().3.path, u.pathname),
                    full_match(&router.spec_routes().4.path, u.pathname),
                    full_match(&router.spec_routes().5.path, u.pathname),
                    full_match(&router.spec_routes().6.path, u.pathname),
                    full_match(&router.spec_routes().7.path, u.pathname),
                    full_match(&router.spec_routes().8.path, u.pathname),
                    full_match(&router.spec_routes().9.path, u.pathname),
                    full_match(&router.spec_routes().10.path, u.pathname),
                    full_match(&router.spec_routes().11.path, u.pathname),
                    full_match(&router.spec_routes().12.path, u.pathname),
                    full_match(&router.spec_routes().13.path, u.pathname),
                ];
                &&& first_some_at(fulls, 0) ==> name == "A"@ && (output matches EitherOf15::A(v)
                    && made_view(router.spec_routes().0.view, fulls[0]->0, v))
                &&& first_some_at(fulls, 1) ==> name == "B"@ && (output matches EitherOf15::B(v)
                    && made_view(router.spec_routes().1.view, fulls[1]->0, v))
                &&& first_some_at(fulls, 2) ==> name == "C"@ && (output matches EitherOf15::C(v)
                    && made_view(router.spec_routes().2.view, fulls[2]->0, v))
                &&& first_some_at(fulls, 3) ==> name == "D"@ && (output matches EitherOf15::D(v)
                    && made_view(router.spec_routes().3.view, fulls[3]->0, v))
                &&& first_some_at(fulls, 4) ==> name == "E"@ && (output matches EitherOf15::E(v)
                    && made_view(router.spec_routes().4.view, fulls[4]->0, v))
                &&& first_some_at(fulls, 5) ==> name == "F"@ && (output matches EitherOf15::F(v)
                    && made_view(router.spec_routes().5.view, fulls[5]->0, v))
                &&& first_some_at(fulls, 6) ==> name == "G"@ && (output matches EitherOf15::G(v)
                    && made_view(router.spec_routes().6.view, fulls[6]->0, v))
                &&& first_some_at(fulls, 7) ==> name == "H"@ && (output matches EitherOf15::H(v)
                    && made_view(router.spec_routes().7.view, fulls[7]->0, v))
                &&& first_some_at(fulls, 8) ==> name == "I"@ && (output matches EitherOf15::I(v)
                    && made_view(router.spec_routes().8.view, fulls[8]->0, v))
                &&& first_some_at(fulls, 9) ==> name == "J"@ && (output matches EitherOf15::J(v)
                    && made_view(router.spec_routes().9.view, fulls[9]->0, v))
                &&& first_some_at(fulls, 10) ==> name == "K"@ && (output matches EitherOf15::K(v)
                    && made_view(router.spec_routes().10.view, fulls[10]->0, v))
                &&& first_some_at(fulls, 11) ==> name == "L"@ && (output matches EitherOf15::L(v)
                    && made_view(router.spec_routes().11.view, fulls[11]->0, v))
                &&& first_some_at(fulls, 12) ==> name == "M"@ && (output matches EitherOf15::M(v)
                    && made_view(router.spec_routes().12.view, fulls[12]->0, v))
                &&& first_some_at(fulls, 13) ==> name == "N"@ && (output matches EitherOf15::N(v)
                    && made_view(router.spec_routes().13.view, fulls[13]->0, v))
                &&& all_none(fulls) ==> name == "Fal"@ && (output matches EitherOf15::O(f)
                    && call_ensures(router.spec_fallback(), (), f))
            }
        }),
{
    if let Some(u) = router.spec_location().spec_url() {
        let fulls = seq![
            full_match(&router.spec_routes().0.path, u.pathname),
            full_match(&router.spec_routes().1.path, u.pathname),
            full_match(&router.spec_routes().2.path, u.pathname),
            full_match(&router.spec_routes().3.path, u.pathname),
            full_match(&router.spec_routes().4.path, u.pathname),
            full_match(&router.spec_routes().5.path, u.pathname),
            full_match(&router.spec_routes().6.path, u.pathname),
            full_match(&router.spec_routes().7.path, u.pathname),
            full_match(&router.spec_routes().8.path, u.pathname),
            full_match(&router.spec_routes().9.path, u.pathname),
            full_match(&router.spec_routes().10.path, u.pathname),
            full_match(&router.spec_routes().11.path, u.pathname),
            full_match(&router.spec_routes().12.path, u.pathname),
            full_match(&router.spec_routes().13.path, u.pathname),
        ];
        assert(fulls[0] == full_match(&router.spec_routes().0.path, u.pathname));
        assert(fulls[1] == full_match(&router.spec_routes().1.path, u.pathname));
        assert(fulls[2] == full_match(&router.spec_routes().2.path, u.pathname));
        assert(fulls[3] == full_match(&router.spec_routes().3.path, u.pathname));
        assert(fulls[4] == full_match(&router.spec_routes().4.path, u.pathname));
        assert(fulls[5] == full_match(&router.spec_routes().5.path, u.pathname));
        assert(fulls[6] == full_match(&router.spec_routes().6.path, u.pathname));
        assert(fulls[7] == full_match(&router.spec_routes().7.path, u.pathname));
        assert(fulls[8] == full_match(&router.spec_routes().8.path, u.pathname));
        assert(fulls[9] == full_match(&router.spec_routes().9.path, u.pathname));
        assert(fulls[10] == full_match(&router.spec_routes().10.path, u.pathname));
        assert(fulls[11] == full_match(&router.spec_routes().11.path, u.pathname));
        assert(fulls[12] == full_match(&router.spec_routes().12.path, u.pathname));
        assert(fulls[13] == full_match(&router.spec_routes().13.path, u.pathname));
    }
}

/// Routing with 15 routes shows the first route, in order, whose own path
/// matches the whole path of the location's URL: its name and a view its
/// view function made for that match; when no route's path matches (or there
/// is no URL), the fallback.
pub proof fn lemma_routes_15<
    Loc: Location,
    FallbackFn: Fn() -> Fal,
    Fal: RenderHtml,
    APat: RouteMatch,
    AViewFn: Fn(MatchedRoute) -> AView,
    AView: RenderHtml,
    AChildren,
    BPat: RouteMatch,
    BViewFn: Fn(MatchedRoute) -> BView,
    BView: RenderHtml,
    BChildren,
    CPat: RouteMatch,
    CViewFn: Fn(MatchedRoute) -> CView,
    CView: RenderHtml,
    CChildren,
    DPat: RouteMatch,
    DViewFn: Fn(MatchedRoute) -> DView,
    DView: RenderHtml,
    DChildren,
    EPat: RouteMatch,
    EViewFn: Fn(MatchedRoute) -> EView,
    EView: RenderHtml,
    EChildren,
    FPat: RouteMatch,
    FViewFn: Fn(MatchedRoute) -> FView,
    FView: RenderHtml,
    FChildren,
    GPat: RouteMatch,
    GViewFn: Fn(MatchedRoute) -> GView,
    GView: RenderHtml,
    GChildren,
    HPat: RouteMatch,
    HViewFn: Fn(MatchedRoute) -> HView,
    HView: RenderHtml,
    HChildren,
    IPat: RouteMatch,
    IViewFn: Fn(MatchedRoute) -> IView,
    IView: RenderHtml,
    IChildren,
    JPat: RouteMatch,
    JViewFn: Fn(MatchedRoute) -> JView,
    JView: RenderHtml,
    JChildren,
    KPat: RouteMatch,
    KViewFn: Fn(MatchedRoute) -> KView,
    KView: RenderHtml,
    KChildren,
    LPat: RouteMatch,
    LViewFn: Fn(MatchedRoute) -> LView,
    LView: RenderHtml,
    LChildren,
    MPat: RouteMatch,
    MViewFn: Fn(MatchedRoute) -> MView,
    MView: RenderHtml,
    MChildren,
    NPat: RouteMatch,
    NViewFn: Fn(MatchedRoute) -> NView,
    NView: RenderHtml,
    NChildren,
    OPat: RouteMatch,
    OViewFn: Fn(MatchedRoute) -> OView,
    OView: RenderHtml,
    OChildren,
>(
    router: &Router<
        Loc,
        (
            RouteDefinition<APat, AViewFn, AChildren>,
            RouteDefinition<BPat, BViewFn, BChildren>,
            RouteDefinition<CPat, CViewFn, CChildren>,
            RouteDefinition<DPat, DViewFn, DChildren>,
            RouteDefinition<EPat, EViewFn, EChildren>,
            RouteDefinition<FPat, FViewFn, FChildren>,
            RouteDefinition<GPat, GViewFn, GChildren>,
            RouteDefinition<HPat, HViewFn, HChildren>,
            RouteDefinition<IPat, IViewFn, IChildren>,
            RouteDefinition<JPat, JViewFn, JChildren>,
            RouteDefinition<KPat, KViewFn, KChildren>,
            RouteDefinition<LPat, LViewFn, LChildren>,
            RouteDefinition<MPat, MViewFn, MChildren>,
            RouteDefinition<NPat, NViewFn, NChildren>,
            RouteDefinition<OPat, OViewFn, OChildren>,
        ),
        FallbackFn,
    >,
    name: Seq<char>,
    output: EitherOf16<AView, BView, CView, DView, EView, FView, GView, HView, IView, JView, KView, LView, MView, NView, OView, Fal>,
)
    requires
        router.routed(name, output),
    ensures
        ({
            let url = router.spec_location().spec_url();
            &&& url is None ==> name == "Fal"@ && (output matches EitherOf16::P(f)
                && call_ensures(router.spec_fallback(), (), f))
            &&& url matches Some(u) ==> {
                let fulls = seq![
                    full_match(&router.spec_routes().0.path, u.pathname),
                    full_match(&router.spec_routes().1.path, u.pathname),
                    full_match(&router.spec_routes().2.path, u.pathname),
                    full_match(&router.spec_routes().3.path, u.pathname),
                    full_match(&router.spec_routes().4.path, u.pathname),
                    full_match(&router.spec_routes().5.path, u.pathname),
                    full_match(&router.spec_routes().6.path, u.pathname),
                    full_match(&router.spec_routes().7.path, u.pathname),
                    full_match(&router.spec_routes().8.path, u.pathname),
                    full_match(&router.spec_routes().9.path, u.pathname),
                    full_match(&router.spec_routes().10.path, u.pathname),
                    full_match(&router.spec_routes().11.path, u.pathname),
                    full_match(&router.spec_routes().12.path, u.pathname),
                    full_match(&router.spec_routes().13.path, u.pathname),
                    full_match(&router.spec_routes().14.path, u.pathname),
                ];
                &&& first_some_at(fulls, 0) ==> name == "A"@ && (output matches EitherOf16::A(v)
                    && made_view(router.spec_routes().0.view, fulls[0]->0, v))
                &&& first_some_at(fulls, 1) ==> name == "B"@ && (output matches EitherOf16::B(v)
                    && made_view(router.spec_routes().1.view, fulls[1]->0, v))
                &&& first_some_at(fulls, 2) ==> name == "C"@ && (output matches EitherOf16::C(v)
                    && made_view(router.spec_routes().2.view, fulls[2]->0, v))
                &&& first_some_at(fulls, 3) ==> name == "D"@ && (output matches EitherOf16::D(v)
                    && made_view(router.spec_routes().3.view, fulls[3]->0, v))
                &&& first_some_at(fulls, 4) ==> name == "E"@ && (output matches EitherOf16::E(v)
                    && made_view(router.spec_routes().4.view, fulls[4]->0, v))
                &&& first_some_at(fulls, 5) ==> name == "F"@ && (output matches EitherOf16::F(v)
                    && made_view(router.spec_routes().5.view, fulls[5]->0, v))
                &&& first_some_at(fulls, 6) ==> name == "G"@ && (output matches EitherOf16::G(v)
                    && made_view(router.spec_routes().6.view, fulls[6]->0, v))
                &&& first_some_at(fulls, 7) ==> name == "H"@ && (output matches EitherOf16::H(v)
                    && made_view(router.spec_routes().7.view, fulls[7]->0, v))
                &&& first_some_at(fulls, 8) ==> name == "I"@ && (output matches EitherOf16::I(v)
                    && made_view(router.spec_routes().8.view, fulls[8]->0, v))
                &&& first_some_at(fulls, 9) ==> name == "J"@ && (output matches EitherOf16::J(v)
                    && made_view(router.spec_routes().9.view, fulls[9]->0, v))
                &&& first_some_at(fulls, 10) ==> name == "K"@ && (output matches EitherOf16::K(v)
                    && made_view(router.spec_routes().10.view, fulls[10]->0, v))
                &&& first_some_at(fulls, 11) ==> name == "L"@ && (output matches EitherOf16::L(v)
                    && made_view(router.spec_routes().11.view, fulls[11]->0, v))
                &&& first_some_at(fulls, 12) ==> name == "M"@ && (output matches EitherOf16::M(v)
                    && made_view(router.spec_routes().12.view, fulls[12]->0, v))
                &&& first_some_at(fulls, 13) ==> name == "N"@ && (output matches EitherOf16::N(v)
                    && made_view(router.spec_routes().13.view, fulls[13]->0, v))
                &&& first_some_at(fulls, 14) ==> name == "O"@ && (output matches EitherOf16::O(v)
                    && made_view(router.spec_routes().14.view, fulls[14]->0, v))
                &&& all_none(fulls) ==> name == "Fal"@ && (output matches EitherOf16::P(f)
                    && call_ensures(router.spec_fallback(), (), f))
            }
        }),
{
    if let Some(u) = router.spec_location().spec_url() {
        let fulls = seq![
            full_match(&router.spec_routes().0.path, u.pathname),
            full_match(&router.spec_routes().1.path, u.pathname),
            full_match(&router.spec_routes().2.path, u.pathname),
            full_match(&router.spec_routes().3.path, u.pathname),
            full_match(&router.spec_routes().4.path, u.pathname),
            full_match(&router.spec_routes().5.path, u.pathname),
            full_match(&router.spec_routes().6.path, u.pathname),
            full_match(&router.spec_routes().7.path, u.pathname),
            full_match(&router.spec_routes().8.path, u.pathname),
            full_match(&router.spec_routes().9.path, u.pathname),
            full_match(&router.spec_routes().10.path, u.pathname),
            full_match(&router.spec_routes().11.path, u.pathname),
            full_match(&router.spec_routes().12.path, u.pathname),
            full_match(&router.spec_routes().13.path, u.pathname),
            full_match(&router.spec_routes().14.path, u.pathname),
        ];
        assert(fulls[0] == full_match(&router.spec_routes().0.path, u.pathname));
        assert(fulls[1] == full_match(&router.spec_routes().1.path, u.pathname));
        assert(fulls[2] == full_match(&router.spec_routes().2.path, u.pathname));
        assert(fulls[3] == full_match(&router.spec_routes().3.path, u.pathname));
        assert(fulls[4] == full_match(&router.spec_routes().4.path, u.pathname));
        assert(fulls[5] == full_match(&router.spec_routes().5.path, u.pathname));
        assert(fulls[6] == full_match(&router.spec_routes().6.path, u.pathname));
        assert(fulls[7] == full_match(&router.spec_routes().7.path, u.pathname));
        assert(fulls[8] == full_match(&router.spec_routes().8.path, u.pathname));
        assert(fulls[9] == full_match(&router.spec_routes().9.path, u.pathname));
        assert(fulls[10] == full_match(&router.spec_routes().10.path, u.pathname));
        assert(fulls[11] == full_match(&router.spec_routes().11.path, u.pathname));
        assert(fulls[12] == full_match(&router.spec_routes().12.path, u.pathname));
        assert(fulls[13] == full_match(&router.spec_routes().13.path, u.pathname));
        assert(fulls[14] == full_match(&router.spec_routes().14.path, u.pathname));
    }
}

/// What routing picked is written as the HTML of its view alone; a router
/// writes the HTML of whatever routing may show, when all its outcomes write
/// the same.
pub proof fn lemma_routed_html_law<Loc, Defs, FallbackFn, V: RenderHtml>(
    routed: Routed<V>,
    router: Router<Loc, Defs, FallbackFn>,
    name: Seq<char>,
    output: <Router<Loc, Defs, FallbackFn> as FallbackOrView>::Output,
    position: Position,
) where Router<Loc, Defs, FallbackFn>: FallbackOrView
    requires
        router.html_ok(),
        router.routed(name, output),
    ensures
        routed.spec_html(position) == routed.1.spec_html(position),
        router.spec_html(position) == output.spec_html(position),
{
    let (n, o) = choose|n: Seq<char>, o: <Router<Loc, Defs, FallbackFn> as FallbackOrView>::Output|
        router.routed(n, o);
    assert(router.routed(n, o) && router.routed(name, output));
}

} // verus!
