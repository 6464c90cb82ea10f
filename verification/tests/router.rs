use tachys::location::RequestUrl;
use tachys::matching::{ParamSegment, StaticSegment};
use tachys::route::RouteDefinition;
use tachys::router::{FallbackOrView, Routed, Router};
use tachys::view::either::{Either, EitherOf16, EitherOf4, EitherOf6};
use tachys::view::RenderHtml;

#[test]
fn empty_router_with_fallback_renders_fallback() {
    let router = Router::new(RequestUrl::default(), (), || "404");
    assert_eq!(router.to_html(), "404");
}

#[test]
fn can_construct_router_in_either_direction() {
    // can do fallback first, then routes
    let routes = RouteDefinition::new(StaticSegment(""), (), |_| "Hello!");
    let _router = Router::new(RequestUrl::default(), routes, || "404");

    // can do routes first, then fallback
    let routes = RouteDefinition::new(StaticSegment(""), (), |_| "Hello!");
    let _router = Router::new(RequestUrl::default(), routes, || "404");
}

#[test]
fn can_match_on_single_route() {
    let routes = RouteDefinition::new(StaticSegment("foo"), (), |_| "Hello!");
    let router = Router::new(RequestUrl::from_path("foo"), routes, || "404");
    assert_eq!(router.to_html(), "Hello!<!>");
}

#[test]
fn can_match_against_multiple_routes() {
    let mut router = Router::new(
        RequestUrl::default(),
        (
            RouteDefinition::new(StaticSegment(""), (), |_| "Home"),
            RouteDefinition::new(StaticSegment("about"), (), |_| "About"),
            RouteDefinition::new(
                (StaticSegment("post"), ParamSegment("id")),
                (),
                |_| "Post Number TODO",
            ),
        ),
        || "404",
    );
    let routed = router.fallback_or_view();
    let html = RenderHtml::to_html(routed);
    assert_eq!(html, "Home<!>");

    router.set_location(RequestUrl::from_path("about"));
    let routed = router.fallback_or_view();
    let html = RenderHtml::to_html(routed);
    assert_eq!(html, "About<!>");

    router.set_location(RequestUrl::from_path("post/3"));
    let routed = router.fallback_or_view();
    let html = RenderHtml::to_html(routed);
    assert_eq!(html, "Post Number TODO<!>");
}

#[test]
fn single_route_falls_back_when_it_does_not_match() {
    let routes = RouteDefinition::new(StaticSegment("foo"), (), |_| "Hello!");
    let router = Router::new(RequestUrl::from_path("bar"), routes, || "404");
    let Routed(name, view) = router.fallback_or_view();
    assert_eq!(name, "Fal");
    assert_eq!(view, Either::Left("404"));
    assert_eq!(router.to_html(), "404<!>");
}

#[test]
fn partial_match_is_not_enough() {
    let routes = RouteDefinition::new(StaticSegment("foo"), (), |_| "Hello!");
    let router = Router::new(RequestUrl::from_path("foo/bar"), routes, || "404");
    assert_eq!(router.fallback_or_view().0, "Fal");
}

#[test]
fn route_view_receives_the_match() {
    let routes = RouteDefinition::new(
        (StaticSegment("post"), ParamSegment("id")),
        (),
        |m: tachys::route::MatchedRoute| m.param("id").unwrap_or("none").to_string(),
    );
    let router = Router::new(RequestUrl::from_path("post/7"), routes, || "404".to_string());
    let Routed(name, view) = router.fallback_or_view();
    assert_eq!(name, "Route");
    assert_eq!(view, Either::Right("7".to_string()));
}

#[test]
fn unmatched_location_shows_fallback_of_many() {
    let router = Router::new(
        RequestUrl::from_path("nowhere/else"),
        (
            RouteDefinition::new(StaticSegment(""), (), |_| "Home"),
            RouteDefinition::new(StaticSegment("about"), (), |_| "About"),
            RouteDefinition::new(StaticSegment("post"), (), |_| "Post"),
        ),
        || "404",
    );
    let Routed(name, view) = router.fallback_or_view();
    assert_eq!(name, "Fal");
    assert_eq!(view, EitherOf4::D("404"));
}

#[test]
fn fallback_is_called_on_demand() {
    let router = Router::new(RequestUrl::default(), (), || 5u8);
    assert_eq!(router.fallback(), 5u8);
}

#[test]
fn the_first_matching_of_five_routes_is_shown() {
    let router = Router::new(
        RequestUrl::from_path("e/5"),
        (
            RouteDefinition::new(StaticSegment("a"), (), |_| "A"),
            RouteDefinition::new(StaticSegment("b"), (), |_| "B"),
            RouteDefinition::new(StaticSegment("c"), (), |_| "C"),
            RouteDefinition::new(StaticSegment("d"), (), |_| "D"),
            RouteDefinition::new((StaticSegment("e"), ParamSegment("n")), (), |_| "E"),
        ),
        || "404",
    );
    let Routed(name, view) = router.fallback_or_view();
    assert_eq!(name, "E");
    assert_eq!(view, EitherOf6::E("E"));
    assert_eq!(router.to_html(), "E<!>");
}

#[test]
fn fifteen_routes_fall_back_when_none_matches() {
    let s = StaticSegment;
    let mut router = Router::new(
        RequestUrl::from_path("nothing"),
        (
            RouteDefinition::new(s("a"), (), |_| "A"),
            RouteDefinition::new(s("b"), (), |_| "B"),
            RouteDefinition::new(s("c"), (), |_| "C"),
            RouteDefinition::new(s("d"), (), |_| "D"),
            RouteDefinition::new(s("e"), (), |_| "E"),
            RouteDefinition::new(s("f"), (), |_| "F"),
            RouteDefinition::new(s("g"), (), |_| "G"),
            RouteDefinition::new(s("h"), (), |_| "H"),
            RouteDefinition::new(s("i"), (), |_| "I"),
            RouteDefinition::new(s("j"), (), |_| "J"),
            RouteDefinition::new(s("k"), (), |_| "K"),
            RouteDefinition::new(s("l"), (), |_| "L"),
            RouteDefinition::new(s("m"), (), |_| "M"),
            RouteDefinition::new(s("n"), (), |_| "N"),
            RouteDefinition::new(s("o"), (), |_| "O"),
        ),
        || "404",
    );
    let Routed(name, view) = router.fallback_or_view();
    assert_eq!(name, "Fal");
    assert_eq!(view, EitherOf16::P("404"));
    router.set_location(RequestUrl::from_path("o"));
    let Routed(name, view) = router.fallback_or_view();
    assert_eq!(name, "O");
    assert_eq!(view, EitherOf16::O("O"));
}

#[test]
fn a_router_follows_a_url_read_elsewhere() {
    let url = tachys::location::BrowserUrl::url_from_parts(
        "https://example.com".to_string(),
        "/about".to_string(),
        String::new(),
        String::new(),
    );
    let router = Router::new(
        tachys::location::UrlSnapshot(url),
        (
            RouteDefinition::new(StaticSegment(""), (), |_| "Home"),
            RouteDefinition::new(StaticSegment("about"), (), |_| "About"),
        ),
        || "404",
    );
    assert_eq!(router.fallback_or_view().0, "B");
    assert_eq!(router.to_html(), "About<!>");
}
