use tachys::matching::RouteMatch;
use tachys::route2::{ParamSegment, StaticSegment, WildcardSegment};

#[test]
fn single_param_match() {
    let path = "/foo";
    let def = ParamSegment("a");
    let matched = def.test(path).expect("couldn't match route");
    assert_eq!(matched.matched(), "/foo");
    assert_eq!(matched.remaining(), "");
    assert_eq!(matched.params()[0], ("a", "foo".to_string()));
}

#[test]
fn single_param_match_with_trailing_slash() {
    let path = "/foo/";
    let def = ParamSegment("a");
    let matched = def.test(path).expect("couldn't match route");
    assert_eq!(matched.matched(), "/foo");
    assert_eq!(matched.remaining(), "/");
    assert_eq!(matched.params()[0], ("a", "foo".to_string()));
}

#[test]
fn tuple_of_param_matches() {
    let path = "/foo/bar";
    let def = (ParamSegment("a"), ParamSegment("b"));
    let matched = def.test(path).expect("couldn't match route");
    assert_eq!(matched.matched(), "/foo/bar");
    assert_eq!(matched.remaining(), "");
    assert_eq!(matched.params()[0], ("a", "foo".to_string()));
    assert_eq!(matched.params()[1], ("b", "bar".to_string()));
}

#[test]
fn splat_should_match_all() {
    let path = "/foo/bar/////";
    let def = (StaticSegment("foo"), StaticSegment("bar"), WildcardSegment("rest"));
    let matched = def.test(path).expect("couldn't match route");
    assert_eq!(matched.matched(), "/foo/bar/////");
    assert_eq!(matched.remaining(), "");
    assert_eq!(matched.params()[0], ("rest", "////".to_string()));
}

#[test]
fn param_on_an_empty_path_is_empty() {
    let matched = ParamSegment("a").test("").unwrap();
    assert_eq!(matched.matched(), "");
    assert_eq!(matched.remaining(), "");
    assert_eq!(matched.params()[0], ("a", "".to_string()));
}

#[test]
fn wildcard_matches_an_empty_rest() {
    let matched = WildcardSegment("rest").test("").unwrap();
    assert_eq!(matched.matched(), "");
    assert_eq!(matched.remaining(), "");
    assert_eq!(matched.params()[0], ("rest", "".to_string()));
}
