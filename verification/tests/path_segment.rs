use tachys::route::{ParamSegment, ParamsMap, PathMatch, RoutePath, SplatSegment, StaticSegment};

#[test]
pub fn should_match_one_static() {
    let path = StaticSegment("foo");
    assert!(path.exhaustive_match("/foo").is_some());
}

#[test]
pub fn should_match_multiple_static() {
    let path = (StaticSegment("foo"), StaticSegment("bar"));
    assert!(path.exhaustive_match("/foo/bar").is_some());
}

#[test]
pub fn should_not_match_if_needs_more_segments() {
    let path = (StaticSegment("foo"), StaticSegment("bar"));
    assert!(path.exhaustive_match("/foo").is_none());
}

#[test]
pub fn should_not_exhaustive_match_if_partial() {
    let path = StaticSegment("foo");
    assert!(path.exhaustive_match("/foo/bar").is_none());
}

#[test]
pub fn trailing_unit_is_fine() {
    let path = (StaticSegment(""), ());
    assert!(path.exhaustive_match("/").is_some());
}

#[test]
pub fn should_capture_params() {
    let path = (StaticSegment("foo"), ParamSegment::<i32>::new("bar"));
    let matched = path.exhaustive_match("/foo/42").unwrap();
    assert_eq!(matched.path.as_deref(), Some("/foo/42"));
    assert_eq!(matched.params.get("bar"), Some("42"));
}

#[test]
pub fn should_not_match_if_params_wrong_type() {
    let path = (StaticSegment("foo"), ParamSegment::<i32>::new("bar"));
    let matched = path.exhaustive_match("/foo/bar");
    assert!(matched.is_none())
}

#[test]
pub fn nesting_tuples_arbitrarily_works_fine() {
    let path = (
        (),
        ((), ()),
        StaticSegment("foo"),
        (),
        ((), ParamSegment::<i32>::new("bar"), ()),
    );
    let matched = path.exhaustive_match("/foo/42").unwrap();
    assert_eq!(matched.path.as_deref(), Some("/foo/42"));
    assert_eq!(matched.params.get("bar"), Some("42"));
}

#[test]
fn string_params_take_any_segment() {
    let path = (StaticSegment("user"), ParamSegment::<String>::new("name"));
    let matched = path.exhaustive_match("/user/alice").unwrap();
    assert_eq!(matched.path.as_deref(), Some("/user/alice"));
    assert_eq!(matched.params.get("name"), Some("alice"));
}

#[test]
fn negative_numbers_are_numbers() {
    let path = ParamSegment::<i32>::new("n");
    let matched = path.exhaustive_match("/-7").unwrap();
    assert_eq!(matched.params.get("n"), Some("-7"));
    assert!(path.exhaustive_match("/7x").is_none());
}

#[test]
fn splat_takes_the_rest() {
    let path = (StaticSegment("files"), SplatSegment::new("rest"));
    let matched = path.exhaustive_match("/files/a/b/c").unwrap();
    assert_eq!(matched.params.get("rest"), Some("a/b/c"));
}

#[test]
fn unit_matches_no_text() {
    let matched = ().exhaustive_match("/").unwrap();
    assert_eq!(matched, PathMatch::default());
    assert_eq!(matched.params, ParamsMap::new());
}

#[test]
fn ten_segments_in_a_tuple() {
    let s = StaticSegment;
    let path = (
        s("a"), s("b"), s("c"), s("d"), ParamSegment::<i32>::new("n"), s("e"), s("f"), s("g"),
        s("h"), SplatSegment::new("rest"),
    );
    let matched = path.exhaustive_match("/a/b/c/d/5/e/f/g/h/x/y").unwrap();
    assert_eq!(matched.path.as_deref(), Some("/a/b/c/d/5/e/f/g/h/x/y"));
    assert_eq!(matched.params.get("n"), Some("5"));
    assert_eq!(matched.params.get("rest"), Some("x/y"));
    assert!(path.exhaustive_match("/a/b/c/d/five/e/f/g/h").is_none());
}
