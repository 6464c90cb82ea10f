use tachys::route::{MatchedRoute, ParamsMap};

#[test]
fn single_holds_one_param() {
    let map = ParamsMap::single("id", "42");
    assert_eq!(map.get("id"), Some("42"));
    assert_eq!(map.get("other"), None);
}

#[test]
fn extend_keeps_the_first_value() {
    let mut map = ParamsMap::single("id", "1");
    map.extend(ParamsMap::from_vec(vec![("id", "2".to_string()), ("page", "3".to_string())]));
    assert_eq!(map.get("id"), Some("1"));
    assert_eq!(map.get("page"), Some("3"));
    assert_eq!(
        map.into_vec(),
        vec![("id", "1".to_string()), ("id", "2".to_string()), ("page", "3".to_string())]
    );
}

#[test]
fn new_map_is_empty() {
    assert_eq!(ParamsMap::new().get("x"), None);
    assert_eq!(ParamsMap::new(), ParamsMap::default());
}

#[test]
fn matched_route_param_finds_first() {
    let m = MatchedRoute {
        params: vec![("a", "1".to_string()), ("a", "2".to_string())],
        matched: "/x".to_string(),
    };
    assert_eq!(m.param("a"), Some("1"));
    assert_eq!(m.param("b"), None);
}
