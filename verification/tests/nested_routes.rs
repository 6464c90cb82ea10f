use tachys::route::nested_routes::RouteChild;

#[test]
fn no_nested_routes_match_anything() {
    assert!(().matches_path("/any/path"));
    let m = ().test_path("/any/path").unwrap();
    assert_eq!(m.path, None);
    assert_eq!(m.params.get("x"), None);
    assert!(((), ()).matches_path(""));
    assert!(((),).test_path("/a").is_some());
}

#[test]
fn the_first_of_many_alternatives_answers() {
    let alternatives = ((), (), (), (), (), (), (), (), (), (), (), (), ());
    assert!(alternatives.matches_path("/a/b"));
    let m = alternatives.test_path("/a/b").unwrap();
    assert_eq!(m.path, None);
}
