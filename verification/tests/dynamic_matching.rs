use tachys::dynamic_matching::{PathDefinition, PathDefinitionSegment, Score};
use tachys::route::RouteDefinition;

#[test]
fn path_definition_should_convert_from_string() {
    let path = PathDefinition::from("/blog/:id/comments/*rest");
    assert_eq!(
        path,
        PathDefinition::from_segments(vec![
            PathDefinitionSegment::Static { path: "blog".to_string() },
            PathDefinitionSegment::Param { field_name: "id".to_string() },
            PathDefinitionSegment::Static { path: "comments".to_string() },
            PathDefinitionSegment::Splat { field_name: "rest".to_string() },
        ])
    )
}

#[test]
#[should_panic]
fn path_definition_should_panic_if_splat_not_last() {
    _ = PathDefinition::from("/blog/:id/*rest/comments");
}

#[test]
#[should_panic]
fn path_definition_should_panic_if_multiple_splats() {
    _ = PathDefinition::from("/blog/:id/*foo/*bar");
}

#[test]
fn build_test_route() {
    let path: [(); 0] = [];
    let _route = RouteDefinition { path, children: (), view: || () };
}

#[test]
fn empty_pieces_are_skipped() {
    let path = PathDefinition::from("//blog///:id/");
    assert_eq!(
        path,
        PathDefinition::from_segments(vec![
            PathDefinitionSegment::Static { path: "blog".to_string() },
            PathDefinitionSegment::Param { field_name: "id".to_string() },
        ])
    );
}

#[test]
fn score_counts_segments_and_kinds() {
    // 4 segments, one splat: 4 - 1 + (3 + 2 + 3 + 3) = 14
    let path = PathDefinition::from("/blog/:id/comments/*rest");
    assert_eq!(path.score(), Score(14));
    // 2 static segments: 2 + 3 + 3 = 8
    let path = PathDefinition::from("/a/b");
    assert_eq!(path.score(), Score(8));
    // nothing
    let path = PathDefinition::from("/");
    assert_eq!(path.score(), Score(0));
}

#[test]
fn a_single_splat_may_come_last() {
    let path = PathDefinition::from("/files/*rest");
    assert_eq!(
        path,
        PathDefinition::from_segments(vec![
            PathDefinitionSegment::Static { path: "files".to_string() },
            PathDefinitionSegment::Splat { field_name: "rest".to_string() },
        ])
    );
}
