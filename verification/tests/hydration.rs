use tachys::hydration::{
    either_rebuild_step, element_hydration_step, option_rebuild_step, placeholder_hydration_step,
    text_hydration_step, text_needs_update, CursorMove, EitherRebuild, OptionRebuild,
};
use tachys::view::either::Either;
use tachys::view::Position;

#[test]
fn text_after_a_sibling_from_the_server() {
    let step = text_hydration_step(Position::NextChild, true);
    assert_eq!(step.enter, CursorMove::Sibling);
    assert!(step.skip_marker);
    assert!(!step.replace_node);
    assert_eq!(step.next, Position::NextChild);
}

#[test]
fn first_text_from_a_template() {
    let step = text_hydration_step(Position::FirstChild, false);
    assert_eq!(step.enter, CursorMove::Child);
    assert!(!step.skip_marker);
    assert!(step.replace_node);
    assert_eq!(step.next, Position::NextChild);
}

#[test]
fn element_children_start_first() {
    let step = element_hydration_step(Position::OnlyChild);
    assert_eq!(step.enter, CursorMove::Sibling);
    assert_eq!(step.children, Position::FirstChild);
    assert_eq!(step.next, Position::NextChild);
    assert_eq!(placeholder_hydration_step(Position::FirstChild), (CursorMove::Child, Position::NextChild));
}

#[test]
fn text_updates_only_when_changed() {
    assert!(!text_needs_update("a", "a"));
    assert!(text_needs_update("a", "b"));
}

#[test]
fn rebuild_decisions() {
    let new: Either<u8, u8> = Either::Left(1);
    let old: Either<(), ()> = Either::Left(());
    assert_eq!(either_rebuild_step(&new, &old), EitherRebuild::InPlace);
    let old: Either<(), ()> = Either::Right(());
    assert_eq!(either_rebuild_step(&new, &old), EitherRebuild::Replace);
    assert_eq!(option_rebuild_step::<(), u8>(&None, &None), OptionRebuild::Nothing);
    assert_eq!(option_rebuild_step(&Some(()), &Some(1u8)), OptionRebuild::InPlace);
    assert_eq!(option_rebuild_step::<(), u8>(&Some(()), &None), OptionRebuild::Unmount);
    assert_eq!(option_rebuild_step::<(), u8>(&None, &Some(1)), OptionRebuild::BuildAndMount);
}
