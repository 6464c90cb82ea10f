use tachys::async_views::FutureViewExt;
use tachys::view::either::{smaller_usize, Either, EitherOf3};
use tachys::view::{Position, PositionState, RenderHtml};

#[test]
fn either_adds_a_marker() {
    let left: Either<&str, String> = Either::Left("a");
    assert_eq!(left.to_html(), "a<!>");
    let right: Either<&str, String> = Either::Right("b".to_string());
    assert_eq!(right.to_html(), "b<!>");
}

#[test]
fn either_of_three() {
    let v: EitherOf3<&str, &str, &str> = EitherOf3::B("x");
    assert_eq!(v.to_html(), "x<!>");
}

#[test]
fn option_leaves_a_placeholder() {
    let none: Option<&str> = None;
    assert_eq!(none.to_html(), "<!>");
    assert_eq!(Some("t").to_html(), "t<!>");
}

#[test]
fn sibling_texts_are_separated() {
    assert_eq!(("a", "b").to_html(), "a<!>b");
    assert_eq!(("a", "b", "c").to_html(), "a<!>b<!>c");
    assert_eq!(().to_html(), "");
}

#[test]
fn position_is_kept_between_writes() {
    let mut buf = String::new();
    let mut pos = PositionState::new(Position::FirstChild);
    "x".to_html_with_buf(&mut buf, &mut pos);
    assert_eq!(pos.get(), Position::FirstChild);
    pos.set(Position::LastChild);
    "y".to_html_with_buf(&mut buf, &mut pos);
    assert_eq!(buf, "x<!>y");
}

#[test]
fn smaller_of_two() {
    assert_eq!(smaller_usize(3, 5), 3);
    assert_eq!(smaller_usize(5, 3), 3);
}

#[test]
fn suspend_keeps_the_future() {
    let s = std::future::ready(1).suspend().with_fallback("loading");
    let _ = s;
}

#[test]
fn list_items_follow_each_other() {
    assert_eq!(vec!["a", "b"].to_html(), "ab");
    let empty: Vec<&str> = Vec::new();
    assert_eq!(empty.to_html(), "");
}

#[test]
fn function_view_writes_what_it_gives() {
    let count = 3;
    let view = move || count.to_string();
    assert_eq!(view.to_html(), "3");
    let el = tachys::html::element::button((), move || count.to_string());
    assert_eq!(el.to_html(), "<button>3</button>");
}

#[test]
fn many_siblings_are_separated() {
    assert_eq!(("a", "b", "c", "d", "e", "f").to_html(), "a<!>b<!>c<!>d<!>e<!>f");
    let v = ("a", "b", "c", "d", "e", "f", "g", "h", "i", "j", "k", "l", "m", "n");
    assert_eq!(v.to_html(), "a<!>b<!>c<!>d<!>e<!>f<!>g<!>h<!>i<!>j<!>k<!>l<!>m<!>n");
}
