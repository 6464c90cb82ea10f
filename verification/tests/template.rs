use tachys::html::attribute::{Attribute, Type};
use tachys::view::static_types::{static_attr, Static, StaticText};
use tachys::view::template::{
    const_concat, const_concat_with_prefix, const_concat_with_separator, str_from_buffer,
    ViewTemplate, MAX_TEMPLATE_SIZE,
};
use tachys::view::{Position, PositionState, RenderHtml, ToTemplate};

struct Text;

impl StaticText for Text {
    fn text() -> &'static str {
        "text"
    }
}

struct Hello;

impl StaticText for Hello {
    fn text() -> &'static str {
        "Hello"
    }
}

#[test]
fn static_attr_writes_key_and_value() {
    let input_type = static_attr::<Type, Text>();
    let mut buf = String::new();
    let mut classes = String::new();
    let mut styles = String::new();
    input_type.to_html(&mut buf, &mut classes, &mut styles);
    assert_eq!(buf, " type=\"text\"");
    assert_eq!(classes, "");
    assert_eq!(styles, "");
}

#[test]
fn static_attr_template_matches_its_html() {
    let mut buf = String::new();
    let mut classes = String::new();
    let mut styles = String::new();
    let mut position = Position::FirstChild;
    <tachys::view::static_types::StaticAttr<Type, Text> as ToTemplate>::to_template(
        &mut buf,
        &mut classes,
        &mut styles,
        &mut position,
    );
    assert_eq!(buf, " type=\"text\"");
    assert_eq!(position, Position::FirstChild);
}

#[test]
fn static_text_gets_a_marker_after_a_sibling() {
    let mut buf = String::new();
    Static::<Hello>::new().to_html_with_buf(&mut buf, &mut PositionState::new(Position::NextChild));
    assert_eq!(buf, "<!>Hello");
    assert_eq!(Static::<Hello>::new().to_html(), "Hello");
}

#[test]
fn static_text_template_moves_to_next_child() {
    let mut buf = String::new();
    let mut classes = String::new();
    let mut styles = String::new();
    let mut position = Position::FirstChild;
    <Static<Hello> as ToTemplate>::to_template(&mut buf, &mut classes, &mut styles, &mut position);
    assert_eq!(buf, "Hello");
    assert_eq!(position, Position::NextChild);
    <Static<Hello> as ToTemplate>::to_template(&mut buf, &mut classes, &mut styles, &mut position);
    assert_eq!(buf, "Hello<!>Hello");
}

#[test]
fn view_template_renders_its_view() {
    let t = ViewTemplate::new(Static::<Hello>::new());
    assert_eq!(t.to_html(), "Hello");
}

#[test]
fn const_concat_joins_and_pads() {
    let buf = const_concat(&["<p>", "hi", "</p>"]);
    assert_eq!(buf.len(), MAX_TEMPLATE_SIZE);
    assert_eq!(&buf[..9], b"<p>hi</p>");
    assert!(buf[9..].iter().all(|b| *b == 0));
    assert_eq!(str_from_buffer(&buf), "<p>hi</p>");
}

#[test]
fn const_concat_of_nothing_is_zero() {
    let buf = const_concat(&[]);
    assert!(buf.iter().all(|b| *b == 0));
    assert_eq!(str_from_buffer(&buf), "");
}

#[test]
fn prefix_and_suffix_wrap_content() {
    let buf = const_concat_with_prefix(&["a", "b"], " class=\"", "\"");
    assert_eq!(str_from_buffer(&buf), " class=\"ab\"");
}

#[test]
fn prefix_and_suffix_skip_empty_content() {
    let buf = const_concat_with_prefix(&["", ""], " class=\"", "\"");
    assert!(buf.iter().all(|b| *b == 0));
}

#[test]
fn separator_after_long_texts_leaves_them_joined() {
    // each text is at least as long as the separator, so nothing is overwritten
    let buf = const_concat_with_separator(&["ab", "cd"], " ");
    assert_eq!(str_from_buffer(&buf), "abcd");
}

#[test]
fn separator_tail_overwrites_the_start() {
    // after "a" (length 1), the separator's bytes from index 1 on ("-") are
    // written at the start of the buffer
    let buf = const_concat_with_separator(&["a", "bc"], "+-");
    assert_eq!(str_from_buffer(&buf), "-bc");
}

#[test]
fn templates_of_siblings_follow_each_other() {
    let mut buf = String::new();
    let mut classes = String::new();
    let mut styles = String::new();
    let mut position = Position::FirstChild;
    <(Static<Hello>, Static<Hello>, Static<Hello>, Static<Hello>) as ToTemplate>::to_template(
        &mut buf,
        &mut classes,
        &mut styles,
        &mut position,
    );
    assert_eq!(buf, "Hello<!>Hello<!>Hello<!>Hello");
    assert_eq!(position, Position::NextChild);
}
