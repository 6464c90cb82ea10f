use tachys::html::attribute::{id, lang, Attribute};
use tachys::html::class::class;
use tachys::html::element::{em, main, p, AddAttribute, ElementChild};
use tachys::html::style::style;
use tachys::view::{Position, PositionState, RenderHtml};

#[test]
fn adds_simple_class() {
    let mut html = String::new();
    let el = p(class("foo bar"), ());
    el.to_html_with_buf(&mut html, &mut PositionState::new(Position::FirstChild));

    assert_eq!(html, r#"<p class="foo bar"></p>"#);
}

#[test]
fn adds_class_with_dynamic() {
    let mut html = String::new();
    let el = p((class("foo bar"), class(("baz", true))), ());
    el.to_html_with_buf(&mut html, &mut PositionState::new(Position::FirstChild));

    assert_eq!(html, r#"<p class="foo bar baz"></p>"#);
}

#[test]
fn adds_class_with_dynamic_and_function() {
    let mut html = String::new();
    let el = p((class("foo bar"), class(("baz", || true)), class(("boo", false))), ());
    el.to_html_with_buf(&mut html, &mut PositionState::new(Position::FirstChild));

    assert_eq!(html, r#"<p class="foo bar baz"></p>"#);
}

#[test]
fn adds_simple_style() {
    let mut html = String::new();
    let el = p(style("display: block"), ());
    el.to_html_with_buf(&mut html, &mut PositionState::new(Position::FirstChild));

    assert_eq!(html, r#"<p style="display: block;"></p>"#);
}

#[test]
fn mixes_plain_and_specific_styles() {
    let mut html = String::new();
    let el = p((style("display: block"), style(("color", "blue"))), ());
    el.to_html_with_buf(&mut html, &mut PositionState::new(Position::FirstChild));

    assert_eq!(html, r#"<p style="display: block;color:blue;"></p>"#);
}

#[test]
fn handles_dynamic_styles() {
    let mut html = String::new();
    let el = p(
        (
            style("display: block"),
            style(("color", "blue")),
            style(("font-weight", || "bold".to_string())),
        ),
        (),
    );
    el.to_html_with_buf(&mut html, &mut PositionState::new(Position::FirstChild));

    assert_eq!(html, r#"<p style="display: block;color:blue;font-weight:bold;"></p>"#);
}

#[test]
fn element_mock_dom_creates_element() {
    let el = main((), p(id("test"), "Hello, world!"));
    assert_eq!(el.to_html(), "<main><p id=\"test\">Hello, world!</p></main>");
}

#[test]
fn element_mock_dom_creates_element_with_several_children() {
    let el = main((), p((), ("Hello, ", em((), "beautiful"), " world!")));
    assert_eq!(el.to_html(), "<main><p>Hello, <em>beautiful</em> world!</p></main>");
}

#[test]
fn mod_mock_dom_creates_element() {
    let el = main((), ()).child(
        p((), ()).add_attr(id("test")).add_attr(lang("en")).child("Hello, world!"),
    );
    assert_eq!(el.to_html(), "<main><p id=\"test\" lang=\"en\">Hello, world!</p></main>");
}

#[test]
fn mod_mock_dom_creates_element_with_several_children() {
    let el = main((), ()).child(p((), ()).child(("Hello, ", em((), ()).child("beautiful"), " world!")));
    assert_eq!(el.to_html(), "<main><p>Hello, <em>beautiful</em> world!</p></main>");
}

#[test]
fn class_and_style_gathered_after_other_attributes() {
    let el = p((class("a"), id("x"), style("color: red")), "t");
    assert_eq!(el.to_html(), r#"<p id="x" class="a" style="color: red;">t</p>"#);
}

#[test]
fn class_list_is_trimmed() {
    let el = p((class(("off", false)), class("  on ")), ());
    assert_eq!(el.to_html(), r#"<p class="on"></p>"#);
}

#[test]
fn attribute_appends_to_three_texts() {
    let mut buf = String::new();
    let mut classes = String::new();
    let mut styles = String::new();
    (id("i"), class("c"), style("s")).to_html(&mut buf, &mut classes, &mut styles);
    assert_eq!(buf, r#" id="i""#);
    assert_eq!(classes, " c");
    assert_eq!(styles, "s;");
}

#[test]
fn many_attributes_are_written_in_order() {
    let mut buf = String::new();
    let mut classes = String::new();
    let mut styles = String::new();
    (id("i"), class("c"), lang("en"), style("s"), class("d"), id("j"))
        .to_html(&mut buf, &mut classes, &mut styles);
    assert_eq!(buf, r#" id="i" lang="en" id="j""#);
    assert_eq!(classes, " c d");
    assert_eq!(styles, "s;");
}
