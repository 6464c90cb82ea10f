//! The `style` attribute.
use crate::html::attribute::Attribute;
use crate::html::class::{answer, ask, steady};
use vstd::prelude::*;
use vstd::string::*;

verus! {

/// A value that adds to the style of an element: a whole declaration, or a
/// property and its value.
pub trait IntoStyle {
    /// The text added to the style.
    spec fn spec_style(&self) -> Seq<char>;

    /// Whether the style can be written.
    spec fn style_ok(&self) -> bool;

    fn to_html(&self, style: &mut String)
        requires
            self.style_ok(),
        ensures
            final(style)@ == old(style)@ + self.spec_style(),
    ;
}

/// `text;`
pub open spec fn declaration(text: Seq<char>) -> Seq<char> {
    text + seq![';']
}

/// `name:value;`
pub open spec fn property_declaration(name: Seq<char>, value: Seq<char>) -> Seq<char> {
    name + seq![':'] + value + seq![';']
}

fn push_declaration(style: &mut String, text: &str)
    ensures
        final(style)@ == old(style)@ + declaration(text@),
{
    style.append(text);
    style.append(";");
    proof {
        reveal_strlit(";");
        assert(final(style)@ =~= old(style)@ + declaration(text@));
    }
}

fn push_property(style: &mut String, name: &str, value: &str)
    ensures
        final(style)@ == old(style)@ + property_declaration(name@, value@),
{
    style.append(name);
    style.append(":");
    style.append(value);
    style.append(";");
    proof {
        reveal_strlit(":");
        reveal_strlit(";");
        assert(final(style)@ =~= old(style)@ + property_declaration(name@, value@));
    }
}

impl<'a> IntoStyle for &'a str {
    open spec fn spec_style(&self) -> Seq<char> {
        declaration((*self)@)
    }

    open spec fn style_ok(&self) -> bool {
        true
    }

    fn to_html(&self, style: &mut String) {
        push_declaration(style, *self);
    }
}

impl IntoStyle for String {
    open spec fn spec_style(&self) -> Seq<char> {
        declaration(self@)
    }

    open spec fn style_ok(&self) -> bool {
        true
    }

    fn to_html(&self, style: &mut String) {
        push_declaration(style, self.as_str());
    }
}

impl<'a> IntoStyle for (&'a str, &'a str) {
    open spec fn spec_style(&self) -> Seq<char> {
        property_declaration(self.0@, self.1@)
    }

    open spec fn style_ok(&self) -> bool {
        true
    }

    fn to_html(&self, style: &mut String) {
        push_property(style, self.0, self.1);
    }
}

impl<'a> IntoStyle for (&'a str, String) {
    open spec fn spec_style(&self) -> Seq<char> {
        property_declaration(self.0@, self.1@)
    }

    open spec fn style_ok(&self) -> bool {
        true
    }

    fn to_html(&self, style: &mut String) {
        push_property(style, self.0, self.1.as_str());
    }
}

/// A property whose value a function gives.
impl<F: Fn() -> String> IntoStyle for (&'static str, F) {
    open spec fn spec_style(&self) -> Seq<char> {
        property_declaration(self.0@, answer(&self.1)@)
    }

    open spec fn style_ok(&self) -> bool {
        steady(&self.1)
    }

    fn to_html(&self, style: &mut String) {
        let value = ask(&self.1);
        push_property(style, self.0, value.as_str());
    }
}

/// Adds to the style of an element.
pub struct Style<S>(S);

impl<S> Style<S> {
    pub closed spec fn value(&self) -> &S {
        &self.0
    }
}

/// A `style` attribute made of the given value.
pub fn style<S: IntoStyle>(s: S) -> (r: Style<S>)
    ensures
        *r.value() == s,
{
    Style(s)
}

impl<S: IntoStyle> Attribute for Style<S> {
    open spec fn spec_attr(&self) -> (Seq<char>, Seq<char>, Seq<char>) {
        (Seq::empty(), Seq::empty(), self.value().spec_style())
    }

    open spec fn attr_ok(&self) -> bool {
        self.value().style_ok()
    }

    fn to_html(&self, buf: &mut String, class: &mut String, style: &mut String) {
        self.0.to_html(style);
        assert(buf@ =~= buf@ + Seq::<char>::empty());
        assert(class@ =~= class@ + Seq::<char>::empty());
    }
}

/// A style attribute adds its declarations to the style and nothing to the
/// attributes' text or the class list. Declaration text is written followed
/// by `;`; a property and a value are written as `name:value;`.
pub proof fn lemma_style_law<S: IntoStyle>(st: Style<S>, text: &str, owned: String, name: &str, value: &str, owned_value: String)
    ensures
        st.spec_attr() == (Seq::<char>::empty(), Seq::<char>::empty(), st.value().spec_style()),
        text.spec_style() == text@ + seq![';'],
        owned.spec_style() == owned@ + seq![';'],
        (name, value).spec_style() == name@ + seq![':'] + value@ + seq![';'],
        (name, owned_value).spec_style() == name@ + seq![':'] + owned_value@ + seq![';'],
{
}

} // verus!
