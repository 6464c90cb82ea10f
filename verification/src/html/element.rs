//! HTML elements.
use crate::html::attribute::Attribute;
use crate::view::{Position, PositionState, RenderHtml, ToTemplate};
use std::marker::PhantomData;
use vstd::prelude::*;
use vstd::string::*;

verus! {

/// Characters with the Unicode `White_Space` property.
pub open spec fn is_ws(c: char) -> bool {
    ('\u{9}' <= c && c <= '\u{d}') || c == ' ' || c == '\u{85}' || c == '\u{a0}' || c
        == '\u{1680}' || ('\u{2000}' <= c && c <= '\u{200a}') || c == '\u{2028}' || c == '\u{2029}'
        || c == '\u{202f}' || c == '\u{205f}' || c == '\u{3000}'
}

/// Whether a character is white space.
pub fn is_whitespace(c: char) -> (b: bool)
    ensures
        b == is_ws(c),
{
    ('\u{9}' <= c && c <= '\u{d}') || c == ' ' || c == '\u{85}' || c == '\u{a0}' || c
        == '\u{1680}' || ('\u{2000}' <= c && c <= '\u{200a}') || c == '\u{2028}' || c == '\u{2029}'
        || c == '\u{202f}' || c == '\u{205f}' || c == '\u{3000}'
}

/// The number of white-space characters at the start of `s`.
pub open spec fn lead_ws(s: Seq<char>) -> nat
    decreases s.len(),
{
    if s.len() == 0 || !is_ws(s[0]) {
        0
    } else {
        1 + lead_ws(s.drop_first())
    }
}

/// The number of white-space characters at the end of `s`.
pub open spec fn trail_ws(s: Seq<char>) -> nat
    decreases s.len(),
{
    if s.len() == 0 || !is_ws(s.last()) {
        0
    } else {
        1 + trail_ws(s.drop_last())
    }
}

/// `s` without white space at its start and its end.
pub open spec fn trimmed(s: Seq<char>) -> Seq<char> {
    let a = s.skip(lead_ws(s) as int);
    a.take(a.len() - trail_ws(a))
}

proof fn lemma_lead_ws(s: Seq<char>, k: int)
    requires
        0 <= k <= s.len(),
        forall|j: int| 0 <= j < k ==> is_ws(s[j]),
        k == s.len() || !is_ws(s[k]),
    ensures
        lead_ws(s) == k,
    decreases k,
{
    if k > 0 {
        assert forall|j: int| 0 <= j < k - 1 implies is_ws(s.drop_first()[j]) by {
            assert(s.drop_first()[j] == s[j + 1]);
        }
        if k - 1 < s.drop_first().len() {
            assert(s.drop_first()[k - 1] == s[k]);
        }
        lemma_lead_ws(s.drop_first(), k - 1);
    }
}

proof fn lemma_trail_ws(s: Seq<char>, k: int)
    requires
        0 <= k <= s.len(),
        forall|j: int| k <= j < s.len() ==> is_ws(s[j]),
        k == 0 || !is_ws(s[k - 1]),
    ensures
        trail_ws(s) == s.len() - k,
    decreases s.len() - k,
{
    if k < s.len() {
        let d = s.drop_last();
        assert forall|j: int| k <= j < d.len() implies is_ws(d[j]) by {
            assert(d[j] == s[j]);
        }
        if k > 0 {
            assert(d[k - 1] == s[k - 1]);
        }
        lemma_trail_ws(d, k);
    }
}

/// Removes white space from the start and the end of a string.
pub fn trim(s: &str) -> (r: &str)
    ensures
        r@ == trimmed(s@),
{
    let n = s.unicode_len();
    let mut i: usize = 0;
    while i < n && is_whitespace(s.get_char(i))
        invariant
            n == s@.len(),
            i <= n,
            forall|j: int| 0 <= j < i ==> is_ws(s@[j]),
        decreases n - i,
    {
        i = i + 1;
    }
    proof {
        lemma_lead_ws(s@, i as int);
    }
    let mut j: usize = n;
    while j > i && is_whitespace(s.get_char(j - 1))
        invariant
            n == s@.len(),
            i <= j <= n,
            forall|k: int| j <= k < n ==> is_ws(s@[k]),
        decreases j,
    {
        j = j - 1;
    }
    proof {
        let a = s@.skip(i as int);
        assert forall|k: int| j - i <= k < a.len() implies is_ws(a[k]) by {
            assert(a[k] == s@[i + k]);
        }
        if j > i {
            assert(a[j - i - 1] == s@[j - 1]);
        }
        lemma_trail_ws(a, j - i);
        assert(a.take(a.len() - trail_ws(a)) =~= s@.subrange(i as int, j as int));
    }
    s.substring_char(i, j)
}

/// The kind of an element: its tag name, and whether it has children.
pub trait ElementType {
    spec fn spec_tag() -> Seq<char>;

    spec fn spec_self_closing() -> bool;

    fn tag() -> (t: &'static str)
        ensures
            t@ == Self::spec_tag(),
    ;

    fn self_closing() -> (b: bool)
        ensures
            b == Self::spec_self_closing(),
    ;
}

/// An HTML element of kind `E`, with its attributes and its children.
pub struct HtmlElement<E, At, Ch> {
    pub ty: PhantomData<E>,
    pub attributes: At,
    pub children: Ch,
}

/// An element to which a child can be added after its other children.
pub trait ElementChild<NewChild> {
    type Output;

    fn child(self, child: NewChild) -> Self::Output;
}

impl<E, At, NewChild> ElementChild<NewChild> for HtmlElement<E, At, ()> {
    type Output = HtmlElement<E, At, (NewChild,)>;

    fn child(self, child: NewChild) -> (r: HtmlElement<E, At, (NewChild,)>)
        ensures
            r.attributes == self.attributes,
            r.children == (child,),
    {
        HtmlElement { ty: PhantomData, attributes: self.attributes, children: (child,) }
    }
}

impl<E, At, A, NewChild> ElementChild<NewChild> for HtmlElement<E, At, (A,)> {
    type Output = HtmlElement<E, At, (A, NewChild)>;

    fn child(self, child: NewChild) -> (r: HtmlElement<E, At, (A, NewChild)>)
        ensures
            r.attributes == self.attributes,
            r.children == (self.children.0, child),
    {
        let (a,) = self.children;
        HtmlElement { ty: PhantomData, attributes: self.attributes, children: (a, child) }
    }
}

impl<E, At, A, B, NewChild> ElementChild<NewChild> for HtmlElement<E, At, (A, B)> {
    type Output = HtmlElement<E, At, (A, B, NewChild)>;

    fn child(self, child: NewChild) -> (r: HtmlElement<E, At, (A, B, NewChild)>)
        ensures
            r.attributes == self.attributes,
            r.children == (self.children.0, self.children.1, child),
    {
        let (a, b) = self.children;
        HtmlElement { ty: PhantomData, attributes: self.attributes, children: (a, b, child) }
    }
}

/// Something to which an attribute can be added after its other attributes.
pub trait AddAttribute<NewAttr> {
    type Output;

    fn add_attr(self, attr: NewAttr) -> Self::Output;
}

impl<E, Ch, NewAttr> AddAttribute<NewAttr> for HtmlElement<E, (), Ch> {
    type Output = HtmlElement<E, (NewAttr,), Ch>;

    fn add_attr(self, attr: NewAttr) -> (r: HtmlElement<E, (NewAttr,), Ch>)
        ensures
            r.attributes == (attr,),
            r.children == self.children,
    {
        HtmlElement { ty: PhantomData, attributes: (attr,), children: self.children }
    }
}

impl<E, A, Ch, NewAttr> AddAttribute<NewAttr> for HtmlElement<E, (A,), Ch> {
    type Output = HtmlElement<E, (A, NewAttr), Ch>;

    fn add_attr(self, attr: NewAttr) -> (r: HtmlElement<E, (A, NewAttr), Ch>)
        ensures
            r.attributes == (self.attributes.0, attr),
            r.children == self.children,
    {
        let (a,) = self.attributes;
        HtmlElement { ty: PhantomData, attributes: (a, attr), children: self.children }
    }
}

impl<E, A, B, Ch, NewAttr> AddAttribute<NewAttr> for HtmlElement<E, (A, B), Ch> {
    type Output = HtmlElement<E, (A, B, NewAttr), Ch>;

    fn add_attr(self, attr: NewAttr) -> (r: HtmlElement<E, (A, B, NewAttr), Ch>)
        ensures
            r.attributes == (self.attributes.0, self.attributes.1, attr),
            r.children == self.children,
    {
        let (a, b) = self.attributes;
        HtmlElement { ty: PhantomData, attributes: (a, b, attr), children: self.children }
    }
}

/// ` name="value"` for a class list or style gathered from the attributes,
/// white space trimmed, or nothing when nothing was gathered.
pub open spec fn gathered(name: Seq<char>, text: Seq<char>) -> Seq<char> {
    if text.len() > 0 {
        seq![' '] + name + seq!['=', '"'] + trimmed(text) + seq!['"']
    } else {
        Seq::empty()
    }
}

pub open spec fn class_name() -> Seq<char> {
    seq!['c', 'l', 'a', 's', 's']
}

pub open spec fn style_name() -> Seq<char> {
    seq!['s', 't', 'y', 'l', 'e']
}

/// The opening tag of an element with the given attribute contributions.
pub open spec fn open_tag(tag: Seq<char>, attrs: (Seq<char>, Seq<char>, Seq<char>)) -> Seq<char> {
    seq!['<'] + tag + attrs.0 + gathered(class_name(), attrs.1) + gathered(style_name(), attrs.2)
        + seq!['>']
}

/// The closing tag of an element.
pub open spec fn close_tag(tag: Seq<char>) -> Seq<char> {
    seq!['<', '/'] + tag + seq!['>']
}

/// The HTML of an element: its opening tag and, unless it has no children,
/// its children written from a first-child position and its closing tag.
pub open spec fn element_html(
    tag: Seq<char>,
    self_closing: bool,
    attrs: (Seq<char>, Seq<char>, Seq<char>),
    children: (Seq<char>, Position),
    position: Position,
) -> (Seq<char>, Position) {
    if self_closing {
        (open_tag(tag, attrs), position)
    } else {
        (open_tag(tag, attrs) + children.0 + close_tag(tag), children.1)
    }
}

fn push_gathered(buf: &mut String, name: &str, text: &String)
    ensures
        final(buf)@ == old(buf)@ + gathered(name@, text@),
{
    if !text.as_str().is_empty() {
        buf.append(" ");
        buf.append(name);
        buf.append("=\"");
        buf.append(trim(text.as_str()));
        buf.append("\"");
        proof {
            reveal_strlit(" ");
            reveal_strlit("=\"");
            reveal_strlit("\"");
            assert(final(buf)@ =~= old(buf)@ + gathered(name@, text@));
        }
    } else {
        assert(buf@ =~= buf@ + Seq::<char>::empty());
    }
}

impl<E: ElementType, At: Attribute, Ch: RenderHtml> RenderHtml for HtmlElement<E, At, Ch> {
    open spec fn spec_html(&self, position: Position) -> (Seq<char>, Position) {
        element_html(
            E::spec_tag(),
            E::spec_self_closing(),
            self.attributes.spec_attr(),
            self.children.spec_html(Position::FirstChild),
            position,
        )
    }

    open spec fn html_ok(&self) -> bool {
        self.attributes.attr_ok() && self.children.html_ok()
    }

    fn to_html_with_buf(self, buf: &mut String, position: &mut PositionState) {
        let tag = E::tag();
        buf.append("<");
        buf.append(tag);
        let mut class = String::new();
        let mut style = String::new();
        self.attributes.to_html(buf, &mut class, &mut style);
        proof {
            reveal_strlit("<");
            assert(class@ =~= self.attributes.spec_attr().1);
            assert(style@ =~= self.attributes.spec_attr().2);
        }
        push_gathered(buf, "class", &class);
        push_gathered(buf, "style", &style);
        buf.append(">");
        proof {
            reveal_strlit(">");
            reveal_strlit("class");
            reveal_strlit("style");
            assert("class"@ =~= class_name());
            assert("style"@ =~= style_name());
            assert(buf@ =~= old(buf)@ + open_tag(E::spec_tag(), self.attributes.spec_attr()));
        }
        if !E::self_closing() {
            let ghost before = buf@;
            position.set(Position::FirstChild);
            self.children.to_html_with_buf(buf, position);
            buf.append("</");
            buf.append(tag);
            buf.append(">");
            proof {
                reveal_strlit("</");
                assert(buf@ =~= old(buf)@ + self.spec_html(old(position).value()).0);
            }
        }
    }
}

/// The template of an element: its opening tag around the attributes'
/// template, its children's template from a first-child position, its closing
/// tag; a next child follows.
impl<E: ElementType, At: ToTemplate, Ch: ToTemplate> ToTemplate for HtmlElement<E, At, Ch> {
    open spec fn template_ok() -> bool {
        At::template_ok() && Ch::template_ok()
    }

    open spec fn spec_template(position: Position) -> (Seq<char>, Seq<char>, Seq<char>, Position) {
        let a = At::spec_template(position);
        let c = Ch::spec_template(Position::FirstChild);
        (
            seq!['<'] + E::spec_tag() + a.0 + seq!['>'] + c.0 + close_tag(E::spec_tag()),
            a.1 + c.1,
            a.2 + c.2,
            Position::NextChild,
        )
    }

    fn to_template(
        buf: &mut String,
        class: &mut String,
        style: &mut String,
        position: &mut Position,
    ) {
        let tag = E::tag();
        buf.append("<");
        buf.append(tag);
        At::to_template(buf, class, style, position);
        buf.append(">");
        *position = Position::FirstChild;
        Ch::to_template(buf, class, style, position);
        buf.append("</");
        buf.append(tag);
        buf.append(">");
        *position = Position::NextChild;
        proof {
            reveal_strlit("<");
            reveal_strlit(">");
            reveal_strlit("</");
            assert(buf@ =~= old(buf)@ + Self::spec_template(*old(position)).0);
            assert(class@ =~= old(class)@ + Self::spec_template(*old(position)).1);
            assert(style@ =~= old(style)@ + Self::spec_template(*old(position)).2);
        }
    }
}

/// What a mounted element keeps: the element node, and the states of its
/// attributes and children.
pub struct ElementState<At, Ch, El> {
    pub el: El,
    pub attrs: At,
    pub children: Ch,
}

/// The `<p>` element.
#[derive(Debug, Copy, Clone, PartialEq, Eq)]
pub struct P;

impl ElementType for P {
    open spec fn spec_tag() -> Seq<char> {
        seq!['p']
    }

    open spec fn spec_self_closing() -> bool {
        false
    }

    fn tag() -> (t: &'static str) {
        proof {
            reveal_strlit("p");
        }
        "p"
    }

    fn self_closing() -> (b: bool) {
        false
    }
}

/// A `<p>` element with the given attributes and children.
pub fn p<At: Attribute, Ch: RenderHtml>(attributes: At, children: Ch) -> (r: HtmlElement<P, At, Ch>)
    ensures
        r.attributes == attributes,
        r.children == children,
{
    HtmlElement { ty: PhantomData, attributes, children }
}

/// The `<em>` element.
#[derive(Debug, Copy, Clone, PartialEq, Eq)]
pub struct Em;

impl ElementType for Em {
    open spec fn spec_tag() -> Seq<char> {
        seq!['e', 'm']
    }

    open spec fn spec_self_closing() -> bool {
        false
    }

    fn tag() -> (t: &'static str) {
        proof {
            reveal_strlit("em");
        }
        "em"
    }

    fn self_closing() -> (b: bool) {
        false
    }
}

/// A `<em>` element with the given attributes and children.
pub fn em<At: Attribute, Ch: RenderHtml>(attributes: At, children: Ch) -> (r: HtmlElement<Em, At, Ch>)
    ensures
        r.attributes == attributes,
        r.children == children,
{
    HtmlElement { ty: PhantomData, attributes, children }
}

/// The `<main>` element.
#[derive(Debug, Copy, Clone, PartialEq, Eq)]
pub struct Main;

impl ElementType for Main {
    open spec fn spec_tag() -> Seq<char> {
        seq!['m', 'a', 'i', 'n']
    }

    open spec fn spec_self_closing() -> bool {
        false
    }

    fn tag() -> (t: &'static str) {
        proof {
            reveal_strlit("main");
        }
        "main"
    }

    fn self_closing() -> (b: bool) {
        false
    }
}

/// A `<main>` element with the given attributes and children.
pub fn main<At: Attribute, Ch: RenderHtml>(attributes: At, children: Ch) -> (r: HtmlElement<Main, At, Ch>)
    ensures
        r.attributes == attributes,
        r.children == children,
{
    HtmlElement { ty: PhantomData, attributes, children }
}

/// The `<span>` element.
#[derive(Debug, Copy, Clone, PartialEq, Eq)]
pub struct Span;

impl ElementType for Span {
    open spec fn spec_tag() -> Seq<char> {
        seq!['s', 'p', 'a', 'n']
    }

    open spec fn spec_self_closing() -> bool {
        false
    }

    fn tag() -> (t: &'static str) {
        proof {
            reveal_strlit("span");
        }
        "span"
    }

    fn self_closing() -> (b: bool) {
        false
    }
}

/// A `<span>` element with the given attributes and children.
pub fn span<At: Attribute, Ch: RenderHtml>(attributes: At, children: Ch) -> (r: HtmlElement<Span, At, Ch>)
    ensures
        r.attributes == attributes,
        r.children == children,
{
    HtmlElement { ty: PhantomData, attributes, children }
}

/// The `<div>` element.
#[derive(Debug, Copy, Clone, PartialEq, Eq)]
pub struct Div;

impl ElementType for Div {
    open spec fn spec_tag() -> Seq<char> {
        seq!['d', 'i', 'v']
    }

    open spec fn spec_self_closing() -> bool {
        false
    }

    fn tag() -> (t: &'static str) {
        proof {
            reveal_strlit("div");
        }
        "div"
    }

    fn self_closing() -> (b: bool) {
        false
    }
}

/// A `<div>` element with the given attributes and children.
pub fn div<At: Attribute, Ch: RenderHtml>(attributes: At, children: Ch) -> (r: HtmlElement<Div, At, Ch>)
    ensures
        r.attributes == attributes,
        r.children == children,
{
    HtmlElement { ty: PhantomData, attributes, children }
}

/// The `<button>` element.
#[derive(Debug, Copy, Clone, PartialEq, Eq)]
pub struct Button;

impl ElementType for Button {
    open spec fn spec_tag() -> Seq<char> {
        seq!['b', 'u', 't', 't', 'o', 'n']
    }

    open spec fn spec_self_closing() -> bool {
        false
    }

    fn tag() -> (t: &'static str) {
        proof {
            reveal_strlit("button");
        }
        "button"
    }

    fn self_closing() -> (b: bool) {
        false
    }
}

/// A `<button>` element with the given attributes and children.
pub fn button<At: Attribute, Ch: RenderHtml>(attributes: At, children: Ch) -> (r: HtmlElement<Button, At, Ch>)
    ensures
        r.attributes == attributes,
        r.children == children,
{
    HtmlElement { ty: PhantomData, attributes, children }
}

/// The `<a>` element.
#[derive(Debug, Copy, Clone, PartialEq, Eq)]
pub struct A;

impl ElementType for A {
    open spec fn spec_tag() -> Seq<char> {
        seq!['a']
    }

    open spec fn spec_self_closing() -> bool {
        false
    }

    fn tag() -> (t: &'static str) {
        proof {
            reveal_strlit("a");
        }
        "a"
    }

    fn self_closing() -> (b: bool) {
        false
    }
}

/// A `<a>` element with the given attributes and children.
pub fn a<At: Attribute, Ch: RenderHtml>(attributes: At, children: Ch) -> (r: HtmlElement<A, At, Ch>)
    ensures
        r.attributes == attributes,
        r.children == children,
{
    HtmlElement { ty: PhantomData, attributes, children }
}

/// The `<ul>` element.
#[derive(Debug, Copy, Clone, PartialEq, Eq)]
pub struct Ul;

impl ElementType for Ul {
    open spec fn spec_tag() -> Seq<char> {
        seq!['u', 'l']
    }

    open spec fn spec_self_closing() -> bool {
        false
    }

    fn tag() -> (t: &'static str) {
        proof {
            reveal_strlit("ul");
        }
        "ul"
    }

    fn self_closing() -> (b: bool) {
        false
    }
}

/// A `<ul>` element with the given attributes and children.
pub fn ul<At: Attribute, Ch: RenderHtml>(attributes: At, children: Ch) -> (r: HtmlElement<Ul, At, Ch>)
    ensures
        r.attributes == attributes,
        r.children == children,
{
    HtmlElement { ty: PhantomData, attributes, children }
}

/// The `<li>` element.
#[derive(Debug, Copy, Clone, PartialEq, Eq)]
pub struct Li;

impl ElementType for Li {
    open spec fn spec_tag() -> Seq<char> {
        seq!['l', 'i']
    }

    open spec fn spec_self_closing() -> bool {
        false
    }

    fn tag() -> (t: &'static str) {
        proof {
            reveal_strlit("li");
        }
        "li"
    }

    fn self_closing() -> (b: bool) {
        false
    }
}

/// A `<li>` element with the given attributes and children.
pub fn li<At: Attribute, Ch: RenderHtml>(attributes: At, children: Ch) -> (r: HtmlElement<Li, At, Ch>)
    ensures
        r.attributes == attributes,
        r.children == children,
{
    HtmlElement { ty: PhantomData, attributes, children }
}

/// The `<h1>` element.
#[derive(Debug, Copy, Clone, PartialEq, Eq)]
pub struct H1;

impl ElementType for H1 {
    open spec fn spec_tag() -> Seq<char> {
        seq!['h', '1']
    }

    open spec fn spec_self_closing() -> bool {
        false
    }

    fn tag() -> (t: &'static str) {
        proof {
            reveal_strlit("h1");
        }
        "h1"
    }

    fn self_closing() -> (b: bool) {
        false
    }
}

/// A `<h1>` element with the given attributes and children.
pub fn h1<At: Attribute, Ch: RenderHtml>(attributes: At, children: Ch) -> (r: HtmlElement<H1, At, Ch>)
    ensures
        r.attributes == attributes,
        r.children == children,
{
    HtmlElement { ty: PhantomData, attributes, children }
}

/// The `<section>` element.
#[derive(Debug, Copy, Clone, PartialEq, Eq)]
pub struct Section;

impl ElementType for Section {
    open spec fn spec_tag() -> Seq<char> {
        seq!['s', 'e', 'c', 't', 'i', 'o', 'n']
    }

    open spec fn spec_self_closing() -> bool {
        false
    }

    fn tag() -> (t: &'static str) {
        proof {
            reveal_strlit("section");
        }
        "section"
    }

    fn self_closing() -> (b: bool) {
        false
    }
}

/// A `<section>` element with the given attributes and children.
pub fn section<At: Attribute, Ch: RenderHtml>(attributes: At, children: Ch) -> (r: HtmlElement<Section, At, Ch>)
    ensures
        r.attributes == attributes,
        r.children == children,
{
    HtmlElement { ty: PhantomData, attributes, children }
}

/// The `<strong>` element.
#[derive(Debug, Copy, Clone, PartialEq, Eq)]
pub struct Strong;

impl ElementType for Strong {
    open spec fn spec_tag() -> Seq<char> {
        seq!['s', 't', 'r', 'o', 'n', 'g']
    }

    open spec fn spec_self_closing() -> bool {
        false
    }

    fn tag() -> (t: &'static str) {
        proof {
            reveal_strlit("strong");
        }
        "strong"
    }

    fn self_closing() -> (b: bool) {
        false
    }
}

/// A `<strong>` element with the given attributes and children.
pub fn strong<At: Attribute, Ch: RenderHtml>(attributes: At, children: Ch) -> (r: HtmlElement<Strong, At, Ch>)
    ensures
        r.attributes == attributes,
        r.children == children,
{
    HtmlElement { ty: PhantomData, attributes, children }
}

/// The `<br>` element, which has no children.
#[derive(Debug, Copy, Clone, PartialEq, Eq)]
pub struct Br;

impl ElementType for Br {
    open spec fn spec_tag() -> Seq<char> {
        seq!['b', 'r']
    }

    open spec fn spec_self_closing() -> bool {
        true
    }

    fn tag() -> (t: &'static str) {
        proof {
            reveal_strlit("br");
        }
        "br"
    }

    fn self_closing() -> (b: bool) {
        true
    }
}

/// A `<br>` element with the given attributes.
pub fn br<At: Attribute>(attributes: At) -> (r: HtmlElement<Br, At, ()>)
    ensures
        r.attributes == attributes,
{
    HtmlElement { ty: PhantomData, attributes, children: () }
}

/// The `<hr>` element, which has no children.
#[derive(Debug, Copy, Clone, PartialEq, Eq)]
pub struct Hr;

impl ElementType for Hr {
    open spec fn spec_tag() -> Seq<char> {
        seq!['h', 'r']
    }

    open spec fn spec_self_closing() -> bool {
        true
    }

    fn tag() -> (t: &'static str) {
        proof {
            reveal_strlit("hr");
        }
        "hr"
    }

    fn self_closing() -> (b: bool) {
        true
    }
}

/// A `<hr>` element with the given attributes.
pub fn hr<At: Attribute>(attributes: At) -> (r: HtmlElement<Hr, At, ()>)
    ensures
        r.attributes == attributes,
{
    HtmlElement { ty: PhantomData, attributes, children: () }
}

/// The `<img>` element, which has no children.
#[derive(Debug, Copy, Clone, PartialEq, Eq)]
pub struct Img;

impl ElementType for Img {
    open spec fn spec_tag() -> Seq<char> {
        seq!['i', 'm', 'g']
    }

    open spec fn spec_self_closing() -> bool {
        true
    }

    fn tag() -> (t: &'static str) {
        proof {
            reveal_strlit("img");
        }
        "img"
    }

    fn self_closing() -> (b: bool) {
        true
    }
}

/// A `<img>` element with the given attributes.
pub fn img<At: Attribute>(attributes: At) -> (r: HtmlElement<Img, At, ()>)
    ensures
        r.attributes == attributes,
{
    HtmlElement { ty: PhantomData, attributes, children: () }
}

/// The `<input>` element, which has no children.
#[derive(Debug, Copy, Clone, PartialEq, Eq)]
pub struct Input;

impl ElementType for Input {
    open spec fn spec_tag() -> Seq<char> {
        seq!['i', 'n', 'p', 'u', 't']
    }

    open spec fn spec_self_closing() -> bool {
        true
    }

    fn tag() -> (t: &'static str) {
        proof {
            reveal_strlit("input");
        }
        "input"
    }

    fn self_closing() -> (b: bool) {
        true
    }
}

/// A `<input>` element with the given attributes.
pub fn input<At: Attribute>(attributes: At) -> (r: HtmlElement<Input, At, ()>)
    ensures
        r.attributes == attributes,
{
    HtmlElement { ty: PhantomData, attributes, children: () }
}

/// The `<option>` element.
#[derive(Debug, Copy, Clone, PartialEq, Eq)]
pub struct Option_;

impl ElementType for Option_ {
    open spec fn spec_tag() -> Seq<char> {
        seq!['o', 'p', 't', 'i', 'o', 'n']
    }

    open spec fn spec_self_closing() -> bool {
        false
    }

    fn tag() -> (t: &'static str) {
        proof {
            reveal_strlit("option");
        }
        "option"
    }

    fn self_closing() -> (b: bool) {
        false
    }
}

/// An `<option>` element with the given attributes and children.
pub fn option<At: Attribute, Ch: RenderHtml>(attributes: At, children: Ch) -> (r: HtmlElement<
    Option_,
    At,
    Ch,
>)
    ensures
        r.attributes == attributes,
        r.children == children,
{
    HtmlElement { ty: PhantomData, attributes, children }
}

/// An element's HTML is `<`, its tag, its attributes' text, its gathered
/// class list and style, `>`; then, unless the element closes itself, its
/// children written from a first-child position, `</`, its tag and `>`. A
/// self-closing element leaves the position as it was; any other leaves it
/// where its children left it.
pub proof fn lemma_element_html_law<E: ElementType, At: Attribute, Ch: RenderHtml>(
    el: HtmlElement<E, At, Ch>,
    position: Position,
)
    ensures
        ({
            let tag = E::spec_tag();
            let at = el.attributes.spec_attr();
            let ch = el.children.spec_html(Position::FirstChild);
            let opening = seq!['<'] + tag + at.0 + gathered(seq!['c', 'l', 'a', 's', 's'], at.1)
                + gathered(seq!['s', 't', 'y', 'l', 'e'], at.2) + seq!['>'];
            &&& E::spec_self_closing() ==> el.spec_html(position) == (opening, position)
            &&& !E::spec_self_closing() ==> el.spec_html(position) == (
                opening + ch.0 + seq!['<', '/'] + tag + seq!['>'],
                ch.1,
            )
        }),
        el.html_ok() == (el.attributes.attr_ok() && el.children.html_ok()),
{
    let tag = E::spec_tag();
    let at = el.attributes.spec_attr();
    let ch = el.children.spec_html(Position::FirstChild);
    let opening = seq!['<'] + tag + at.0 + gathered(seq!['c', 'l', 'a', 's', 's'], at.1)
        + gathered(seq!['s', 't', 'y', 'l', 'e'], at.2) + seq!['>'];
    assert(class_name() =~= seq!['c', 'l', 'a', 's', 's']);
    assert(style_name() =~= seq!['s', 't', 'y', 'l', 'e']);
    assert(open_tag(tag, at) =~= opening);
    assert(open_tag(tag, at) + ch.0 + close_tag(tag) =~= opening + ch.0 + seq!['<', '/'] + tag
        + seq!['>']);
}

/// A gathered class list or style is written as a space, its name, `="`, the
/// text trimmed and `"`; when nothing was gathered, nothing is written.
pub proof fn lemma_gathered_law(name: Seq<char>, text: Seq<char>)
    ensures
        text.len() == 0 ==> gathered(name, text) == Seq::<char>::empty(),
        text.len() > 0 ==> gathered(name, text) == seq![' '] + name + seq!['=', '"'] + trimmed(text)
            + seq!['"'],
{
}

/// The tag names of the elements, and which of them close themselves.
pub proof fn lemma_element_tags()
    ensures
        P::spec_tag() == seq!['p'],
        P::spec_self_closing() == false,
        Em::spec_tag() == seq!['e', 'm'],
        Em::spec_self_closing() == false,
        Main::spec_tag() == seq!['m', 'a', 'i', 'n'],
        Main::spec_self_closing() == false,
        Span::spec_tag() == seq!['s', 'p', 'a', 'n'],
        Span::spec_self_closing() == false,
        Div::spec_tag() == seq!['d', 'i', 'v'],
        Div::spec_self_closing() == false,
        Button::spec_tag() == seq!['b', 'u', 't', 't', 'o', 'n'],
        Button::spec_self_closing() == false,
        A::spec_tag() == seq!['a'],
        A::spec_self_closing() == false,
        Ul::spec_tag() == seq!['u', 'l'],
        Ul::spec_self_closing() == false,
        Li::spec_tag() == seq!['l', 'i'],
        Li::spec_self_closing() == false,
        H1::spec_tag() == seq!['h', '1'],
        H1::spec_self_closing() == false,
        Section::spec_tag() == seq!['s', 'e', 'c', 't', 'i', 'o', 'n'],
        Section::spec_self_closing() == false,
        Strong::spec_tag() == seq!['s', 't', 'r', 'o', 'n', 'g'],
        Strong::spec_self_closing() == false,
        Br::spec_tag() == seq!['b', 'r'],
        Br::spec_self_closing() == true,
        Hr::spec_tag() == seq!['h', 'r'],
        Hr::spec_self_closing() == true,
        Img::spec_tag() == seq!['i', 'm', 'g'],
        Img::spec_self_closing() == true,
        Input::spec_tag() == seq!['i', 'n', 'p', 'u', 't'],
        Input::spec_self_closing() == true,
        Option_::spec_tag() == seq!['o', 'p', 't', 'i', 'o', 'n'],
        Option_::spec_self_closing() == false,
{
}

/// The template of an element is `<`, its tag, its attributes' template text,
/// `>`, its children's template from a first-child position, `</`, its tag
/// and `>`; class and style are those of its attributes and children, and a
/// next child follows.
pub proof fn lemma_element_template_law<E: ElementType, At: ToTemplate, Ch: ToTemplate>(
    position: Position,
)
    ensures
        ({
            let tag = E::spec_tag();
            let a = At::spec_template(position);
            let c = Ch::spec_template(Position::FirstChild);
            <HtmlElement<E, At, Ch> as ToTemplate>::spec_template(position) == (
                seq!['<'] + tag + a.0 + seq!['>'] + c.0 + seq!['<', '/'] + tag + seq!['>'],
                a.1 + c.1,
                a.2 + c.2,
                Position::NextChild,
            )
        }),
{
    let tag = E::spec_tag();
    let a = At::spec_template(position);
    let c = Ch::spec_template(Position::FirstChild);
    assert(<HtmlElement<E, At, Ch> as ToTemplate>::spec_template(position).0 =~= seq!['<'] + tag
        + a.0 + seq!['>'] + c.0 + seq!['<', '/'] + tag + seq!['>']);
}

} // verus!
