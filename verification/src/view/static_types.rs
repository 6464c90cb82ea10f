//! Views and attributes whose text is fixed by their type.
use crate::html::attribute::value::keyed_html;
use crate::html::attribute::{Attribute, AttributeKey, AttributeValue};
use crate::view::strings::text_html;
use crate::view::{marker, push_marker, Position, PositionState, RenderHtml, ToTemplate};
use core::marker::PhantomData;
use vstd::prelude::*;
use vstd::string::*;

verus! {

/// A text known from a type alone.
pub trait StaticText {
    fn text() -> &'static str;
}

/// Whether the type gives the same text on every call.
pub open spec fn steady_text<V: StaticText>() -> bool {
    &&& call_requires(V::text, ())
    &&& forall|a: &'static str, b: &'static str|
        #![trigger call_ensures(V::text, (), a), call_ensures(V::text, (), b)]
        call_ensures(V::text, (), a) && call_ensures(V::text, (), b) ==> a@ == b@
}

/// The text the type gives.
pub open spec fn static_text<V: StaticText>() -> Seq<char> {
    (choose|t: &'static str| call_ensures(V::text, (), t))@
}

/// Reads the type's text.
fn read_text<V: StaticText>() -> (t: &'static str)
    requires
        steady_text::<V>(),
    ensures
        t@ == static_text::<V>(),
{
    let t = V::text();
    assert(call_ensures(V::text, (), t));
    t
}

/// An attribute whose key and value are both known from its type.
#[derive(Debug)]
pub struct StaticAttr<K, V> {
    key: PhantomData<K>,
    value: PhantomData<V>,
}

/// The attribute with key `K` and value `V`.
pub fn static_attr<K: AttributeKey, V: StaticText>() -> (r: StaticAttr<K, V>) {
    StaticAttr { key: PhantomData, value: PhantomData }
}

impl<K: AttributeKey, V: StaticText> ToTemplate for StaticAttr<K, V> {
    open spec fn template_ok() -> bool {
        steady_text::<V>()
    }

    /// ` key="value"`, written into the template itself.
    open spec fn spec_template(position: Position) -> (Seq<char>, Seq<char>, Seq<char>, Position) {
        (keyed_html(K::spec_key(), static_text::<V>()), Seq::empty(), Seq::empty(), position)
    }

    fn to_template(
        buf: &mut String,
        class: &mut String,
        style: &mut String,
        position: &mut Position,
    ) {
        buf.append(" ");
        buf.append(K::key());
        buf.append("=\"");
        buf.append(read_text::<V>());
        buf.append("\"");
        proof {
            reveal_strlit(" ");
            reveal_strlit("=\"");
            reveal_strlit("\"");
            assert(buf@ =~= old(buf)@ + keyed_html(K::spec_key(), static_text::<V>()));
            assert(class@ =~= class@ + Seq::<char>::empty());
            assert(style@ =~= style@ + Seq::<char>::empty());
        }
    }
}

impl<K: AttributeKey, V: StaticText> Attribute for StaticAttr<K, V> {
    /// ` key="value"`, as any text value of the key is written.
    open spec fn spec_attr(&self) -> (Seq<char>, Seq<char>, Seq<char>) {
        (keyed_html(K::spec_key(), static_text::<V>()), Seq::empty(), Seq::empty())
    }

    open spec fn attr_ok(&self) -> bool {
        steady_text::<V>()
    }

    fn to_html(&self, buf: &mut String, class: &mut String, style: &mut String) {
        let value: &str = read_text::<V>();
        AttributeValue::to_html(&value, K::key(), buf);
        assert(class@ =~= class@ + Seq::<char>::empty());
        assert(style@ =~= style@ + Seq::<char>::empty());
    }
}

/// A static attribute writes the same text into a template as into HTML,
/// and leaves the position where it was.
pub proof fn lemma_static_attr_template_is_html<K: AttributeKey, V: StaticText>(
    attr: StaticAttr<K, V>,
    position: Position,
)
    ensures
        StaticAttr::<K, V>::spec_template(position).0 == attr.spec_attr().0,
        StaticAttr::<K, V>::spec_template(position).3 == position,
{
}

/// A text node whose text is known from its type.
#[derive(Debug)]
pub struct Static<V> {
    text: PhantomData<V>,
}

impl<V: StaticText> Static<V> {
    pub fn new() -> (r: Self) {
        Static { text: PhantomData }
    }
}

impl<V: StaticText> RenderHtml for Static<V> {
    /// The text, after a `<!>` marker when a text node may stand right before
    /// it.
    open spec fn spec_html(&self, position: Position) -> (Seq<char>, Position) {
        (text_html(static_text::<V>(), position), position)
    }

    open spec fn html_ok(&self) -> bool {
        steady_text::<V>()
    }

    fn to_html_with_buf(self, buf: &mut String, position: &mut PositionState) {
        if matches!(position.get(), Position::NextChild | Position::LastChild) {
            push_marker(buf);
        }
        buf.append(read_text::<V>());
    }
}

/// The template of a static text: the text itself, after a `<!>` marker
/// when a text node may stand right before it; what follows is a next child.
pub open spec fn static_template(text: Seq<char>, position: Position) -> (
    Seq<char>,
    Seq<char>,
    Seq<char>,
    Position,
) {
    (text_html(text, position), Seq::empty(), Seq::empty(), Position::NextChild)
}

impl<V: StaticText> ToTemplate for Static<V> {
    open spec fn template_ok() -> bool {
        steady_text::<V>()
    }

    open spec fn spec_template(position: Position) -> (Seq<char>, Seq<char>, Seq<char>, Position) {
        static_template(static_text::<V>(), position)
    }

    fn to_template(
        buf: &mut String,
        class: &mut String,
        style: &mut String,
        position: &mut Position,
    ) {
        if matches!(*position, Position::NextChild | Position::LastChild) {
            push_marker(buf);
        }
        buf.append(read_text::<V>());
        *position = Position::NextChild;
        assert(class@ =~= class@ + Seq::<char>::empty());
        assert(style@ =~= style@ + Seq::<char>::empty());
    }
}

/// A static text writes the same text into a template as into HTML at the
/// same position; in a template, what follows it is a next child.
pub proof fn lemma_static_template_is_html<V: StaticText>(view: Static<V>, position: Position)
    ensures
        Static::<V>::spec_template(position).0 == view.spec_html(position).0,
        Static::<V>::spec_template(position).3 == Position::NextChild,
{
}

} // verus!
