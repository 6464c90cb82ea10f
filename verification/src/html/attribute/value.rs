//! Values of attributes.
use vstd::prelude::*;
use vstd::string::*;

verus! {

/// The text of an attribute value as written into HTML. Values are written
/// as given.
pub open spec fn escaped(value: Seq<char>) -> Seq<char> {
    value
}

/// Prepares an attribute value for HTML. Values are passed through unchanged.
pub fn escape_attr(value: &str) -> (r: &str)
    ensures
        r@ == escaped(value@),
{
    value
}

/// ` key="value"`.
pub open spec fn keyed_html(key: Seq<char>, value: Seq<char>) -> Seq<char> {
    seq![' '] + key + seq!['=', '"'] + escaped(value) + seq!['"']
}

fn push_keyed(buf: &mut String, key: &str, value: &str)
    ensures
        final(buf)@ == old(buf)@ + keyed_html(key@, value@),
{
    buf.append(" ");
    buf.append(key);
    buf.append("=\"");
    buf.append(escape_attr(value));
    buf.append("\"");
    proof {
        reveal_strlit(" ");
        reveal_strlit("=\"");
        reveal_strlit("\"");
        assert(final(buf)@ =~= old(buf)@ + keyed_html(key@, value@));
    }
}

/// A value that an attribute can take.
pub trait AttributeValue {
    /// The HTML written for this value under the given key.
    spec fn spec_value_html(&self, key: Seq<char>) -> Seq<char>;

    fn to_html(&self, key: &str, buf: &mut String)
        ensures
            final(buf)@ == old(buf)@ + self.spec_value_html(key@),
    ;

    /// Template text for a value of this type under the given key: none.
    fn to_template(key: &str, buf: &mut String)
        ensures
            final(buf)@ == old(buf)@,
    {
    }
}

impl AttributeValue for () {
    open spec fn spec_value_html(&self, key: Seq<char>) -> Seq<char> {
        Seq::empty()
    }

    fn to_html(&self, key: &str, buf: &mut String) {
        assert(buf@ =~= buf@ + Seq::<char>::empty());
    }
}

impl<'a> AttributeValue for &'a str {
    open spec fn spec_value_html(&self, key: Seq<char>) -> Seq<char> {
        keyed_html(key, (*self)@)
    }

    fn to_html(&self, key: &str, buf: &mut String) {
        push_keyed(buf, key, *self);
    }
}

impl AttributeValue for String {
    open spec fn spec_value_html(&self, key: Seq<char>) -> Seq<char> {
        keyed_html(key, self@)
    }

    fn to_html(&self, key: &str, buf: &mut String) {
        push_keyed(buf, key, self.as_str());
    }
}

/// A boolean attribute is written as its bare key when true and not at all
/// when false.
impl AttributeValue for bool {
    open spec fn spec_value_html(&self, key: Seq<char>) -> Seq<char> {
        if *self {
            seq![' '] + key
        } else {
            Seq::empty()
        }
    }

    fn to_html(&self, key: &str, buf: &mut String) {
        if *self {
            buf.append(" ");
            buf.append(key);
            proof {
                reveal_strlit(" ");
                assert(final(buf)@ =~= old(buf)@ + (seq![' '] + key@));
            }
        } else {
            assert(buf@ =~= buf@ + Seq::<char>::empty());
        }
    }
}

/// An optional value is written when present.
impl<V: AttributeValue> AttributeValue for Option<V> {
    open spec fn spec_value_html(&self, key: Seq<char>) -> Seq<char> {
        match self {
            Some(v) => v.spec_value_html(key),
            None => Seq::empty(),
        }
    }

    fn to_html(&self, key: &str, buf: &mut String) {
        match self {
            Some(v) => v.to_html(key, buf),
            None => {
                assert(buf@ =~= buf@ + Seq::<char>::empty());
            },
        }
    }
}

/// A boolean value writes a space and the bare key when true, and nothing
/// when false.
pub proof fn lemma_bool_value_law(key: Seq<char>)
    ensures
        true.spec_value_html(key) == seq![' '] + key,
        false.spec_value_html(key) == Seq::<char>::empty(),
{
}

/// A text value writes a space, the key, `="`, the text and `"`.
pub proof fn lemma_text_value_law(key: Seq<char>, s: &str, t: String)
    ensures
        s.spec_value_html(key) == seq![' '] + key + seq!['=', '"'] + s@ + seq!['"'],
        t.spec_value_html(key) == seq![' '] + key + seq!['=', '"'] + t@ + seq!['"'],
{
}

/// No value writes nothing; an optional value writes what its content writes
/// when present and nothing when absent.
pub proof fn lemma_unit_and_option_value_law<V: AttributeValue>(key: Seq<char>, o: Option<V>)
    ensures
        ().spec_value_html(key) == Seq::<char>::empty(),
        o matches Some(v) ==> o.spec_value_html(key) == v.spec_value_html(key),
        o is None ==> o.spec_value_html(key) == Seq::<char>::empty(),
{
}

} // verus!
