//! Attributes of HTML elements.
pub mod value;

use crate::view::{Position, ToTemplate};
pub use value::{escape_attr, AttributeValue};
use vstd::prelude::*;
use vstd::string::*;

verus! {

/// Something that adds to the attributes of an element.
///
/// Writing it appends to three texts: the attributes proper, the class list
/// and the style, the last two being written out once all attributes are in.
pub trait Attribute {
    /// The text appended to the attributes, to the class list and to the style.
    spec fn spec_attr(&self) -> (Seq<char>, Seq<char>, Seq<char>);

    /// Whether this attribute can be written (some call functions that must
    /// accept being called and answer the same each time).
    spec fn attr_ok(&self) -> bool;

    fn to_html(&self, buf: &mut String, class: &mut String, style: &mut String)
        requires
            self.attr_ok(),
        ensures
            final(buf)@ == old(buf)@ + self.spec_attr().0,
            final(class)@ == old(class)@ + self.spec_attr().1,
            final(style)@ == old(style)@ + self.spec_attr().2,
    ;
}

/// Nothing added.
pub open spec fn no_attr() -> (Seq<char>, Seq<char>, Seq<char>) {
    (Seq::empty(), Seq::empty(), Seq::empty())
}

/// Two contributions, one after the other.
pub open spec fn attr_then(
    a: (Seq<char>, Seq<char>, Seq<char>),
    b: (Seq<char>, Seq<char>, Seq<char>),
) -> (Seq<char>, Seq<char>, Seq<char>) {
    (a.0 + b.0, a.1 + b.1, a.2 + b.2)
}

impl Attribute for () {
    open spec fn spec_attr(&self) -> (Seq<char>, Seq<char>, Seq<char>) {
        no_attr()
    }

    open spec fn attr_ok(&self) -> bool {
        true
    }

    fn to_html(&self, buf: &mut String, class: &mut String, style: &mut String) {
        assert(buf@ =~= buf@ + Seq::<char>::empty());
        assert(class@ =~= class@ + Seq::<char>::empty());
        assert(style@ =~= style@ + Seq::<char>::empty());
    }
}

impl<A: Attribute> Attribute for (A,) {
    open spec fn spec_attr(&self) -> (Seq<char>, Seq<char>, Seq<char>) {
        self.0.spec_attr()
    }

    open spec fn attr_ok(&self) -> bool {
        self.0.attr_ok()
    }

    fn to_html(&self, buf: &mut String, class: &mut String, style: &mut String) {
        self.0.to_html(buf, class, style);
    }
}

/// Appending two contributions one after the other appends their
/// combination.
proof fn lemma_attr_step(
    buf: Seq<char>,
    class: Seq<char>,
    style: Seq<char>,
    done: (Seq<char>, Seq<char>, Seq<char>),
    next: (Seq<char>, Seq<char>, Seq<char>),
)
    ensures
        buf + done.0 + next.0 == buf + attr_then(done, next).0,
        class + done.1 + next.1 == class + attr_then(done, next).1,
        style + done.2 + next.2 == style + attr_then(done, next).2,
{
    assert(buf + done.0 + next.0 =~= buf + attr_then(done, next).0);
    assert(class + done.1 + next.1 =~= class + attr_then(done, next).1);
    assert(style + done.2 + next.2 =~= style + attr_then(done, next).2);
}

/// Attributes of a tuple are written one after the other, in order.
impl<A: Attribute, B: Attribute> Attribute for (A, B) {
    open spec fn spec_attr(&self) -> (Seq<char>, Seq<char>, Seq<char>) {
        let s0 = self.0.spec_attr();
        let s1 = attr_then(s0, self.1.spec_attr());
        s1
    }

    open spec fn attr_ok(&self) -> bool {
        self.0.attr_ok()
        && self.1.attr_ok()
    }

    fn to_html(&self, buf: &mut String, class: &mut String, style: &mut String) {
        let ghost s0 = self.0.spec_attr();
        self.0.to_html(buf, class, style);
        let ghost s1 = attr_then(s0, self.1.spec_attr());
        self.1.to_html(buf, class, style);
        proof {
            lemma_attr_step(old(buf)@, old(class)@, old(style)@, s0, self.1.spec_attr());
        }
    }
}

impl<A: Attribute, B: Attribute, C: Attribute> Attribute for (A, B, C) {
    open spec fn spec_attr(&self) -> (Seq<char>, Seq<char>, Seq<char>) {
        let s0 = self.0.spec_attr();
        let s1 = attr_then(s0, self.1.spec_attr());
        let s2 = attr_then(s1, self.2.spec_attr());
        s2
    }

    open spec fn attr_ok(&self) -> bool {
        self.0.attr_ok()
        && self.1.attr_ok()
        && self.2.attr_ok()
    }

    fn to_html(&self, buf: &mut String, class: &mut String, style: &mut String) {
        let ghost s0 = self.0.spec_attr();
        self.0.to_html(buf, class, style);
        let ghost s1 = attr_then(s0, self.1.spec_attr());
        self.1.to_html(buf, class, style);
        proof {
            lemma_attr_step(old(buf)@, old(class)@, old(style)@, s0, self.1.spec_attr());
        }
        let ghost s2 = attr_then(s1, self.2.spec_attr());
        self.2.to_html(buf, class, style);
        proof {
            lemma_attr_step(old(buf)@, old(class)@, old(style)@, s1, self.2.spec_attr());
        }
    }
}

impl<A: Attribute, B: Attribute, C: Attribute, D: Attribute> Attribute for (A, B, C, D) {
    open spec fn spec_attr(&self) -> (Seq<char>, Seq<char>, Seq<char>) {
        let s0 = self.0.spec_attr();
        let s1 = attr_then(s0, self.1.spec_attr());
        let s2 = attr_then(s1, self.2.spec_attr());
        let s3 = attr_then(s2, self.3.spec_attr());
        s3
    }

    open spec fn attr_ok(&self) -> bool {
        self.0.attr_ok()
        && self.1.attr_ok()
        && self.2.attr_ok()
        && self.3.attr_ok()
    }

    fn to_html(&self, buf: &mut String, class: &mut String, style: &mut String) {
        let ghost s0 = self.0.spec_attr();
        self.0.to_html(buf, class, style);
        let ghost s1 = attr_then(s0, self.1.spec_attr());
        self.1.to_html(buf, class, style);
        proof {
            lemma_attr_step(old(buf)@, old(class)@, old(style)@, s0, self.1.spec_attr());
        }
        let ghost s2 = attr_then(s1, self.2.spec_attr());
        self.2.to_html(buf, class, style);
        proof {
            lemma_attr_step(old(buf)@, old(class)@, old(style)@, s1, self.2.spec_attr());
        }
        let ghost s3 = attr_then(s2, self.3.spec_attr());
        self.3.to_html(buf, class, style);
        proof {
            lemma_attr_step(old(buf)@, old(class)@, old(style)@, s2, self.3.spec_attr());
        }
    }
}

impl<A: Attribute, B: Attribute, C: Attribute, D: Attribute, E: Attribute> Attribute for (A, B, C, D, E) {
    open spec fn spec_attr(&self) -> (Seq<char>, Seq<char>, Seq<char>) {
        let s0 = self.0.spec_attr();
        let s1 = attr_then(s0, self.1.spec_attr());
        let s2 = attr_then(s1, self.2.spec_attr());
        let s3 = attr_then(s2, self.3.spec_attr());
        let s4 = attr_then(s3, self.4.spec_attr());
        s4
    }

    open spec fn attr_ok(&self) -> bool {
        self.0.attr_ok()
        && self.1.attr_ok()
        && self.2.attr_ok()
        && self.3.attr_ok()
        && self.4.attr_ok()
    }

    fn to_html(&self, buf: &mut String, class: &mut String, style: &mut String) {
        let ghost s0 = self.0.spec_attr();
        self.0.to_html(buf, class, style);
        let ghost s1 = attr_then(s0, self.1.spec_attr());
        self.1.to_html(buf, class, style);
        proof {
            lemma_attr_step(old(buf)@, old(class)@, old(style)@, s0, self.1.spec_attr());
        }
        let ghost s2 = attr_then(s1, self.2.spec_attr());
        self.2.to_html(buf, class, style);
        proof {
            lemma_attr_step(old(buf)@, old(class)@, old(style)@, s1, self.2.spec_attr());
        }
        let ghost s3 = attr_then(s2, self.3.spec_attr());
        self.3.to_html(buf, class, style);
        proof {
            lemma_attr_step(old(buf)@, old(class)@, old(style)@, s2, self.3.spec_attr());
        }
        let ghost s4 = attr_then(s3, self.4.spec_attr());
        self.4.to_html(buf, class, style);
        proof {
            lemma_attr_step(old(buf)@, old(class)@, old(style)@, s3, self.4.spec_attr());
        }
    }
}

impl<A: Attribute, B: Attribute, C: Attribute, D: Attribute, E: Attribute, F: Attribute> Attribute for (A, B, C, D, E, F) {
    open spec fn spec_attr(&self) -> (Seq<char>, Seq<char>, Seq<char>) {
        let s0 = self.0.spec_attr();
        let s1 = attr_then(s0, self.1.spec_attr());
        let s2 = attr_then(s1, self.2.spec_attr());
        let s3 = attr_then(s2, self.3.spec_attr());
        let s4 = attr_then(s3, self.4.spec_attr());
        let s5 = attr_then(s4, self.5.spec_attr());
        s5
    }

    open spec fn attr_ok(&self) -> bool {
        self.0.attr_ok()
        && self.1.attr_ok()
        && self.2.attr_ok()
        && self.3.attr_ok()
        && self.4.attr_ok()
        && self.5.attr_ok()
    }

    fn to_html(&self, buf: &mut String, class: &mut String, style: &mut String) {
        let ghost s0 = self.0.spec_attr();
        self.0.to_html(buf, class, style);
        let ghost s1 = attr_then(s0, self.1.spec_attr());
        self.1.to_html(buf, class, style);
        proof {
            lemma_attr_step(old(buf)@, old(class)@, old(style)@, s0, self.1.spec_attr());
        }
        let ghost s2 = attr_then(s1, self.2.spec_attr());
        self.2.to_html(buf, class, style);
        proof {
            lemma_attr_step(old(buf)@, old(class)@, old(style)@, s1, self.2.spec_attr());
        }
        let ghost s3 = attr_then(s2, self.3.spec_attr());
        self.3.to_html(buf, class, style);
        proof {
            lemma_attr_step(old(buf)@, old(class)@, old(style)@, s2, self.3.spec_attr());
        }
        let ghost s4 = attr_then(s3, self.4.spec_attr());
        self.4.to_html(buf, class, style);
        proof {
            lemma_attr_step(old(buf)@, old(class)@, old(style)@, s3, self.4.spec_attr());
        }
        let ghost s5 = attr_then(s4, self.5.spec_attr());
        self.5.to_html(buf, class, style);
        proof {
            lemma_attr_step(old(buf)@, old(class)@, old(style)@, s4, self.5.spec_attr());
        }
    }
}

impl<A: Attribute, B: Attribute, C: Attribute, D: Attribute, E: Attribute, F: Attribute, G: Attribute> Attribute for (A, B, C, D, E, F, G) {
    open spec fn spec_attr(&self) -> (Seq<char>, Seq<char>, Seq<char>) {
        let s0 = self.0.spec_attr();
        let s1 = attr_then(s0, self.1.spec_attr());
        let s2 = attr_then(s1, self.2.spec_attr());
        let s3 = attr_then(s2, self.3.spec_attr());
        let s4 = attr_then(s3, self.4.spec_attr());
        let s5 = attr_then(s4, self.5.spec_attr());
        let s6 = attr_then(s5, self.6.spec_attr());
        s6
    }

    open spec fn attr_ok(&self) -> bool {
        self.0.attr_ok()
        && self.1.attr_ok()
        && self.2.attr_ok()
        && self.3.attr_ok()
        && self.4.attr_ok()
        && self.5.attr_ok()
        && self.6.attr_ok()
    }

    fn to_html(&self, buf: &mut String, class: &mut String, style: &mut String) {
        let ghost s0 = self.0.spec_attr();
        self.0.to_html(buf, class, style);
        let ghost s1 = attr_then(s0, self.1.spec_attr());
        self.1.to_html(buf, class, style);
        proof {
            lemma_attr_step(old(buf)@, old(class)@, old(style)@, s0, self.1.spec_attr());
        }
        let ghost s2 = attr_then(s1, self.2.spec_attr());
        self.2.to_html(buf, class, style);
        proof {
            lemma_attr_step(old(buf)@, old(class)@, old(style)@, s1, self.2.spec_attr());
        }
        let ghost s3 = attr_then(s2, self.3.spec_attr());
        self.3.to_html(buf, class, style);
        proof {
            lemma_attr_step(old(buf)@, old(class)@, old(style)@, s2, self.3.spec_attr());
        }
        let ghost s4 = attr_then(s3, self.4.spec_attr());
        self.4.to_html(buf, class, style);
        proof {
            lemma_attr_step(old(buf)@, old(class)@, old(style)@, s3, self.4.spec_attr());
        }
        let ghost s5 = attr_then(s4, self.5.spec_attr());
        self.5.to_html(buf, class, style);
        proof {
            lemma_attr_step(old(buf)@, old(class)@, old(style)@, s4, self.5.spec_attr());
        }
        let ghost s6 = attr_then(s5, self.6.spec_attr());
        self.6.to_html(buf, class, style);
        proof {
            lemma_attr_step(old(buf)@, old(class)@, old(style)@, s5, self.6.spec_attr());
        }
    }
}

impl<A: Attribute, B: Attribute, C: Attribute, D: Attribute, E: Attribute, F: Attribute, G: Attribute, H: Attribute> Attribute for (A, B, C, D, E, F, G, H) {
    open spec fn spec_attr(&self) -> (Seq<char>, Seq<char>, Seq<char>) {
        let s0 = self.0.spec_attr();
        let s1 = attr_then(s0, self.1.spec_attr());
        let s2 = attr_then(s1, self.2.spec_attr());
        let s3 = attr_then(s2, self.3.spec_attr());
        let s4 = attr_then(s3, self.4.spec_attr());
        let s5 = attr_then(s4, self.5.spec_attr());
        let s6 = attr_then(s5, self.6.spec_attr());
        let s7 = attr_then(s6, self.7.spec_attr());
        s7
    }

    open spec fn attr_ok(&self) -> bool {
        self.0.attr_ok()
        && self.1.attr_ok()
        && self.2.attr_ok()
        && self.3.attr_ok()
        && self.4.attr_ok()
        && self.5.attr_ok()
        && self.6.attr_ok()
        && self.7.attr_ok()
    }

    fn to_html(&self, buf: &mut String, class: &mut String, style: &mut String) {
        let ghost s0 = self.0.spec_attr();
        self.0.to_html(buf, class, style);
        let ghost s1 = attr_then(s0, self.1.spec_attr());
        self.1.to_html(buf, class, style);
        proof {
            lemma_attr_step(old(buf)@, old(class)@, old(style)@, s0, self.1.spec_attr());
        }
        let ghost s2 = attr_then(s1, self.2.spec_attr());
        self.2.to_html(buf, class, style);
        proof {
            lemma_attr_step(old(buf)@, old(class)@, old(style)@, s1, self.2.spec_attr());
        }
        let ghost s3 = attr_then(s2, self.3.spec_attr());
        self.3.to_html(buf, class, style);
        proof {
            lemma_attr_step(old(buf)@, old(class)@, old(style)@, s2, self.3.spec_attr());
        }
        let ghost s4 = attr_then(s3, self.4.spec_attr());
        self.4.to_html(buf, class, style);
        proof {
            lemma_attr_step(old(buf)@, old(class)@, old(style)@, s3, self.4.spec_attr());
        }
        let ghost s5 = attr_then(s4, self.5.spec_attr());
        self.5.to_html(buf, class, style);
        proof {
            lemma_attr_step(old(buf)@, old(class)@, old(style)@, s4, self.5.spec_attr());
        }
        let ghost s6 = attr_then(s5, self.6.spec_attr());
        self.6.to_html(buf, class, style);
        proof {
            lemma_attr_step(old(buf)@, old(class)@, old(style)@, s5, self.6.spec_attr());
        }
        let ghost s7 = attr_then(s6, self.7.spec_attr());
        self.7.to_html(buf, class, style);
        proof {
            lemma_attr_step(old(buf)@, old(class)@, old(style)@, s6, self.7.spec_attr());
        }
    }
}

impl<A: Attribute, B: Attribute, C: Attribute, D: Attribute, E: Attribute, F: Attribute, G: Attribute, H: Attribute, I: Attribute> Attribute for (A, B, C, D, E, F, G, H, I) {
    open spec fn spec_attr(&self) -> (Seq<char>, Seq<char>, Seq<char>) {
        let s0 = self.0.spec_attr();
        let s1 = attr_then(s0, self.1.spec_attr());
        let s2 = attr_then(s1, self.2.spec_attr());
        let s3 = attr_then(s2, self.3.spec_attr());
        let s4 = attr_then(s3, self.4.spec_attr());
        let s5 = attr_then(s4, self.5.spec_attr());
        let s6 = attr_then(s5, self.6.spec_attr());
        let s7 = attr_then(s6, self.7.spec_attr());
        let s8 = attr_then(s7, self.8.spec_attr());
        s8
    }

    open spec fn attr_ok(&self) -> bool {
        self.0.attr_ok()
        && self.1.attr_ok()
        && self.2.attr_ok()
        && self.3.attr_ok()
        && self.4.attr_ok()
        && self.5.attr_ok()
        && self.6.attr_ok()
        && self.7.attr_ok()
        && self.8.attr_ok()
    }

    fn to_html(&self, buf: &mut String, class: &mut String, style: &mut String) {
        let ghost s0 = self.0.spec_attr();
        self.0.to_html(buf, class, style);
        let ghost s1 = attr_then(s0, self.1.spec_attr());
        self.1.to_html(buf, class, style);
        proof {
            lemma_attr_step(old(buf)@, old(class)@, old(style)@, s0, self.1.spec_attr());
        }
        let ghost s2 = attr_then(s1, self.2.spec_attr());
        self.2.to_html(buf, class, style);
        proof {
            lemma_attr_step(old(buf)@, old(class)@, old(style)@, s1, self.2.spec_attr());
        }
        let ghost s3 = attr_then(s2, self.3.spec_attr());
        self.3.to_html(buf, class, style);
        proof {
            lemma_attr_step(old(buf)@, old(class)@, old(style)@, s2, self.3.spec_attr());
        }
        let ghost s4 = attr_then(s3, self.4.spec_attr());
        self.4.to_html(buf, class, style);
        proof {
            lemma_attr_step(old(buf)@, old(class)@, old(style)@, s3, self.4.spec_attr());
        }
        let ghost s5 = attr_then(s4, self.5.spec_attr());
        self.5.to_html(buf, class, style);
        proof {
            lemma_attr_step(old(buf)@, old(class)@, old(style)@, s4, self.5.spec_attr());
        }
        let ghost s6 = attr_then(s5, self.6.spec_attr());
        self.6.to_html(buf, class, style);
        proof {
            lemma_attr_step(old(buf)@, old(class)@, old(style)@, s5, self.6.spec_attr());
        }
        let ghost s7 = attr_then(s6, self.7.spec_attr());
        self.7.to_html(buf, class, style);
        proof {
            lemma_attr_step(old(buf)@, old(class)@, old(style)@, s6, self.7.spec_attr());
        }
        let ghost s8 = attr_then(s7, self.8.spec_attr());
        self.8.to_html(buf, class, style);
        proof {
            lemma_attr_step(old(buf)@, old(class)@, old(style)@, s7, self.8.spec_attr());
        }
    }
}

impl<A: Attribute, B: Attribute, C: Attribute, D: Attribute, E: Attribute, F: Attribute, G: Attribute, H: Attribute, I: Attribute, J: Attribute> Attribute for (A, B, C, D, E, F, G, H, I, J) {
    open spec fn spec_attr(&self) -> (Seq<char>, Seq<char>, Seq<char>) {
        let s0 = self.0.spec_attr();
        let s1 = attr_then(s0, self.1.spec_attr());
        let s2 = attr_then(s1, self.2.spec_attr());
        let s3 = attr_then(s2, self.3.spec_attr());
        let s4 = attr_then(s3, self.4.spec_attr());
        let s5 = attr_then(s4, self.5.spec_attr());
        let s6 = attr_then(s5, self.6.spec_attr());
        let s7 = attr_then(s6, self.7.spec_attr());
        let s8 = attr_then(s7, self.8.spec_attr());
        let s9 = attr_then(s8, self.9.spec_attr());
        s9
    }

    open spec fn attr_ok(&self) -> bool {
        self.0.attr_ok()
        && self.1.attr_ok()
        && self.2.attr_ok()
        && self.3.attr_ok()
        && self.4.attr_ok()
        && self.5.attr_ok()
        && self.6.attr_ok()
        && self.7.attr_ok()
        && self.8.attr_ok()
        && self.9.attr_ok()
    }

    fn to_html(&self, buf: &mut String, class: &mut String, style: &mut String) {
        let ghost s0 = self.0.spec_attr();
        self.0.to_html(buf, class, style);
        let ghost s1 = attr_then(s0, self.1.spec_attr());
        self.1.to_html(buf, class, style);
        proof {
            lemma_attr_step(old(buf)@, old(class)@, old(style)@, s0, self.1.spec_attr());
        }
        let ghost s2 = attr_then(s1, self.2.spec_attr());
        self.2.to_html(buf, class, style);
        proof {
            lemma_attr_step(old(buf)@, old(class)@, old(style)@, s1, self.2.spec_attr());
        }
        let ghost s3 = attr_then(s2, self.3.spec_attr());
        self.3.to_html(buf, class, style);
        proof {
            lemma_attr_step(old(buf)@, old(class)@, old(style)@, s2, self.3.spec_attr());
        }
        let ghost s4 = attr_then(s3, self.4.spec_attr());
        self.4.to_html(buf, class, style);
        proof {
            lemma_attr_step(old(buf)@, old(class)@, old(style)@, s3, self.4.spec_attr());
        }
        let ghost s5 = attr_then(s4, self.5.spec_attr());
        self.5.to_html(buf, class, style);
        proof {
            lemma_attr_step(old(buf)@, old(class)@, old(style)@, s4, self.5.spec_attr());
        }
        let ghost s6 = attr_then(s5, self.6.spec_attr());
        self.6.to_html(buf, class, style);
        proof {
            lemma_attr_step(old(buf)@, old(class)@, old(style)@, s5, self.6.spec_attr());
        }
        let ghost s7 = attr_then(s6, self.7.spec_attr());
        self.7.to_html(buf, class, style);
        proof {
            lemma_attr_step(old(buf)@, old(class)@, old(style)@, s6, self.7.spec_attr());
        }
        let ghost s8 = attr_then(s7, self.8.spec_attr());
        self.8.to_html(buf, class, style);
        proof {
            lemma_attr_step(old(buf)@, old(class)@, old(style)@, s7, self.8.spec_attr());
        }
        let ghost s9 = attr_then(s8, self.9.spec_attr());
        self.9.to_html(buf, class, style);
        proof {
            lemma_attr_step(old(buf)@, old(class)@, old(style)@, s8, self.9.spec_attr());
        }
    }
}

impl<A: Attribute, B: Attribute, C: Attribute, D: Attribute, E: Attribute, F: Attribute, G: Attribute, H: Attribute, I: Attribute, J: Attribute, K: Attribute> Attribute for (A, B, C, D, E, F, G, H, I, J, K) {
    open spec fn spec_attr(&self) -> (Seq<char>, Seq<char>, Seq<char>) {
        let s0 = self.0.spec_attr();
        let s1 = attr_then(s0, self.1.spec_attr());
        let s2 = attr_then(s1, self.2.spec_attr());
        let s3 = attr_then(s2, self.3.spec_attr());
        let s4 = attr_then(s3, self.4.spec_attr());
        let s5 = attr_then(s4, self.5.spec_attr());
        let s6 = attr_then(s5, self.6.spec_attr());
        let s7 = attr_then(s6, self.7.spec_attr());
        let s8 = attr_then(s7, self.8.spec_attr());
        let s9 = attr_then(s8, self.9.spec_attr());
        let s10 = attr_then(s9, self.10.spec_attr());
        s10
    }

    open spec fn attr_ok(&self) -> bool {
        self.0.attr_ok()
        && self.1.attr_ok()
        && self.2.attr_ok()
        && self.3.attr_ok()
        && self.4.attr_ok()
        && self.5.attr_ok()
        && self.6.attr_ok()
        && self.7.attr_ok()
        && self.8.attr_ok()
        && self.9.attr_ok()
        && self.10.attr_ok()
    }

    fn to_html(&self, buf: &mut String, class: &mut String, style: &mut String) {
        let ghost s0 = self.0.spec_attr();
        self.0.to_html(buf, class, style);
        let ghost s1 = attr_then(s0, self.1.spec_attr());
        self.1.to_html(buf, class, style);
        proof {
            lemma_attr_step(old(buf)@, old(class)@, old(style)@, s0, self.1.spec_attr());
        }
        let ghost s2 = attr_then(s1, self.2.spec_attr());
        self.2.to_html(buf, class, style);
        proof {
            lemma_attr_step(old(buf)@, old(class)@, old(style)@, s1, self.2.spec_attr());
        }
        let ghost s3 = attr_then(s2, self.3.spec_attr());
        self.3.to_html(buf, class, style);
        proof {
            lemma_attr_step(old(buf)@, old(class)@, old(style)@, s2, self.3.spec_attr());
        }
        let ghost s4 = attr_then(s3, self.4.spec_attr());
        self.4.to_html(buf, class, style);
        proof {
            lemma_attr_step(old(buf)@, old(class)@, old(style)@, s3, self.4.spec_attr());
        }
        let ghost s5 = attr_then(s4, self.5.spec_attr());
        self.5.to_html(buf, class, style);
        proof {
            lemma_attr_step(old(buf)@, old(class)@, old(style)@, s4, self.5.spec_attr());
        }
        let ghost s6 = attr_then(s5, self.6.spec_attr());
        self.6.to_html(buf, class, style);
        proof {
            lemma_attr_step(old(buf)@, old(class)@, old(style)@, s5, self.6.spec_attr());
        }
        let ghost s7 = attr_then(s6, self.7.spec_attr());
        self.7.to_html(buf, class, style);
        proof {
            lemma_attr_step(old(buf)@, old(class)@, old(style)@, s6, self.7.spec_attr());
        }
        let ghost s8 = attr_then(s7, self.8.spec_attr());
        self.8.to_html(buf, class, style);
        proof {
            lemma_attr_step(old(buf)@, old(class)@, old(style)@, s7, self.8.spec_attr());
        }
        let ghost s9 = attr_then(s8, self.9.spec_attr());
        self.9.to_html(buf, class, style);
        proof {
            lemma_attr_step(old(buf)@, old(class)@, old(style)@, s8, self.9.spec_attr());
        }
        let ghost s10 = attr_then(s9, self.10.spec_attr());
        self.10.to_html(buf, class, style);
        proof {
            lemma_attr_step(old(buf)@, old(class)@, old(style)@, s9, self.10.spec_attr());
        }
    }
}

impl<A: Attribute, B: Attribute, C: Attribute, D: Attribute, E: Attribute, F: Attribute, G: Attribute, H: Attribute, I: Attribute, J: Attribute, K: Attribute, L: Attribute> Attribute for (A, B, C, D, E, F, G, H, I, J, K, L) {
    open spec fn spec_attr(&self) -> (Seq<char>, Seq<char>, Seq<char>) {
        let s0 = self.0.spec_attr();
        let s1 = attr_then(s0, self.1.spec_attr());
        let s2 = attr_then(s1, self.2.spec_attr());
        let s3 = attr_then(s2, self.3.spec_attr());
        let s4 = attr_then(s3, self.4.spec_attr());
        let s5 = attr_then(s4, self.5.spec_attr());
        let s6 = attr_then(s5, self.6.spec_attr());
        let s7 = attr_then(s6, self.7.spec_attr());
        let s8 = attr_then(s7, self.8.spec_attr());
        let s9 = attr_then(s8, self.9.spec_attr());
        let s10 = attr_then(s9, self.10.spec_attr());
        let s11 = attr_then(s10, self.11.spec_attr());
        s11
    }

    open spec fn attr_ok(&self) -> bool {
        self.0.attr_ok()
        && self.1.attr_ok()
        && self.2.attr_ok()
        && self.3.attr_ok()
        && self.4.attr_ok()
        && self.5.attr_ok()
        && self.6.attr_ok()
        && self.7.attr_ok()
        && self.8.attr_ok()
        && self.9.attr_ok()
        && self.10.attr_ok()
        && self.11.attr_ok()
    }

    fn to_html(&self, buf: &mut String, class: &mut String, style: &mut String) {
        let ghost s0 = self.0.spec_attr();
        self.0.to_html(buf, class, style);
        let ghost s1 = attr_then(s0, self.1.spec_attr());
        self.1.to_html(buf, class, style);
        proof {
            lemma_attr_step(old(buf)@, old(class)@, old(style)@, s0, self.1.spec_attr());
        }
        let ghost s2 = attr_then(s1, self.2.spec_attr());
        self.2.to_html(buf, class, style);
        proof {
            lemma_attr_step(old(buf)@, old(class)@, old(style)@, s1, self.2.spec_attr());
        }
        let ghost s3 = attr_then(s2, self.3.spec_attr());
        self.3.to_html(buf, class, style);
        proof {
            lemma_attr_step(old(buf)@, old(class)@, old(style)@, s2, self.3.spec_attr());
        }
        let ghost s4 = attr_then(s3, self.4.spec_attr());
        self.4.to_html(buf, class, style);
        proof {
            lemma_attr_step(old(buf)@, old(class)@, old(style)@, s3, self.4.spec_attr());
        }
        let ghost s5 = attr_then(s4, self.5.spec_attr());
        self.5.to_html(buf, class, style);
        proof {
            lemma_attr_step(old(buf)@, old(class)@, old(style)@, s4, self.5.spec_attr());
        }
        let ghost s6 = attr_then(s5, self.6.spec_attr());
        self.6.to_html(buf, class, style);
        proof {
            lemma_attr_step(old(buf)@, old(class)@, old(style)@, s5, self.6.spec_attr());
        }
        let ghost s7 = attr_then(s6, self.7.spec_attr());
        self.7.to_html(buf, class, style);
        proof {
            lemma_attr_step(old(buf)@, old(class)@, old(style)@, s6, self.7.spec_attr());
        }
        let ghost s8 = attr_then(s7, self.8.spec_attr());
        self.8.to_html(buf, class, style);
        proof {
            lemma_attr_step(old(buf)@, old(class)@, old(style)@, s7, self.8.spec_attr());
        }
        let ghost s9 = attr_then(s8, self.9.spec_attr());
        self.9.to_html(buf, class, style);
        proof {
            lemma_attr_step(old(buf)@, old(class)@, old(style)@, s8, self.9.spec_attr());
        }
        let ghost s10 = attr_then(s9, self.10.spec_attr());
        self.10.to_html(buf, class, style);
        proof {
            lemma_attr_step(old(buf)@, old(class)@, old(style)@, s9, self.10.spec_attr());
        }
        let ghost s11 = attr_then(s10, self.11.spec_attr());
        self.11.to_html(buf, class, style);
        proof {
            lemma_attr_step(old(buf)@, old(class)@, old(style)@, s10, self.11.spec_attr());
        }
    }
}

impl<A: Attribute, B: Attribute, C: Attribute, D: Attribute, E: Attribute, F: Attribute, G: Attribute, H: Attribute, I: Attribute, J: Attribute, K: Attribute, L: Attribute, M: Attribute> Attribute for (A, B, C, D, E, F, G, H, I, J, K, L, M) {
    open spec fn spec_attr(&self) -> (Seq<char>, Seq<char>, Seq<char>) {
        let s0 = self.0.spec_attr();
        let s1 = attr_then(s0, self.1.spec_attr());
        let s2 = attr_then(s1, self.2.spec_attr());
        let s3 = attr_then(s2, self.3.spec_attr());
        let s4 = attr_then(s3, self.4.spec_attr());
        let s5 = attr_then(s4, self.5.spec_attr());
        let s6 = attr_then(s5, self.6.spec_attr());
        let s7 = attr_then(s6, self.7.spec_attr());
        let s8 = attr_then(s7, self.8.spec_attr());
        let s9 = attr_then(s8, self.9.spec_attr());
        let s10 = attr_then(s9, self.10.spec_attr());
        let s11 = attr_then(s10, self.11.spec_attr());
        let s12 = attr_then(s11, self.12.spec_attr());
        s12
    }

    open spec fn attr_ok(&self) -> bool {
        self.0.attr_ok()
        && self.1.attr_ok()
        && self.2.attr_ok()
        && self.3.attr_ok()
        && self.4.attr_ok()
        && self.5.attr_ok()
        && self.6.attr_ok()
        && self.7.attr_ok()
        && self.8.attr_ok()
        && self.9.attr_ok()
        && self.10.attr_ok()
        && self.11.attr_ok()
        && self.12.attr_ok()
    }

    fn to_html(&self, buf: &mut String, class: &mut String, style: &mut String) {
        let ghost s0 = self.0.spec_attr();
        self.0.to_html(buf, class, style);
        let ghost s1 = attr_then(s0, self.1.spec_attr());
        self.1.to_html(buf, class, style);
        proof {
            lemma_attr_step(old(buf)@, old(class)@, old(style)@, s0, self.1.spec_attr());
        }
        let ghost s2 = attr_then(s1, self.2.spec_attr());
        self.2.to_html(buf, class, style);
        proof {
            lemma_attr_step(old(buf)@, old(class)@, old(style)@, s1, self.2.spec_attr());
        }
        let ghost s3 = attr_then(s2, self.3.spec_attr());
        self.3.to_html(buf, class, style);
        proof {
            lemma_attr_step(old(buf)@, old(class)@, old(style)@, s2, self.3.spec_attr());
        }
        let ghost s4 = attr_then(s3, self.4.spec_attr());
        self.4.to_html(buf, class, style);
        proof {
            lemma_attr_step(old(buf)@, old(class)@, old(style)@, s3, self.4.spec_attr());
        }
        let ghost s5 = attr_then(s4, self.5.spec_attr());
        self.5.to_html(buf, class, style);
        proof {
            lemma_attr_step(old(buf)@, old(class)@, old(style)@, s4, self.5.spec_attr());
        }
        let ghost s6 = attr_then(s5, self.6.spec_attr());
        self.6.to_html(buf, class, style);
        proof {
            lemma_attr_step(old(buf)@, old(class)@, old(style)@, s5, self.6.spec_attr());
        }
        let ghost s7 = attr_then(s6, self.7.spec_attr());
        self.7.to_html(buf, class, style);
        proof {
            lemma_attr_step(old(buf)@, old(class)@, old(style)@, s6, self.7.spec_attr());
        }
        let ghost s8 = attr_then(s7, self.8.spec_attr());
        self.8.to_html(buf, class, style);
        proof {
            lemma_attr_step(old(buf)@, old(class)@, old(style)@, s7, self.8.spec_attr());
        }
        let ghost s9 = attr_then(s8, self.9.spec_attr());
        self.9.to_html(buf, class, style);
        proof {
            lemma_attr_step(old(buf)@, old(class)@, old(style)@, s8, self.9.spec_attr());
        }
        let ghost s10 = attr_then(s9, self.10.spec_attr());
        self.10.to_html(buf, class, style);
        proof {
            lemma_attr_step(old(buf)@, old(class)@, old(style)@, s9, self.10.spec_attr());
        }
        let ghost s11 = attr_then(s10, self.11.spec_attr());
        self.11.to_html(buf, class, style);
        proof {
            lemma_attr_step(old(buf)@, old(class)@, old(style)@, s10, self.11.spec_attr());
        }
        let ghost s12 = attr_then(s11, self.12.spec_attr());
        self.12.to_html(buf, class, style);
        proof {
            lemma_attr_step(old(buf)@, old(class)@, old(style)@, s11, self.12.spec_attr());
        }
    }
}

impl<A: Attribute, B: Attribute, C: Attribute, D: Attribute, E: Attribute, F: Attribute, G: Attribute, H: Attribute, I: Attribute, J: Attribute, K: Attribute, L: Attribute, M: Attribute, N: Attribute> Attribute for (A, B, C, D, E, F, G, H, I, J, K, L, M, N) {
    open spec fn spec_attr(&self) -> (Seq<char>, Seq<char>, Seq<char>) {
        let s0 = self.0.spec_attr();
        let s1 = attr_then(s0, self.1.spec_attr());
        let s2 = attr_then(s1, self.2.spec_attr());
        let s3 = attr_then(s2, self.3.spec_attr());
        let s4 = attr_then(s3, self.4.spec_attr());
        let s5 = attr_then(s4, self.5.spec_attr());
        let s6 = attr_then(s5, self.6.spec_attr());
        let s7 = attr_then(s6, self.7.spec_attr());
        let s8 = attr_then(s7, self.8.spec_attr());
        let s9 = attr_then(s8, self.9.spec_attr());
        let s10 = attr_then(s9, self.10.spec_attr());
        let s11 = attr_then(s10, self.11.spec_attr());
        let s12 = attr_then(s11, self.12.spec_attr());
        let s13 = attr_then(s12, self.13.spec_attr());
        s13
    }

    open spec fn attr_ok(&self) -> bool {
        self.0.attr_ok()
        && self.1.attr_ok()
        && self.2.attr_ok()
        && self.3.attr_ok()
        && self.4.attr_ok()
        && self.5.attr_ok()
        && self.6.attr_ok()
        && self.7.attr_ok()
        && self.8.attr_ok()
        && self.9.attr_ok()
        && self.10.attr_ok()
        && self.11.attr_ok()
        && self.12.attr_ok()
        && self.13.attr_ok()
    }

    fn to_html(&self, buf: &mut String, class: &mut String, style: &mut String) {
        let ghost s0 = self.0.spec_attr();
        self.0.to_html(buf, class, style);
        let ghost s1 = attr_then(s0, self.1.spec_attr());
        self.1.to_html(buf, class, style);
        proof {
            lemma_attr_step(old(buf)@, old(class)@, old(style)@, s0, self.1.spec_attr());
        }
        let ghost s2 = attr_then(s1, self.2.spec_attr());
        self.2.to_html(buf, class, style);
        proof {
            lemma_attr_step(old(buf)@, old(class)@, old(style)@, s1, self.2.spec_attr());
        }
        let ghost s3 = attr_then(s2, self.3.spec_attr());
        self.3.to_html(buf, class, style);
        proof {
            lemma_attr_step(old(buf)@, old(class)@, old(style)@, s2, self.3.spec_attr());
        }
        let ghost s4 = attr_then(s3, self.4.spec_attr());
        self.4.to_html(buf, class, style);
        proof {
            lemma_attr_step(old(buf)@, old(class)@, old(style)@, s3, self.4.spec_attr());
        }
        let ghost s5 = attr_then(s4, self.5.spec_attr());
        self.5.to_html(buf, class, style);
        proof {
            lemma_attr_step(old(buf)@, old(class)@, old(style)@, s4, self.5.spec_attr());
        }
        let ghost s6 = attr_then(s5, self.6.spec_attr());
        self.6.to_html(buf, class, style);
        proof {
            lemma_attr_step(old(buf)@, old(class)@, old(style)@, s5, self.6.spec_attr());
        }
        let ghost s7 = attr_then(s6, self.7.spec_attr());
        self.7.to_html(buf, class, style);
        proof {
            lemma_attr_step(old(buf)@, old(class)@, old(style)@, s6, self.7.spec_attr());
        }
        let ghost s8 = attr_then(s7, self.8.spec_attr());
        self.8.to_html(buf, class, style);
        proof {
            lemma_attr_step(old(buf)@, old(class)@, old(style)@, s7, self.8.spec_attr());
        }
        let ghost s9 = attr_then(s8, self.9.spec_attr());
        self.9.to_html(buf, class, style);
        proof {
            lemma_attr_step(old(buf)@, old(class)@, old(style)@, s8, self.9.spec_attr());
        }
        let ghost s10 = attr_then(s9, self.10.spec_attr());
        self.10.to_html(buf, class, style);
        proof {
            lemma_attr_step(old(buf)@, old(class)@, old(style)@, s9, self.10.spec_attr());
        }
        let ghost s11 = attr_then(s10, self.11.spec_attr());
        self.11.to_html(buf, class, style);
        proof {
            lemma_attr_step(old(buf)@, old(class)@, old(style)@, s10, self.11.spec_attr());
        }
        let ghost s12 = attr_then(s11, self.12.spec_attr());
        self.12.to_html(buf, class, style);
        proof {
            lemma_attr_step(old(buf)@, old(class)@, old(style)@, s11, self.12.spec_attr());
        }
        let ghost s13 = attr_then(s12, self.13.spec_attr());
        self.13.to_html(buf, class, style);
        proof {
            lemma_attr_step(old(buf)@, old(class)@, old(style)@, s12, self.13.spec_attr());
        }
    }
}

impl<A: Attribute, B: Attribute, C: Attribute, D: Attribute, E: Attribute, F: Attribute, G: Attribute, H: Attribute, I: Attribute, J: Attribute, K: Attribute, L: Attribute, M: Attribute, N: Attribute, O: Attribute> Attribute for (A, B, C, D, E, F, G, H, I, J, K, L, M, N, O) {
    open spec fn spec_attr(&self) -> (Seq<char>, Seq<char>, Seq<char>) {
        let s0 = self.0.spec_attr();
        let s1 = attr_then(s0, self.1.spec_attr());
        let s2 = attr_then(s1, self.2.spec_attr());
        let s3 = attr_then(s2, self.3.spec_attr());
        let s4 = attr_then(s3, self.4.spec_attr());
        let s5 = attr_then(s4, self.5.spec_attr());
        let s6 = attr_then(s5, self.6.spec_attr());
        let s7 = attr_then(s6, self.7.spec_attr());
        let s8 = attr_then(s7, self.8.spec_attr());
        let s9 = attr_then(s8, self.9.spec_attr());
        let s10 = attr_then(s9, self.10.spec_attr());
        let s11 = attr_then(s10, self.11.spec_attr());
        let s12 = attr_then(s11, self.12.spec_attr());
        let s13 = attr_then(s12, self.13.spec_attr());
        let s14 = attr_then(s13, self.14.spec_attr());
        s14
    }

    open spec fn attr_ok(&self) -> bool {
        self.0.attr_ok()
        && self.1.attr_ok()
        && self.2.attr_ok()
        && self.3.attr_ok()
        && self.4.attr_ok()
        && self.5.attr_ok()
        && self.6.attr_ok()
        && self.7.attr_ok()
        && self.8.attr_ok()
        && self.9.attr_ok()
        && self.10.attr_ok()
        && self.11.attr_ok()
        && self.12.attr_ok()
        && self.13.attr_ok()
        && self.14.attr_ok()
    }

    fn to_html(&self, buf: &mut String, class: &mut String, style: &mut String) {
        let ghost s0 = self.0.spec_attr();
        self.0.to_html(buf, class, style);
        let ghost s1 = attr_then(s0, self.1.spec_attr());
        self.1.to_html(buf, class, style);
        proof {
            lemma_attr_step(old(buf)@, old(class)@, old(style)@, s0, self.1.spec_attr());
        }
        let ghost s2 = attr_then(s1, self.2.spec_attr());
        self.2.to_html(buf, class, style);
        proof {
            lemma_attr_step(old(buf)@, old(class)@, old(style)@, s1, self.2.spec_attr());
        }
        let ghost s3 = attr_then(s2, self.3.spec_attr());
        self.3.to_html(buf, class, style);
        proof {
            lemma_attr_step(old(buf)@, old(class)@, old(style)@, s2, self.3.spec_attr());
        }
        let ghost s4 = attr_then(s3, self.4.spec_attr());
        self.4.to_html(buf, class, style);
        proof {
            lemma_attr_step(old(buf)@, old(class)@, old(style)@, s3, self.4.spec_attr());
        }
        let ghost s5 = attr_then(s4, self.5.spec_attr());
        self.5.to_html(buf, class, style);
        proof {
            lemma_attr_step(old(buf)@, old(class)@, old(style)@, s4, self.5.spec_attr());
        }
        let ghost s6 = attr_then(s5, self.6.spec_attr());
        self.6.to_html(buf, class, style);
        proof {
            lemma_attr_step(old(buf)@, old(class)@, old(style)@, s5, self.6.spec_attr());
        }
        let ghost s7 = attr_then(s6, self.7.spec_attr());
        self.7.to_html(buf, class, style);
        proof {
            lemma_attr_step(old(buf)@, old(class)@, old(style)@, s6, self.7.spec_attr());
        }
        let ghost s8 = attr_then(s7, self.8.spec_attr());
        self.8.to_html(buf, class, style);
        proof {
            lemma_attr_step(old(buf)@, old(class)@, old(style)@, s7, self.8.spec_attr());
        }
        let ghost s9 = attr_then(s8, self.9.spec_attr());
        self.9.to_html(buf, class, style);
        proof {
            lemma_attr_step(old(buf)@, old(class)@, old(style)@, s8, self.9.spec_attr());
        }
        let ghost s10 = attr_then(s9, self.10.spec_attr());
        self.10.to_html(buf, class, style);
        proof {
            lemma_attr_step(old(buf)@, old(class)@, old(style)@, s9, self.10.spec_attr());
        }
        let ghost s11 = attr_then(s10, self.11.spec_attr());
        self.11.to_html(buf, class, style);
        proof {
            lemma_attr_step(old(buf)@, old(class)@, old(style)@, s10, self.11.spec_attr());
        }
        let ghost s12 = attr_then(s11, self.12.spec_attr());
        self.12.to_html(buf, class, style);
        proof {
            lemma_attr_step(old(buf)@, old(class)@, old(style)@, s11, self.12.spec_attr());
        }
        let ghost s13 = attr_then(s12, self.13.spec_attr());
        self.13.to_html(buf, class, style);
        proof {
            lemma_attr_step(old(buf)@, old(class)@, old(style)@, s12, self.13.spec_attr());
        }
        let ghost s14 = attr_then(s13, self.14.spec_attr());
        self.14.to_html(buf, class, style);
        proof {
            lemma_attr_step(old(buf)@, old(class)@, old(style)@, s13, self.14.spec_attr());
        }
    }
}

impl<A: Attribute, B: Attribute, C: Attribute, D: Attribute, E: Attribute, F: Attribute, G: Attribute, H: Attribute, I: Attribute, J: Attribute, K: Attribute, L: Attribute, M: Attribute, N: Attribute, O: Attribute, P: Attribute> Attribute for (A, B, C, D, E, F, G, H, I, J, K, L, M, N, O, P) {
    open spec fn spec_attr(&self) -> (Seq<char>, Seq<char>, Seq<char>) {
        let s0 = self.0.spec_attr();
        let s1 = attr_then(s0, self.1.spec_attr());
        let s2 = attr_then(s1, self.2.spec_attr());
        let s3 = attr_then(s2, self.3.spec_attr());
        let s4 = attr_then(s3, self.4.spec_attr());
        let s5 = attr_then(s4, self.5.spec_attr());
        let s6 = attr_then(s5, self.6.spec_attr());
        let s7 = attr_then(s6, self.7.spec_attr());
        let s8 = attr_then(s7, self.8.spec_attr());
        let s9 = attr_then(s8, self.9.spec_attr());
        let s10 = attr_then(s9, self.10.spec_attr());
        let s11 = attr_then(s10, self.11.spec_attr());
        let s12 = attr_then(s11, self.12.spec_attr());
        let s13 = attr_then(s12, self.13.spec_attr());
        let s14 = attr_then(s13, self.14.spec_attr());
        let s15 = attr_then(s14, self.15.spec_attr());
        s15
    }

    open spec fn attr_ok(&self) -> bool {
        self.0.attr_ok()
        && self.1.attr_ok()
        && self.2.attr_ok()
        && self.3.attr_ok()
        && self.4.attr_ok()
        && self.5.attr_ok()
        && self.6.attr_ok()
        && self.7.attr_ok()
        && self.8.attr_ok()
        && self.9.attr_ok()
        && self.10.attr_ok()
        && self.11.attr_ok()
        && self.12.attr_ok()
        && self.13.attr_ok()
        && self.14.attr_ok()
        && self.15.attr_ok()
    }

    fn to_html(&self, buf: &mut String, class: &mut String, style: &mut String) {
        let ghost s0 = self.0.spec_attr();
        self.0.to_html(buf, class, style);
        let ghost s1 = attr_then(s0, self.1.spec_attr());
        self.1.to_html(buf, class, style);
        proof {
            lemma_attr_step(old(buf)@, old(class)@, old(style)@, s0, self.1.spec_attr());
        }
        let ghost s2 = attr_then(s1, self.2.spec_attr());
        self.2.to_html(buf, class, style);
        proof {
            lemma_attr_step(old(buf)@, old(class)@, old(style)@, s1, self.2.spec_attr());
        }
        let ghost s3 = attr_then(s2, self.3.spec_attr());
        self.3.to_html(buf, class, style);
        proof {
            lemma_attr_step(old(buf)@, old(class)@, old(style)@, s2, self.3.spec_attr());
        }
        let ghost s4 = attr_then(s3, self.4.spec_attr());
        self.4.to_html(buf, class, style);
        proof {
            lemma_attr_step(old(buf)@, old(class)@, old(style)@, s3, self.4.spec_attr());
        }
        let ghost s5 = attr_then(s4, self.5.spec_attr());
        self.5.to_html(buf, class, style);
        proof {
            lemma_attr_step(old(buf)@, old(class)@, old(style)@, s4, self.5.spec_attr());
        }
        let ghost s6 = attr_then(s5, self.6.spec_attr());
        self.6.to_html(buf, class, style);
        proof {
            lemma_attr_step(old(buf)@, old(class)@, old(style)@, s5, self.6.spec_attr());
        }
        let ghost s7 = attr_then(s6, self.7.spec_attr());
        self.7.to_html(buf, class, style);
        proof {
            lemma_attr_step(old(buf)@, old(class)@, old(style)@, s6, self.7.spec_attr());
        }
        let ghost s8 = attr_then(s7, self.8.spec_attr());
        self.8.to_html(buf, class, style);
        proof {
            lemma_attr_step(old(buf)@, old(class)@, old(style)@, s7, self.8.spec_attr());
        }
        let ghost s9 = attr_then(s8, self.9.spec_attr());
        self.9.to_html(buf, class, style);
        proof {
            lemma_attr_step(old(buf)@, old(class)@, old(style)@, s8, self.9.spec_attr());
        }
        let ghost s10 = attr_then(s9, self.10.spec_attr());
        self.10.to_html(buf, class, style);
        proof {
            lemma_attr_step(old(buf)@, old(class)@, old(style)@, s9, self.10.spec_attr());
        }
        let ghost s11 = attr_then(s10, self.11.spec_attr());
        self.11.to_html(buf, class, style);
        proof {
            lemma_attr_step(old(buf)@, old(class)@, old(style)@, s10, self.11.spec_attr());
        }
        let ghost s12 = attr_then(s11, self.12.spec_attr());
        self.12.to_html(buf, class, style);
        proof {
            lemma_attr_step(old(buf)@, old(class)@, old(style)@, s11, self.12.spec_attr());
        }
        let ghost s13 = attr_then(s12, self.13.spec_attr());
        self.13.to_html(buf, class, style);
        proof {
            lemma_attr_step(old(buf)@, old(class)@, old(style)@, s12, self.13.spec_attr());
        }
        let ghost s14 = attr_then(s13, self.14.spec_attr());
        self.14.to_html(buf, class, style);
        proof {
            lemma_attr_step(old(buf)@, old(class)@, old(style)@, s13, self.14.spec_attr());
        }
        let ghost s15 = attr_then(s14, self.15.spec_attr());
        self.15.to_html(buf, class, style);
        proof {
            lemma_attr_step(old(buf)@, old(class)@, old(style)@, s14, self.15.spec_attr());
        }
    }
}

impl<A: Attribute, B: Attribute, C: Attribute, D: Attribute, E: Attribute, F: Attribute, G: Attribute, H: Attribute, I: Attribute, J: Attribute, K: Attribute, L: Attribute, M: Attribute, N: Attribute, O: Attribute, P: Attribute, Q: Attribute> Attribute for (A, B, C, D, E, F, G, H, I, J, K, L, M, N, O, P, Q) {
    open spec fn spec_attr(&self) -> (Seq<char>, Seq<char>, Seq<char>) {
        let s0 = self.0.spec_attr();
        let s1 = attr_then(s0, self.1.spec_attr());
        let s2 = attr_then(s1, self.2.spec_attr());
        let s3 = attr_then(s2, self.3.spec_attr());
        let s4 = attr_then(s3, self.4.spec_attr());
        let s5 = attr_then(s4, self.5.spec_attr());
        let s6 = attr_then(s5, self.6.spec_attr());
        let s7 = attr_then(s6, self.7.spec_attr());
        let s8 = attr_then(s7, self.8.spec_attr());
        let s9 = attr_then(s8, self.9.spec_attr());
        let s10 = attr_then(s9, self.10.spec_attr());
        let s11 = attr_then(s10, self.11.spec_attr());
        let s12 = attr_then(s11, self.12.spec_attr());
        let s13 = attr_then(s12, self.13.spec_attr());
        let s14 = attr_then(s13, self.14.spec_attr());
        let s15 = attr_then(s14, self.15.spec_attr());
        let s16 = attr_then(s15, self.16.spec_attr());
        s16
    }

    open spec fn attr_ok(&self) -> bool {
        self.0.attr_ok()
        && self.1.attr_ok()
        && self.2.attr_ok()
        && self.3.attr_ok()
        && self.4.attr_ok()
        && self.5.attr_ok()
        && self.6.attr_ok()
        && self.7.attr_ok()
        && self.8.attr_ok()
        && self.9.attr_ok()
        && self.10.attr_ok()
        && self.11.attr_ok()
        && self.12.attr_ok()
        && self.13.attr_ok()
        && self.14.attr_ok()
        && self.15.attr_ok()
        && self.16.attr_ok()
    }

    fn to_html(&self, buf: &mut String, class: &mut String, style: &mut String) {
        let ghost s0 = self.0.spec_attr();
        self.0.to_html(buf, class, style);
        let ghost s1 = attr_then(s0, self.1.spec_attr());
        self.1.to_html(buf, class, style);
        proof {
            lemma_attr_step(old(buf)@, old(class)@, old(style)@, s0, self.1.spec_attr());
        }
        let ghost s2 = attr_then(s1, self.2.spec_attr());
        self.2.to_html(buf, class, style);
        proof {
            lemma_attr_step(old(buf)@, old(class)@, old(style)@, s1, self.2.spec_attr());
        }
        let ghost s3 = attr_then(s2, self.3.spec_attr());
        self.3.to_html(buf, class, style);
        proof {
            lemma_attr_step(old(buf)@, old(class)@, old(style)@, s2, self.3.spec_attr());
        }
        let ghost s4 = attr_then(s3, self.4.spec_attr());
        self.4.to_html(buf, class, style);
        proof {
            lemma_attr_step(old(buf)@, old(class)@, old(style)@, s3, self.4.spec_attr());
        }
        let ghost s5 = attr_then(s4, self.5.spec_attr());
        self.5.to_html(buf, class, style);
        proof {
            lemma_attr_step(old(buf)@, old(class)@, old(style)@, s4, self.5.spec_attr());
        }
        let ghost s6 = attr_then(s5, self.6.spec_attr());
        self.6.to_html(buf, class, style);
        proof {
            lemma_attr_step(old(buf)@, old(class)@, old(style)@, s5, self.6.spec_attr());
        }
        let ghost s7 = attr_then(s6, self.7.spec_attr());
        self.7.to_html(buf, class, style);
        proof {
            lemma_attr_step(old(buf)@, old(class)@, old(style)@, s6, self.7.spec_attr());
        }
        let ghost s8 = attr_then(s7, self.8.spec_attr());
        self.8.to_html(buf, class, style);
        proof {
            lemma_attr_step(old(buf)@, old(class)@, old(style)@, s7, self.8.spec_attr());
        }
        let ghost s9 = attr_then(s8, self.9.spec_attr());
        self.9.to_html(buf, class, style);
        proof {
            lemma_attr_step(old(buf)@, old(class)@, old(style)@, s8, self.9.spec_attr());
        }
        let ghost s10 = attr_then(s9, self.10.spec_attr());
        self.10.to_html(buf, class, style);
        proof {
            lemma_attr_step(old(buf)@, old(class)@, old(style)@, s9, self.10.spec_attr());
        }
        let ghost s11 = attr_then(s10, self.11.spec_attr());
        self.11.to_html(buf, class, style);
        proof {
            lemma_attr_step(old(buf)@, old(class)@, old(style)@, s10, self.11.spec_attr());
        }
        let ghost s12 = attr_then(s11, self.12.spec_attr());
        self.12.to_html(buf, class, style);
        proof {
            lemma_attr_step(old(buf)@, old(class)@, old(style)@, s11, self.12.spec_attr());
        }
        let ghost s13 = attr_then(s12, self.13.spec_attr());
        self.13.to_html(buf, class, style);
        proof {
            lemma_attr_step(old(buf)@, old(class)@, old(style)@, s12, self.13.spec_attr());
        }
        let ghost s14 = attr_then(s13, self.14.spec_attr());
        self.14.to_html(buf, class, style);
        proof {
            lemma_attr_step(old(buf)@, old(class)@, old(style)@, s13, self.14.spec_attr());
        }
        let ghost s15 = attr_then(s14, self.15.spec_attr());
        self.15.to_html(buf, class, style);
        proof {
            lemma_attr_step(old(buf)@, old(class)@, old(style)@, s14, self.15.spec_attr());
        }
        let ghost s16 = attr_then(s15, self.16.spec_attr());
        self.16.to_html(buf, class, style);
        proof {
            lemma_attr_step(old(buf)@, old(class)@, old(style)@, s15, self.16.spec_attr());
        }
    }
}

impl<A: Attribute, B: Attribute, C: Attribute, D: Attribute, E: Attribute, F: Attribute, G: Attribute, H: Attribute, I: Attribute, J: Attribute, K: Attribute, L: Attribute, M: Attribute, N: Attribute, O: Attribute, P: Attribute, Q: Attribute, R: Attribute> Attribute for (A, B, C, D, E, F, G, H, I, J, K, L, M, N, O, P, Q, R) {
    open spec fn spec_attr(&self) -> (Seq<char>, Seq<char>, Seq<char>) {
        let s0 = self.0.spec_attr();
        let s1 = attr_then(s0, self.1.spec_attr());
        let s2 = attr_then(s1, self.2.spec_attr());
        let s3 = attr_then(s2, self.3.spec_attr());
        let s4 = attr_then(s3, self.4.spec_attr());
        let s5 = attr_then(s4, self.5.spec_attr());
        let s6 = attr_then(s5, self.6.spec_attr());
        let s7 = attr_then(s6, self.7.spec_attr());
        let s8 = attr_then(s7, self.8.spec_attr());
        let s9 = attr_then(s8, self.9.spec_attr());
        let s10 = attr_then(s9, self.10.spec_attr());
        let s11 = attr_then(s10, self.11.spec_attr());
        let s12 = attr_then(s11, self.12.spec_attr());
        let s13 = attr_then(s12, self.13.spec_attr());
        let s14 = attr_then(s13, self.14.spec_attr());
        let s15 = attr_then(s14, self.15.spec_attr());
        let s16 = attr_then(s15, self.16.spec_attr());
        let s17 = attr_then(s16, self.17.spec_attr());
        s17
    }

    open spec fn attr_ok(&self) -> bool {
        self.0.attr_ok()
        && self.1.attr_ok()
        && self.2.attr_ok()
        && self.3.attr_ok()
        && self.4.attr_ok()
        && self.5.attr_ok()
        && self.6.attr_ok()
        && self.7.attr_ok()
        && self.8.attr_ok()
        && self.9.attr_ok()
        && self.10.attr_ok()
        && self.11.attr_ok()
        && self.12.attr_ok()
        && self.13.attr_ok()
        && self.14.attr_ok()
        && self.15.attr_ok()
        && self.16.attr_ok()
        && self.17.attr_ok()
    }

    fn to_html(&self, buf: &mut String, class: &mut String, style: &mut String) {
        let ghost s0 = self.0.spec_attr();
        self.0.to_html(buf, class, style);
        let ghost s1 = attr_then(s0, self.1.spec_attr());
        self.1.to_html(buf, class, style);
        proof {
            lemma_attr_step(old(buf)@, old(class)@, old(style)@, s0, self.1.spec_attr());
        }
        let ghost s2 = attr_then(s1, self.2.spec_attr());
        self.2.to_html(buf, class, style);
        proof {
            lemma_attr_step(old(buf)@, old(class)@, old(style)@, s1, self.2.spec_attr());
        }
        let ghost s3 = attr_then(s2, self.3.spec_attr());
        self.3.to_html(buf, class, style);
        proof {
            lemma_attr_step(old(buf)@, old(class)@, old(style)@, s2, self.3.spec_attr());
        }
        let ghost s4 = attr_then(s3, self.4.spec_attr());
        self.4.to_html(buf, class, style);
        proof {
            lemma_attr_step(old(buf)@, old(class)@, old(style)@, s3, self.4.spec_attr());
        }
        let ghost s5 = attr_then(s4, self.5.spec_attr());
        self.5.to_html(buf, class, style);
        proof {
            lemma_attr_step(old(buf)@, old(class)@, old(style)@, s4, self.5.spec_attr());
        }
        let ghost s6 = attr_then(s5, self.6.spec_attr());
        self.6.to_html(buf, class, style);
        proof {
            lemma_attr_step(old(buf)@, old(class)@, old(style)@, s5, self.6.spec_attr());
        }
        let ghost s7 = attr_then(s6, self.7.spec_attr());
        self.7.to_html(buf, class, style);
        proof {
            lemma_attr_step(old(buf)@, old(class)@, old(style)@, s6, self.7.spec_attr());
        }
        let ghost s8 = attr_then(s7, self.8.spec_attr());
        self.8.to_html(buf, class, style);
        proof {
            lemma_attr_step(old(buf)@, old(class)@, old(style)@, s7, self.8.spec_attr());
        }
        let ghost s9 = attr_then(s8, self.9.spec_attr());
        self.9.to_html(buf, class, style);
        proof {
            lemma_attr_step(old(buf)@, old(class)@, old(style)@, s8, self.9.spec_attr());
        }
        let ghost s10 = attr_then(s9, self.10.spec_attr());
        self.10.to_html(buf, class, style);
        proof {
            lemma_attr_step(old(buf)@, old(class)@, old(style)@, s9, self.10.spec_attr());
        }
        let ghost s11 = attr_then(s10, self.11.spec_attr());
        self.11.to_html(buf, class, style);
        proof {
            lemma_attr_step(old(buf)@, old(class)@, old(style)@, s10, self.11.spec_attr());
        }
        let ghost s12 = attr_then(s11, self.12.spec_attr());
        self.12.to_html(buf, class, style);
        proof {
            lemma_attr_step(old(buf)@, old(class)@, old(style)@, s11, self.12.spec_attr());
        }
        let ghost s13 = attr_then(s12, self.13.spec_attr());
        self.13.to_html(buf, class, style);
        proof {
            lemma_attr_step(old(buf)@, old(class)@, old(style)@, s12, self.13.spec_attr());
        }
        let ghost s14 = attr_then(s13, self.14.spec_attr());
        self.14.to_html(buf, class, style);
        proof {
            lemma_attr_step(old(buf)@, old(class)@, old(style)@, s13, self.14.spec_attr());
        }
        let ghost s15 = attr_then(s14, self.15.spec_attr());
        self.15.to_html(buf, class, style);
        proof {
            lemma_attr_step(old(buf)@, old(class)@, old(style)@, s14, self.15.spec_attr());
        }
        let ghost s16 = attr_then(s15, self.16.spec_attr());
        self.16.to_html(buf, class, style);
        proof {
            lemma_attr_step(old(buf)@, old(class)@, old(style)@, s15, self.16.spec_attr());
        }
        let ghost s17 = attr_then(s16, self.17.spec_attr());
        self.17.to_html(buf, class, style);
        proof {
            lemma_attr_step(old(buf)@, old(class)@, old(style)@, s16, self.17.spec_attr());
        }
    }
}

impl<A: Attribute, B: Attribute, C: Attribute, D: Attribute, E: Attribute, F: Attribute, G: Attribute, H: Attribute, I: Attribute, J: Attribute, K: Attribute, L: Attribute, M: Attribute, N: Attribute, O: Attribute, P: Attribute, Q: Attribute, R: Attribute, S: Attribute> Attribute for (A, B, C, D, E, F, G, H, I, J, K, L, M, N, O, P, Q, R, S) {
    open spec fn spec_attr(&self) -> (Seq<char>, Seq<char>, Seq<char>) {
        let s0 = self.0.spec_attr();
        let s1 = attr_then(s0, self.1.spec_attr());
        let s2 = attr_then(s1, self.2.spec_attr());
        let s3 = attr_then(s2, self.3.spec_attr());
        let s4 = attr_then(s3, self.4.spec_attr());
        let s5 = attr_then(s4, self.5.spec_attr());
        let s6 = attr_then(s5, self.6.spec_attr());
        let s7 = attr_then(s6, self.7.spec_attr());
        let s8 = attr_then(s7, self.8.spec_attr());
        let s9 = attr_then(s8, self.9.spec_attr());
        let s10 = attr_then(s9, self.10.spec_attr());
        let s11 = attr_then(s10, self.11.spec_attr());
        let s12 = attr_then(s11, self.12.spec_attr());
        let s13 = attr_then(s12, self.13.spec_attr());
        let s14 = attr_then(s13, self.14.spec_attr());
        let s15 = attr_then(s14, self.15.spec_attr());
        let s16 = attr_then(s15, self.16.spec_attr());
        let s17 = attr_then(s16, self.17.spec_attr());
        let s18 = attr_then(s17, self.18.spec_attr());
        s18
    }

    open spec fn attr_ok(&self) -> bool {
        self.0.attr_ok()
        && self.1.attr_ok()
        && self.2.attr_ok()
        && self.3.attr_ok()
        && self.4.attr_ok()
        && self.5.attr_ok()
        && self.6.attr_ok()
        && self.7.attr_ok()
        && self.8.attr_ok()
        && self.9.attr_ok()
        && self.10.attr_ok()
        && self.11.attr_ok()
        && self.12.attr_ok()
        && self.13.attr_ok()
        && self.14.attr_ok()
        && self.15.attr_ok()
        && self.16.attr_ok()
        && self.17.attr_ok()
        && self.18.attr_ok()
    }

    fn to_html(&self, buf: &mut String, class: &mut String, style: &mut String) {
        let ghost s0 = self.0.spec_attr();
        self.0.to_html(buf, class, style);
        let ghost s1 = attr_then(s0, self.1.spec_attr());
        self.1.to_html(buf, class, style);
        proof {
            lemma_attr_step(old(buf)@, old(class)@, old(style)@, s0, self.1.spec_attr());
        }
        let ghost s2 = attr_then(s1, self.2.spec_attr());
        self.2.to_html(buf, class, style);
        proof {
            lemma_attr_step(old(buf)@, old(class)@, old(style)@, s1, self.2.spec_attr());
        }
        let ghost s3 = attr_then(s2, self.3.spec_attr());
        self.3.to_html(buf, class, style);
        proof {
            lemma_attr_step(old(buf)@, old(class)@, old(style)@, s2, self.3.spec_attr());
        }
        let ghost s4 = attr_then(s3, self.4.spec_attr());
        self.4.to_html(buf, class, style);
        proof {
            lemma_attr_step(old(buf)@, old(class)@, old(style)@, s3, self.4.spec_attr());
        }
        let ghost s5 = attr_then(s4, self.5.spec_attr());
        self.5.to_html(buf, class, style);
        proof {
            lemma_attr_step(old(buf)@, old(class)@, old(style)@, s4, self.5.spec_attr());
        }
        let ghost s6 = attr_then(s5, self.6.spec_attr());
        self.6.to_html(buf, class, style);
        proof {
            lemma_attr_step(old(buf)@, old(class)@, old(style)@, s5, self.6.spec_attr());
        }
        let ghost s7 = attr_then(s6, self.7.spec_attr());
        self.7.to_html(buf, class, style);
        proof {
            lemma_attr_step(old(buf)@, old(class)@, old(style)@, s6, self.7.spec_attr());
        }
        let ghost s8 = attr_then(s7, self.8.spec_attr());
        self.8.to_html(buf, class, style);
        proof {
            lemma_attr_step(old(buf)@, old(class)@, old(style)@, s7, self.8.spec_attr());
        }
        let ghost s9 = attr_then(s8, self.9.spec_attr());
        self.9.to_html(buf, class, style);
        proof {
            lemma_attr_step(old(buf)@, old(class)@, old(style)@, s8, self.9.spec_attr());
        }
        let ghost s10 = attr_then(s9, self.10.spec_attr());
        self.10.to_html(buf, class, style);
        proof {
            lemma_attr_step(old(buf)@, old(class)@, old(style)@, s9, self.10.spec_attr());
        }
        let ghost s11 = attr_then(s10, self.11.spec_attr());
        self.11.to_html(buf, class, style);
        proof {
            lemma_attr_step(old(buf)@, old(class)@, old(style)@, s10, self.11.spec_attr());
        }
        let ghost s12 = attr_then(s11, self.12.spec_attr());
        self.12.to_html(buf, class, style);
        proof {
            lemma_attr_step(old(buf)@, old(class)@, old(style)@, s11, self.12.spec_attr());
        }
        let ghost s13 = attr_then(s12, self.13.spec_attr());
        self.13.to_html(buf, class, style);
        proof {
            lemma_attr_step(old(buf)@, old(class)@, old(style)@, s12, self.13.spec_attr());
        }
        let ghost s14 = attr_then(s13, self.14.spec_attr());
        self.14.to_html(buf, class, style);
        proof {
            lemma_attr_step(old(buf)@, old(class)@, old(style)@, s13, self.14.spec_attr());
        }
        let ghost s15 = attr_then(s14, self.15.spec_attr());
        self.15.to_html(buf, class, style);
        proof {
            lemma_attr_step(old(buf)@, old(class)@, old(style)@, s14, self.15.spec_attr());
        }
        let ghost s16 = attr_then(s15, self.16.spec_attr());
        self.16.to_html(buf, class, style);
        proof {
            lemma_attr_step(old(buf)@, old(class)@, old(style)@, s15, self.16.spec_attr());
        }
        let ghost s17 = attr_then(s16, self.17.spec_attr());
        self.17.to_html(buf, class, style);
        proof {
            lemma_attr_step(old(buf)@, old(class)@, old(style)@, s16, self.17.spec_attr());
        }
        let ghost s18 = attr_then(s17, self.18.spec_attr());
        self.18.to_html(buf, class, style);
        proof {
            lemma_attr_step(old(buf)@, old(class)@, old(style)@, s17, self.18.spec_attr());
        }
    }
}

impl<A: Attribute, B: Attribute, C: Attribute, D: Attribute, E: Attribute, F: Attribute, G: Attribute, H: Attribute, I: Attribute, J: Attribute, K: Attribute, L: Attribute, M: Attribute, N: Attribute, O: Attribute, P: Attribute, Q: Attribute, R: Attribute, S: Attribute, T: Attribute> Attribute for (A, B, C, D, E, F, G, H, I, J, K, L, M, N, O, P, Q, R, S, T) {
    open spec fn spec_attr(&self) -> (Seq<char>, Seq<char>, Seq<char>) {
        let s0 = self.0.spec_attr();
        let s1 = attr_then(s0, self.1.spec_attr());
        let s2 = attr_then(s1, self.2.spec_attr());
        let s3 = attr_then(s2, self.3.spec_attr());
        let s4 = attr_then(s3, self.4.spec_attr());
        let s5 = attr_then(s4, self.5.spec_attr());
        let s6 = attr_then(s5, self.6.spec_attr());
        let s7 = attr_then(s6, self.7.spec_attr());
        let s8 = attr_then(s7, self.8.spec_attr());
        let s9 = attr_then(s8, self.9.spec_attr());
        let s10 = attr_then(s9, self.10.spec_attr());
        let s11 = attr_then(s10, self.11.spec_attr());
        let s12 = attr_then(s11, self.12.spec_attr());
        let s13 = attr_then(s12, self.13.spec_attr());
        let s14 = attr_then(s13, self.14.spec_attr());
        let s15 = attr_then(s14, self.15.spec_attr());
        let s16 = attr_then(s15, self.16.spec_attr());
        let s17 = attr_then(s16, self.17.spec_attr());
        let s18 = attr_then(s17, self.18.spec_attr());
        let s19 = attr_then(s18, self.19.spec_attr());
        s19
    }

    open spec fn attr_ok(&self) -> bool {
        self.0.attr_ok()
        && self.1.attr_ok()
        && self.2.attr_ok()
        && self.3.attr_ok()
        && self.4.attr_ok()
        && self.5.attr_ok()
        && self.6.attr_ok()
        && self.7.attr_ok()
        && self.8.attr_ok()
        && self.9.attr_ok()
        && self.10.attr_ok()
        && self.11.attr_ok()
        && self.12.attr_ok()
        && self.13.attr_ok()
        && self.14.attr_ok()
        && self.15.attr_ok()
        && self.16.attr_ok()
        && self.17.attr_ok()
        && self.18.attr_ok()
        && self.19.attr_ok()
    }

    fn to_html(&self, buf: &mut String, class: &mut String, style: &mut String) {
        let ghost s0 = self.0.spec_attr();
        self.0.to_html(buf, class, style);
        let ghost s1 = attr_then(s0, self.1.spec_attr());
        self.1.to_html(buf, class, style);
        proof {
            lemma_attr_step(old(buf)@, old(class)@, old(style)@, s0, self.1.spec_attr());
        }
        let ghost s2 = attr_then(s1, self.2.spec_attr());
        self.2.to_html(buf, class, style);
        proof {
            lemma_attr_step(old(buf)@, old(class)@, old(style)@, s1, self.2.spec_attr());
        }
        let ghost s3 = attr_then(s2, self.3.spec_attr());
        self.3.to_html(buf, class, style);
        proof {
            lemma_attr_step(old(buf)@, old(class)@, old(style)@, s2, self.3.spec_attr());
        }
        let ghost s4 = attr_then(s3, self.4.spec_attr());
        self.4.to_html(buf, class, style);
        proof {
            lemma_attr_step(old(buf)@, old(class)@, old(style)@, s3, self.4.spec_attr());
        }
        let ghost s5 = attr_then(s4, self.5.spec_attr());
        self.5.to_html(buf, class, style);
        proof {
            lemma_attr_step(old(buf)@, old(class)@, old(style)@, s4, self.5.spec_attr());
        }
        let ghost s6 = attr_then(s5, self.6.spec_attr());
        self.6.to_html(buf, class, style);
        proof {
            lemma_attr_step(old(buf)@, old(class)@, old(style)@, s5, self.6.spec_attr());
        }
        let ghost s7 = attr_then(s6, self.7.spec_attr());
        self.7.to_html(buf, class, style);
        proof {
            lemma_attr_step(old(buf)@, old(class)@, old(style)@, s6, self.7.spec_attr());
        }
        let ghost s8 = attr_then(s7, self.8.spec_attr());
        self.8.to_html(buf, class, style);
        proof {
            lemma_attr_step(old(buf)@, old(class)@, old(style)@, s7, self.8.spec_attr());
        }
        let ghost s9 = attr_then(s8, self.9.spec_attr());
        self.9.to_html(buf, class, style);
        proof {
            lemma_attr_step(old(buf)@, old(class)@, old(style)@, s8, self.9.spec_attr());
        }
        let ghost s10 = attr_then(s9, self.10.spec_attr());
        self.10.to_html(buf, class, style);
        proof {
            lemma_attr_step(old(buf)@, old(class)@, old(style)@, s9, self.10.spec_attr());
        }
        let ghost s11 = attr_then(s10, self.11.spec_attr());
        self.11.to_html(buf, class, style);
        proof {
            lemma_attr_step(old(buf)@, old(class)@, old(style)@, s10, self.11.spec_attr());
        }
        let ghost s12 = attr_then(s11, self.12.spec_attr());
        self.12.to_html(buf, class, style);
        proof {
            lemma_attr_step(old(buf)@, old(class)@, old(style)@, s11, self.12.spec_attr());
        }
        let ghost s13 = attr_then(s12, self.13.spec_attr());
        self.13.to_html(buf, class, style);
        proof {
            lemma_attr_step(old(buf)@, old(class)@, old(style)@, s12, self.13.spec_attr());
        }
        let ghost s14 = attr_then(s13, self.14.spec_attr());
        self.14.to_html(buf, class, style);
        proof {
            lemma_attr_step(old(buf)@, old(class)@, old(style)@, s13, self.14.spec_attr());
        }
        let ghost s15 = attr_then(s14, self.15.spec_attr());
        self.15.to_html(buf, class, style);
        proof {
            lemma_attr_step(old(buf)@, old(class)@, old(style)@, s14, self.15.spec_attr());
        }
        let ghost s16 = attr_then(s15, self.16.spec_attr());
        self.16.to_html(buf, class, style);
        proof {
            lemma_attr_step(old(buf)@, old(class)@, old(style)@, s15, self.16.spec_attr());
        }
        let ghost s17 = attr_then(s16, self.17.spec_attr());
        self.17.to_html(buf, class, style);
        proof {
            lemma_attr_step(old(buf)@, old(class)@, old(style)@, s16, self.17.spec_attr());
        }
        let ghost s18 = attr_then(s17, self.18.spec_attr());
        self.18.to_html(buf, class, style);
        proof {
            lemma_attr_step(old(buf)@, old(class)@, old(style)@, s17, self.18.spec_attr());
        }
        let ghost s19 = attr_then(s18, self.19.spec_attr());
        self.19.to_html(buf, class, style);
        proof {
            lemma_attr_step(old(buf)@, old(class)@, old(style)@, s18, self.19.spec_attr());
        }
    }
}

impl<A: Attribute, B: Attribute, C: Attribute, D: Attribute, E: Attribute, F: Attribute, G: Attribute, H: Attribute, I: Attribute, J: Attribute, K: Attribute, L: Attribute, M: Attribute, N: Attribute, O: Attribute, P: Attribute, Q: Attribute, R: Attribute, S: Attribute, T: Attribute, U: Attribute> Attribute for (A, B, C, D, E, F, G, H, I, J, K, L, M, N, O, P, Q, R, S, T, U) {
    open spec fn spec_attr(&self) -> (Seq<char>, Seq<char>, Seq<char>) {
        let s0 = self.0.spec_attr();
        let s1 = attr_then(s0, self.1.spec_attr());
        let s2 = attr_then(s1, self.2.spec_attr());
        let s3 = attr_then(s2, self.3.spec_attr());
        let s4 = attr_then(s3, self.4.spec_attr());
        let s5 = attr_then(s4, self.5.spec_attr());
        let s6 = attr_then(s5, self.6.spec_attr());
        let s7 = attr_then(s6, self.7.spec_attr());
        let s8 = attr_then(s7, self.8.spec_attr());
        let s9 = attr_then(s8, self.9.spec_attr());
        let s10 = attr_then(s9, self.10.spec_attr());
        let s11 = attr_then(s10, self.11.spec_attr());
        let s12 = attr_then(s11, self.12.spec_attr());
        let s13 = attr_then(s12, self.13.spec_attr());
        let s14 = attr_then(s13, self.14.spec_attr());
        let s15 = attr_then(s14, self.15.spec_attr());
        let s16 = attr_then(s15, self.16.spec_attr());
        let s17 = attr_then(s16, self.17.spec_attr());
        let s18 = attr_then(s17, self.18.spec_attr());
        let s19 = attr_then(s18, self.19.spec_attr());
        let s20 = attr_then(s19, self.20.spec_attr());
        s20
    }

    open spec fn attr_ok(&self) -> bool {
        self.0.attr_ok()
        && self.1.attr_ok()
        && self.2.attr_ok()
        && self.3.attr_ok()
        && self.4.attr_ok()
        && self.5.attr_ok()
        && self.6.attr_ok()
        && self.7.attr_ok()
        && self.8.attr_ok()
        && self.9.attr_ok()
        && self.10.attr_ok()
        && self.11.attr_ok()
        && self.12.attr_ok()
        && self.13.attr_ok()
        && self.14.attr_ok()
        && self.15.attr_ok()
        && self.16.attr_ok()
        && self.17.attr_ok()
        && self.18.attr_ok()
        && self.19.attr_ok()
        && self.20.attr_ok()
    }

    fn to_html(&self, buf: &mut String, class: &mut String, style: &mut String) {
        let ghost s0 = self.0.spec_attr();
        self.0.to_html(buf, class, style);
        let ghost s1 = attr_then(s0, self.1.spec_attr());
        self.1.to_html(buf, class, style);
        proof {
            lemma_attr_step(old(buf)@, old(class)@, old(style)@, s0, self.1.spec_attr());
        }
        let ghost s2 = attr_then(s1, self.2.spec_attr());
        self.2.to_html(buf, class, style);
        proof {
            lemma_attr_step(old(buf)@, old(class)@, old(style)@, s1, self.2.spec_attr());
        }
        let ghost s3 = attr_then(s2, self.3.spec_attr());
        self.3.to_html(buf, class, style);
        proof {
            lemma_attr_step(old(buf)@, old(class)@, old(style)@, s2, self.3.spec_attr());
        }
        let ghost s4 = attr_then(s3, self.4.spec_attr());
        self.4.to_html(buf, class, style);
        proof {
            lemma_attr_step(old(buf)@, old(class)@, old(style)@, s3, self.4.spec_attr());
        }
        let ghost s5 = attr_then(s4, self.5.spec_attr());
        self.5.to_html(buf, class, style);
        proof {
            lemma_attr_step(old(buf)@, old(class)@, old(style)@, s4, self.5.spec_attr());
        }
        let ghost s6 = attr_then(s5, self.6.spec_attr());
        self.6.to_html(buf, class, style);
        proof {
            lemma_attr_step(old(buf)@, old(class)@, old(style)@, s5, self.6.spec_attr());
        }
        let ghost s7 = attr_then(s6, self.7.spec_attr());
        self.7.to_html(buf, class, style);
        proof {
            lemma_attr_step(old(buf)@, old(class)@, old(style)@, s6, self.7.spec_attr());
        }
        let ghost s8 = attr_then(s7, self.8.spec_attr());
        self.8.to_html(buf, class, style);
        proof {
            lemma_attr_step(old(buf)@, old(class)@, old(style)@, s7, self.8.spec_attr());
        }
        let ghost s9 = attr_then(s8, self.9.spec_attr());
        self.9.to_html(buf, class, style);
        proof {
            lemma_attr_step(old(buf)@, old(class)@, old(style)@, s8, self.9.spec_attr());
        }
        let ghost s10 = attr_then(s9, self.10.spec_attr());
        self.10.to_html(buf, class, style);
        proof {
            lemma_attr_step(old(buf)@, old(class)@, old(style)@, s9, self.10.spec_attr());
        }
        let ghost s11 = attr_then(s10, self.11.spec_attr());
        self.11.to_html(buf, class, style);
        proof {
            lemma_attr_step(old(buf)@, old(class)@, old(style)@, s10, self.11.spec_attr());
        }
        let ghost s12 = attr_then(s11, self.12.spec_attr());
        self.12.to_html(buf, class, style);
        proof {
            lemma_attr_step(old(buf)@, old(class)@, old(style)@, s11, self.12.spec_attr());
        }
        let ghost s13 = attr_then(s12, self.13.spec_attr());
        self.13.to_html(buf, class, style);
        proof {
            lemma_attr_step(old(buf)@, old(class)@, old(style)@, s12, self.13.spec_attr());
        }
        let ghost s14 = attr_then(s13, self.14.spec_attr());
        self.14.to_html(buf, class, style);
        proof {
            lemma_attr_step(old(buf)@, old(class)@, old(style)@, s13, self.14.spec_attr());
        }
        let ghost s15 = attr_then(s14, self.15.spec_attr());
        self.15.to_html(buf, class, style);
        proof {
            lemma_attr_step(old(buf)@, old(class)@, old(style)@, s14, self.15.spec_attr());
        }
        let ghost s16 = attr_then(s15, self.16.spec_attr());
        self.16.to_html(buf, class, style);
        proof {
            lemma_attr_step(old(buf)@, old(class)@, old(style)@, s15, self.16.spec_attr());
        }
        let ghost s17 = attr_then(s16, self.17.spec_attr());
        self.17.to_html(buf, class, style);
        proof {
            lemma_attr_step(old(buf)@, old(class)@, old(style)@, s16, self.17.spec_attr());
        }
        let ghost s18 = attr_then(s17, self.18.spec_attr());
        self.18.to_html(buf, class, style);
        proof {
            lemma_attr_step(old(buf)@, old(class)@, old(style)@, s17, self.18.spec_attr());
        }
        let ghost s19 = attr_then(s18, self.19.spec_attr());
        self.19.to_html(buf, class, style);
        proof {
            lemma_attr_step(old(buf)@, old(class)@, old(style)@, s18, self.19.spec_attr());
        }
        let ghost s20 = attr_then(s19, self.20.spec_attr());
        self.20.to_html(buf, class, style);
        proof {
            lemma_attr_step(old(buf)@, old(class)@, old(style)@, s19, self.20.spec_attr());
        }
    }
}

impl<A: Attribute, B: Attribute, C: Attribute, D: Attribute, E: Attribute, F: Attribute, G: Attribute, H: Attribute, I: Attribute, J: Attribute, K: Attribute, L: Attribute, M: Attribute, N: Attribute, O: Attribute, P: Attribute, Q: Attribute, R: Attribute, S: Attribute, T: Attribute, U: Attribute, V: Attribute> Attribute for (A, B, C, D, E, F, G, H, I, J, K, L, M, N, O, P, Q, R, S, T, U, V) {
    open spec fn spec_attr(&self) -> (Seq<char>, Seq<char>, Seq<char>) {
        let s0 = self.0.spec_attr();
        let s1 = attr_then(s0, self.1.spec_attr());
        let s2 = attr_then(s1, self.2.spec_attr());
        let s3 = attr_then(s2, self.3.spec_attr());
        let s4 = attr_then(s3, self.4.spec_attr());
        let s5 = attr_then(s4, self.5.spec_attr());
        let s6 = attr_then(s5, self.6.spec_attr());
        let s7 = attr_then(s6, self.7.spec_attr());
        let s8 = attr_then(s7, self.8.spec_attr());
        let s9 = attr_then(s8, self.9.spec_attr());
        let s10 = attr_then(s9, self.10.spec_attr());
        let s11 = attr_then(s10, self.11.spec_attr());
        let s12 = attr_then(s11, self.12.spec_attr());
        let s13 = attr_then(s12, self.13.spec_attr());
        let s14 = attr_then(s13, self.14.spec_attr());
        let s15 = attr_then(s14, self.15.spec_attr());
        let s16 = attr_then(s15, self.16.spec_attr());
        let s17 = attr_then(s16, self.17.spec_attr());
        let s18 = attr_then(s17, self.18.spec_attr());
        let s19 = attr_then(s18, self.19.spec_attr());
        let s20 = attr_then(s19, self.20.spec_attr());
        let s21 = attr_then(s20, self.21.spec_attr());
        s21
    }

    open spec fn attr_ok(&self) -> bool {
        self.0.attr_ok()
        && self.1.attr_ok()
        && self.2.attr_ok()
        && self.3.attr_ok()
        && self.4.attr_ok()
        && self.5.attr_ok()
        && self.6.attr_ok()
        && self.7.attr_ok()
        && self.8.attr_ok()
        && self.9.attr_ok()
        && self.10.attr_ok()
        && self.11.attr_ok()
        && self.12.attr_ok()
        && self.13.attr_ok()
        && self.14.attr_ok()
        && self.15.attr_ok()
        && self.16.attr_ok()
        && self.17.attr_ok()
        && self.18.attr_ok()
        && self.19.attr_ok()
        && self.20.attr_ok()
        && self.21.attr_ok()
    }

    fn to_html(&self, buf: &mut String, class: &mut String, style: &mut String) {
        let ghost s0 = self.0.spec_attr();
        self.0.to_html(buf, class, style);
        let ghost s1 = attr_then(s0, self.1.spec_attr());
        self.1.to_html(buf, class, style);
        proof {
            lemma_attr_step(old(buf)@, old(class)@, old(style)@, s0, self.1.spec_attr());
        }
        let ghost s2 = attr_then(s1, self.2.spec_attr());
        self.2.to_html(buf, class, style);
        proof {
            lemma_attr_step(old(buf)@, old(class)@, old(style)@, s1, self.2.spec_attr());
        }
        let ghost s3 = attr_then(s2, self.3.spec_attr());
        self.3.to_html(buf, class, style);
        proof {
            lemma_attr_step(old(buf)@, old(class)@, old(style)@, s2, self.3.spec_attr());
        }
        let ghost s4 = attr_then(s3, self.4.spec_attr());
        self.4.to_html(buf, class, style);
        proof {
            lemma_attr_step(old(buf)@, old(class)@, old(style)@, s3, self.4.spec_attr());
        }
        let ghost s5 = attr_then(s4, self.5.spec_attr());
        self.5.to_html(buf, class, style);
        proof {
            lemma_attr_step(old(buf)@, old(class)@, old(style)@, s4, self.5.spec_attr());
        }
        let ghost s6 = attr_then(s5, self.6.spec_attr());
        self.6.to_html(buf, class, style);
        proof {
            lemma_attr_step(old(buf)@, old(class)@, old(style)@, s5, self.6.spec_attr());
        }
        let ghost s7 = attr_then(s6, self.7.spec_attr());
        self.7.to_html(buf, class, style);
        proof {
            lemma_attr_step(old(buf)@, old(class)@, old(style)@, s6, self.7.spec_attr());
        }
        let ghost s8 = attr_then(s7, self.8.spec_attr());
        self.8.to_html(buf, class, style);
        proof {
            lemma_attr_step(old(buf)@, old(class)@, old(style)@, s7, self.8.spec_attr());
        }
        let ghost s9 = attr_then(s8, self.9.spec_attr());
        self.9.to_html(buf, class, style);
        proof {
            lemma_attr_step(old(buf)@, old(class)@, old(style)@, s8, self.9.spec_attr());
        }
        let ghost s10 = attr_then(s9, self.10.spec_attr());
        self.10.to_html(buf, class, style);
        proof {
            lemma_attr_step(old(buf)@, old(class)@, old(style)@, s9, self.10.spec_attr());
        }
        let ghost s11 = attr_then(s10, self.11.spec_attr());
        self.11.to_html(buf, class, style);
        proof {
            lemma_attr_step(old(buf)@, old(class)@, old(style)@, s10, self.11.spec_attr());
        }
        let ghost s12 = attr_then(s11, self.12.spec_attr());
        self.12.to_html(buf, class, style);
        proof {
            lemma_attr_step(old(buf)@, old(class)@, old(style)@, s11, self.12.spec_attr());
        }
        let ghost s13 = attr_then(s12, self.13.spec_attr());
        self.13.to_html(buf, class, style);
        proof {
            lemma_attr_step(old(buf)@, old(class)@, old(style)@, s12, self.13.spec_attr());
        }
        let ghost s14 = attr_then(s13, self.14.spec_attr());
        self.14.to_html(buf, class, style);
        proof {
            lemma_attr_step(old(buf)@, old(class)@, old(style)@, s13, self.14.spec_attr());
        }
        let ghost s15 = attr_then(s14, self.15.spec_attr());
        self.15.to_html(buf, class, style);
        proof {
            lemma_attr_step(old(buf)@, old(class)@, old(style)@, s14, self.15.spec_attr());
        }
        let ghost s16 = attr_then(s15, self.16.spec_attr());
        self.16.to_html(buf, class, style);
        proof {
            lemma_attr_step(old(buf)@, old(class)@, old(style)@, s15, self.16.spec_attr());
        }
        let ghost s17 = attr_then(s16, self.17.spec_attr());
        self.17.to_html(buf, class, style);
        proof {
            lemma_attr_step(old(buf)@, old(class)@, old(style)@, s16, self.17.spec_attr());
        }
        let ghost s18 = attr_then(s17, self.18.spec_attr());
        self.18.to_html(buf, class, style);
        proof {
            lemma_attr_step(old(buf)@, old(class)@, old(style)@, s17, self.18.spec_attr());
        }
        let ghost s19 = attr_then(s18, self.19.spec_attr());
        self.19.to_html(buf, class, style);
        proof {
            lemma_attr_step(old(buf)@, old(class)@, old(style)@, s18, self.19.spec_attr());
        }
        let ghost s20 = attr_then(s19, self.20.spec_attr());
        self.20.to_html(buf, class, style);
        proof {
            lemma_attr_step(old(buf)@, old(class)@, old(style)@, s19, self.20.spec_attr());
        }
        let ghost s21 = attr_then(s20, self.21.spec_attr());
        self.21.to_html(buf, class, style);
        proof {
            lemma_attr_step(old(buf)@, old(class)@, old(style)@, s20, self.21.spec_attr());
        }
    }
}

impl<A: Attribute, B: Attribute, C: Attribute, D: Attribute, E: Attribute, F: Attribute, G: Attribute, H: Attribute, I: Attribute, J: Attribute, K: Attribute, L: Attribute, M: Attribute, N: Attribute, O: Attribute, P: Attribute, Q: Attribute, R: Attribute, S: Attribute, T: Attribute, U: Attribute, V: Attribute, W: Attribute> Attribute for (A, B, C, D, E, F, G, H, I, J, K, L, M, N, O, P, Q, R, S, T, U, V, W) {
    open spec fn spec_attr(&self) -> (Seq<char>, Seq<char>, Seq<char>) {
        let s0 = self.0.spec_attr();
        let s1 = attr_then(s0, self.1.spec_attr());
        let s2 = attr_then(s1, self.2.spec_attr());
        let s3 = attr_then(s2, self.3.spec_attr());
        let s4 = attr_then(s3, self.4.spec_attr());
        let s5 = attr_then(s4, self.5.spec_attr());
        let s6 = attr_then(s5, self.6.spec_attr());
        let s7 = attr_then(s6, self.7.spec_attr());
        let s8 = attr_then(s7, self.8.spec_attr());
        let s9 = attr_then(s8, self.9.spec_attr());
        let s10 = attr_then(s9, self.10.spec_attr());
        let s11 = attr_then(s10, self.11.spec_attr());
        let s12 = attr_then(s11, self.12.spec_attr());
        let s13 = attr_then(s12, self.13.spec_attr());
        let s14 = attr_then(s13, self.14.spec_attr());
        let s15 = attr_then(s14, self.15.spec_attr());
        let s16 = attr_then(s15, self.16.spec_attr());
        let s17 = attr_then(s16, self.17.spec_attr());
        let s18 = attr_then(s17, self.18.spec_attr());
        let s19 = attr_then(s18, self.19.spec_attr());
        let s20 = attr_then(s19, self.20.spec_attr());
        let s21 = attr_then(s20, self.21.spec_attr());
        let s22 = attr_then(s21, self.22.spec_attr());
        s22
    }

    open spec fn attr_ok(&self) -> bool {
        self.0.attr_ok()
        && self.1.attr_ok()
        && self.2.attr_ok()
        && self.3.attr_ok()
        && self.4.attr_ok()
        && self.5.attr_ok()
        && self.6.attr_ok()
        && self.7.attr_ok()
        && self.8.attr_ok()
        && self.9.attr_ok()
        && self.10.attr_ok()
        && self.11.attr_ok()
        && self.12.attr_ok()
        && self.13.attr_ok()
        && self.14.attr_ok()
        && self.15.attr_ok()
        && self.16.attr_ok()
        && self.17.attr_ok()
        && self.18.attr_ok()
        && self.19.attr_ok()
        && self.20.attr_ok()
        && self.21.attr_ok()
        && self.22.attr_ok()
    }

    fn to_html(&self, buf: &mut String, class: &mut String, style: &mut String) {
        let ghost s0 = self.0.spec_attr();
        self.0.to_html(buf, class, style);
        let ghost s1 = attr_then(s0, self.1.spec_attr());
        self.1.to_html(buf, class, style);
        proof {
            lemma_attr_step(old(buf)@, old(class)@, old(style)@, s0, self.1.spec_attr());
        }
        let ghost s2 = attr_then(s1, self.2.spec_attr());
        self.2.to_html(buf, class, style);
        proof {
            lemma_attr_step(old(buf)@, old(class)@, old(style)@, s1, self.2.spec_attr());
        }
        let ghost s3 = attr_then(s2, self.3.spec_attr());
        self.3.to_html(buf, class, style);
        proof {
            lemma_attr_step(old(buf)@, old(class)@, old(style)@, s2, self.3.spec_attr());
        }
        let ghost s4 = attr_then(s3, self.4.spec_attr());
        self.4.to_html(buf, class, style);
        proof {
            lemma_attr_step(old(buf)@, old(class)@, old(style)@, s3, self.4.spec_attr());
        }
        let ghost s5 = attr_then(s4, self.5.spec_attr());
        self.5.to_html(buf, class, style);
        proof {
            lemma_attr_step(old(buf)@, old(class)@, old(style)@, s4, self.5.spec_attr());
        }
        let ghost s6 = attr_then(s5, self.6.spec_attr());
        self.6.to_html(buf, class, style);
        proof {
            lemma_attr_step(old(buf)@, old(class)@, old(style)@, s5, self.6.spec_attr());
        }
        let ghost s7 = attr_then(s6, self.7.spec_attr());
        self.7.to_html(buf, class, style);
        proof {
            lemma_attr_step(old(buf)@, old(class)@, old(style)@, s6, self.7.spec_attr());
        }
        let ghost s8 = attr_then(s7, self.8.spec_attr());
        self.8.to_html(buf, class, style);
        proof {
            lemma_attr_step(old(buf)@, old(class)@, old(style)@, s7, self.8.spec_attr());
        }
        let ghost s9 = attr_then(s8, self.9.spec_attr());
        self.9.to_html(buf, class, style);
        proof {
            lemma_attr_step(old(buf)@, old(class)@, old(style)@, s8, self.9.spec_attr());
        }
        let ghost s10 = attr_then(s9, self.10.spec_attr());
        self.10.to_html(buf, class, style);
        proof {
            lemma_attr_step(old(buf)@, old(class)@, old(style)@, s9, self.10.spec_attr());
        }
        let ghost s11 = attr_then(s10, self.11.spec_attr());
        self.11.to_html(buf, class, style);
        proof {
            lemma_attr_step(old(buf)@, old(class)@, old(style)@, s10, self.11.spec_attr());
        }
        let ghost s12 = attr_then(s11, self.12.spec_attr());
        self.12.to_html(buf, class, style);
        proof {
            lemma_attr_step(old(buf)@, old(class)@, old(style)@, s11, self.12.spec_attr());
        }
        let ghost s13 = attr_then(s12, self.13.spec_attr());
        self.13.to_html(buf, class, style);
        proof {
            lemma_attr_step(old(buf)@, old(class)@, old(style)@, s12, self.13.spec_attr());
        }
        let ghost s14 = attr_then(s13, self.14.spec_attr());
        self.14.to_html(buf, class, style);
        proof {
            lemma_attr_step(old(buf)@, old(class)@, old(style)@, s13, self.14.spec_attr());
        }
        let ghost s15 = attr_then(s14, self.15.spec_attr());
        self.15.to_html(buf, class, style);
        proof {
            lemma_attr_step(old(buf)@, old(class)@, old(style)@, s14, self.15.spec_attr());
        }
        let ghost s16 = attr_then(s15, self.16.spec_attr());
        self.16.to_html(buf, class, style);
        proof {
            lemma_attr_step(old(buf)@, old(class)@, old(style)@, s15, self.16.spec_attr());
        }
        let ghost s17 = attr_then(s16, self.17.spec_attr());
        self.17.to_html(buf, class, style);
        proof {
            lemma_attr_step(old(buf)@, old(class)@, old(style)@, s16, self.17.spec_attr());
        }
        let ghost s18 = attr_then(s17, self.18.spec_attr());
        self.18.to_html(buf, class, style);
        proof {
            lemma_attr_step(old(buf)@, old(class)@, old(style)@, s17, self.18.spec_attr());
        }
        let ghost s19 = attr_then(s18, self.19.spec_attr());
        self.19.to_html(buf, class, style);
        proof {
            lemma_attr_step(old(buf)@, old(class)@, old(style)@, s18, self.19.spec_attr());
        }
        let ghost s20 = attr_then(s19, self.20.spec_attr());
        self.20.to_html(buf, class, style);
        proof {
            lemma_attr_step(old(buf)@, old(class)@, old(style)@, s19, self.20.spec_attr());
        }
        let ghost s21 = attr_then(s20, self.21.spec_attr());
        self.21.to_html(buf, class, style);
        proof {
            lemma_attr_step(old(buf)@, old(class)@, old(style)@, s20, self.21.spec_attr());
        }
        let ghost s22 = attr_then(s21, self.22.spec_attr());
        self.22.to_html(buf, class, style);
        proof {
            lemma_attr_step(old(buf)@, old(class)@, old(style)@, s21, self.22.spec_attr());
        }
    }
}

impl<A: Attribute, B: Attribute, C: Attribute, D: Attribute, E: Attribute, F: Attribute, G: Attribute, H: Attribute, I: Attribute, J: Attribute, K: Attribute, L: Attribute, M: Attribute, N: Attribute, O: Attribute, P: Attribute, Q: Attribute, R: Attribute, S: Attribute, T: Attribute, U: Attribute, V: Attribute, W: Attribute, X: Attribute> Attribute for (A, B, C, D, E, F, G, H, I, J, K, L, M, N, O, P, Q, R, S, T, U, V, W, X) {
    open spec fn spec_attr(&self) -> (Seq<char>, Seq<char>, Seq<char>) {
        let s0 = self.0.spec_attr();
        let s1 = attr_then(s0, self.1.spec_attr());
        let s2 = attr_then(s1, self.2.spec_attr());
        let s3 = attr_then(s2, self.3.spec_attr());
        let s4 = attr_then(s3, self.4.spec_attr());
        let s5 = attr_then(s4, self.5.spec_attr());
        let s6 = attr_then(s5, self.6.spec_attr());
        let s7 = attr_then(s6, self.7.spec_attr());
        let s8 = attr_then(s7, self.8.spec_attr());
        let s9 = attr_then(s8, self.9.spec_attr());
        let s10 = attr_then(s9, self.10.spec_attr());
        let s11 = attr_then(s10, self.11.spec_attr());
        let s12 = attr_then(s11, self.12.spec_attr());
        let s13 = attr_then(s12, self.13.spec_attr());
        let s14 = attr_then(s13, self.14.spec_attr());
        let s15 = attr_then(s14, self.15.spec_attr());
        let s16 = attr_then(s15, self.16.spec_attr());
        let s17 = attr_then(s16, self.17.spec_attr());
        let s18 = attr_then(s17, self.18.spec_attr());
        let s19 = attr_then(s18, self.19.spec_attr());
        let s20 = attr_then(s19, self.20.spec_attr());
        let s21 = attr_then(s20, self.21.spec_attr());
        let s22 = attr_then(s21, self.22.spec_attr());
        let s23 = attr_then(s22, self.23.spec_attr());
        s23
    }

    open spec fn attr_ok(&self) -> bool {
        self.0.attr_ok()
        && self.1.attr_ok()
        && self.2.attr_ok()
        && self.3.attr_ok()
        && self.4.attr_ok()
        && self.5.attr_ok()
        && self.6.attr_ok()
        && self.7.attr_ok()
        && self.8.attr_ok()
        && self.9.attr_ok()
        && self.10.attr_ok()
        && self.11.attr_ok()
        && self.12.attr_ok()
        && self.13.attr_ok()
        && self.14.attr_ok()
        && self.15.attr_ok()
        && self.16.attr_ok()
        && self.17.attr_ok()
        && self.18.attr_ok()
        && self.19.attr_ok()
        && self.20.attr_ok()
        && self.21.attr_ok()
        && self.22.attr_ok()
        && self.23.attr_ok()
    }

    fn to_html(&self, buf: &mut String, class: &mut String, style: &mut String) {
        let ghost s0 = self.0.spec_attr();
        self.0.to_html(buf, class, style);
        let ghost s1 = attr_then(s0, self.1.spec_attr());
        self.1.to_html(buf, class, style);
        proof {
            lemma_attr_step(old(buf)@, old(class)@, old(style)@, s0, self.1.spec_attr());
        }
        let ghost s2 = attr_then(s1, self.2.spec_attr());
        self.2.to_html(buf, class, style);
        proof {
            lemma_attr_step(old(buf)@, old(class)@, old(style)@, s1, self.2.spec_attr());
        }
        let ghost s3 = attr_then(s2, self.3.spec_attr());
        self.3.to_html(buf, class, style);
        proof {
            lemma_attr_step(old(buf)@, old(class)@, old(style)@, s2, self.3.spec_attr());
        }
        let ghost s4 = attr_then(s3, self.4.spec_attr());
        self.4.to_html(buf, class, style);
        proof {
            lemma_attr_step(old(buf)@, old(class)@, old(style)@, s3, self.4.spec_attr());
        }
        let ghost s5 = attr_then(s4, self.5.spec_attr());
        self.5.to_html(buf, class, style);
        proof {
            lemma_attr_step(old(buf)@, old(class)@, old(style)@, s4, self.5.spec_attr());
        }
        let ghost s6 = attr_then(s5, self.6.spec_attr());
        self.6.to_html(buf, class, style);
        proof {
            lemma_attr_step(old(buf)@, old(class)@, old(style)@, s5, self.6.spec_attr());
        }
        let ghost s7 = attr_then(s6, self.7.spec_attr());
        self.7.to_html(buf, class, style);
        proof {
            lemma_attr_step(old(buf)@, old(class)@, old(style)@, s6, self.7.spec_attr());
        }
        let ghost s8 = attr_then(s7, self.8.spec_attr());
        self.8.to_html(buf, class, style);
        proof {
            lemma_attr_step(old(buf)@, old(class)@, old(style)@, s7, self.8.spec_attr());
        }
        let ghost s9 = attr_then(s8, self.9.spec_attr());
        self.9.to_html(buf, class, style);
        proof {
            lemma_attr_step(old(buf)@, old(class)@, old(style)@, s8, self.9.spec_attr());
        }
        let ghost s10 = attr_then(s9, self.10.spec_attr());
        self.10.to_html(buf, class, style);
        proof {
            lemma_attr_step(old(buf)@, old(class)@, old(style)@, s9, self.10.spec_attr());
        }
        let ghost s11 = attr_then(s10, self.11.spec_attr());
        self.11.to_html(buf, class, style);
        proof {
            lemma_attr_step(old(buf)@, old(class)@, old(style)@, s10, self.11.spec_attr());
        }
        let ghost s12 = attr_then(s11, self.12.spec_attr());
        self.12.to_html(buf, class, style);
        proof {
            lemma_attr_step(old(buf)@, old(class)@, old(style)@, s11, self.12.spec_attr());
        }
        let ghost s13 = attr_then(s12, self.13.spec_attr());
        self.13.to_html(buf, class, style);
        proof {
            lemma_attr_step(old(buf)@, old(class)@, old(style)@, s12, self.13.spec_attr());
        }
        let ghost s14 = attr_then(s13, self.14.spec_attr());
        self.14.to_html(buf, class, style);
        proof {
            lemma_attr_step(old(buf)@, old(class)@, old(style)@, s13, self.14.spec_attr());
        }
        let ghost s15 = attr_then(s14, self.15.spec_attr());
        self.15.to_html(buf, class, style);
        proof {
            lemma_attr_step(old(buf)@, old(class)@, old(style)@, s14, self.15.spec_attr());
        }
        let ghost s16 = attr_then(s15, self.16.spec_attr());
        self.16.to_html(buf, class, style);
        proof {
            lemma_attr_step(old(buf)@, old(class)@, old(style)@, s15, self.16.spec_attr());
        }
        let ghost s17 = attr_then(s16, self.17.spec_attr());
        self.17.to_html(buf, class, style);
        proof {
            lemma_attr_step(old(buf)@, old(class)@, old(style)@, s16, self.17.spec_attr());
        }
        let ghost s18 = attr_then(s17, self.18.spec_attr());
        self.18.to_html(buf, class, style);
        proof {
            lemma_attr_step(old(buf)@, old(class)@, old(style)@, s17, self.18.spec_attr());
        }
        let ghost s19 = attr_then(s18, self.19.spec_attr());
        self.19.to_html(buf, class, style);
        proof {
            lemma_attr_step(old(buf)@, old(class)@, old(style)@, s18, self.19.spec_attr());
        }
        let ghost s20 = attr_then(s19, self.20.spec_attr());
        self.20.to_html(buf, class, style);
        proof {
            lemma_attr_step(old(buf)@, old(class)@, old(style)@, s19, self.20.spec_attr());
        }
        let ghost s21 = attr_then(s20, self.21.spec_attr());
        self.21.to_html(buf, class, style);
        proof {
            lemma_attr_step(old(buf)@, old(class)@, old(style)@, s20, self.21.spec_attr());
        }
        let ghost s22 = attr_then(s21, self.22.spec_attr());
        self.22.to_html(buf, class, style);
        proof {
            lemma_attr_step(old(buf)@, old(class)@, old(style)@, s21, self.22.spec_attr());
        }
        let ghost s23 = attr_then(s22, self.23.spec_attr());
        self.23.to_html(buf, class, style);
        proof {
            lemma_attr_step(old(buf)@, old(class)@, old(style)@, s22, self.23.spec_attr());
        }
    }
}

impl<A: Attribute, B: Attribute, C: Attribute, D: Attribute, E: Attribute, F: Attribute, G: Attribute, H: Attribute, I: Attribute, J: Attribute, K: Attribute, L: Attribute, M: Attribute, N: Attribute, O: Attribute, P: Attribute, Q: Attribute, R: Attribute, S: Attribute, T: Attribute, U: Attribute, V: Attribute, W: Attribute, X: Attribute, Y: Attribute> Attribute for (A, B, C, D, E, F, G, H, I, J, K, L, M, N, O, P, Q, R, S, T, U, V, W, X, Y) {
    open spec fn spec_attr(&self) -> (Seq<char>, Seq<char>, Seq<char>) {
        let s0 = self.0.spec_attr();
        let s1 = attr_then(s0, self.1.spec_attr());
        let s2 = attr_then(s1, self.2.spec_attr());
        let s3 = attr_then(s2, self.3.spec_attr());
        let s4 = attr_then(s3, self.4.spec_attr());
        let s5 = attr_then(s4, self.5.spec_attr());
        let s6 = attr_then(s5, self.6.spec_attr());
        let s7 = attr_then(s6, self.7.spec_attr());
        let s8 = attr_then(s7, self.8.spec_attr());
        let s9 = attr_then(s8, self.9.spec_attr());
        let s10 = attr_then(s9, self.10.spec_attr());
        let s11 = attr_then(s10, self.11.spec_attr());
        let s12 = attr_then(s11, self.12.spec_attr());
        let s13 = attr_then(s12, self.13.spec_attr());
        let s14 = attr_then(s13, self.14.spec_attr());
        let s15 = attr_then(s14, self.15.spec_attr());
        let s16 = attr_then(s15, self.16.spec_attr());
        let s17 = attr_then(s16, self.17.spec_attr());
        let s18 = attr_then(s17, self.18.spec_attr());
        let s19 = attr_then(s18, self.19.spec_attr());
        let s20 = attr_then(s19, self.20.spec_attr());
        let s21 = attr_then(s20, self.21.spec_attr());
        let s22 = attr_then(s21, self.22.spec_attr());
        let s23 = attr_then(s22, self.23.spec_attr());
        let s24 = attr_then(s23, self.24.spec_attr());
        s24
    }

    open spec fn attr_ok(&self) -> bool {
        self.0.attr_ok()
        && self.1.attr_ok()
        && self.2.attr_ok()
        && self.3.attr_ok()
        && self.4.attr_ok()
        && self.5.attr_ok()
        && self.6.attr_ok()
        && self.7.attr_ok()
        && self.8.attr_ok()
        && self.9.attr_ok()
        && self.10.attr_ok()
        && self.11.attr_ok()
        && self.12.attr_ok()
        && self.13.attr_ok()
        && self.14.attr_ok()
        && self.15.attr_ok()
        && self.16.attr_ok()
        && self.17.attr_ok()
        && self.18.attr_ok()
        && self.19.attr_ok()
        && self.20.attr_ok()
        && self.21.attr_ok()
        && self.22.attr_ok()
        && self.23.attr_ok()
        && self.24.attr_ok()
    }

    fn to_html(&self, buf: &mut String, class: &mut String, style: &mut String) {
        let ghost s0 = self.0.spec_attr();
        self.0.to_html(buf, class, style);
        let ghost s1 = attr_then(s0, self.1.spec_attr());
        self.1.to_html(buf, class, style);
        proof {
            lemma_attr_step(old(buf)@, old(class)@, old(style)@, s0, self.1.spec_attr());
        }
        let ghost s2 = attr_then(s1, self.2.spec_attr());
        self.2.to_html(buf, class, style);
        proof {
            lemma_attr_step(old(buf)@, old(class)@, old(style)@, s1, self.2.spec_attr());
        }
        let ghost s3 = attr_then(s2, self.3.spec_attr());
        self.3.to_html(buf, class, style);
        proof {
            lemma_attr_step(old(buf)@, old(class)@, old(style)@, s2, self.3.spec_attr());
        }
        let ghost s4 = attr_then(s3, self.4.spec_attr());
        self.4.to_html(buf, class, style);
        proof {
            lemma_attr_step(old(buf)@, old(class)@, old(style)@, s3, self.4.spec_attr());
        }
        let ghost s5 = attr_then(s4, self.5.spec_attr());
        self.5.to_html(buf, class, style);
        proof {
            lemma_attr_step(old(buf)@, old(class)@, old(style)@, s4, self.5.spec_attr());
        }
        let ghost s6 = attr_then(s5, self.6.spec_attr());
        self.6.to_html(buf, class, style);
        proof {
            lemma_attr_step(old(buf)@, old(class)@, old(style)@, s5, self.6.spec_attr());
        }
        let ghost s7 = attr_then(s6, self.7.spec_attr());
        self.7.to_html(buf, class, style);
        proof {
            lemma_attr_step(old(buf)@, old(class)@, old(style)@, s6, self.7.spec_attr());
        }
        let ghost s8 = attr_then(s7, self.8.spec_attr());
        self.8.to_html(buf, class, style);
        proof {
            lemma_attr_step(old(buf)@, old(class)@, old(style)@, s7, self.8.spec_attr());
        }
        let ghost s9 = attr_then(s8, self.9.spec_attr());
        self.9.to_html(buf, class, style);
        proof {
            lemma_attr_step(old(buf)@, old(class)@, old(style)@, s8, self.9.spec_attr());
        }
        let ghost s10 = attr_then(s9, self.10.spec_attr());
        self.10.to_html(buf, class, style);
        proof {
            lemma_attr_step(old(buf)@, old(class)@, old(style)@, s9, self.10.spec_attr());
        }
        let ghost s11 = attr_then(s10, self.11.spec_attr());
        self.11.to_html(buf, class, style);
        proof {
            lemma_attr_step(old(buf)@, old(class)@, old(style)@, s10, self.11.spec_attr());
        }
        let ghost s12 = attr_then(s11, self.12.spec_attr());
        self.12.to_html(buf, class, style);
        proof {
            lemma_attr_step(old(buf)@, old(class)@, old(style)@, s11, self.12.spec_attr());
        }
        let ghost s13 = attr_then(s12, self.13.spec_attr());
        self.13.to_html(buf, class, style);
        proof {
            lemma_attr_step(old(buf)@, old(class)@, old(style)@, s12, self.13.spec_attr());
        }
        let ghost s14 = attr_then(s13, self.14.spec_attr());
        self.14.to_html(buf, class, style);
        proof {
            lemma_attr_step(old(buf)@, old(class)@, old(style)@, s13, self.14.spec_attr());
        }
        let ghost s15 = attr_then(s14, self.15.spec_attr());
        self.15.to_html(buf, class, style);
        proof {
            lemma_attr_step(old(buf)@, old(class)@, old(style)@, s14, self.15.spec_attr());
        }
        let ghost s16 = attr_then(s15, self.16.spec_attr());
        self.16.to_html(buf, class, style);
        proof {
            lemma_attr_step(old(buf)@, old(class)@, old(style)@, s15, self.16.spec_attr());
        }
        let ghost s17 = attr_then(s16, self.17.spec_attr());
        self.17.to_html(buf, class, style);
        proof {
            lemma_attr_step(old(buf)@, old(class)@, old(style)@, s16, self.17.spec_attr());
        }
        let ghost s18 = attr_then(s17, self.18.spec_attr());
        self.18.to_html(buf, class, style);
        proof {
            lemma_attr_step(old(buf)@, old(class)@, old(style)@, s17, self.18.spec_attr());
        }
        let ghost s19 = attr_then(s18, self.19.spec_attr());
        self.19.to_html(buf, class, style);
        proof {
            lemma_attr_step(old(buf)@, old(class)@, old(style)@, s18, self.19.spec_attr());
        }
        let ghost s20 = attr_then(s19, self.20.spec_attr());
        self.20.to_html(buf, class, style);
        proof {
            lemma_attr_step(old(buf)@, old(class)@, old(style)@, s19, self.20.spec_attr());
        }
        let ghost s21 = attr_then(s20, self.21.spec_attr());
        self.21.to_html(buf, class, style);
        proof {
            lemma_attr_step(old(buf)@, old(class)@, old(style)@, s20, self.21.spec_attr());
        }
        let ghost s22 = attr_then(s21, self.22.spec_attr());
        self.22.to_html(buf, class, style);
        proof {
            lemma_attr_step(old(buf)@, old(class)@, old(style)@, s21, self.22.spec_attr());
        }
        let ghost s23 = attr_then(s22, self.23.spec_attr());
        self.23.to_html(buf, class, style);
        proof {
            lemma_attr_step(old(buf)@, old(class)@, old(style)@, s22, self.23.spec_attr());
        }
        let ghost s24 = attr_then(s23, self.24.spec_attr());
        self.24.to_html(buf, class, style);
        proof {
            lemma_attr_step(old(buf)@, old(class)@, old(style)@, s23, self.24.spec_attr());
        }
    }
}

impl<A: Attribute, B: Attribute, C: Attribute, D: Attribute, E: Attribute, F: Attribute, G: Attribute, H: Attribute, I: Attribute, J: Attribute, K: Attribute, L: Attribute, M: Attribute, N: Attribute, O: Attribute, P: Attribute, Q: Attribute, R: Attribute, S: Attribute, T: Attribute, U: Attribute, V: Attribute, W: Attribute, X: Attribute, Y: Attribute, Z: Attribute> Attribute for (A, B, C, D, E, F, G, H, I, J, K, L, M, N, O, P, Q, R, S, T, U, V, W, X, Y, Z) {
    open spec fn spec_attr(&self) -> (Seq<char>, Seq<char>, Seq<char>) {
        let s0 = self.0.spec_attr();
        let s1 = attr_then(s0, self.1.spec_attr());
        let s2 = attr_then(s1, self.2.spec_attr());
        let s3 = attr_then(s2, self.3.spec_attr());
        let s4 = attr_then(s3, self.4.spec_attr());
        let s5 = attr_then(s4, self.5.spec_attr());
        let s6 = attr_then(s5, self.6.spec_attr());
        let s7 = attr_then(s6, self.7.spec_attr());
        let s8 = attr_then(s7, self.8.spec_attr());
        let s9 = attr_then(s8, self.9.spec_attr());
        let s10 = attr_then(s9, self.10.spec_attr());
        let s11 = attr_then(s10, self.11.spec_attr());
        let s12 = attr_then(s11, self.12.spec_attr());
        let s13 = attr_then(s12, self.13.spec_attr());
        let s14 = attr_then(s13, self.14.spec_attr());
        let s15 = attr_then(s14, self.15.spec_attr());
        let s16 = attr_then(s15, self.16.spec_attr());
        let s17 = attr_then(s16, self.17.spec_attr());
        let s18 = attr_then(s17, self.18.spec_attr());
        let s19 = attr_then(s18, self.19.spec_attr());
        let s20 = attr_then(s19, self.20.spec_attr());
        let s21 = attr_then(s20, self.21.spec_attr());
        let s22 = attr_then(s21, self.22.spec_attr());
        let s23 = attr_then(s22, self.23.spec_attr());
        let s24 = attr_then(s23, self.24.spec_attr());
        let s25 = attr_then(s24, self.25.spec_attr());
        s25
    }

    open spec fn attr_ok(&self) -> bool {
        self.0.attr_ok()
        && self.1.attr_ok()
        && self.2.attr_ok()
        && self.3.attr_ok()
        && self.4.attr_ok()
        && self.5.attr_ok()
        && self.6.attr_ok()
        && self.7.attr_ok()
        && self.8.attr_ok()
        && self.9.attr_ok()
        && self.10.attr_ok()
        && self.11.attr_ok()
        && self.12.attr_ok()
        && self.13.attr_ok()
        && self.14.attr_ok()
        && self.15.attr_ok()
        && self.16.attr_ok()
        && self.17.attr_ok()
        && self.18.attr_ok()
        && self.19.attr_ok()
        && self.20.attr_ok()
        && self.21.attr_ok()
        && self.22.attr_ok()
        && self.23.attr_ok()
        && self.24.attr_ok()
        && self.25.attr_ok()
    }

    fn to_html(&self, buf: &mut String, class: &mut String, style: &mut String) {
        let ghost s0 = self.0.spec_attr();
        self.0.to_html(buf, class, style);
        let ghost s1 = attr_then(s0, self.1.spec_attr());
        self.1.to_html(buf, class, style);
        proof {
            lemma_attr_step(old(buf)@, old(class)@, old(style)@, s0, self.1.spec_attr());
        }
        let ghost s2 = attr_then(s1, self.2.spec_attr());
        self.2.to_html(buf, class, style);
        proof {
            lemma_attr_step(old(buf)@, old(class)@, old(style)@, s1, self.2.spec_attr());
        }
        let ghost s3 = attr_then(s2, self.3.spec_attr());
        self.3.to_html(buf, class, style);
        proof {
            lemma_attr_step(old(buf)@, old(class)@, old(style)@, s2, self.3.spec_attr());
        }
        let ghost s4 = attr_then(s3, self.4.spec_attr());
        self.4.to_html(buf, class, style);
        proof {
            lemma_attr_step(old(buf)@, old(class)@, old(style)@, s3, self.4.spec_attr());
        }
        let ghost s5 = attr_then(s4, self.5.spec_attr());
        self.5.to_html(buf, class, style);
        proof {
            lemma_attr_step(old(buf)@, old(class)@, old(style)@, s4, self.5.spec_attr());
        }
        let ghost s6 = attr_then(s5, self.6.spec_attr());
        self.6.to_html(buf, class, style);
        proof {
            lemma_attr_step(old(buf)@, old(class)@, old(style)@, s5, self.6.spec_attr());
        }
        let ghost s7 = attr_then(s6, self.7.spec_attr());
        self.7.to_html(buf, class, style);
        proof {
            lemma_attr_step(old(buf)@, old(class)@, old(style)@, s6, self.7.spec_attr());
        }
        let ghost s8 = attr_then(s7, self.8.spec_attr());
        self.8.to_html(buf, class, style);
        proof {
            lemma_attr_step(old(buf)@, old(class)@, old(style)@, s7, self.8.spec_attr());
        }
        let ghost s9 = attr_then(s8, self.9.spec_attr());
        self.9.to_html(buf, class, style);
        proof {
            lemma_attr_step(old(buf)@, old(class)@, old(style)@, s8, self.9.spec_attr());
        }
        let ghost s10 = attr_then(s9, self.10.spec_attr());
        self.10.to_html(buf, class, style);
        proof {
            lemma_attr_step(old(buf)@, old(class)@, old(style)@, s9, self.10.spec_attr());
        }
        let ghost s11 = attr_then(s10, self.11.spec_attr());
        self.11.to_html(buf, class, style);
        proof {
            lemma_attr_step(old(buf)@, old(class)@, old(style)@, s10, self.11.spec_attr());
        }
        let ghost s12 = attr_then(s11, self.12.spec_attr());
        self.12.to_html(buf, class, style);
        proof {
            lemma_attr_step(old(buf)@, old(class)@, old(style)@, s11, self.12.spec_attr());
        }
        let ghost s13 = attr_then(s12, self.13.spec_attr());
        self.13.to_html(buf, class, style);
        proof {
            lemma_attr_step(old(buf)@, old(class)@, old(style)@, s12, self.13.spec_attr());
        }
        let ghost s14 = attr_then(s13, self.14.spec_attr());
        self.14.to_html(buf, class, style);
        proof {
            lemma_attr_step(old(buf)@, old(class)@, old(style)@, s13, self.14.spec_attr());
        }
        let ghost s15 = attr_then(s14, self.15.spec_attr());
        self.15.to_html(buf, class, style);
        proof {
            lemma_attr_step(old(buf)@, old(class)@, old(style)@, s14, self.15.spec_attr());
        }
        let ghost s16 = attr_then(s15, self.16.spec_attr());
        self.16.to_html(buf, class, style);
        proof {
            lemma_attr_step(old(buf)@, old(class)@, old(style)@, s15, self.16.spec_attr());
        }
        let ghost s17 = attr_then(s16, self.17.spec_attr());
        self.17.to_html(buf, class, style);
        proof {
            lemma_attr_step(old(buf)@, old(class)@, old(style)@, s16, self.17.spec_attr());
        }
        let ghost s18 = attr_then(s17, self.18.spec_attr());
        self.18.to_html(buf, class, style);
        proof {
            lemma_attr_step(old(buf)@, old(class)@, old(style)@, s17, self.18.spec_attr());
        }
        let ghost s19 = attr_then(s18, self.19.spec_attr());
        self.19.to_html(buf, class, style);
        proof {
            lemma_attr_step(old(buf)@, old(class)@, old(style)@, s18, self.19.spec_attr());
        }
        let ghost s20 = attr_then(s19, self.20.spec_attr());
        self.20.to_html(buf, class, style);
        proof {
            lemma_attr_step(old(buf)@, old(class)@, old(style)@, s19, self.20.spec_attr());
        }
        let ghost s21 = attr_then(s20, self.21.spec_attr());
        self.21.to_html(buf, class, style);
        proof {
            lemma_attr_step(old(buf)@, old(class)@, old(style)@, s20, self.21.spec_attr());
        }
        let ghost s22 = attr_then(s21, self.22.spec_attr());
        self.22.to_html(buf, class, style);
        proof {
            lemma_attr_step(old(buf)@, old(class)@, old(style)@, s21, self.22.spec_attr());
        }
        let ghost s23 = attr_then(s22, self.23.spec_attr());
        self.23.to_html(buf, class, style);
        proof {
            lemma_attr_step(old(buf)@, old(class)@, old(style)@, s22, self.23.spec_attr());
        }
        let ghost s24 = attr_then(s23, self.24.spec_attr());
        self.24.to_html(buf, class, style);
        proof {
            lemma_attr_step(old(buf)@, old(class)@, old(style)@, s23, self.24.spec_attr());
        }
        let ghost s25 = attr_then(s24, self.25.spec_attr());
        self.25.to_html(buf, class, style);
        proof {
            lemma_attr_step(old(buf)@, old(class)@, old(style)@, s24, self.25.spec_attr());
        }
    }
}

/// The name of an attribute, known from its type.
pub trait AttributeKey {
    spec fn spec_key() -> Seq<char>;

    fn key() -> (k: &'static str)
        ensures
            k@ == Self::spec_key(),
    ;
}

/// An attribute: a key and its value.
#[derive(Debug)]
pub struct Attr<K, V>(pub K, pub V);

impl<K: AttributeKey, V: AttributeValue> Attribute for Attr<K, V> {
    open spec fn spec_attr(&self) -> (Seq<char>, Seq<char>, Seq<char>) {
        (self.1.spec_value_html(K::spec_key()), Seq::empty(), Seq::empty())
    }

    open spec fn attr_ok(&self) -> bool {
        true
    }

    fn to_html(&self, buf: &mut String, class: &mut String, style: &mut String) {
        self.1.to_html(K::key(), buf);
        assert(class@ =~= class@ + Seq::<char>::empty());
        assert(style@ =~= style@ + Seq::<char>::empty());
    }
}

impl<K: AttributeKey, V: AttributeValue> ToTemplate for Attr<K, V> {
    open spec fn template_ok() -> bool {
        true
    }

    /// Values are not written into templates, so an attribute adds nothing.
    open spec fn spec_template(position: Position) -> (Seq<char>, Seq<char>, Seq<char>, Position) {
        (Seq::empty(), Seq::empty(), Seq::empty(), position)
    }

    fn to_template(
        buf: &mut String,
        class: &mut String,
        style: &mut String,
        position: &mut Position,
    ) {
        V::to_template(K::key(), buf);
        assert(buf@ =~= old(buf)@ + Seq::<char>::empty());
        assert(class@ =~= class@ + Seq::<char>::empty());
        assert(style@ =~= style@ + Seq::<char>::empty());
    }
}

/// The `id` attribute.
#[derive(Debug, Clone, Copy, PartialEq, Eq)]
pub struct Id;

impl AttributeKey for Id {
    open spec fn spec_key() -> Seq<char> {
        seq!['i', 'd']
    }

    fn key() -> (k: &'static str) {
        proof {
            reveal_strlit("id");
        }
        "id"
    }
}

/// The `id` attribute with the given value.
pub fn id<V: AttributeValue>(v: V) -> (r: Attr<Id, V>)
    ensures
        r.1 == v,
{
    Attr(Id, v)
}

/// The `type` attribute.
#[derive(Debug, Clone, Copy, PartialEq, Eq)]
pub struct Type;

impl AttributeKey for Type {
    open spec fn spec_key() -> Seq<char> {
        seq!['t', 'y', 'p', 'e']
    }

    fn key() -> (k: &'static str) {
        proof {
            reveal_strlit("type");
        }
        "type"
    }
}

/// The `lang` attribute.
#[derive(Debug, Clone, Copy, PartialEq, Eq)]
pub struct Lang;

impl AttributeKey for Lang {
    open spec fn spec_key() -> Seq<char> {
        seq!['l', 'a', 'n', 'g']
    }

    fn key() -> (k: &'static str) {
        proof {
            reveal_strlit("lang");
        }
        "lang"
    }
}

/// The `lang` attribute with the given value.
pub fn lang<V: AttributeValue>(v: V) -> (r: Attr<Lang, V>)
    ensures
        r.1 == v,
{
    Attr(Lang, v)
}

/// The `title` attribute.
#[derive(Debug, Clone, Copy, PartialEq, Eq)]
pub struct Title;

impl AttributeKey for Title {
    open spec fn spec_key() -> Seq<char> {
        seq!['t', 'i', 't', 'l', 'e']
    }

    fn key() -> (k: &'static str) {
        proof {
            reveal_strlit("title");
        }
        "title"
    }
}

/// The `title` attribute with the given value.
pub fn title<V: AttributeValue>(v: V) -> (r: Attr<Title, V>)
    ensures
        r.1 == v,
{
    Attr(Title, v)
}

/// The `href` attribute.
#[derive(Debug, Clone, Copy, PartialEq, Eq)]
pub struct Href;

impl AttributeKey for Href {
    open spec fn spec_key() -> Seq<char> {
        seq!['h', 'r', 'e', 'f']
    }

    fn key() -> (k: &'static str) {
        proof {
            reveal_strlit("href");
        }
        "href"
    }
}

/// The `href` attribute with the given value.
pub fn href<V: AttributeValue>(v: V) -> (r: Attr<Href, V>)
    ensures
        r.1 == v,
{
    Attr(Href, v)
}

/// The `src` attribute.
#[derive(Debug, Clone, Copy, PartialEq, Eq)]
pub struct Src;

impl AttributeKey for Src {
    open spec fn spec_key() -> Seq<char> {
        seq!['s', 'r', 'c']
    }

    fn key() -> (k: &'static str) {
        proof {
            reveal_strlit("src");
        }
        "src"
    }
}

/// The `src` attribute with the given value.
pub fn src<V: AttributeValue>(v: V) -> (r: Attr<Src, V>)
    ensures
        r.1 == v,
{
    Attr(Src, v)
}

/// The `alt` attribute.
#[derive(Debug, Clone, Copy, PartialEq, Eq)]
pub struct Alt;

impl AttributeKey for Alt {
    open spec fn spec_key() -> Seq<char> {
        seq!['a', 'l', 't']
    }

    fn key() -> (k: &'static str) {
        proof {
            reveal_strlit("alt");
        }
        "alt"
    }
}

/// The `alt` attribute with the given value.
pub fn alt<V: AttributeValue>(v: V) -> (r: Attr<Alt, V>)
    ensures
        r.1 == v,
{
    Attr(Alt, v)
}

/// The `name` attribute.
#[derive(Debug, Clone, Copy, PartialEq, Eq)]
pub struct Name;

impl AttributeKey for Name {
    open spec fn spec_key() -> Seq<char> {
        seq!['n', 'a', 'm', 'e']
    }

    fn key() -> (k: &'static str) {
        proof {
            reveal_strlit("name");
        }
        "name"
    }
}

/// The `name` attribute with the given value.
pub fn name<V: AttributeValue>(v: V) -> (r: Attr<Name, V>)
    ensures
        r.1 == v,
{
    Attr(Name, v)
}

/// The `value` attribute.
#[derive(Debug, Clone, Copy, PartialEq, Eq)]
pub struct Value;

impl AttributeKey for Value {
    open spec fn spec_key() -> Seq<char> {
        seq!['v', 'a', 'l', 'u', 'e']
    }

    fn key() -> (k: &'static str) {
        proof {
            reveal_strlit("value");
        }
        "value"
    }
}

/// The `value` attribute with the given value.
pub fn value<V: AttributeValue>(v: V) -> (r: Attr<Value, V>)
    ensures
        r.1 == v,
{
    Attr(Value, v)
}

/// The `disabled` attribute.
#[derive(Debug, Clone, Copy, PartialEq, Eq)]
pub struct Disabled;

impl AttributeKey for Disabled {
    open spec fn spec_key() -> Seq<char> {
        seq!['d', 'i', 's', 'a', 'b', 'l', 'e', 'd']
    }

    fn key() -> (k: &'static str) {
        proof {
            reveal_strlit("disabled");
        }
        "disabled"
    }
}

/// The `disabled` attribute with the given value.
pub fn disabled<V: AttributeValue>(v: V) -> (r: Attr<Disabled, V>)
    ensures
        r.1 == v,
{
    Attr(Disabled, v)
}

/// The `checked` attribute.
#[derive(Debug, Clone, Copy, PartialEq, Eq)]
pub struct Checked;

impl AttributeKey for Checked {
    open spec fn spec_key() -> Seq<char> {
        seq!['c', 'h', 'e', 'c', 'k', 'e', 'd']
    }

    fn key() -> (k: &'static str) {
        proof {
            reveal_strlit("checked");
        }
        "checked"
    }
}

/// The `checked` attribute with the given value.
pub fn checked<V: AttributeValue>(v: V) -> (r: Attr<Checked, V>)
    ensures
        r.1 == v,
{
    Attr(Checked, v)
}

/// The `role` attribute.
#[derive(Debug, Clone, Copy, PartialEq, Eq)]
pub struct Role;

impl AttributeKey for Role {
    open spec fn spec_key() -> Seq<char> {
        seq!['r', 'o', 'l', 'e']
    }

    fn key() -> (k: &'static str) {
        proof {
            reveal_strlit("role");
        }
        "role"
    }
}

/// The `role` attribute with the given value.
pub fn role<V: AttributeValue>(v: V) -> (r: Attr<Role, V>)
    ensures
        r.1 == v,
{
    Attr(Role, v)
}

/// 2 attributes write the first one's texts followed by those of the rest.
pub proof fn lemma_attr_tuple_2<A: Attribute, B: Attribute>(t: (A, B))
    ensures
        t.spec_attr() == attr_then(t.0.spec_attr(), t.1.spec_attr()),
        t.attr_ok() == (t.0.attr_ok() && t.1.attr_ok()),
{
}

/// 3 attributes write the first one's texts followed by those of the rest.
pub proof fn lemma_attr_tuple_3<A: Attribute, B: Attribute, C: Attribute>(t: (A, B, C))
    ensures
        t.spec_attr() == attr_then(t.0.spec_attr(), (t.1, t.2).spec_attr()),
        t.attr_ok() == (t.0.attr_ok() && (t.1, t.2).attr_ok()),
{
    let a = t.0.spec_attr();
    let r = (t.1, t.2).spec_attr();
    assert(t.spec_attr().0 =~= a.0 + r.0);
    assert(t.spec_attr().1 =~= a.1 + r.1);
    assert(t.spec_attr().2 =~= a.2 + r.2);
}

/// 4 attributes write the first one's texts followed by those of the rest.
pub proof fn lemma_attr_tuple_4<A: Attribute, B: Attribute, C: Attribute, D: Attribute>(t: (A, B, C, D))
    ensures
        t.spec_attr() == attr_then(t.0.spec_attr(), (t.1, t.2, t.3).spec_attr()),
        t.attr_ok() == (t.0.attr_ok() && (t.1, t.2, t.3).attr_ok()),
{
    let a = t.0.spec_attr();
    let r = (t.1, t.2, t.3).spec_attr();
    assert(t.spec_attr().0 =~= a.0 + r.0);
    assert(t.spec_attr().1 =~= a.1 + r.1);
    assert(t.spec_attr().2 =~= a.2 + r.2);
}

/// 5 attributes write the first one's texts followed by those of the rest.
pub proof fn lemma_attr_tuple_5<A: Attribute, B: Attribute, C: Attribute, D: Attribute, E: Attribute>(t: (A, B, C, D, E))
    ensures
        t.spec_attr() == attr_then(t.0.spec_attr(), (t.1, t.2, t.3, t.4).spec_attr()),
        t.attr_ok() == (t.0.attr_ok() && (t.1, t.2, t.3, t.4).attr_ok()),
{
    let a = t.0.spec_attr();
    let r = (t.1, t.2, t.3, t.4).spec_attr();
    assert(t.spec_attr().0 =~= a.0 + r.0);
    assert(t.spec_attr().1 =~= a.1 + r.1);
    assert(t.spec_attr().2 =~= a.2 + r.2);
}

/// 6 attributes write the first one's texts followed by those of the rest.
pub proof fn lemma_attr_tuple_6<A: Attribute, B: Attribute, C: Attribute, D: Attribute, E: Attribute, F: Attribute>(t: (A, B, C, D, E, F))
    ensures
        t.spec_attr() == attr_then(t.0.spec_attr(), (t.1, t.2, t.3, t.4, t.5).spec_attr()),
        t.attr_ok() == (t.0.attr_ok() && (t.1, t.2, t.3, t.4, t.5).attr_ok()),
{
    let a = t.0.spec_attr();
    let r = (t.1, t.2, t.3, t.4, t.5).spec_attr();
    assert(t.spec_attr().0 =~= a.0 + r.0);
    assert(t.spec_attr().1 =~= a.1 + r.1);
    assert(t.spec_attr().2 =~= a.2 + r.2);
}

/// 7 attributes write the first one's texts followed by those of the rest.
pub proof fn lemma_attr_tuple_7<A: Attribute, B: Attribute, C: Attribute, D: Attribute, E: Attribute, F: Attribute, G: Attribute>(t: (A, B, C, D, E, F, G))
    ensures
        t.spec_attr() == attr_then(t.0.spec_attr(), (t.1, t.2, t.3, t.4, t.5, t.6).spec_attr()),
        t.attr_ok() == (t.0.attr_ok() && (t.1, t.2, t.3, t.4, t.5, t.6).attr_ok()),
{
    let a = t.0.spec_attr();
    let r = (t.1, t.2, t.3, t.4, t.5, t.6).spec_attr();
    assert(t.spec_attr().0 =~= a.0 + r.0);
    assert(t.spec_attr().1 =~= a.1 + r.1);
    assert(t.spec_attr().2 =~= a.2 + r.2);
}

/// 8 attributes write the first one's texts followed by those of the rest.
pub proof fn lemma_attr_tuple_8<A: Attribute, B: Attribute, C: Attribute, D: Attribute, E: Attribute, F: Attribute, G: Attribute, H: Attribute>(t: (A, B, C, D, E, F, G, H))
    ensures
        t.spec_attr() == attr_then(t.0.spec_attr(), (t.1, t.2, t.3, t.4, t.5, t.6, t.7).spec_attr()),
        t.attr_ok() == (t.0.attr_ok() && (t.1, t.2, t.3, t.4, t.5, t.6, t.7).attr_ok()),
{
    let a = t.0.spec_attr();
    let r = (t.1, t.2, t.3, t.4, t.5, t.6, t.7).spec_attr();
    assert(t.spec_attr().0 =~= a.0 + r.0);
    assert(t.spec_attr().1 =~= a.1 + r.1);
    assert(t.spec_attr().2 =~= a.2 + r.2);
}

/// 9 attributes write the first one's texts followed by those of the rest.
pub proof fn lemma_attr_tuple_9<A: Attribute, B: Attribute, C: Attribute, D: Attribute, E: Attribute, F: Attribute, G: Attribute, H: Attribute, I: Attribute>(t: (A, B, C, D, E, F, G, H, I))
    ensures
        t.spec_attr() == attr_then(t.0.spec_attr(), (t.1, t.2, t.3, t.4, t.5, t.6, t.7, t.8).spec_attr()),
        t.attr_ok() == (t.0.attr_ok() && (t.1, t.2, t.3, t.4, t.5, t.6, t.7, t.8).attr_ok()),
{
    let a = t.0.spec_attr();
    let r = (t.1, t.2, t.3, t.4, t.5, t.6, t.7, t.8).spec_attr();
    assert(t.spec_attr().0 =~= a.0 + r.0);
    assert(t.spec_attr().1 =~= a.1 + r.1);
    assert(t.spec_attr().2 =~= a.2 + r.2);
}

/// 10 attributes write the first one's texts followed by those of the rest.
pub proof fn lemma_attr_tuple_10<A: Attribute, B: Attribute, C: Attribute, D: Attribute, E: Attribute, F: Attribute, G: Attribute, H: Attribute, I: Attribute, J: Attribute>(t: (A, B, C, D, E, F, G, H, I, J))
    ensures
        t.spec_attr() == attr_then(t.0.spec_attr(), (t.1, t.2, t.3, t.4, t.5, t.6, t.7, t.8, t.9).spec_attr()),
        t.attr_ok() == (t.0.attr_ok() && (t.1, t.2, t.3, t.4, t.5, t.6, t.7, t.8, t.9).attr_ok()),
{
    let a = t.0.spec_attr();
    let r = (t.1, t.2, t.3, t.4, t.5, t.6, t.7, t.8, t.9).spec_attr();
    assert(t.spec_attr().0 =~= a.0 + r.0);
    assert(t.spec_attr().1 =~= a.1 + r.1);
    assert(t.spec_attr().2 =~= a.2 + r.2);
}

/// 11 attributes write the first one's texts followed by those of the rest.
pub proof fn lemma_attr_tuple_11<A: Attribute, B: Attribute, C: Attribute, D: Attribute, E: Attribute, F: Attribute, G: Attribute, H: Attribute, I: Attribute, J: Attribute, K: Attribute>(t: (A, B, C, D, E, F, G, H, I, J, K))
    ensures
        t.spec_attr() == attr_then(t.0.spec_attr(), (t.1, t.2, t.3, t.4, t.5, t.6, t.7, t.8, t.9, t.10).spec_attr()),
        t.attr_ok() == (t.0.attr_ok() && (t.1, t.2, t.3, t.4, t.5, t.6, t.7, t.8, t.9, t.10).attr_ok()),
{
    let a = t.0.spec_attr();
    let r = (t.1, t.2, t.3, t.4, t.5, t.6, t.7, t.8, t.9, t.10).spec_attr();
    assert(t.spec_attr().0 =~= a.0 + r.0);
    assert(t.spec_attr().1 =~= a.1 + r.1);
    assert(t.spec_attr().2 =~= a.2 + r.2);
}

/// 12 attributes write the first one's texts followed by those of the rest.
pub proof fn lemma_attr_tuple_12<A: Attribute, B: Attribute, C: Attribute, D: Attribute, E: Attribute, F: Attribute, G: Attribute, H: Attribute, I: Attribute, J: Attribute, K: Attribute, L: Attribute>(t: (A, B, C, D, E, F, G, H, I, J, K, L))
    ensures
        t.spec_attr() == attr_then(t.0.spec_attr(), (t.1, t.2, t.3, t.4, t.5, t.6, t.7, t.8, t.9, t.10, t.11).spec_attr()),
        t.attr_ok() == (t.0.attr_ok() && (t.1, t.2, t.3, t.4, t.5, t.6, t.7, t.8, t.9, t.10, t.11).attr_ok()),
{
    let a = t.0.spec_attr();
    let r = (t.1, t.2, t.3, t.4, t.5, t.6, t.7, t.8, t.9, t.10, t.11).spec_attr();
    assert(t.spec_attr().0 =~= a.0 + r.0);
    assert(t.spec_attr().1 =~= a.1 + r.1);
    assert(t.spec_attr().2 =~= a.2 + r.2);
}

/// 13 attributes write the first one's texts followed by those of the rest.
pub proof fn lemma_attr_tuple_13<A: Attribute, B: Attribute, C: Attribute, D: Attribute, E: Attribute, F: Attribute, G: Attribute, H: Attribute, I: Attribute, J: Attribute, K: Attribute, L: Attribute, M: Attribute>(t: (A, B, C, D, E, F, G, H, I, J, K, L, M))
    ensures
        t.spec_attr() == attr_then(t.0.spec_attr(), (t.1, t.2, t.3, t.4, t.5, t.6, t.7, t.8, t.9, t.10, t.11, t.12).spec_attr()),
        t.attr_ok() == (t.0.attr_ok() && (t.1, t.2, t.3, t.4, t.5, t.6, t.7, t.8, t.9, t.10, t.11, t.12).attr_ok()),
{
    let a = t.0.spec_attr();
    let r = (t.1, t.2, t.3, t.4, t.5, t.6, t.7, t.8, t.9, t.10, t.11, t.12).spec_attr();
    assert(t.spec_attr().0 =~= a.0 + r.0);
    assert(t.spec_attr().1 =~= a.1 + r.1);
    assert(t.spec_attr().2 =~= a.2 + r.2);
}

/// 14 attributes write the first one's texts followed by those of the rest.
pub proof fn lemma_attr_tuple_14<A: Attribute, B: Attribute, C: Attribute, D: Attribute, E: Attribute, F: Attribute, G: Attribute, H: Attribute, I: Attribute, J: Attribute, K: Attribute, L: Attribute, M: Attribute, N: Attribute>(t: (A, B, C, D, E, F, G, H, I, J, K, L, M, N))
    ensures
        t.spec_attr() == attr_then(t.0.spec_attr(), (t.1, t.2, t.3, t.4, t.5, t.6, t.7, t.8, t.9, t.10, t.11, t.12, t.13).spec_attr()),
        t.attr_ok() == (t.0.attr_ok() && (t.1, t.2, t.3, t.4, t.5, t.6, t.7, t.8, t.9, t.10, t.11, t.12, t.13).attr_ok()),
{
    let a = t.0.spec_attr();
    let r = (t.1, t.2, t.3, t.4, t.5, t.6, t.7, t.8, t.9, t.10, t.11, t.12, t.13).spec_attr();
    assert(t.spec_attr().0 =~= a.0 + r.0);
    assert(t.spec_attr().1 =~= a.1 + r.1);
    assert(t.spec_attr().2 =~= a.2 + r.2);
}

/// 15 attributes write the first one's texts followed by those of the rest.
pub proof fn lemma_attr_tuple_15<A: Attribute, B: Attribute, C: Attribute, D: Attribute, E: Attribute, F: Attribute, G: Attribute, H: Attribute, I: Attribute, J: Attribute, K: Attribute, L: Attribute, M: Attribute, N: Attribute, O: Attribute>(t: (A, B, C, D, E, F, G, H, I, J, K, L, M, N, O))
    ensures
        t.spec_attr() == attr_then(t.0.spec_attr(), (t.1, t.2, t.3, t.4, t.5, t.6, t.7, t.8, t.9, t.10, t.11, t.12, t.13, t.14).spec_attr()),
        t.attr_ok() == (t.0.attr_ok() && (t.1, t.2, t.3, t.4, t.5, t.6, t.7, t.8, t.9, t.10, t.11, t.12, t.13, t.14).attr_ok()),
{
    let a = t.0.spec_attr();
    let r = (t.1, t.2, t.3, t.4, t.5, t.6, t.7, t.8, t.9, t.10, t.11, t.12, t.13, t.14).spec_attr();
    assert(t.spec_attr().0 =~= a.0 + r.0);
    assert(t.spec_attr().1 =~= a.1 + r.1);
    assert(t.spec_attr().2 =~= a.2 + r.2);
}

/// 16 attributes write the first one's texts followed by those of the rest.
pub proof fn lemma_attr_tuple_16<A: Attribute, B: Attribute, C: Attribute, D: Attribute, E: Attribute, F: Attribute, G: Attribute, H: Attribute, I: Attribute, J: Attribute, K: Attribute, L: Attribute, M: Attribute, N: Attribute, O: Attribute, P: Attribute>(t: (A, B, C, D, E, F, G, H, I, J, K, L, M, N, O, P))
    ensures
        t.spec_attr() == attr_then(t.0.spec_attr(), (t.1, t.2, t.3, t.4, t.5, t.6, t.7, t.8, t.9, t.10, t.11, t.12, t.13, t.14, t.15).spec_attr()),
        t.attr_ok() == (t.0.attr_ok() && (t.1, t.2, t.3, t.4, t.5, t.6, t.7, t.8, t.9, t.10, t.11, t.12, t.13, t.14, t.15).attr_ok()),
{
    let a = t.0.spec_attr();
    let r = (t.1, t.2, t.3, t.4, t.5, t.6, t.7, t.8, t.9, t.10, t.11, t.12, t.13, t.14, t.15).spec_attr();
    assert(t.spec_attr().0 =~= a.0 + r.0);
    assert(t.spec_attr().1 =~= a.1 + r.1);
    assert(t.spec_attr().2 =~= a.2 + r.2);
}

/// 17 attributes write the first one's texts followed by those of the rest.
pub proof fn lemma_attr_tuple_17<A: Attribute, B: Attribute, C: Attribute, D: Attribute, E: Attribute, F: Attribute, G: Attribute, H: Attribute, I: Attribute, J: Attribute, K: Attribute, L: Attribute, M: Attribute, N: Attribute, O: Attribute, P: Attribute, Q: Attribute>(t: (A, B, C, D, E, F, G, H, I, J, K, L, M, N, O, P, Q))
    ensures
        t.spec_attr() == attr_then(t.0.spec_attr(), (t.1, t.2, t.3, t.4, t.5, t.6, t.7, t.8, t.9, t.10, t.11, t.12, t.13, t.14, t.15, t.16).spec_attr()),
        t.attr_ok() == (t.0.attr_ok() && (t.1, t.2, t.3, t.4, t.5, t.6, t.7, t.8, t.9, t.10, t.11, t.12, t.13, t.14, t.15, t.16).attr_ok()),
{
    let a = t.0.spec_attr();
    let r = (t.1, t.2, t.3, t.4, t.5, t.6, t.7, t.8, t.9, t.10, t.11, t.12, t.13, t.14, t.15, t.16).spec_attr();
    assert(t.spec_attr().0 =~= a.0 + r.0);
    assert(t.spec_attr().1 =~= a.1 + r.1);
    assert(t.spec_attr().2 =~= a.2 + r.2);
}

/// 18 attributes write the first one's texts followed by those of the rest.
pub proof fn lemma_attr_tuple_18<A: Attribute, B: Attribute, C: Attribute, D: Attribute, E: Attribute, F: Attribute, G: Attribute, H: Attribute, I: Attribute, J: Attribute, K: Attribute, L: Attribute, M: Attribute, N: Attribute, O: Attribute, P: Attribute, Q: Attribute, R: Attribute>(t: (A, B, C, D, E, F, G, H, I, J, K, L, M, N, O, P, Q, R))
    ensures
        t.spec_attr() == attr_then(t.0.spec_attr(), (t.1, t.2, t.3, t.4, t.5, t.6, t.7, t.8, t.9, t.10, t.11, t.12, t.13, t.14, t.15, t.16, t.17).spec_attr()),
        t.attr_ok() == (t.0.attr_ok() && (t.1, t.2, t.3, t.4, t.5, t.6, t.7, t.8, t.9, t.10, t.11, t.12, t.13, t.14, t.15, t.16, t.17).attr_ok()),
{
    let a = t.0.spec_attr();
    let r = (t.1, t.2, t.3, t.4, t.5, t.6, t.7, t.8, t.9, t.10, t.11, t.12, t.13, t.14, t.15, t.16, t.17).spec_attr();
    assert(t.spec_attr().0 =~= a.0 + r.0);
    assert(t.spec_attr().1 =~= a.1 + r.1);
    assert(t.spec_attr().2 =~= a.2 + r.2);
}

/// 19 attributes write the first one's texts followed by those of the rest.
pub proof fn lemma_attr_tuple_19<A: Attribute, B: Attribute, C: Attribute, D: Attribute, E: Attribute, F: Attribute, G: Attribute, H: Attribute, I: Attribute, J: Attribute, K: Attribute, L: Attribute, M: Attribute, N: Attribute, O: Attribute, P: Attribute, Q: Attribute, R: Attribute, S: Attribute>(t: (A, B, C, D, E, F, G, H, I, J, K, L, M, N, O, P, Q, R, S))
    ensures
        t.spec_attr() == attr_then(t.0.spec_attr(), (t.1, t.2, t.3, t.4, t.5, t.6, t.7, t.8, t.9, t.10, t.11, t.12, t.13, t.14, t.15, t.16, t.17, t.18).spec_attr()),
        t.attr_ok() == (t.0.attr_ok() && (t.1, t.2, t.3, t.4, t.5, t.6, t.7, t.8, t.9, t.10, t.11, t.12, t.13, t.14, t.15, t.16, t.17, t.18).attr_ok()),
{
    let a = t.0.spec_attr();
    let r = (t.1, t.2, t.3, t.4, t.5, t.6, t.7, t.8, t.9, t.10, t.11, t.12, t.13, t.14, t.15, t.16, t.17, t.18).spec_attr();
    assert(t.spec_attr().0 =~= a.0 + r.0);
    assert(t.spec_attr().1 =~= a.1 + r.1);
    assert(t.spec_attr().2 =~= a.2 + r.2);
}

/// 20 attributes write the first one's texts followed by those of the rest.
pub proof fn lemma_attr_tuple_20<A: Attribute, B: Attribute, C: Attribute, D: Attribute, E: Attribute, F: Attribute, G: Attribute, H: Attribute, I: Attribute, J: Attribute, K: Attribute, L: Attribute, M: Attribute, N: Attribute, O: Attribute, P: Attribute, Q: Attribute, R: Attribute, S: Attribute, T: Attribute>(t: (A, B, C, D, E, F, G, H, I, J, K, L, M, N, O, P, Q, R, S, T))
    ensures
        t.spec_attr() == attr_then(t.0.spec_attr(), (t.1, t.2, t.3, t.4, t.5, t.6, t.7, t.8, t.9, t.10, t.11, t.12, t.13, t.14, t.15, t.16, t.17, t.18, t.19).spec_attr()),
        t.attr_ok() == (t.0.attr_ok() && (t.1, t.2, t.3, t.4, t.5, t.6, t.7, t.8, t.9, t.10, t.11, t.12, t.13, t.14, t.15, t.16, t.17, t.18, t.19).attr_ok()),
{
    let a = t.0.spec_attr();
    let r = (t.1, t.2, t.3, t.4, t.5, t.6, t.7, t.8, t.9, t.10, t.11, t.12, t.13, t.14, t.15, t.16, t.17, t.18, t.19).spec_attr();
    assert(t.spec_attr().0 =~= a.0 + r.0);
    assert(t.spec_attr().1 =~= a.1 + r.1);
    assert(t.spec_attr().2 =~= a.2 + r.2);
}

/// 21 attributes write the first one's texts followed by those of the rest.
pub proof fn lemma_attr_tuple_21<A: Attribute, B: Attribute, C: Attribute, D: Attribute, E: Attribute, F: Attribute, G: Attribute, H: Attribute, I: Attribute, J: Attribute, K: Attribute, L: Attribute, M: Attribute, N: Attribute, O: Attribute, P: Attribute, Q: Attribute, R: Attribute, S: Attribute, T: Attribute, U: Attribute>(t: (A, B, C, D, E, F, G, H, I, J, K, L, M, N, O, P, Q, R, S, T, U))
    ensures
        t.spec_attr() == attr_then(t.0.spec_attr(), (t.1, t.2, t.3, t.4, t.5, t.6, t.7, t.8, t.9, t.10, t.11, t.12, t.13, t.14, t.15, t.16, t.17, t.18, t.19, t.20).spec_attr()),
        t.attr_ok() == (t.0.attr_ok() && (t.1, t.2, t.3, t.4, t.5, t.6, t.7, t.8, t.9, t.10, t.11, t.12, t.13, t.14, t.15, t.16, t.17, t.18, t.19, t.20).attr_ok()),
{
    let a = t.0.spec_attr();
    let r = (t.1, t.2, t.3, t.4, t.5, t.6, t.7, t.8, t.9, t.10, t.11, t.12, t.13, t.14, t.15, t.16, t.17, t.18, t.19, t.20).spec_attr();
    assert(t.spec_attr().0 =~= a.0 + r.0);
    assert(t.spec_attr().1 =~= a.1 + r.1);
    assert(t.spec_attr().2 =~= a.2 + r.2);
}

/// 22 attributes write the first one's texts followed by those of the rest.
pub proof fn lemma_attr_tuple_22<A: Attribute, B: Attribute, C: Attribute, D: Attribute, E: Attribute, F: Attribute, G: Attribute, H: Attribute, I: Attribute, J: Attribute, K: Attribute, L: Attribute, M: Attribute, N: Attribute, O: Attribute, P: Attribute, Q: Attribute, R: Attribute, S: Attribute, T: Attribute, U: Attribute, V: Attribute>(t: (A, B, C, D, E, F, G, H, I, J, K, L, M, N, O, P, Q, R, S, T, U, V))
    ensures
        t.spec_attr() == attr_then(t.0.spec_attr(), (t.1, t.2, t.3, t.4, t.5, t.6, t.7, t.8, t.9, t.10, t.11, t.12, t.13, t.14, t.15, t.16, t.17, t.18, t.19, t.20, t.21).spec_attr()),
        t.attr_ok() == (t.0.attr_ok() && (t.1, t.2, t.3, t.4, t.5, t.6, t.7, t.8, t.9, t.10, t.11, t.12, t.13, t.14, t.15, t.16, t.17, t.18, t.19, t.20, t.21).attr_ok()),
{
    let a = t.0.spec_attr();
    let r = (t.1, t.2, t.3, t.4, t.5, t.6, t.7, t.8, t.9, t.10, t.11, t.12, t.13, t.14, t.15, t.16, t.17, t.18, t.19, t.20, t.21).spec_attr();
    assert(t.spec_attr().0 =~= a.0 + r.0);
    assert(t.spec_attr().1 =~= a.1 + r.1);
    assert(t.spec_attr().2 =~= a.2 + r.2);
}

/// 23 attributes write the first one's texts followed by those of the rest.
pub proof fn lemma_attr_tuple_23<A: Attribute, B: Attribute, C: Attribute, D: Attribute, E: Attribute, F: Attribute, G: Attribute, H: Attribute, I: Attribute, J: Attribute, K: Attribute, L: Attribute, M: Attribute, N: Attribute, O: Attribute, P: Attribute, Q: Attribute, R: Attribute, S: Attribute, T: Attribute, U: Attribute, V: Attribute, W: Attribute>(t: (A, B, C, D, E, F, G, H, I, J, K, L, M, N, O, P, Q, R, S, T, U, V, W))
    ensures
        t.spec_attr() == attr_then(t.0.spec_attr(), (t.1, t.2, t.3, t.4, t.5, t.6, t.7, t.8, t.9, t.10, t.11, t.12, t.13, t.14, t.15, t.16, t.17, t.18, t.19, t.20, t.21, t.22).spec_attr()),
        t.attr_ok() == (t.0.attr_ok() && (t.1, t.2, t.3, t.4, t.5, t.6, t.7, t.8, t.9, t.10, t.11, t.12, t.13, t.14, t.15, t.16, t.17, t.18, t.19, t.20, t.21, t.22).attr_ok()),
{
    let a = t.0.spec_attr();
    let r = (t.1, t.2, t.3, t.4, t.5, t.6, t.7, t.8, t.9, t.10, t.11, t.12, t.13, t.14, t.15, t.16, t.17, t.18, t.19, t.20, t.21, t.22).spec_attr();
    assert(t.spec_attr().0 =~= a.0 + r.0);
    assert(t.spec_attr().1 =~= a.1 + r.1);
    assert(t.spec_attr().2 =~= a.2 + r.2);
}

/// 24 attributes write the first one's texts followed by those of the rest.
pub proof fn lemma_attr_tuple_24<A: Attribute, B: Attribute, C: Attribute, D: Attribute, E: Attribute, F: Attribute, G: Attribute, H: Attribute, I: Attribute, J: Attribute, K: Attribute, L: Attribute, M: Attribute, N: Attribute, O: Attribute, P: Attribute, Q: Attribute, R: Attribute, S: Attribute, T: Attribute, U: Attribute, V: Attribute, W: Attribute, X: Attribute>(t: (A, B, C, D, E, F, G, H, I, J, K, L, M, N, O, P, Q, R, S, T, U, V, W, X))
    ensures
        t.spec_attr() == attr_then(t.0.spec_attr(), (t.1, t.2, t.3, t.4, t.5, t.6, t.7, t.8, t.9, t.10, t.11, t.12, t.13, t.14, t.15, t.16, t.17, t.18, t.19, t.20, t.21, t.22, t.23).spec_attr()),
        t.attr_ok() == (t.0.attr_ok() && (t.1, t.2, t.3, t.4, t.5, t.6, t.7, t.8, t.9, t.10, t.11, t.12, t.13, t.14, t.15, t.16, t.17, t.18, t.19, t.20, t.21, t.22, t.23).attr_ok()),
{
    let a = t.0.spec_attr();
    let r = (t.1, t.2, t.3, t.4, t.5, t.6, t.7, t.8, t.9, t.10, t.11, t.12, t.13, t.14, t.15, t.16, t.17, t.18, t.19, t.20, t.21, t.22, t.23).spec_attr();
    assert(t.spec_attr().0 =~= a.0 + r.0);
    assert(t.spec_attr().1 =~= a.1 + r.1);
    assert(t.spec_attr().2 =~= a.2 + r.2);
}

/// 25 attributes write the first one's texts followed by those of the rest.
pub proof fn lemma_attr_tuple_25<A: Attribute, B: Attribute, C: Attribute, D: Attribute, E: Attribute, F: Attribute, G: Attribute, H: Attribute, I: Attribute, J: Attribute, K: Attribute, L: Attribute, M: Attribute, N: Attribute, O: Attribute, P: Attribute, Q: Attribute, R: Attribute, S: Attribute, T: Attribute, U: Attribute, V: Attribute, W: Attribute, X: Attribute, Y: Attribute>(t: (A, B, C, D, E, F, G, H, I, J, K, L, M, N, O, P, Q, R, S, T, U, V, W, X, Y))
    ensures
        t.spec_attr() == attr_then(t.0.spec_attr(), (t.1, t.2, t.3, t.4, t.5, t.6, t.7, t.8, t.9, t.10, t.11, t.12, t.13, t.14, t.15, t.16, t.17, t.18, t.19, t.20, t.21, t.22, t.23, t.24).spec_attr()),
        t.attr_ok() == (t.0.attr_ok() && (t.1, t.2, t.3, t.4, t.5, t.6, t.7, t.8, t.9, t.10, t.11, t.12, t.13, t.14, t.15, t.16, t.17, t.18, t.19, t.20, t.21, t.22, t.23, t.24).attr_ok()),
{
    let a = t.0.spec_attr();
    let r = (t.1, t.2, t.3, t.4, t.5, t.6, t.7, t.8, t.9, t.10, t.11, t.12, t.13, t.14, t.15, t.16, t.17, t.18, t.19, t.20, t.21, t.22, t.23, t.24).spec_attr();
    assert(t.spec_attr().0 =~= a.0 + r.0);
    assert(t.spec_attr().1 =~= a.1 + r.1);
    assert(t.spec_attr().2 =~= a.2 + r.2);
}

/// 26 attributes write the first one's texts followed by those of the rest.
pub proof fn lemma_attr_tuple_26<A: Attribute, B: Attribute, C: Attribute, D: Attribute, E: Attribute, F: Attribute, G: Attribute, H: Attribute, I: Attribute, J: Attribute, K: Attribute, L: Attribute, M: Attribute, N: Attribute, O: Attribute, P: Attribute, Q: Attribute, R: Attribute, S: Attribute, T: Attribute, U: Attribute, V: Attribute, W: Attribute, X: Attribute, Y: Attribute, Z: Attribute>(t: (A, B, C, D, E, F, G, H, I, J, K, L, M, N, O, P, Q, R, S, T, U, V, W, X, Y, Z))
    ensures
        t.spec_attr() == attr_then(t.0.spec_attr(), (t.1, t.2, t.3, t.4, t.5, t.6, t.7, t.8, t.9, t.10, t.11, t.12, t.13, t.14, t.15, t.16, t.17, t.18, t.19, t.20, t.21, t.22, t.23, t.24, t.25).spec_attr()),
        t.attr_ok() == (t.0.attr_ok() && (t.1, t.2, t.3, t.4, t.5, t.6, t.7, t.8, t.9, t.10, t.11, t.12, t.13, t.14, t.15, t.16, t.17, t.18, t.19, t.20, t.21, t.22, t.23, t.24, t.25).attr_ok()),
{
    let a = t.0.spec_attr();
    let r = (t.1, t.2, t.3, t.4, t.5, t.6, t.7, t.8, t.9, t.10, t.11, t.12, t.13, t.14, t.15, t.16, t.17, t.18, t.19, t.20, t.21, t.22, t.23, t.24, t.25).spec_attr();
    assert(t.spec_attr().0 =~= a.0 + r.0);
    assert(t.spec_attr().1 =~= a.1 + r.1);
    assert(t.spec_attr().2 =~= a.2 + r.2);
}

/// An attribute writes its value under its key to the attributes' text, and
/// adds nothing to the class list or the style.
pub proof fn lemma_attr_law<K: AttributeKey, V: AttributeValue>(a: Attr<K, V>)
    ensures
        a.spec_attr() == (a.1.spec_value_html(K::spec_key()), Seq::<char>::empty(), Seq::<char>::empty()),
        a.attr_ok(),
{
}

/// The names of the attribute keys.
pub proof fn lemma_attribute_keys()
    ensures
        Id::spec_key() == seq!['i', 'd'],
        Type::spec_key() == seq!['t', 'y', 'p', 'e'],
        Lang::spec_key() == seq!['l', 'a', 'n', 'g'],
        Title::spec_key() == seq!['t', 'i', 't', 'l', 'e'],
        Href::spec_key() == seq!['h', 'r', 'e', 'f'],
        Src::spec_key() == seq!['s', 'r', 'c'],
        Alt::spec_key() == seq!['a', 'l', 't'],
        Name::spec_key() == seq!['n', 'a', 'm', 'e'],
        Value::spec_key() == seq!['v', 'a', 'l', 'u', 'e'],
        Disabled::spec_key() == seq!['d', 'i', 's', 'a', 'b', 'l', 'e', 'd'],
        Checked::spec_key() == seq!['c', 'h', 'e', 'c', 'k', 'e', 'd'],
        Role::spec_key() == seq!['r', 'o', 'l', 'e'],
{
}

} // verus!
