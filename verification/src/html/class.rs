//! The `class` attribute.
use crate::html::attribute::Attribute;
use vstd::prelude::*;
use vstd::string::*;

verus! {

/// A value that adds to the class list of an element.
pub trait IntoClass {
    /// The text added to the class list.
    spec fn spec_class(&self) -> Seq<char>;

    /// Whether the class can be written.
    spec fn class_ok(&self) -> bool;

    fn to_html(&self, class: &mut String)
        requires
            self.class_ok(),
        ensures
            final(class)@ == old(class)@ + self.spec_class(),
    ;
}

impl<'a> IntoClass for &'a str {
    open spec fn spec_class(&self) -> Seq<char> {
        (*self)@
    }

    open spec fn class_ok(&self) -> bool {
        true
    }

    fn to_html(&self, class: &mut String) {
        class.append(*self);
    }
}

impl IntoClass for String {
    open spec fn spec_class(&self) -> Seq<char> {
        self@
    }

    open spec fn class_ok(&self) -> bool {
        true
    }

    fn to_html(&self, class: &mut String) {
        class.append(self.as_str());
    }
}

/// A class name that is present or not.
impl IntoClass for (&'static str, bool) {
    open spec fn spec_class(&self) -> Seq<char> {
        if self.1 {
            self.0@
        } else {
            Seq::empty()
        }
    }

    open spec fn class_ok(&self) -> bool {
        true
    }

    fn to_html(&self, class: &mut String) {
        if self.1 {
            class.append(self.0);
        } else {
            assert(class@ =~= class@ + Seq::<char>::empty());
        }
    }
}

/// A function that may be called and that gives the same answer each time.
pub open spec fn steady<F: Fn() -> T, T>(f: &F) -> bool {
    &&& call_requires(*f, ())
    &&& forall|a: T, b: T| call_ensures(*f, (), a) && call_ensures(*f, (), b) ==> a == b
}

/// What a steady function answers.
pub open spec fn answer<F: Fn() -> T, T>(f: &F) -> T {
    choose|a: T| call_ensures(*f, (), a)
}

/// Calls a steady function.
pub fn ask<F: Fn() -> T, T>(f: &F) -> (r: T)
    requires
        steady(f),
    ensures
        r == answer(f),
{
    let r = f();
    assert(call_ensures(*f, (), r));
    r
}

/// A class name that is present when a function says so.
impl<F: Fn() -> bool> IntoClass for (&'static str, F) {
    open spec fn spec_class(&self) -> Seq<char> {
        if answer(&self.1) {
            self.0@
        } else {
            Seq::empty()
        }
    }

    open spec fn class_ok(&self) -> bool {
        steady(&self.1)
    }

    fn to_html(&self, class: &mut String) {
        if ask(&self.1) {
            class.append(self.0);
        } else {
            assert(class@ =~= class@ + Seq::<char>::empty());
        }
    }
}

/// Adds to the class list of an element.
pub struct Class<C> {
    class: C,
}

impl<C> Class<C> {
    pub closed spec fn value(&self) -> &C {
        &self.class
    }
}

/// A `class` attribute made of the given value.
pub fn class<C: IntoClass>(c: C) -> (r: Class<C>)
    ensures
        *r.value() == c,
{
    Class { class: c }
}

impl<C: IntoClass> Attribute for Class<C> {
    /// A space, then the class text, added to the class list.
    open spec fn spec_attr(&self) -> (Seq<char>, Seq<char>, Seq<char>) {
        (Seq::empty(), seq![' '] + self.value().spec_class(), Seq::empty())
    }

    open spec fn attr_ok(&self) -> bool {
        self.value().class_ok()
    }

    fn to_html(&self, buf: &mut String, class: &mut String, style: &mut String) {
        class.append(" ");
        proof {
            reveal_strlit(" ");
        }
        self.class.to_html(class);
        assert(class@ =~= old(class)@ + (seq![' '] + self.value().spec_class()));
        assert(buf@ =~= buf@ + Seq::<char>::empty());
        assert(style@ =~= style@ + Seq::<char>::empty());
    }
}

/// A class attribute adds a space and its class text to the class list, and
/// nothing to the attributes' text or the style. A class name is its text; a
/// name with a flag is its text when the flag is set and nothing otherwise.
pub proof fn lemma_class_law<C: IntoClass>(c: Class<C>, name: &'static str, flag: bool, text: String)
    ensures
        c.spec_attr() == (
            Seq::<char>::empty(),
            seq![' '] + c.value().spec_class(),
            Seq::<char>::empty(),
        ),
        name.spec_class() == name@,
        text.spec_class() == text@,
        (name, flag).spec_class() == if flag {
            name@
        } else {
            Seq::<char>::empty()
        },
{
}

} // verus!
