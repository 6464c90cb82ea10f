//! Views written once into a template, and the fixed-size buffers that
//! template text is assembled in.
use crate::view::{Position, PositionState, RenderHtml, ToTemplate};
use vstd::prelude::*;
use vstd::slice::slice_subrange;
use vstd::string::*;
use vstd::utf8::valid_utf8;

verus! {

/// A view whose HTML structure is written once into a template and then
/// copied for each use.
pub struct ViewTemplate<V> {
    view: V,
}

impl<V> ViewTemplate<V> {
    pub closed spec fn spec_view(&self) -> V {
        self.view
    }

    pub fn new(view: V) -> (r: Self)
        ensures
            r.spec_view() == view,
    {
        ViewTemplate { view }
    }
}

impl<V: RenderHtml + ToTemplate> RenderHtml for ViewTemplate<V> {
    /// The HTML of the view it holds.
    open spec fn spec_html(&self, position: Position) -> (Seq<char>, Position) {
        self.spec_view().spec_html(position)
    }

    open spec fn html_ok(&self) -> bool {
        self.spec_view().html_ok()
    }

    fn to_html_with_buf(self, buf: &mut String, position: &mut PositionState) {
        self.view.to_html_with_buf(buf, position)
    }
}

impl<V: RenderHtml + ToTemplate> ToTemplate for ViewTemplate<V> {
    open spec fn template_ok() -> bool {
        V::template_ok()
    }

    /// The template of the view type it holds.
    open spec fn spec_template(position: Position) -> (Seq<char>, Seq<char>, Seq<char>, Position) {
        V::spec_template(position)
    }

    fn to_template(
        buf: &mut String,
        class: &mut String,
        style: &mut String,
        position: &mut Position,
    ) {
        V::to_template(buf, class, style, position);
    }
}

/// The size of a template buffer.
pub const MAX_TEMPLATE_SIZE: usize = 4096;

/// The UTF-8 bytes of the texts, one after another.
pub open spec fn joined_bytes(strs: Seq<&str>) -> Seq<u8>
    decreases strs.len(),
{
    if strs.len() == 0 {
        Seq::empty()
    } else {
        joined_bytes(strs.drop_last()) + strs.last().spec_bytes()
    }
}

/// A template buffer that holds the given bytes, zero after them.
pub open spec fn filled(content: Seq<u8>) -> Seq<u8> {
    Seq::new(
        MAX_TEMPLATE_SIZE as nat,
        |i: int|
            if i < content.len() {
                content[i]
            } else {
                0u8
            },
    )
}

/// The bytes before the first zero byte, or all of them when none is zero.
pub open spec fn until_nul(s: Seq<u8>) -> Seq<u8>
    decreases s.len(),
{
    if s.len() == 0 || s[0] == 0 {
        Seq::empty()
    } else {
        seq![s[0]] + until_nul(s.drop_first())
    }
}

/// The buffer with the bytes of `x` written from index `at` on.
pub open spec fn overwrite(buf: Seq<u8>, at: int, x: Seq<u8>) -> Seq<u8> {
    Seq::new(
        buf.len(),
        |i: int|
            if at <= i < at + x.len() {
                x[i - at]
            } else {
                buf[i]
            },
    )
}

proof fn lemma_joined_prefix(strs: Seq<&str>, k: int)
    requires
        0 <= k <= strs.len(),
    ensures
        joined_bytes(strs.take(k)).len() <= joined_bytes(strs).len(),
        joined_bytes(strs.take(k + 1 as int)) == joined_bytes(strs.take(k)) + strs[k].spec_bytes()
            || k == strs.len(),
    decreases strs.len() - k,
{
    if k < strs.len() {
        assert(strs.take(k + 1).drop_last() =~= strs.take(k));
        lemma_joined_prefix(strs, k + 1);
    } else {
        assert(strs.take(k) =~= strs);
    }
}

proof fn lemma_until_nul(s: Seq<u8>, n: int)
    requires
        0 <= n <= s.len(),
        forall|j: int| 0 <= j < n ==> s[j] != 0,
    ensures
        until_nul(s).len() >= n,
        until_nul(s).take(n) == s.take(n),
        n == s.len() || s[n] == 0 ==> until_nul(s) == s.take(n),
    decreases n,
{
    if n > 0 {
        lemma_until_nul(s.drop_first(), n - 1);
        assert(until_nul(s) == seq![s[0]] + until_nul(s.drop_first()));
        assert(until_nul(s).take(n) =~= seq![s[0]] + until_nul(s.drop_first()).take(n - 1));
        assert(s.take(n) =~= seq![s[0]] + s.drop_first().take(n - 1));
    } else {
        assert(until_nul(s).take(0) =~= s.take(0));
        if s.len() == 0 || s[0] == 0 {
            assert(s.take(0) =~= Seq::<u8>::empty());
        }
    }
}

/// The bytes of two lists of texts, joined, are the bytes of the first list
/// followed by those of the second.
pub proof fn lemma_joined_bytes_law(a: Seq<&str>, b: Seq<&str>)
    ensures
        joined_bytes(a + b) == joined_bytes(a) + joined_bytes(b),
        joined_bytes(Seq::<&str>::empty()) == Seq::<u8>::empty(),
    decreases b.len(),
{
    if b.len() == 0 {
        assert(a + b =~= a);
        assert(joined_bytes(a) + Seq::<u8>::empty() =~= joined_bytes(a));
    } else {
        assert((a + b).drop_last() =~= a + b.drop_last());
        assert((a + b).last() == b.last());
        lemma_joined_bytes_law(a, b.drop_last());
        assert(joined_bytes(a) + joined_bytes(b.drop_last()) + b.last().spec_bytes() =~= joined_bytes(
            a,
        ) + (joined_bytes(b.drop_last()) + b.last().spec_bytes()));
    }
}

/// A template buffer holds its content, then zero bytes, up to its size; the
/// text read back from it up to the first zero byte is the content itself
/// when the content holds no zero byte and leaves room for one.
pub proof fn lemma_filled_law(content: Seq<u8>)
    requires
        content.len() <= MAX_TEMPLATE_SIZE,
    ensures
        filled(content).len() == MAX_TEMPLATE_SIZE,
        forall|i: int| 0 <= i < content.len() ==> #[trigger] filled(content)[i] == content[i],
        forall|i: int| content.len() <= i < MAX_TEMPLATE_SIZE ==> #[trigger] filled(content)[i] == 0,
        (content.len() < MAX_TEMPLATE_SIZE && forall|i: int| 0 <= i < content.len() ==> content[i]
            != 0) ==> until_nul(filled(content)) == content,
{
    let f = filled(content);
    if content.len() < MAX_TEMPLATE_SIZE && forall|i: int| 0 <= i < content.len() ==> content[i]
        != 0 {
        let n = content.len() as int;
        assert forall|j: int| 0 <= j < n implies f[j] != 0 by {
            assert(f[j] == content[j]);
        }
        lemma_until_nul(f, n);
        assert(f.take(n) =~= content);
    }
}

/// Copies the bytes of `x` into `buffer` from `position` on, and returns the
/// position after them.
fn copy_bytes(buffer: &mut [u8; MAX_TEMPLATE_SIZE], position: usize, x: &[u8]) -> (end: usize)
    requires
        position + x@.len() <= MAX_TEMPLATE_SIZE,
    ensures
        end == position + x@.len(),
        final(buffer)@ == overwrite(old(buffer)@, position as int, x@),
{
    let mut position = position;
    let mut i: usize = 0;
    let ghost start = position;
    while i < x.len()
        invariant
            i <= x@.len(),
            position == start + i,
            start + x@.len() <= MAX_TEMPLATE_SIZE,
            buffer@.len() == MAX_TEMPLATE_SIZE,
            buffer@ == overwrite(old(buffer)@, start as int, x@.take(i as int)),
        decreases x@.len() - i,
    {
        buffer[position] = x[i];
        position = position + 1;
        i = i + 1;
        assert(buffer@ =~= overwrite(old(buffer)@, start as int, x@.take(i as int)));
    }
    assert(x@.take(i as int) =~= x@);
    position
}

/// A template buffer holding the bytes of the texts one after another, zero
/// after them.
pub fn const_concat(strs: &[&str]) -> (r: [u8; MAX_TEMPLATE_SIZE])
    requires
        joined_bytes(strs@).len() <= MAX_TEMPLATE_SIZE,
    ensures
        r@ == filled(joined_bytes(strs@)),
{
    let mut buffer = [0u8; MAX_TEMPLATE_SIZE];
    let mut position: usize = 0;
    let mut k: usize = 0;
    assert(buffer@ =~= filled(joined_bytes(strs@.take(0))));
    while k < strs.len()
        invariant
            k <= strs@.len(),
            joined_bytes(strs@).len() <= MAX_TEMPLATE_SIZE,
            position == joined_bytes(strs@.take(k as int)).len(),
            buffer@ == filled(joined_bytes(strs@.take(k as int))),
        decreases strs@.len() - k,
    {
        proof {
            lemma_joined_prefix(strs@, k as int);
            lemma_joined_prefix(strs@, k as int + 1);
        }
        let x = strs[k].as_bytes();
        position = copy_bytes(&mut buffer, position, x);
        k = k + 1;
        assert(buffer@ =~= filled(joined_bytes(strs@.take(k as int))));
    }
    assert(strs@.take(k as int) =~= strs@);
    buffer
}

/// What `const_concat_with_prefix` gives: the buffer of the joined texts
/// when it starts with a zero byte; otherwise a buffer of the prefix, the
/// joined texts up to their first zero byte, and the suffix.
pub open spec fn prefixed_template(content: Seq<u8>, prefix: Seq<u8>, suffix: Seq<u8>) -> Seq<u8> {
    if filled(content)[0] == 0 {
        filled(content)
    } else {
        filled(prefix + until_nul(filled(content)) + suffix)
    }
}

/// Joins the texts into a template buffer; unless that starts with a zero
/// byte, wraps what it holds in the prefix and the suffix.
pub fn const_concat_with_prefix(strs: &[&str], prefix: &str, suffix: &str) -> (r: [u8; MAX_TEMPLATE_SIZE])
    requires
        joined_bytes(strs@).len() <= MAX_TEMPLATE_SIZE,
        filled(joined_bytes(strs@))[0] != 0 ==> prefix.spec_bytes().len() + until_nul(
            filled(joined_bytes(strs@)),
        ).len() + suffix.spec_bytes().len() <= MAX_TEMPLATE_SIZE,
    ensures
        r@ == prefixed_template(joined_bytes(strs@), prefix.spec_bytes(), suffix.spec_bytes()),
{
    let buffer = const_concat(strs);
    if buffer[0] == 0 {
        return buffer;
    }
    let ghost middle = until_nul(buffer@);
    let mut new_buf = [0u8; MAX_TEMPLATE_SIZE];
    let prefix = prefix.as_bytes();
    let suffix = suffix.as_bytes();
    assert(new_buf@ =~= filled(Seq::<u8>::empty()));
    let mut position = copy_bytes(&mut new_buf, 0, prefix);
    assert(new_buf@ =~= filled(prefix@));
    let mut i: usize = 0;
    proof {
        lemma_until_nul(buffer@, 0);
    }
    while i < buffer.len()
        invariant_except_break
            i <= MAX_TEMPLATE_SIZE,
            buffer@.len() == MAX_TEMPLATE_SIZE,
            forall|j: int| 0 <= j < i ==> buffer@[j] != 0,
            middle == until_nul(buffer@),
            middle.len() >= i,
            prefix@.len() + middle.len() + suffix@.len() <= MAX_TEMPLATE_SIZE,
            position == prefix@.len() + i,
            new_buf@ == filled(prefix@ + buffer@.take(i as int)),
        ensures
            i <= MAX_TEMPLATE_SIZE,
            forall|j: int| 0 <= j < i ==> buffer@[j] != 0,
            i == MAX_TEMPLATE_SIZE || buffer@[i as int] == 0,
            position == prefix@.len() + i,
            new_buf@ == filled(prefix@ + buffer@.take(i as int)),
            prefix@.len() + middle.len() + suffix@.len() <= MAX_TEMPLATE_SIZE,
            middle == until_nul(buffer@),
        decreases MAX_TEMPLATE_SIZE - i,
    {
        if buffer[i] == 0 {
            break;
        }
        proof {
            lemma_until_nul(buffer@, i as int + 1);
        }
        new_buf[position] = buffer[i];
        position = position + 1;
        i = i + 1;
        assert(new_buf@ =~= filled(prefix@ + buffer@.take(i as int)));
    }
    proof {
        lemma_until_nul(buffer@, i as int);
    }
    let end = copy_bytes(&mut new_buf, position, suffix);
    assert(new_buf@ =~= filled(prefix@ + middle + suffix@));
    new_buf
}

/// One step of `const_concat_with_separator`: the bytes of the text are
/// written at `pos`; then, for a text that is not empty and shorter than the
/// separator, the separator's bytes past the text's length are written at
/// the start of the buffer.
pub open spec fn separator_step(buf: Seq<u8>, pos: int, x: Seq<u8>, sep: Seq<u8>) -> Seq<u8> {
    let written = overwrite(buf, pos, x);
    if x.len() > 0 && x.len() < sep.len() {
        overwrite(written, 0, sep.skip(x.len() as int))
    } else {
        written
    }
}

/// What `const_concat_with_separator` gives for the texts.
pub open spec fn separator_template(strs: Seq<&str>, sep: Seq<u8>) -> Seq<u8>
    decreases strs.len(),
{
    if strs.len() == 0 {
        filled(Seq::empty())
    } else {
        separator_step(
            separator_template(strs.drop_last(), sep),
            joined_bytes(strs.drop_last()).len() as int,
            strs.last().spec_bytes(),
            sep,
        )
    }
}

/// Whether the separator's bytes, where they are written, fit the buffer.
pub open spec fn separator_fits(strs: Seq<&str>, sep: Seq<u8>) -> bool {
    forall|k: int|
        0 <= k < strs.len() && 0 < (#[trigger] strs[k].spec_bytes()).len() < sep.len() ==> sep.len()
            - strs[k].spec_bytes().len() <= MAX_TEMPLATE_SIZE
}

/// Joins the texts into a template buffer; after each text that is not
/// empty, the separator's bytes from the text's length on are written at the
/// start of the buffer.
pub fn const_concat_with_separator(strs: &[&str], separator: &str) -> (r: [u8; MAX_TEMPLATE_SIZE])
    requires
        joined_bytes(strs@).len() <= MAX_TEMPLATE_SIZE,
        separator_fits(strs@, separator.spec_bytes()),
    ensures
        r@ == separator_template(strs@, separator.spec_bytes()),
{
    let mut buffer = [0u8; MAX_TEMPLATE_SIZE];
    let mut position: usize = 0;
    let mut k: usize = 0;
    let separator = separator.as_bytes();
    assert(strs@.take(0) =~= Seq::<&str>::empty());
    assert(buffer@ =~= filled(Seq::<u8>::empty()));
    while k < strs.len()
        invariant
            k <= strs@.len(),
            joined_bytes(strs@).len() <= MAX_TEMPLATE_SIZE,
            separator_fits(strs@, separator@),
            position == joined_bytes(strs@.take(k as int)).len(),
            buffer@ == separator_template(strs@.take(k as int), separator@),
            buffer@.len() == MAX_TEMPLATE_SIZE,
        decreases strs@.len() - k,
    {
        proof {
            lemma_joined_prefix(strs@, k as int);
            lemma_joined_prefix(strs@, k as int + 1);
            assert(strs@.take(k as int + 1).drop_last() =~= strs@.take(k as int));
        }
        let x = strs[k].as_bytes();
        position = copy_bytes(&mut buffer, position, x);
        if x.len() > 0 {
            let mut i = x.len();
            let mut at: usize = 0;
            let ghost written = buffer@;
            if i < separator.len() {
                assert(0 < strs@[k as int].spec_bytes().len() < separator@.len());
            }
            while i < separator.len()
                invariant
                    x@.len() <= i,
                    i < separator@.len() ==> separator@.len() - x@.len() <= MAX_TEMPLATE_SIZE,
                    i <= separator@.len() || i == x@.len(),
                    at == i - x@.len(),
                    buffer@ == overwrite(written, 0, separator@.skip(x@.len() as int).take(at as int)),
                    buffer@.len() == MAX_TEMPLATE_SIZE,
                decreases separator@.len() - i,
            {
                buffer[at] = separator[i];
                at = at + 1;
                i = i + 1;
                assert(buffer@ =~= overwrite(written, 0, separator@.skip(x@.len() as int).take(at as int)));
            }
            proof {
                if x@.len() < separator@.len() {
                    assert(separator@.skip(x@.len() as int).take(at as int) =~= separator@.skip(x@.len() as int));
                } else {
                    assert(buffer@ =~= written);
                }
            }
        }
        k = k + 1;
    }
    assert(strs@.take(k as int) =~= strs@);
    buffer
}

/// Calls `std::str::from_utf8`. Its documentation: the bytes are returned as
/// text when they are valid UTF-8, and an error when they are not.
#[verifier::external_body]
fn utf8_text(bytes: &[u8]) -> (r: Option<&str>)
    ensures
        match r {
            Some(s) => s.spec_bytes() == bytes@,
            None => !valid_utf8(bytes@),
        },
{
    std::str::from_utf8(bytes).ok()
}

/// The text a template buffer holds: its bytes before the first zero byte.
pub fn str_from_buffer(buf: &[u8; MAX_TEMPLATE_SIZE]) -> (r: &str)
    requires
        buf@.contains(0u8),
        valid_utf8(until_nul(buf@)),
    ensures
        r.spec_bytes() == until_nul(buf@),
{
    let mut i: usize = 0;
    proof {
        lemma_until_nul(buf@, 0);
    }
    while i < MAX_TEMPLATE_SIZE && buf[i] != 0
        invariant
            i <= MAX_TEMPLATE_SIZE,
            buf@.len() == MAX_TEMPLATE_SIZE,
            buf@.contains(0u8),
            forall|j: int| 0 <= j < i ==> buf@[j] != 0,
        decreases MAX_TEMPLATE_SIZE - i,
    {
        i = i + 1;
    }
    proof {
        lemma_until_nul(buf@, i as int);
    }
    let bytes = slice_subrange(buf.as_slice(), 0, i);
    match utf8_text(bytes) {
        Some(s) => s,
        None => {
            assert(bytes@ =~= until_nul(buf@));
            proof {
                assert(false);
            }
            ""
        },
    }
}

/// A view template writes the HTML of the view it holds, and its template is
/// that of the view's type.
pub proof fn lemma_view_template_law<V: RenderHtml + ToTemplate>(t: ViewTemplate<V>, position: Position)
    ensures
        t.spec_html(position) == t.spec_view().spec_html(position),
        <ViewTemplate<V> as ToTemplate>::spec_template(position) == V::spec_template(position),
{
}

/// Wrapping joined texts: with no bytes, the buffer stays empty; texts with
/// no zero byte are written between the prefix and the suffix.
pub proof fn lemma_prefixed_template_law(content: Seq<u8>, prefix: Seq<u8>, suffix: Seq<u8>)
    requires
        content.len() < MAX_TEMPLATE_SIZE,
    ensures
        content.len() == 0 ==> prefixed_template(content, prefix, suffix) == filled(
            Seq::<u8>::empty(),
        ),
        (content.len() > 0 && forall|i: int| 0 <= i < content.len() ==> content[i] != 0)
            ==> prefixed_template(content, prefix, suffix) == filled(prefix + content + suffix),
{
    lemma_filled_law(content);
    if content.len() == 0 {
        assert(filled(content)[0] == 0);
    } else if forall|i: int| 0 <= i < content.len() ==> content[i] != 0 {
        assert(filled(content)[0] == content[0]);
    }
}

} // verus!
