//! Optional views and lists of views.
use crate::view::{marker, push_marker, Position, PositionState, RenderHtml};
use vstd::prelude::*;

verus! {

impl<T: RenderHtml> RenderHtml for Option<T> {
    /// The view's HTML if there is one, then a `<!>` placeholder.
    open spec fn spec_html(&self, position: Position) -> (Seq<char>, Position) {
        match self {
            Some(v) => (v.spec_html(position).0 + marker(), v.spec_html(position).1),
            None => (marker(), position),
        }
    }

    open spec fn html_ok(&self) -> bool {
        match self {
            Some(v) => v.html_ok(),
            None => true,
        }
    }

    fn to_html_with_buf(self, buf: &mut String, position: &mut PositionState) {
        if let Some(value) = self {
            value.to_html_with_buf(buf, position);
        }
        push_marker(buf);
    }
}

/// An optional view writes its view's HTML, if there is one, then a `<!>`
/// placeholder; with no view it writes only the placeholder and keeps the
/// position.
pub proof fn lemma_option_html_law<T: RenderHtml>(o: Option<T>, position: Position)
    ensures
        o matches Some(v) ==> o.spec_html(position) == (
            v.spec_html(position).0 + seq!['<', '!', '>'],
            v.spec_html(position).1,
        ),
        o is None ==> o.spec_html(position) == (seq!['<', '!', '>'], position),
{
}

/// What a mounted optional view keeps: the placeholder node that marks its
/// place, and the state of the view if there is one.
pub struct OptionState<S, P> {
    pub placeholder: P,
    pub state: Option<S>,
}

/// The HTML of views written one after another, each starting where the one
/// before left off.
pub open spec fn seq_html<T: RenderHtml>(items: Seq<T>, position: Position) -> (Seq<char>, Position)
    decreases items.len(),
{
    if items.len() == 0 {
        (Seq::empty(), position)
    } else {
        let front = seq_html(items.drop_last(), position);
        let last = items.last().spec_html(front.1);
        (front.0 + last.0, last.1)
    }
}

impl<T: RenderHtml> RenderHtml for Vec<T> {
    /// The items' HTML, one after another.
    open spec fn spec_html(&self, position: Position) -> (Seq<char>, Position) {
        seq_html(self@, position)
    }

    open spec fn html_ok(&self) -> bool {
        forall|i: int| 0 <= i < self@.len() ==> (#[trigger] self@[i]).html_ok()
    }

    fn to_html_with_buf(self, buf: &mut String, position: &mut PositionState) {
        let ghost items = self@;
        let ghost start = old(position).value();
        let ghost buf0 = buf@;
        assert(items.take(0) =~= Seq::<T>::empty());
        assert(buf@ =~= buf0 + seq_html(items.take(0), start).0);
        for item in it: self
            invariant
                items == it.seq(),
                forall|i: int| 0 <= i < items.len() ==> (#[trigger] items[i]).html_ok(),
                buf@ == buf0 + seq_html(items.take(it.index() as int), start).0,
                position.value() == seq_html(items.take(it.index() as int), start).1,
        {
            let ghost k = it.index() as int;
            proof {
                assert(items.take(k + 1).drop_last() =~= items.take(k));
                assert(items.take(k + 1).last() == items[k]);
            }
            item.to_html_with_buf(buf, position);
            assert(buf@ =~= buf0 + seq_html(items.take(k + 1), start).0);
        }
        assert(items.take(items.len() as int) =~= items);
    }
}

/// A list of views writes nothing when empty; one more view is written where
/// the ones before it left off, and the position is where it leaves it.
pub proof fn lemma_vec_html_law<T: RenderHtml>(v: Vec<T>, items: Seq<T>, x: T, position: Position)
    ensures
        v.spec_html(position) == seq_html(v@, position),
        seq_html(Seq::<T>::empty(), position) == (Seq::<char>::empty(), position),
        seq_html(items.push(x), position) == ({
            let front = seq_html(items, position);
            let last = x.spec_html(front.1);
            (front.0 + last.0, last.1)
        }),
{
    assert(items.push(x).drop_last() =~= items);
}

} // verus!
