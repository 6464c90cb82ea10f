//! Streaming server-rendered HTML: text that is ready is sent at once, and
//! pieces that wait on a future are sent in order once they resolve.
//!
//! The futures themselves stay with the caller: this module decides what to
//! send next and which future must be polled, and the caller polls it and
//! reports back.
use std::collections::VecDeque;
use vstd::prelude::*;

verus! {

/// A chunk of an HTML stream: text ready now, or a future that gives more
/// chunks.
pub enum StreamChunk<F> {
    Sync(String),
    Async { chunks: F, should_block: bool },
}

/// The mathematical content of a chunk.
pub enum ChunkView<F> {
    Sync(Seq<char>),
    Async(F, bool),
}

impl<F> View for StreamChunk<F> {
    type V = ChunkView<F>;

    open spec fn view(&self) -> ChunkView<F> {
        match self {
            StreamChunk::Sync(s) => ChunkView::Sync(s@),
            StreamChunk::Async { chunks, should_block } => ChunkView::Async(*chunks, *should_block),
        }
    }
}

/// The views of a sequence of chunks.
pub open spec fn chunks_view<F>(chunks: Seq<StreamChunk<F>>) -> Seq<ChunkView<F>> {
    chunks.map_values(|c: StreamChunk<F>| c@)
}

/// The number of text chunks at the front.
pub open spec fn sync_run<F>(chunks: Seq<ChunkView<F>>) -> nat
    decreases chunks.len(),
{
    if chunks.len() > 0 && chunks[0] is Sync {
        1 + sync_run(chunks.drop_first())
    } else {
        0
    }
}

/// The text of a chunk; none for a chunk that waits on a future.
pub open spec fn chunk_text<F>(c: ChunkView<F>) -> Seq<char> {
    match c {
        ChunkView::Sync(s) => s,
        ChunkView::Async(..) => Seq::empty(),
    }
}

/// The texts of the chunks, joined.
pub open spec fn joined_text<F>(chunks: Seq<ChunkView<F>>) -> Seq<char>
    decreases chunks.len(),
{
    if chunks.len() == 0 {
        Seq::empty()
    } else {
        joined_text(chunks.drop_last()) + chunk_text(chunks.last())
    }
}

/// The text of the text chunks at the front, joined.
pub open spec fn run_text<F>(chunks: Seq<ChunkView<F>>) -> Seq<char> {
    joined_text(chunks.take(sync_run(chunks) as int))
}

/// What a stream holds: the text written since the last chunk was closed,
/// the chunks waiting to be sent, and the future being awaited.
pub struct StreamView<F> {
    pub sync_buf: Seq<char>,
    pub chunks: Seq<ChunkView<F>>,
    pub pending: Option<F>,
}

/// A builder and source of an HTML stream.
pub struct StreamBuilder<F> {
    sync_buf: String,
    chunks: VecDeque<StreamChunk<F>>,
    pending: Option<F>,
}

impl<F> View for StreamBuilder<F> {
    type V = StreamView<F>;

    closed spec fn view(&self) -> StreamView<F> {
        StreamView {
            sync_buf: self.sync_buf@,
            chunks: chunks_view(self.chunks@),
            pending: self.pending,
        }
    }
}

/// What the stream asks of its caller next: to poll a future and report
/// back, or to send the given text (`None` ends the stream).
pub enum PollStep<F> {
    Poll(F),
    Ready(Option<String>),
}

/// The mathematical content of a poll step.
pub enum PollStepView<F> {
    Poll(F),
    Ready(Option<Seq<char>>),
}

impl<F> View for PollStep<F> {
    type V = PollStepView<F>;

    open spec fn view(&self) -> PollStepView<F> {
        match self {
            PollStep::Poll(f) => PollStepView::Poll(*f),
            PollStep::Ready(Some(s)) => PollStepView::Ready(Some(s@)),
            PollStep::Ready(None) => PollStepView::Ready(None),
        }
    }
}

/// The chunks with the written text closed into a chunk of its own, unless
/// it is empty.
pub open spec fn flushed<F>(s: StreamView<F>) -> Seq<ChunkView<F>> {
    if s.sync_buf.len() == 0 {
        s.chunks
    } else {
        s.chunks.push(ChunkView::Sync(s.sync_buf))
    }
}

/// The stream with its written text closed: added to the last chunk when
/// that is text, and a chunk of its own otherwise.
pub open spec fn finished<F>(s: StreamView<F>) -> StreamView<F> {
    StreamView {
        sync_buf: Seq::empty(),
        chunks: if s.sync_buf.len() == 0 {
            s.chunks
        } else if s.chunks.len() > 0 && s.chunks.last() is Sync {
            s.chunks.drop_last().push(ChunkView::Sync(s.chunks.last()->Sync_0 + s.sync_buf))
        } else {
            s.chunks.push(ChunkView::Sync(s.sync_buf))
        },
        pending: s.pending,
    }
}

/// The text a stream holds, in order: the text of its chunks, then the text
/// written after them.
pub open spec fn held_text<F>(s: StreamView<F>) -> Seq<char> {
    joined_text(s.chunks) + s.sync_buf
}

/// One step of reading the stream, and the stream after it.
///
/// A future being awaited is handed out to be polled. Otherwise the first
/// chunk decides: a future is handed out to be polled; text is sent together
/// with the text chunks right after it and the written text; with no chunk
/// left, the written text is sent, or the stream ends when there is none.
pub open spec fn poll_outcome<F>(s: StreamView<F>) -> (PollStepView<F>, StreamView<F>) {
    match s.pending {
        Some(p) => (PollStepView::Poll(p), StreamView { pending: None, ..s }),
        None => if s.chunks.len() == 0 {
            (
                PollStepView::Ready(
                    if s.sync_buf.len() == 0 {
                        None
                    } else {
                        Some(s.sync_buf)
                    },
                ),
                StreamView { sync_buf: Seq::empty(), ..s },
            )
        } else {
            match s.chunks[0] {
                ChunkView::Sync(v) => {
                    let rest = s.chunks.drop_first();
                    (
                        PollStepView::Ready(Some(v + run_text(rest) + s.sync_buf)),
                        StreamView {
                            sync_buf: Seq::empty(),
                            chunks: rest.skip(sync_run(rest) as int),
                            pending: None,
                        },
                    )
                },
                ChunkView::Async(f, _) => (
                    PollStepView::Poll(f),
                    StreamView { chunks: s.chunks.drop_first(), ..s },
                ),
            }
        },
    }
}

proof fn lemma_run_bounds<F>(chunks: Seq<ChunkView<F>>)
    ensures
        sync_run(chunks) <= chunks.len(),
    decreases chunks.len(),
{
    if chunks.len() > 0 && chunks[0] is Sync {
        lemma_run_bounds(chunks.drop_first());
    }
}

proof fn lemma_run_skip<F>(chunks: Seq<ChunkView<F>>, k: int)
    requires
        0 <= k <= sync_run(chunks),
    ensures
        sync_run(chunks.skip(k)) == sync_run(chunks) - k,
    decreases k,
{
    lemma_run_bounds(chunks);
    if k > 0 {
        lemma_run_skip(chunks.drop_first(), k - 1);
        assert(chunks.drop_first().skip(k - 1) =~= chunks.skip(k));
    } else {
        assert(chunks.skip(0) =~= chunks);
    }
}

proof fn lemma_all_text_run<F>(chunks: Seq<ChunkView<F>>)
    requires
        forall|i: int| 0 <= i < chunks.len() ==> #[trigger] chunks[i] is Sync,
    ensures
        sync_run(chunks) == chunks.len(),
    decreases chunks.len(),
{
    if chunks.len() > 0 {
        assert(chunks[0] is Sync);
        assert forall|i: int| 0 <= i < chunks.drop_first().len() implies #[trigger] chunks.drop_first()[i] is Sync by {
            assert(chunks.drop_first()[i] == chunks[i + 1]);
        }
        lemma_all_text_run(chunks.drop_first());
    }
}

proof fn lemma_joined_first<F>(chunks: Seq<ChunkView<F>>)
    requires
        chunks.len() > 0,
    ensures
        joined_text(chunks) == chunk_text(chunks[0]) + joined_text(chunks.drop_first()),
    decreases chunks.len(),
{
    if chunks.len() == 1 {
        assert(chunks.drop_last().len() == 0);
        assert(chunks.drop_first().len() == 0);
        assert(joined_text(chunks.drop_last()) =~= Seq::<char>::empty());
        assert(joined_text(chunks.drop_first()) =~= Seq::<char>::empty());
        assert(chunks.last() == chunks[0]);
        assert(joined_text(chunks) =~= chunk_text(chunks[0]) + joined_text(chunks.drop_first()));
    } else {
        lemma_joined_first(chunks.drop_last());
        assert(chunks.drop_last().drop_first() =~= chunks.drop_first().drop_last());
        assert(joined_text(chunks) =~= chunk_text(chunks[0]) + joined_text(chunks.drop_first()));
    }
}

/// A stream that awaits no future and holds only text sends all of its text
/// in one piece (nothing when it holds no chunk and no text), and the read
/// after that ends the stream.
pub proof fn lemma_text_stream_drains<F>(s: StreamView<F>)
    requires
        s.pending is None,
        forall|i: int| 0 <= i < s.chunks.len() ==> #[trigger] s.chunks[i] is Sync,
    ensures
        poll_outcome(s).0 == PollStepView::<F>::Ready(
            if s.chunks.len() == 0 && s.sync_buf.len() == 0 {
                None
            } else {
                Some(joined_text(s.chunks) + s.sync_buf)
            },
        ),
        poll_outcome(poll_outcome(s).1).0 == PollStepView::<F>::Ready(None),
{
    if s.chunks.len() > 0 {
        let rest = s.chunks.drop_first();
        assert forall|i: int| 0 <= i < rest.len() implies #[trigger] rest[i] is Sync by {
            assert(rest[i] == s.chunks[i + 1]);
        }
        lemma_all_text_run(rest);
        assert(rest.take(rest.len() as int) =~= rest);
        assert(rest.skip(rest.len() as int).len() == 0);
        lemma_joined_first(s.chunks);
        assert(s.chunks[0] is Sync);
    } else {
        assert(joined_text(s.chunks) =~= Seq::<char>::empty());
    }
}

proof fn lemma_joined_concat<F>(a: Seq<ChunkView<F>>, b: Seq<ChunkView<F>>)
    ensures
        joined_text(a + b) == joined_text(a) + joined_text(b),
    decreases b.len(),
{
    if b.len() == 0 {
        assert(a + b =~= a);
        assert(joined_text(a) + joined_text(b) =~= joined_text(a));
    } else {
        assert((a + b).drop_last() =~= a + b.drop_last());
        lemma_joined_concat(a, b.drop_last());
        assert((a + b).last() == b.last());
        assert(joined_text(a + b) =~= joined_text(a) + joined_text(b));
    }
}

/// Closing the written text into a chunk keeps the text a stream holds, in
/// order; so do `push_async`, which closes it before adding a chunk with no
/// text, and `take_chunks`, which hands out the closed chunks.
pub proof fn lemma_flushed_keeps_text<F>(s: StreamView<F>, fut: F, should_block: bool)
    ensures
        joined_text(flushed(s)) == held_text(s),
        joined_text(flushed(s).push(ChunkView::Async(fut, should_block))) == held_text(s),
{
    if s.sync_buf.len() > 0 {
        assert(s.chunks.push(ChunkView::Sync(s.sync_buf)).drop_last() =~= s.chunks);
    } else {
        assert(held_text(s) =~= joined_text(s.chunks));
    }
    let f = flushed(s).push(ChunkView::Async(fut, should_block));
    assert(f.drop_last() =~= flushed(s));
    assert(joined_text(f) =~= joined_text(flushed(s)));
}

/// `finish` keeps the text a stream holds, in order, and leaves no written
/// text outside the chunks.
pub proof fn lemma_finish_keeps_text<F>(s: StreamView<F>)
    ensures
        held_text(finished(s)) == held_text(s),
        finished(s).sync_buf.len() == 0,
        finished(s).pending == s.pending,
{
    let r = finished(s);
    if s.sync_buf.len() == 0 {
        assert(held_text(s) =~= joined_text(s.chunks));
        assert(held_text(r) =~= joined_text(s.chunks));
    } else if s.chunks.len() > 0 && s.chunks.last() is Sync {
        let front = s.chunks.drop_last();
        assert(r.chunks.drop_last() =~= front);
        assert(joined_text(s.chunks) == joined_text(front) + chunk_text(s.chunks.last()));
        assert(held_text(r) =~= held_text(s));
    } else {
        assert(r.chunks.drop_last() =~= s.chunks);
        assert(held_text(r) =~= held_text(s));
    }
}

/// Reading a stream whose written text is closed (as `finish` leaves it, or
/// when no chunk is left) loses no text and changes no order: the text sent,
/// followed by the text still held, is the text held before; a read that ends
/// the stream finds no text held, and a read that hands out a future keeps
/// the text held.
pub proof fn lemma_read_keeps_text<F>(s: StreamView<F>)
    requires
        s.sync_buf.len() == 0 || s.chunks.len() == 0,
    ensures
        match poll_outcome(s).0 {
            PollStepView::Ready(Some(t)) => t + held_text(poll_outcome(s).1) == held_text(s),
            PollStepView::Ready(None) => held_text(s).len() == 0,
            PollStepView::Poll(_) => held_text(poll_outcome(s).1) == held_text(s),
        },
{
    if s.pending is None && s.chunks.len() > 0 {
        lemma_joined_first(s.chunks);
        let rest = s.chunks.drop_first();
        if s.chunks[0] is Sync {
            let n = sync_run(rest) as int;
            lemma_run_bounds(rest);
            assert(rest =~= rest.take(n) + rest.skip(n));
            lemma_joined_concat(rest.take(n), rest.skip(n));
            let out = poll_outcome(s);
            assert(held_text(out.1) =~= joined_text(rest.skip(n)));
            assert(held_text(s) =~= joined_text(s.chunks));
        } else {
            assert(chunk_text(s.chunks[0]) =~= Seq::<char>::empty());
            assert(held_text(poll_outcome(s).1) =~= held_text(s));
        }
    } else if s.pending is None {
        assert(joined_text(s.chunks) =~= Seq::<char>::empty());
        assert(held_text(s) =~= s.sync_buf);
        assert(held_text(poll_outcome(s).1) =~= Seq::<char>::empty());
    }
}

/// Reading a stream hands out the future being awaited first, keeping the
/// rest; with none awaited, a future at the front is handed out and taken off
/// the front; with no chunk left, the written text is sent and emptied, and
/// the stream ends when there is none.
pub proof fn lemma_poll_order_law<F>(s: StreamView<F>)
    ensures
        s.pending matches Some(p) ==> {
            &&& poll_outcome(s).0 == PollStepView::Poll(p)
            &&& poll_outcome(s).1.pending is None
            &&& poll_outcome(s).1.chunks == s.chunks
            &&& poll_outcome(s).1.sync_buf == s.sync_buf
        },
        (s.pending is None && s.chunks.len() > 0) ==> (s.chunks[0] matches ChunkView::Async(f, _)
            ==> {
            &&& poll_outcome(s).0 == PollStepView::Poll(f)
            &&& poll_outcome(s).1.chunks == s.chunks.drop_first()
            &&& poll_outcome(s).1.sync_buf == s.sync_buf
        }),
        (s.pending is None && s.chunks.len() == 0) ==> {
            &&& (s.sync_buf.len() == 0 ==> poll_outcome(s).0 == PollStepView::<F>::Ready(None))
            &&& (s.sync_buf.len() > 0 ==> poll_outcome(s).0 == PollStepView::<F>::Ready(
                Some(s.sync_buf),
            ))
            &&& poll_outcome(s).1.sync_buf.len() == 0
        },
{
}

impl<F> StreamBuilder<F> {
    /// An empty stream.
    pub fn new() -> (r: Self)
        ensures
            r@ == (StreamView::<F> { sync_buf: Seq::empty(), chunks: Seq::empty(), pending: None }),
    {
        let r = StreamBuilder { sync_buf: String::new(), chunks: VecDeque::new(), pending: None };
        assert(chunks_view(r.chunks@) =~= Seq::<ChunkView<F>>::empty());
        r
    }

    /// Appends text to what is written.
    pub fn push_sync(&mut self, string: &str)
        ensures
            final(self)@ == (StreamView { sync_buf: old(self)@.sync_buf + string@, ..old(self)@ }),
    {
        self.sync_buf.append(string);
    }

    /// Takes the written text, leaving it empty.
    fn take_sync(&mut self) -> (r: String)
        ensures
            r@ == old(self)@.sync_buf,
            final(self)@ == (StreamView { sync_buf: Seq::empty(), ..old(self)@ }),
    {
        let mut sync = String::new();
        std::mem::swap(&mut sync, &mut self.sync_buf);
        sync
    }

    /// Closes the written text into a chunk, unless it is empty.
    fn flush_sync(&mut self)
        ensures
            final(self)@ == (StreamView {
                sync_buf: Seq::empty(),
                chunks: flushed(old(self)@),
                ..old(self)@
            }),
    {
        let sync = self.take_sync();
        if !sync.as_str().is_empty() {
            self.chunks.push_back(StreamChunk::Sync(sync));
            assert(chunks_view(self.chunks@) =~= flushed(old(self)@));
        }
    }

    /// Closes the written text into a chunk, unless it is empty, and adds a
    /// chunk that waits on the future.
    pub fn push_async(&mut self, should_block: bool, fut: F)
        ensures
            final(self)@ == (StreamView {
                sync_buf: Seq::empty(),
                chunks: flushed(old(self)@).push(ChunkView::Async(fut, should_block)),
                ..old(self)@
            }),
    {
        self.flush_sync();
        let ghost before = self.chunks@;
        self.chunks.push_back(StreamChunk::Async { chunks: fut, should_block });
        assert(chunks_view(self.chunks@) =~= chunks_view(before).push(
            ChunkView::Async(fut, should_block),
        ));
    }

    /// Closes the written text into a chunk, unless it is empty, and hands
    /// out all chunks, leaving none.
    pub fn take_chunks(&mut self) -> (r: VecDeque<StreamChunk<F>>)
        ensures
            chunks_view(r@) == flushed(old(self)@),
            final(self)@ == (StreamView {
                sync_buf: Seq::empty(),
                chunks: Seq::empty(),
                ..old(self)@
            }),
    {
        self.flush_sync();
        let mut taken = VecDeque::new();
        std::mem::swap(&mut taken, &mut self.chunks);
        assert(chunks_view(self.chunks@) =~= Seq::<ChunkView<F>>::empty());
        taken
    }

    /// Closes the written text: it is added to the last chunk when that is
    /// text, and becomes a chunk of its own otherwise.
    pub fn finish(self) -> (r: Self)
        ensures
            r@ == finished(self@),
    {
        let mut this = self;
        let remaining = this.take_sync();
        if remaining.as_str().is_empty() {
            return this;
        }
        let ghost before = this.chunks@;
        match this.chunks.pop_back() {
            Some(StreamChunk::Sync(mut buf)) => {
                let ghost last = buf@;
                buf.append(remaining.as_str());
                this.chunks.push_back(StreamChunk::Sync(buf));
                assert(chunks_view(before).last() == ChunkView::<F>::Sync(last));
                assert(chunks_view(this.chunks@) =~= chunks_view(before).drop_last().push(
                    ChunkView::Sync(last + remaining@),
                ));
            },
            Some(other) => {
                this.chunks.push_back(other);
                assert(this.chunks@ =~= before);
                assert(!(chunks_view(before).last() is Sync));
                this.chunks.push_back(StreamChunk::Sync(remaining));
                assert(chunks_view(this.chunks@) =~= chunks_view(before).push(
                    ChunkView::Sync(remaining@),
                ));
            },
            None => {
                this.chunks.push_back(StreamChunk::Sync(remaining));
                assert(chunks_view(this.chunks@) =~= chunks_view(before).push(
                    ChunkView::Sync(remaining@),
                ));
            },
        }
        this
    }

    /// Lets a function write to the written text directly.
    pub fn with_buf<Fun: FnOnce(&mut String)>(&mut self, fun: Fun)
        requires
            forall|b: &mut String| #[trigger] call_requires(fun, (b,)),
        ensures
            final(self)@.chunks == old(self)@.chunks,
            final(self)@.pending == old(self)@.pending,
            exists|b: &mut String|
                (*b)@ == old(self)@.sync_buf && (*final(b))@ == final(self)@.sync_buf
                    && #[trigger] call_ensures(fun, (b,), ()),
    {
        fun(&mut self.sync_buf)
    }

    /// Puts back a future that is not ready yet, to be polled again.
    pub fn set_pending(&mut self, fut: F)
        ensures
            final(self)@ == (StreamView { pending: Some(fut), ..old(self)@ }),
    {
        self.pending = Some(fut);
    }

    /// Puts the chunks a future gave in front of those still waiting.
    pub fn resolved(&mut self, chunks: VecDeque<StreamChunk<F>>)
        ensures
            final(self)@ == (StreamView {
                chunks: chunks_view(chunks@) + old(self)@.chunks,
                ..old(self)@
            }),
    {
        let mut chunks = chunks;
        let ghost front = chunks@;
        let ghost back = self.chunks@;
        chunks.append(&mut self.chunks);
        self.chunks = chunks;
        assert(chunks_view(self.chunks@) =~= chunks_view(front) + chunks_view(back));
    }

    /// Decides the next step of reading the stream.
    pub fn poll_step(&mut self) -> (r: PollStep<F>)
        ensures
            (r@, final(self)@) == poll_outcome(old(self)@),
    {
        if let Some(p) = self.pending.take() {
            return PollStep::Poll(p);
        }
        let ghost s0 = self@;
        match self.chunks.pop_front() {
            None => {
                let sync = self.take_sync();
                if sync.as_str().is_empty() {
                    PollStep::Ready(None)
                } else {
                    PollStep::Ready(Some(sync))
                }
            },
            Some(StreamChunk::Async { chunks, should_block }) => {
                assert(chunks_view(self.chunks@) =~= s0.chunks.drop_first());
                PollStep::Poll(chunks)
            },
            Some(StreamChunk::Sync(value)) => {
                let mut value = value;
                let ghost rest = s0.chunks.drop_first();
                assert(chunks_view(self.chunks@) =~= rest);
                let ghost first = value@;
                let ghost mut k: int = 0;
                proof {
                    lemma_run_bounds(rest);
                    assert(rest.take(0) =~= Seq::<ChunkView<F>>::empty());
                    assert(value@ =~= first + joined_text(rest.take(0)));
                }
                loop
                    invariant
                        0 <= k <= sync_run(rest),
                        sync_run(rest) <= rest.len(),
                        chunks_view(self.chunks@) == rest.skip(k),
                        value@ == first + joined_text(rest.take(k)),
                        self@.sync_buf == s0.sync_buf,
                        self@.pending is None,
                    ensures
                        k == sync_run(rest),
                        chunks_view(self.chunks@) == rest.skip(k),
                        value@ == first + joined_text(rest.take(k)),
                        self@.sync_buf == s0.sync_buf,
                        self@.pending is None,
                    decreases rest.len() - k,
                {
                    let ghost before = self.chunks@;
                    assert(chunks_view(before) == rest.skip(k));
                    match self.chunks.pop_front() {
                        None => {
                            assert(rest.skip(k).len() == 0);
                            break;
                        },
                        Some(StreamChunk::Async { chunks, should_block }) => {
                            self.chunks.push_front(StreamChunk::Async { chunks, should_block });
                            assert(self.chunks@ =~= before);
                            proof {
                                lemma_run_skip(rest, k);
                                assert(rest.skip(k)[0] is Async);
                            }
                            break;
                        },
                        Some(StreamChunk::Sync(next)) => {
                            proof {
                                lemma_run_skip(rest, k);
                                assert(rest.skip(k)[0] is Sync);
                                assert(rest[k] == rest.skip(k)[0]);
                                assert(rest.take(k + 1).drop_last() =~= rest.take(k));
                            }
                            value.append(next.as_str());
                            proof {
                                assert(chunks_view(self.chunks@) =~= chunks_view(before).drop_first());
                                assert(rest.skip(k).drop_first() =~= rest.skip(k + 1));
                                k = k + 1;
                            }
                        },
                    }
                }
                let sync = self.take_sync();
                value.append(sync.as_str());
                PollStep::Ready(Some(value))
            },
        }
    }
}

} // verus!
