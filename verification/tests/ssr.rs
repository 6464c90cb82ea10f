use std::collections::VecDeque;
use tachys::ssr::{PollStep, StreamBuilder, StreamChunk};

fn ready(step: PollStep<u32>) -> Option<String> {
    match step {
        PollStep::Ready(s) => s,
        PollStep::Poll(_) => panic!("expected text"),
    }
}

fn poll(step: PollStep<u32>) -> u32 {
    match step {
        PollStep::Poll(f) => f,
        PollStep::Ready(_) => panic!("expected a future to poll"),
    }
}

#[test]
fn stream_of_sync_content_ready_immediately() {
    let mut stream: StreamBuilder<u32> = StreamBuilder::new();
    stream.push_sync("<main><p>Hello, <em>beautiful</em> world!</p></main>");
    assert_eq!(
        ready(stream.poll_step()),
        Some("<main><p>Hello, <em>beautiful</em> world!</p></main>".to_string())
    );
    assert_eq!(ready(stream.poll_step()), None);
}

#[test]
fn text_before_a_future_is_sent_first() {
    let mut stream: StreamBuilder<u32> = StreamBuilder::new();
    stream.push_sync("<p>Before Suspense");
    stream.push_async(false, 7);
    stream.push_sync("</p>");
    let mut stream = stream.finish();
    assert_eq!(ready(stream.poll_step()), Some("<p>Before Suspense".to_string()));
    let fut = poll(stream.poll_step());
    assert_eq!(fut, 7);
    // not ready yet: put back, and the next read asks for it again
    stream.set_pending(fut);
    assert_eq!(poll(stream.poll_step()), 7);
    // it resolves into more text, sent together with what follows
    let mut chunks = VecDeque::new();
    chunks.push_back(StreamChunk::Sync("<!>Suspended".to_string()));
    stream.resolved(chunks);
    assert_eq!(ready(stream.poll_step()), Some("<!>Suspended</p>".to_string()));
    assert_eq!(ready(stream.poll_step()), None);
}

#[test]
fn nested_futures_are_polled_in_order() {
    let mut stream: StreamBuilder<u32> = StreamBuilder::new();
    stream.push_sync("<main>Before Suspense");
    stream.push_async(false, 1);
    stream.push_sync("</main>");
    let mut stream = stream.finish();
    assert_eq!(ready(stream.poll_step()), Some("<main>Before Suspense".to_string()));
    assert_eq!(poll(stream.poll_step()), 1);
    let mut inner = VecDeque::new();
    inner.push_back(StreamChunk::Sync("<p>Before inner Suspense".to_string()));
    inner.push_back(StreamChunk::Async { chunks: 2, should_block: false });
    inner.push_back(StreamChunk::Sync("</p>".to_string()));
    stream.resolved(inner);
    assert_eq!(ready(stream.poll_step()), Some("<p>Before inner Suspense".to_string()));
    assert_eq!(poll(stream.poll_step()), 2);
    let mut last = VecDeque::new();
    last.push_back(StreamChunk::Sync("<!>Inner Suspense".to_string()));
    stream.resolved(last);
    assert_eq!(ready(stream.poll_step()), Some("<!>Inner Suspense</p></main>".to_string()));
    assert_eq!(ready(stream.poll_step()), None);
}

#[test]
fn take_chunks_closes_the_written_text() {
    let mut stream: StreamBuilder<u32> = StreamBuilder::new();
    stream.push_sync("a");
    stream.push_async(true, 3);
    stream.push_sync("b");
    let chunks = stream.take_chunks();
    assert_eq!(chunks.len(), 3);
    assert!(matches!(&chunks[0], StreamChunk::Sync(s) if s == "a"));
    assert!(matches!(&chunks[1], StreamChunk::Async { chunks: 3, should_block: true }));
    assert!(matches!(&chunks[2], StreamChunk::Sync(s) if s == "b"));
    assert_eq!(ready(stream.poll_step()), None);
}

#[test]
fn finish_appends_to_last_text_chunk() {
    let mut stream: StreamBuilder<u32> = StreamBuilder::new();
    stream.push_sync("a");
    let mut chunks = VecDeque::new();
    chunks.push_back(StreamChunk::Sync("x".to_string()));
    stream.resolved(chunks);
    stream.push_sync("b");
    let mut stream = stream.finish();
    let chunks = stream.take_chunks();
    assert_eq!(chunks.len(), 1);
    assert!(matches!(&chunks[0], StreamChunk::Sync(s) if s == "xab"));
}

#[test]
fn empty_stream_ends_at_once() {
    let mut stream: StreamBuilder<u32> = StreamBuilder::new();
    assert_eq!(ready(stream.poll_step()), None);
}

#[test]
fn with_buf_writes_into_the_text() {
    let mut stream: StreamBuilder<u32> = StreamBuilder::new();
    stream.push_sync("a");
    stream.with_buf(|buf| buf.push_str("bc"));
    assert_eq!(ready(stream.poll_step()), Some("abc".to_string()));
}
