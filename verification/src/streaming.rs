//! The streaming transfer: one GET whose body arrives chunk by chunk.
//!
//! The transfer is a machine that the caller drives. The caller sends the
//! request, then reports each thing that happens as a [`StreamEvent`];
//! [`download_async`] answers with the next state and with what to do next.
//! Chunks are kept in arrival order and handed back in one piece for writing
//! once the stream has ended.

use crate::error::FetchError;
use crate::foreign::bytes_content;
use crate::progress::{lemma_progress_monotone, progress_after, total_of, ProgressState};
use bytes::Bytes;
use vstd::prelude::*;

verus! {

/// Where a streaming transfer stands.
#[derive(Debug, PartialEq, Eq)]
pub enum StreamingFetch {
    /// The GET has been sent; the response head is awaited.
    Requesting,
    /// The response announced `total_bytes`; the destination file is being
    /// created.
    Opening { total_bytes: u64 },
    /// The body is arriving; `chunks` holds what has come, in order.
    Streaming { progress: ProgressState, chunks: Vec<Bytes> },
    /// The stream has ended; the chunks are being written.
    Writing,
    /// Everything was written.
    Done,
    /// The transfer stopped with an error.
    Failed(FetchError),
}

/// A streaming transfer as a mathematical value.
pub enum StreamingModel {
    Requesting,
    Opening { total_bytes: u64 },
    Streaming { progress: ProgressState, chunks: Seq<Bytes> },
    Writing,
    Done,
    Failed(FetchError),
}

/// What the caller reports to a streaming transfer.
#[derive(Debug)]
pub enum StreamEvent {
    /// The request could not be sent, or no response came.
    RequestFailed,
    /// The response head arrived, with or without a content length.
    Response { content_length: Option<u64> },
    /// The destination file was created, empty.
    FileCreated,
    /// The destination file could not be created.
    FileCreateFailed,
    /// The next chunk of the body arrived.
    Chunk(Bytes),
    /// The stream broke.
    StreamFailed,
    /// The stream ended in good order.
    StreamEnded,
    /// The chunks were written and flushed.
    Written,
    /// Writing failed.
    WriteFailed,
}

/// What a streaming transfer asks of the caller.
#[derive(Debug, PartialEq, Eq)]
pub enum StreamAction {
    /// Create the destination file, truncating what was there.
    CreateFile,
    /// Show `progress` and wait for the next chunk.
    Await { progress: ProgressState },
    /// Write `chunks` to the destination in this order, then flush.
    Write { chunks: Vec<Bytes> },
    /// Report success.
    Complete,
    /// Report the failure and go on with the next item.
    Fail(FetchError),
}

/// A request of a streaming transfer as a mathematical value.
pub enum StreamActionModel {
    CreateFile,
    Await { progress: ProgressState },
    Write { chunks: Seq<Bytes> },
    Complete,
    Fail(FetchError),
}

impl View for StreamingFetch {
    type V = StreamingModel;

    open spec fn view(&self) -> StreamingModel {
        match *self {
            StreamingFetch::Requesting => StreamingModel::Requesting,
            StreamingFetch::Opening { total_bytes } => StreamingModel::Opening { total_bytes },
            StreamingFetch::Streaming { progress, chunks } => StreamingModel::Streaming {
                progress,
                chunks: chunks@,
            },
            StreamingFetch::Writing => StreamingModel::Writing,
            StreamingFetch::Done => StreamingModel::Done,
            StreamingFetch::Failed(error) => StreamingModel::Failed(error),
        }
    }
}

impl View for StreamAction {
    type V = StreamActionModel;

    open spec fn view(&self) -> StreamActionModel {
        match *self {
            StreamAction::CreateFile => StreamActionModel::CreateFile,
            StreamAction::Await { progress } => StreamActionModel::Await { progress },
            StreamAction::Write { chunks } => StreamActionModel::Write { chunks: chunks@ },
            StreamAction::Complete => StreamActionModel::Complete,
            StreamAction::Fail(error) => StreamActionModel::Fail(error),
        }
    }
}

/// The state and the request that follow a failure.
pub open spec fn stream_failure(error: FetchError) -> Option<(StreamingModel, StreamActionModel)> {
    Some((StreamingModel::Failed(error), StreamActionModel::Fail(error)))
}

/// The transition of a streaming transfer: the state and the request that
/// follow `event` in `state`, or `None` where `state` does not await `event`.
pub open spec fn stream_step(state: StreamingModel, event: StreamEvent) -> Option<
    (StreamingModel, StreamActionModel),
> {
    match state {
        StreamingModel::Requesting => match event {
            StreamEvent::RequestFailed => stream_failure(FetchError::RequestFailed),
            StreamEvent::Response { content_length: None } => stream_failure(
                FetchError::MissingLength,
            ),
            StreamEvent::Response { content_length: Some(total_bytes) } => Some(
                (StreamingModel::Opening { total_bytes }, StreamActionModel::CreateFile),
            ),
            _ => None,
        },
        StreamingModel::Opening { total_bytes } => match event {
            StreamEvent::FileCreateFailed => stream_failure(FetchError::FileCreateFailed),
            StreamEvent::FileCreated => Some(
                (
                    StreamingModel::opened(total_bytes),
                    StreamActionModel::Await { progress: ProgressState::begun(total_bytes) },
                ),
            ),
            _ => None,
        },
        StreamingModel::Streaming { progress, chunks } => match event {
            StreamEvent::Chunk(chunk) => Some(
                (
                    StreamingModel::Streaming {
                        progress: progress.advanced(bytes_content(chunk).len()),
                        chunks: chunks.push(chunk),
                    },
                    StreamActionModel::Await {
                        progress: progress.advanced(bytes_content(chunk).len()),
                    },
                ),
            ),
            StreamEvent::StreamFailed => stream_failure(FetchError::StreamError),
            StreamEvent::StreamEnded => Some(
                (StreamingModel::Writing, StreamActionModel::Write { chunks }),
            ),
            _ => None,
        },
        StreamingModel::Writing => match event {
            StreamEvent::WriteFailed => stream_failure(FetchError::WriteFailed),
            StreamEvent::Written => Some((StreamingModel::Done, StreamActionModel::Complete)),
            _ => None,
        },
        StreamingModel::Done => None,
        StreamingModel::Failed(_) => None,
    }
}

/// The lengths of the chunks in `chunks`, in order.
pub open spec fn chunk_lengths(chunks: Seq<Bytes>) -> Seq<nat> {
    Seq::new(chunks.len(), |i: int| bytes_content(chunks[i]).len())
}

/// The bytes that writing `chunks` in order puts into the file.
pub open spec fn body(chunks: Seq<Bytes>) -> Seq<u8>
    decreases chunks.len(),
{
    if chunks.len() == 0 {
        Seq::empty()
    } else {
        body(chunks.drop_last()) + bytes_content(chunks.last())
    }
}

/// The state after the chunks of `chunks` have been reported one by one.
pub open spec fn after_chunks(state: StreamingModel, chunks: Seq<Bytes>) -> StreamingModel
    decreases chunks.len(),
{
    if chunks.len() == 0 {
        state
    } else {
        let before = after_chunks(state, chunks.drop_last());
        match stream_step(before, StreamEvent::Chunk(chunks.last())) {
            Some((next, _)) => next,
            None => before,
        }
    }
}

impl StreamingModel {
    /// The state of a transfer of `total_bytes` whose file has just been
    /// created: the body is awaited and nothing of it has arrived.
    pub open spec fn opened(total_bytes: u64) -> StreamingModel {
        StreamingModel::Streaming {
            progress: ProgressState::begun(total_bytes),
            chunks: Seq::empty(),
        }
    }

    /// The state of a transfer of `total_bytes` after the chunks of `chunks`
    /// have arrived.
    pub open spec fn fed(total_bytes: u64, chunks: Seq<Bytes>) -> StreamingModel {
        StreamingModel::Streaming {
            progress: progress_after(ProgressState::begun(total_bytes), chunk_lengths(chunks)),
            chunks,
        }
    }

    /// While the body arrives, the progress shown is the one that the chunks
    /// received so far add up to.
    pub open spec fn wf(self) -> bool {
        self matches StreamingModel::Streaming { progress, chunks } ==> progress == progress_after(
            ProgressState::begun(progress.total_bytes),
            chunk_lengths(chunks),
        )
    }
}

impl StreamingFetch {
    /// The state of a transfer whose GET has just been sent.
    pub fn start() -> (state: StreamingFetch)
        ensures
            state@ == StreamingModel::Requesting,
            state@.wf(),
    {
        StreamingFetch::Requesting
    }

    /// True once the transfer has ended, in success or in failure.
    pub fn is_finished(&self) -> (r: bool)
        ensures
            r == (self@ is Done || self@ is Failed),
    {
        match self {
            StreamingFetch::Done => true,
            StreamingFetch::Failed(_) => true,
            _ => false,
        }
    }
}

/// Advances a streaming transfer by one event.
///
/// Returns the next state and the request to carry out. An event that the
/// state does not await changes nothing and yields no request.
pub fn download_async(state: StreamingFetch, event: StreamEvent) -> (r: (
    StreamingFetch,
    Option<StreamAction>,
))
    ensures
        stream_step(state@, event) matches Some(planned) ==> r.0@ == planned.0 && r.1.is_some()
            && r.1.unwrap()@ == planned.1,
        stream_step(state@, event) is None ==> r.0@ == state@ && r.1.is_none(),
{
    match state {
        StreamingFetch::Requesting => match event {
            StreamEvent::RequestFailed => stream_fail(FetchError::RequestFailed),
            StreamEvent::Response { content_length } => match content_length {
                None => stream_fail(FetchError::MissingLength),
                Some(total_bytes) => (
                    StreamingFetch::Opening { total_bytes },
                    Some(StreamAction::CreateFile),
                ),
            },
            _ => (StreamingFetch::Requesting, None),
        },
        StreamingFetch::Opening { total_bytes } => match event {
            StreamEvent::FileCreateFailed => stream_fail(FetchError::FileCreateFailed),
            StreamEvent::FileCreated => {
                let progress = ProgressState::new(total_bytes);
                (
                    StreamingFetch::Streaming { progress, chunks: Vec::new() },
                    Some(StreamAction::Await { progress }),
                )
            },
            _ => (StreamingFetch::Opening { total_bytes }, None),
        },
        StreamingFetch::Streaming { progress, chunks } => match event {
            StreamEvent::Chunk(chunk) => {
                let progress = progress.advance(chunk.len());
                let mut chunks = chunks;
                chunks.push(chunk);
                (
                    StreamingFetch::Streaming { progress, chunks },
                    Some(StreamAction::Await { progress }),
                )
            },
            StreamEvent::StreamFailed => stream_fail(FetchError::StreamError),
            StreamEvent::StreamEnded => (
                StreamingFetch::Writing,
                Some(StreamAction::Write { chunks }),
            ),
            _ => (StreamingFetch::Streaming { progress, chunks }, None),
        },
        StreamingFetch::Writing => match event {
            StreamEvent::WriteFailed => stream_fail(FetchError::WriteFailed),
            StreamEvent::Written => (StreamingFetch::Done, Some(StreamAction::Complete)),
            _ => (StreamingFetch::Writing, None),
        },
        StreamingFetch::Done => (StreamingFetch::Done, None),
        StreamingFetch::Failed(error) => (StreamingFetch::Failed(error), None),
    }
}

fn stream_fail(error: FetchError) -> (r: (StreamingFetch, Option<StreamAction>))
    ensures
        r.0@ == StreamingModel::Failed(error),
        r.1.is_some(),
        r.1.unwrap()@ == StreamActionModel::Fail(error),
{
    (StreamingFetch::Failed(error), Some(StreamAction::Fail(error)))
}

/// Every transition keeps the progress in step with the chunks received.
pub proof fn lemma_stream_step_keeps_wf(state: StreamingModel, event: StreamEvent)
    requires
        state.wf(),
        stream_step(state, event) is Some,
    ensures
        stream_step(state, event).unwrap().0.wf(),
{
    match state {
        StreamingModel::Streaming { progress, chunks } => {
            if let StreamEvent::Chunk(chunk) = event {
                let grown = chunks.push(chunk);
                assert(chunk_lengths(grown).drop_last() =~= chunk_lengths(chunks));
                assert(chunk_lengths(grown).last() == bytes_content(chunk).len());
            }
        },
        StreamingModel::Opening { total_bytes } => {
            assert(chunk_lengths(Seq::<Bytes>::empty()).len() == 0);
        },
        _ => {},
    }
}

/// While the body arrives, each chunk leaves the announced total as it was
/// and the count of downloaded bytes at or above where it stood, and never
/// above the total.
pub proof fn lemma_stream_progress_never_falls(state: StreamingModel, chunk: Bytes)
    requires
        state.wf(),
        state is Streaming,
    ensures
        stream_step(state, StreamEvent::Chunk(chunk)) is Some,
        stream_step(state, StreamEvent::Chunk(chunk)).unwrap().0 is Streaming,
        stream_step(state, StreamEvent::Chunk(chunk)).unwrap().0->progress.total_bytes
            == state->progress.total_bytes,
        state->progress.downloaded_bytes <= stream_step(
            state,
            StreamEvent::Chunk(chunk),
        ).unwrap().0->progress.downloaded_bytes <= state->progress.total_bytes,
{
    lemma_progress_monotone(state->progress.total_bytes, chunk_lengths(state->chunks));
}

/// Writing chunks in order puts as many bytes into the file as the chunks
/// hold together.
pub proof fn lemma_body_len(chunks: Seq<Bytes>)
    ensures
        body(chunks).len() == total_of(chunk_lengths(chunks)),
    decreases chunks.len(),
{
    if chunks.len() > 0 {
        lemma_body_len(chunks.drop_last());
        assert(chunk_lengths(chunks).drop_last() =~= chunk_lengths(chunks.drop_last()));
    }
}

/// A transfer writes what arrived: once the file is open, any run of chunks
/// followed by the end of the stream asks for exactly those chunks to be
/// written, in order of arrival. Where they hold as many bytes as the server
/// announced, the file is as long as announced and the progress is complete.
pub proof fn lemma_fetch_writes_what_arrived(total_bytes: u64, chunks: Seq<Bytes>)
    ensures
        after_chunks(StreamingModel::opened(total_bytes), chunks) == StreamingModel::fed(
            total_bytes,
            chunks,
        ),
        stream_step(StreamingModel::fed(total_bytes, chunks), StreamEvent::StreamEnded) == Some(
            (StreamingModel::Writing, StreamActionModel::Write { chunks }),
        ),
        body(chunks).len() == total_of(chunk_lengths(chunks)),
        total_of(chunk_lengths(chunks)) == total_bytes ==> body(chunks).len() == total_bytes
            && StreamingModel::fed(total_bytes, chunks)->progress.downloaded_bytes == total_bytes,
    decreases chunks.len(),
{
    lemma_body_len(chunks);
    lemma_progress_monotone(total_bytes, chunk_lengths(chunks));
    if chunks.len() == 0 {
        assert(chunks =~= Seq::<Bytes>::empty());
        assert(chunk_lengths(chunks) =~= Seq::<nat>::empty());
    } else {
        let front = chunks.drop_last();
        lemma_fetch_writes_what_arrived(total_bytes, front);
        assert(chunk_lengths(chunks).drop_last() =~= chunk_lengths(front));
        assert(chunk_lengths(chunks).last() == bytes_content(chunks.last()).len());
        assert(front.push(chunks.last()) =~= chunks);
    }
}

/// A response without a content length ends the transfer with
/// `MissingLength` before anything was asked of the disk: the only state
/// that awaits a response is the first one, which no request to create a
/// file precedes, and the answer is the failure alone.
pub proof fn lemma_stream_missing_length(state: StreamingModel)
    requires
        stream_step(state, StreamEvent::Response { content_length: None }) is Some,
    ensures
        state is Requesting,
        stream_step(state, StreamEvent::Response { content_length: None }) == stream_failure(
            FetchError::MissingLength,
        ),
{
}

} // verus!
