use bytes::Bytes;
use playlist_downloader::error::FetchError;
use playlist_downloader::progress::ProgressState;
use playlist_downloader::streaming::{download_async, StreamAction, StreamEvent, StreamingFetch};

fn opened(total_bytes: u64) -> StreamingFetch {
    let (state, action) = download_async(
        StreamingFetch::start(),
        StreamEvent::Response { content_length: Some(total_bytes) },
    );
    assert_eq!(action, Some(StreamAction::CreateFile));
    let (state, _) = download_async(state, StreamEvent::FileCreated);
    state
}

#[test]
fn a_transfer_starts_by_awaiting_the_response() {
    assert_eq!(StreamingFetch::start(), StreamingFetch::Requesting);
    assert!(!StreamingFetch::start().is_finished());
}

#[test]
fn a_response_with_length_asks_for_the_file() {
    let (state, action) = download_async(
        StreamingFetch::start(),
        StreamEvent::Response { content_length: Some(11) },
    );
    assert_eq!(state, StreamingFetch::Opening { total_bytes: 11 });
    assert_eq!(action, Some(StreamAction::CreateFile));
}

#[test]
fn missing_length_fails_before_any_file_is_asked_for() {
    let (state, action) = download_async(
        StreamingFetch::start(),
        StreamEvent::Response { content_length: None },
    );
    assert_eq!(state, StreamingFetch::Failed(FetchError::MissingLength));
    assert_eq!(action, Some(StreamAction::Fail(FetchError::MissingLength)));
    assert!(state.is_finished());
}

#[test]
fn a_request_that_fails_ends_the_transfer() {
    let (state, action) = download_async(StreamingFetch::start(), StreamEvent::RequestFailed);
    assert_eq!(state, StreamingFetch::Failed(FetchError::RequestFailed));
    assert_eq!(action, Some(StreamAction::Fail(FetchError::RequestFailed)));
}

#[test]
fn a_file_that_cannot_be_created_ends_the_transfer() {
    let (state, _) = download_async(
        StreamingFetch::start(),
        StreamEvent::Response { content_length: Some(11) },
    );
    let (state, action) = download_async(state, StreamEvent::FileCreateFailed);
    assert_eq!(state, StreamingFetch::Failed(FetchError::FileCreateFailed));
    assert_eq!(action, Some(StreamAction::Fail(FetchError::FileCreateFailed)));
}

#[test]
fn the_created_file_starts_the_stream_at_zero() {
    let (state, _) = download_async(
        StreamingFetch::start(),
        StreamEvent::Response { content_length: Some(11) },
    );
    let (state, action) = download_async(state, StreamEvent::FileCreated);
    let progress = ProgressState { total_bytes: 11, downloaded_bytes: 0 };
    assert_eq!(state, StreamingFetch::Streaming { progress, chunks: vec![] });
    assert_eq!(action, Some(StreamAction::Await { progress }));
}

#[test]
fn each_chunk_is_kept_and_counted_by_its_length() {
    let state = opened(11);
    let (state, action) = download_async(state, StreamEvent::Chunk(Bytes::from_static(b"hello ")));
    let progress = ProgressState { total_bytes: 11, downloaded_bytes: 6 };
    assert_eq!(action, Some(StreamAction::Await { progress }));
    assert_eq!(
        state,
        StreamingFetch::Streaming { progress, chunks: vec![Bytes::from_static(b"hello ")] }
    );
    let (state, action) = download_async(state, StreamEvent::Chunk(Bytes::from_static(b"world")));
    let progress = ProgressState { total_bytes: 11, downloaded_bytes: 11 };
    assert_eq!(action, Some(StreamAction::Await { progress }));
    assert_eq!(
        state,
        StreamingFetch::Streaming {
            progress,
            chunks: vec![Bytes::from_static(b"hello "), Bytes::from_static(b"world")],
        }
    );
}

#[test]
fn a_complete_fetch_writes_as_many_bytes_as_were_announced() {
    let mut state = opened(11);
    for chunk in [&b"he"[..], b"llo", b" ", b"", b"world"] {
        let (next, _) = download_async(state, StreamEvent::Chunk(Bytes::copy_from_slice(chunk)));
        state = next;
    }
    let (state, action) = download_async(state, StreamEvent::StreamEnded);
    assert_eq!(state, StreamingFetch::Writing);
    let chunks = match action {
        Some(StreamAction::Write { chunks }) => chunks,
        other => panic!("unexpected request {:?}", other),
    };
    let written: Vec<u8> = chunks.iter().flat_map(|chunk| chunk.to_vec()).collect();
    assert_eq!(written, b"hello world");
    assert_eq!(written.len(), 11);
    let (state, action) = download_async(state, StreamEvent::Written);
    assert_eq!(state, StreamingFetch::Done);
    assert_eq!(action, Some(StreamAction::Complete));
    assert!(state.is_finished());
}

#[test]
fn a_body_longer_than_announced_is_written_whole_but_counted_to_the_total() {
    let state = opened(4);
    let (state, action) = download_async(state, StreamEvent::Chunk(Bytes::from_static(b"abcdefg")));
    assert_eq!(
        action,
        Some(StreamAction::Await { progress: ProgressState { total_bytes: 4, downloaded_bytes: 4 } })
    );
    let (_, action) = download_async(state, StreamEvent::StreamEnded);
    assert_eq!(action, Some(StreamAction::Write { chunks: vec![Bytes::from_static(b"abcdefg")] }));
}

#[test]
fn a_body_shorter_than_announced_is_written_as_it_came() {
    let state = opened(10);
    let (state, _) = download_async(state, StreamEvent::Chunk(Bytes::from_static(b"abcdefg")));
    let (_, action) = download_async(state, StreamEvent::StreamEnded);
    assert_eq!(action, Some(StreamAction::Write { chunks: vec![Bytes::from_static(b"abcdefg")] }));
}

#[test]
fn an_empty_body_is_written_as_nothing() {
    let (state, action) = download_async(opened(0), StreamEvent::StreamEnded);
    assert_eq!(state, StreamingFetch::Writing);
    assert_eq!(action, Some(StreamAction::Write { chunks: vec![] }));
}

#[test]
fn a_broken_stream_ends_the_transfer() {
    let (state, _) = download_async(opened(11), StreamEvent::Chunk(Bytes::from_static(b"hel")));
    let (state, action) = download_async(state, StreamEvent::StreamFailed);
    assert_eq!(state, StreamingFetch::Failed(FetchError::StreamError));
    assert_eq!(action, Some(StreamAction::Fail(FetchError::StreamError)));
}

#[test]
fn a_failed_write_ends_the_transfer() {
    let (state, _) = download_async(opened(3), StreamEvent::StreamEnded);
    let (state, action) = download_async(state, StreamEvent::WriteFailed);
    assert_eq!(state, StreamingFetch::Failed(FetchError::WriteFailed));
    assert_eq!(action, Some(StreamAction::Fail(FetchError::WriteFailed)));
}

#[test]
fn an_event_that_is_not_awaited_changes_nothing() {
    let (state, action) = download_async(StreamingFetch::start(), StreamEvent::FileCreated);
    assert_eq!(state, StreamingFetch::Requesting);
    assert_eq!(action, None);
    let (state, action) = download_async(opened(5), StreamEvent::Written);
    assert_eq!(
        state,
        StreamingFetch::Streaming {
            progress: ProgressState { total_bytes: 5, downloaded_bytes: 0 },
            chunks: vec![],
        }
    );
    assert_eq!(action, None);
    let (state, action) = download_async(
        StreamingFetch::Opening { total_bytes: 5 },
        StreamEvent::Chunk(Bytes::from_static(b"x")),
    );
    assert_eq!(state, StreamingFetch::Opening { total_bytes: 5 });
    assert_eq!(action, None);
    let (state, action) = download_async(StreamingFetch::Writing, StreamEvent::StreamEnded);
    assert_eq!(state, StreamingFetch::Writing);
    assert_eq!(action, None);
}

#[test]
fn a_finished_transfer_takes_no_more_events() {
    let (state, action) = download_async(StreamingFetch::Done, StreamEvent::Written);
    assert_eq!(state, StreamingFetch::Done);
    assert_eq!(action, None);
    let failed = StreamingFetch::Failed(FetchError::StreamError);
    let (state, action) = download_async(failed, StreamEvent::Chunk(Bytes::from_static(b"x")));
    assert_eq!(state, StreamingFetch::Failed(FetchError::StreamError));
    assert_eq!(action, None);
}
