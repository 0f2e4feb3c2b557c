//! The ranged transfer: a HEAD for the length, then one GET per window.
//!
//! Like the streaming transfer it is a machine that the caller drives. It is
//! kept as a strategy of its own, beside the streaming one. After the last
//! window the transfer is complete: nothing of the HEAD response is written
//! to the file.

use crate::error::FetchError;
use crate::foreign::header_value_bytes;
use crate::range::{
    ascii_bytes, lemma_windows_contiguous, lemma_windows_walk, range_text, window_at, windows,
    RangeCursor,
};
use reqwest::header::HeaderValue;
use vstd::prelude::*;

verus! {

/// Where a ranged transfer stands.
#[derive(Clone, Copy, Debug, PartialEq, Eq, Structural)]
pub enum RangedPhase {
    /// The HEAD has been sent; its response is awaited.
    Probing,
    /// The resource is `total_length` bytes long; the destination file is
    /// being created.
    Opening { total_length: u64 },
    /// The GET for `window` has been sent; its response is awaited.
    Requesting { window: RangeCursor },
    /// The body of the response for `window` is being appended to the file.
    Copying { window: RangeCursor },
    /// Every window was fetched.
    Done,
    /// The transfer stopped with an error.
    Failed(FetchError),
}

/// A ranged transfer: its window size and where it stands.
#[derive(Clone, Copy, Debug, PartialEq, Eq, Structural)]
pub struct RangedFetch {
    pub chunk_size: u64,
    pub phase: RangedPhase,
}

/// What the caller reports to a ranged transfer.
#[derive(Clone, Copy, Debug)]
pub enum RangedEvent {
    /// A request could not be sent, or no response came.
    RequestFailed,
    /// The response to the HEAD arrived, with or without a content length.
    Head { content_length: Option<u64> },
    /// The destination file was created, empty.
    FileCreated,
    /// The destination file could not be created.
    FileCreateFailed,
    /// The response to a window's GET arrived with this status code.
    Status(u16),
    /// The body was appended to the file.
    Copied,
    /// Appending the body failed.
    CopyFailed,
}

/// What a ranged transfer asks of the caller.
#[derive(Debug, PartialEq, Eq)]
pub enum RangedAction {
    /// Create the destination file, truncating what was there.
    CreateFile,
    /// Send a GET for `window`, with `header` as its `Range` header.
    SendRange { window: RangeCursor, header: HeaderValue },
    /// Append the body of the response to the file.
    CopyBody,
    /// Report success.
    Complete,
    /// Report the failure and go on with the next item.
    Fail(FetchError),
}

/// A request of a ranged transfer as a mathematical value: the header is
/// given by the bytes it holds.
pub enum RangedActionModel {
    CreateFile,
    SendRange { window: RangeCursor, header: Seq<u8> },
    CopyBody,
    Complete,
    Fail(FetchError),
}

impl View for RangedAction {
    type V = RangedActionModel;

    open spec fn view(&self) -> RangedActionModel {
        match *self {
            RangedAction::CreateFile => RangedActionModel::CreateFile,
            RangedAction::SendRange { window, header } => RangedActionModel::SendRange {
                window,
                header: header_value_bytes(header),
            },
            RangedAction::CopyBody => RangedActionModel::CopyBody,
            RangedAction::Complete => RangedActionModel::Complete,
            RangedAction::Fail(error) => RangedActionModel::Fail(error),
        }
    }
}

/// The statuses that answer a ranged GET in good order: 200 and 206.
pub open spec fn status_accepted(code: u16) -> bool {
    code == 200 || code == 206
}

/// The phase and the request that follow a failure.
pub open spec fn ranged_failure(error: FetchError) -> Option<(RangedPhase, RangedActionModel)> {
    Some((RangedPhase::Failed(error), RangedActionModel::Fail(error)))
}

/// The phase and the request that lead on to `window`, or that end the
/// transfer where no window is left.
pub open spec fn ranged_proceed(window: Option<RangeCursor>) -> Option<
    (RangedPhase, RangedActionModel),
> {
    match window {
        Some(w) => Some(
            (
                RangedPhase::Requesting { window: w },
                RangedActionModel::SendRange {
                    window: w,
                    header: ascii_bytes(range_text(w.window_start as nat, w.window_end as nat)),
                },
            ),
        ),
        None => Some((RangedPhase::Done, RangedActionModel::Complete)),
    }
}

/// The transition of a ranged transfer with windows of `chunk_size` bytes:
/// the phase and the request that follow `event` in `phase`, or `None` where
/// `phase` does not await `event`.
pub open spec fn ranged_step(chunk_size: u64, phase: RangedPhase, event: RangedEvent) -> Option<
    (RangedPhase, RangedActionModel),
> {
    match phase {
        RangedPhase::Probing => match event {
            RangedEvent::RequestFailed => ranged_failure(FetchError::RequestFailed),
            RangedEvent::Head { content_length: None } => ranged_failure(
                FetchError::MissingLength,
            ),
            RangedEvent::Head { content_length: Some(total_length) } => Some(
                (RangedPhase::Opening { total_length }, RangedActionModel::CreateFile),
            ),
            _ => None,
        },
        RangedPhase::Opening { total_length } => match event {
            RangedEvent::FileCreateFailed => ranged_failure(FetchError::FileCreateFailed),
            RangedEvent::FileCreated => ranged_proceed(window_at(total_length, chunk_size, 0)),
            _ => None,
        },
        RangedPhase::Requesting { window } => match event {
            RangedEvent::RequestFailed => ranged_failure(FetchError::RequestFailed),
            RangedEvent::Status(code) => if status_accepted(code) {
                Some((RangedPhase::Copying { window }, RangedActionModel::CopyBody))
            } else {
                ranged_failure(FetchError::UnexpectedStatus(code))
            },
            _ => None,
        },
        RangedPhase::Copying { window } => match event {
            RangedEvent::CopyFailed => ranged_failure(FetchError::WriteFailed),
            RangedEvent::Copied => ranged_proceed(
                window_at(window.total_length, chunk_size, window.window_end + 1),
            ),
            _ => None,
        },
        RangedPhase::Done => None,
        RangedPhase::Failed(_) => None,
    }
}

impl RangedFetch {
    /// The state of a transfer whose HEAD has just been sent, with windows
    /// of `chunk_size` bytes.
    pub fn start(chunk_size: u64) -> (state: RangedFetch)
        requires
            chunk_size >= 1,
        ensures
            state == (RangedFetch { chunk_size, phase: RangedPhase::Probing }),
    {
        RangedFetch { chunk_size, phase: RangedPhase::Probing }
    }

    /// True once the transfer has ended, in success or in failure.
    pub fn is_finished(&self) -> (r: bool)
        ensures
            r == (self.phase is Done || self.phase is Failed),
    {
        match self.phase {
            RangedPhase::Done => true,
            RangedPhase::Failed(_) => true,
            _ => false,
        }
    }
}

/// True for the statuses that answer a ranged GET in good order.
pub fn is_status_accepted(code: u16) -> (r: bool)
    ensures
        r == status_accepted(code),
{
    code == 200 || code == 206
}

/// Advances a ranged transfer by one event.
///
/// Returns the next state and the request to carry out. An event that the
/// state does not await changes nothing and yields no request.
pub fn download(state: RangedFetch, event: RangedEvent) -> (r: (RangedFetch, Option<RangedAction>))
    requires
        state.chunk_size >= 1,
    ensures
        r.0.chunk_size == state.chunk_size,
        ranged_step(state.chunk_size, state.phase, event) matches Some(planned) ==> r.0.phase
            == planned.0 && r.1.is_some() && r.1.unwrap()@ == planned.1,
        ranged_step(state.chunk_size, state.phase, event) is None ==> r.0 == state
            && r.1.is_none(),
{
    let chunk_size = state.chunk_size;
    match state.phase {
        RangedPhase::Probing => match event {
            RangedEvent::RequestFailed => ranged_fail(chunk_size, FetchError::RequestFailed),
            RangedEvent::Head { content_length } => match content_length {
                None => ranged_fail(chunk_size, FetchError::MissingLength),
                Some(total_length) => (
                    RangedFetch { chunk_size, phase: RangedPhase::Opening { total_length } },
                    Some(RangedAction::CreateFile),
                ),
            },
            _ => (state, None),
        },
        RangedPhase::Opening { total_length } => match event {
            RangedEvent::FileCreateFailed => ranged_fail(chunk_size, FetchError::FileCreateFailed),
            RangedEvent::FileCreated => proceed(
                chunk_size,
                RangeCursor::first(total_length, chunk_size),
            ),
            _ => (state, None),
        },
        RangedPhase::Requesting { window } => match event {
            RangedEvent::RequestFailed => ranged_fail(chunk_size, FetchError::RequestFailed),
            RangedEvent::Status(code) => if is_status_accepted(code) {
                (
                    RangedFetch { chunk_size, phase: RangedPhase::Copying { window } },
                    Some(RangedAction::CopyBody),
                )
            } else {
                ranged_fail(chunk_size, FetchError::UnexpectedStatus(code))
            },
            _ => (state, None),
        },
        RangedPhase::Copying { window } => match event {
            RangedEvent::CopyFailed => ranged_fail(chunk_size, FetchError::WriteFailed),
            RangedEvent::Copied => proceed(chunk_size, window.next(chunk_size)),
            _ => (state, None),
        },
        RangedPhase::Done => (state, None),
        RangedPhase::Failed(_) => (state, None),
    }
}

fn ranged_fail(chunk_size: u64, error: FetchError) -> (r: (RangedFetch, Option<RangedAction>))
    ensures
        r.0 == (RangedFetch { chunk_size, phase: RangedPhase::Failed(error) }),
        r.1.is_some(),
        r.1.unwrap()@ == RangedActionModel::Fail(error),
{
    (RangedFetch { chunk_size, phase: RangedPhase::Failed(error) }, Some(RangedAction::Fail(error)))
}

fn proceed(chunk_size: u64, window: Option<RangeCursor>) -> (r: (RangedFetch, Option<RangedAction>))
    ensures
        r.0.chunk_size == chunk_size,
        Some((r.0.phase, r.1.unwrap()@)) == ranged_proceed(window),
        r.1.is_some(),
{
    match window {
        Some(w) => {
            let header = w.header();
            (
                RangedFetch { chunk_size, phase: RangedPhase::Requesting { window: w } },
                Some(RangedAction::SendRange { window: w, header }),
            )
        },
        None => (RangedFetch { chunk_size, phase: RangedPhase::Done }, Some(RangedAction::Complete)),
    }
}

/// The windows that a transfer asks for are those of `windows`, one after
/// another: creating the file leads to the first, each finished copy to the
/// next, and the copy of the last one ends the transfer.
pub proof fn lemma_ranged_follows_windows(total_length: u64, chunk_size: u64, i: int)
    requires
        chunk_size >= 1,
        0 <= i < windows(total_length, chunk_size).len(),
    ensures
        ranged_step(chunk_size, RangedPhase::Opening { total_length }, RangedEvent::FileCreated)
            == ranged_proceed(Some(windows(total_length, chunk_size)[0])),
        ranged_step(
            chunk_size,
            RangedPhase::Copying { window: windows(total_length, chunk_size)[i] },
            RangedEvent::Copied,
        ) == ranged_proceed(
            if i + 1 < windows(total_length, chunk_size).len() {
                Some(windows(total_length, chunk_size)[i + 1])
            } else {
                None
            },
        ),
{
    lemma_windows_walk(total_length, chunk_size);
    lemma_windows_contiguous(total_length, chunk_size);
    let w = windows(total_length, chunk_size)[i];
    assert(w.valid() && w.total_length == total_length);
}

/// A transfer of a resource for which no window is due asks for none.
pub proof fn lemma_ranged_without_windows(total_length: u64, chunk_size: u64)
    requires
        chunk_size >= 1,
        windows(total_length, chunk_size).len() == 0,
    ensures
        ranged_step(chunk_size, RangedPhase::Opening { total_length }, RangedEvent::FileCreated)
            == ranged_proceed(None),
{
    lemma_windows_walk(total_length, chunk_size);
}

/// A HEAD response without a content length ends the transfer with
/// `MissingLength` before anything was asked of the disk: the only phase
/// that awaits the HEAD response is the first one, which no request to
/// create a file precedes, and the answer is the failure alone.
pub proof fn lemma_ranged_missing_length(chunk_size: u64, phase: RangedPhase)
    requires
        ranged_step(chunk_size, phase, RangedEvent::Head { content_length: None }) is Some,
    ensures
        phase is Probing,
        ranged_step(chunk_size, phase, RangedEvent::Head { content_length: None })
            == ranged_failure(FetchError::MissingLength),
{
}

} // verus!
