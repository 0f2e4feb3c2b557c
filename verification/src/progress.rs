//! How far a streaming transfer has come.

use vstd::prelude::*;

verus! {

/// The progress of one streaming transfer: how many bytes the server
/// announced and how many have arrived, never counted beyond the announced
/// total.
#[derive(Clone, Copy, Debug, PartialEq, Eq, Structural)]
pub struct ProgressState {
    pub total_bytes: u64,
    pub downloaded_bytes: u64,
}

impl ProgressState {
    /// No more has been counted than was announced.
    pub open spec fn valid(self) -> bool {
        self.downloaded_bytes <= self.total_bytes
    }

    /// The progress after `received` more bytes: the count grows by
    /// `received` and stops at the total.
    pub open spec fn advanced(self, received: nat) -> ProgressState {
        ProgressState {
            total_bytes: self.total_bytes,
            downloaded_bytes: if self.downloaded_bytes + received <= self.total_bytes {
                (self.downloaded_bytes + received) as u64
            } else {
                self.total_bytes
            },
        }
    }

    /// The progress of a transfer of `total_bytes` of which nothing has
    /// arrived yet.
    pub open spec fn begun(total_bytes: u64) -> ProgressState {
        ProgressState { total_bytes, downloaded_bytes: 0 }
    }

    /// The progress of a transfer of `total_bytes` of which nothing has
    /// arrived yet.
    pub fn new(total_bytes: u64) -> (p: ProgressState)
        ensures
            p == ProgressState::begun(total_bytes),
            p.valid(),
    {
        ProgressState { total_bytes, downloaded_bytes: 0 }
    }

    /// Counts a chunk of `received` bytes. The count never falls and never
    /// passes the total.
    pub fn advance(&self, received: usize) -> (p: ProgressState)
        ensures
            p == self.advanced(received as nat),
            p.valid(),
            self.valid() ==> p.downloaded_bytes >= self.downloaded_bytes,
    {
        if self.downloaded_bytes >= self.total_bytes {
            ProgressState { total_bytes: self.total_bytes, downloaded_bytes: self.total_bytes }
        } else {
            let room: u64 = self.total_bytes - self.downloaded_bytes;
            if received as u64 >= room {
                ProgressState { total_bytes: self.total_bytes, downloaded_bytes: self.total_bytes }
            } else {
                ProgressState {
                    total_bytes: self.total_bytes,
                    downloaded_bytes: self.downloaded_bytes + received as u64,
                }
            }
        }
    }

    /// True once every announced byte has been counted.
    pub fn is_complete(&self) -> (r: bool)
        ensures
            r == (self.downloaded_bytes >= self.total_bytes),
    {
        self.downloaded_bytes >= self.total_bytes
    }
}

/// The count after a run of chunks, given by their lengths in order of
/// arrival.
pub open spec fn progress_after(start: ProgressState, lengths: Seq<nat>) -> ProgressState
    decreases lengths.len(),
{
    if lengths.len() == 0 {
        start
    } else {
        progress_after(start, lengths.drop_last()).advanced(lengths.last())
    }
}

/// The sum of the lengths in `lengths`.
pub open spec fn total_of(lengths: Seq<nat>) -> nat
    decreases lengths.len(),
{
    if lengths.len() == 0 {
        0
    } else {
        total_of(lengths.drop_last()) + lengths.last()
    }
}

/// Throughout a transfer the count of downloaded bytes never falls and never
/// passes the announced total: after every chunk it is the sum of what has
/// arrived, capped at the total.
pub proof fn lemma_progress_monotone(total_bytes: u64, lengths: Seq<nat>)
    ensures
        progress_after(ProgressState::begun(total_bytes), lengths).valid(),
        progress_after(ProgressState::begun(total_bytes), lengths).total_bytes == total_bytes,
        progress_after(ProgressState::begun(total_bytes), lengths).downloaded_bytes == if total_of(
            lengths,
        ) <= total_bytes {
            total_of(lengths)
        } else {
            total_bytes as nat
        },
        lengths.len() > 0 ==> progress_after(
            ProgressState::begun(total_bytes),
            lengths.drop_last(),
        ).downloaded_bytes <= progress_after(
            ProgressState::begun(total_bytes),
            lengths,
        ).downloaded_bytes,
    decreases lengths.len(),
{
    if lengths.len() > 0 {
        lemma_progress_monotone(total_bytes, lengths.drop_last());
    }
}

} // verus!
