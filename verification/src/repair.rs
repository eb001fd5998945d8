//! Downloading a segment: when it is complete, and when to stop trying.

use vstd::prelude::*;

verus! {

/// How often a download asks for the missing shreds before it gives up.
pub const DOWNLOAD_ATTEMPTS: u64 = 120;

/// Milliseconds between two attempts of a download.
pub const DOWNLOAD_INTERVAL_MILLIS: u64 = 500;

/// Seconds between two looks at a segment that setup waits for.
pub const WAIT_INTERVAL_SECS: u64 = 1;

/// Why a download failed.
#[derive(Debug, Clone, Copy, PartialEq, Eq)]
pub enum DownloadError {
    /// The segment was still incomplete after the last attempt.
    Incomplete,
    /// The segment would reach past the last slot.
    OutOfRange,
}

impl DownloadError {
    /// The message that goes with the error.
    pub fn message(&self) -> (text: &'static str)
        ensures
            text@ == (match *self {
                DownloadError::Incomplete => "Unable to download the full segment"@,
                DownloadError::OutOfRange => "Segment out of range"@,
            }),
    {
        match self {
            DownloadError::Incomplete => "Unable to download the full segment",
            DownloadError::OutOfRange => "Segment out of range",
        }
    }
}

/// The slots to repair for the segment at `start_slot`: from `start_slot`
/// up to the end, which is excluded.
#[derive(Debug, Clone, Copy, PartialEq, Eq)]
pub struct RepairSlotRange {
    pub start: u64,
    pub end: u64,
}

/// The range of a segment, unless it would reach past the last slot.
pub fn repair_range(start_slot: u64, slots_per_segment: u64) -> (range: Result<
    RepairSlotRange,
    DownloadError,
>)
    ensures
        match range {
            Ok(r) => r.start == start_slot && r.end == start_slot + slots_per_segment,
            Err(e) => start_slot + slots_per_segment > u64::MAX && e == DownloadError::OutOfRange,
        },
{
    if slots_per_segment > u64::MAX - start_slot {
        Err(DownloadError::OutOfRange)
    } else {
        Ok(RepairSlotRange { start: start_slot, end: start_slot + slots_per_segment })
    }
}

/// Whether a segment is complete: `full` says of each of its slots, in
/// order, whether the blockstore holds all of it.
pub fn segment_complete(full: &[bool]) -> (complete: bool)
    ensures
        complete == (forall|i: int| 0 <= i < full@.len() ==> full@[i]),
{
    let mut i: usize = 0;
    while i < full.len()
        invariant
            i <= full@.len(),
            forall|k: int| 0 <= k < i ==> full@[k],
        decreases full@.len() - i,
    {
        if !full[i] {
            return false;
        }
        i = i + 1;
    }
    true
}

/// What a download does after an attempt.
#[derive(Debug, Clone, Copy, PartialEq, Eq)]
pub enum DownloadStep {
    /// The segment is complete: the download returns its start slot.
    Done(u64),
    /// Wait `DOWNLOAD_INTERVAL_MILLIS`, then ask for what is missing again.
    Retry,
    /// The attempts are used up.
    Failed(DownloadError),
}

/// Judges an attempt of a download. `attempts_made` counts the attempts
/// including this one; `complete` says whether the segment was complete
/// after it.
pub fn download_step(start_slot: u64, attempts_made: u64, complete: bool) -> (step: DownloadStep)
    ensures
        step == (if complete {
            DownloadStep::Done(start_slot)
        } else if attempts_made < DOWNLOAD_ATTEMPTS {
            DownloadStep::Retry
        } else {
            DownloadStep::Failed(DownloadError::Incomplete)
        }),
{
    if complete {
        DownloadStep::Done(start_slot)
    } else if attempts_made < DOWNLOAD_ATTEMPTS {
        DownloadStep::Retry
    } else {
        DownloadStep::Failed(DownloadError::Incomplete)
    }
}

/// A download under way: the segment asked for and the attempts made.
pub struct Download {
    pub range: RepairSlotRange,
    pub attempts_made: u64,
}

impl Download {
    /// The download of the segment at `start_slot`, before its first
    /// attempt. A segment that would reach past the last slot is refused.
    pub fn new(start_slot: u64, slots_per_segment: u64) -> (download: Result<
        Download,
        DownloadError,
    >)
        ensures
            match download {
                Ok(d) => {
                    &&& d.range.start == start_slot
                    &&& d.range.end == start_slot + slots_per_segment
                    &&& d.attempts_made == 0
                },
                Err(e) => start_slot + slots_per_segment > u64::MAX && e
                    == DownloadError::OutOfRange,
            },
    {
        match repair_range(start_slot, slots_per_segment) {
            Ok(range) => Ok(Download { range, attempts_made: 0 }),
            Err(e) => Err(e),
        }
    }

    /// Counts an attempt and judges it: `full` says of each slot of the
    /// segment, in order, whether the blockstore holds all of it now. The
    /// download is done when all are full, fails when the last of
    /// `DOWNLOAD_ATTEMPTS` attempts left one that is not, and is to be
    /// tried again otherwise.
    pub fn after_attempt(&mut self, full: &[bool]) -> (step: DownloadStep)
        requires
            old(self).attempts_made < DOWNLOAD_ATTEMPTS,
        ensures
            final(self).range == old(self).range,
            final(self).attempts_made == old(self).attempts_made + 1,
            step == (if forall|i: int| 0 <= i < full@.len() ==> full@[i] {
                DownloadStep::Done(old(self).range.start)
            } else if final(self).attempts_made < DOWNLOAD_ATTEMPTS {
                DownloadStep::Retry
            } else {
                DownloadStep::Failed(DownloadError::Incomplete)
            }),
            step == DownloadStep::Retry ==> final(self).attempts_made < DOWNLOAD_ATTEMPTS,
    {
        self.attempts_made = self.attempts_made + 1;
        download_step(self.range.start, self.attempts_made, segment_complete(full))
    }
}

/// What setup does while it waits for its segment.
#[derive(Debug, Clone, Copy, PartialEq, Eq)]
pub enum WaitStep {
    /// Look at this slot next, at once.
    Look(u64),
    /// Wait `WAIT_INTERVAL_SECS`, then look at this slot again.
    Sleep(u64),
    /// The wait is over: the segment is there, or the exit flag is set.
    Done,
}

/// One look of the wait for a segment's download. `current_slot` is the
/// slot looked at, within the segment from `start_slot` to `end_slot`, and
/// `is_full` says whether the blockstore holds all of it. A full slot moves
/// the wait on to the next one, and ends it when that was the segment's
/// last. A slot that is not full ends the wait where the exit flag is set,
/// and is looked at again after a pause where it is not.
pub fn wait_for_segment_download(
    current_slot: u64,
    end_slot: u64,
    is_full: bool,
    exit: bool,
) -> (step: WaitStep)
    requires
        current_slot < end_slot,
    ensures
        step == (if is_full {
            if current_slot + 1 >= end_slot {
                WaitStep::Done
            } else {
                WaitStep::Look((current_slot + 1) as u64)
            }
        } else if exit {
            WaitStep::Done
        } else {
            WaitStep::Sleep(current_slot)
        }),
{
    if is_full {
        if current_slot + 1 >= end_slot {
            WaitStep::Done
        } else {
            WaitStep::Look(current_slot + 1)
        }
    } else if exit {
        WaitStep::Done
    } else {
        WaitStep::Sleep(current_slot)
    }
}

} // verus!
