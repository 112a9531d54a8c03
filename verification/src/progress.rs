//! How far a download has come.

use crate::speed::Speed;
use std::path::PathBuf;
use vstd::prelude::*;

verus! {

/// What became of the comparison with the expected digest.
#[derive(Clone, Copy, PartialEq, Eq, Debug, Structural)]
pub enum Verification {
    /// There was no expected digest.
    Skipped,
    /// The file has the expected digest.
    Matched,
    /// The file has another digest.
    Mismatch,
}

/// A download that went through to its end.
#[derive(Clone, Debug)]
pub struct Outcome {
    pub path: PathBuf,
    pub bytes: u64,
    pub sha256: String,
    pub verified: Verification,
}

/// The state of a download as it is shown.
#[derive(Clone, Debug)]
pub enum Progress {
    Queued,
    Downloading { received: u64, total: Option<u64>, speed: Speed },
    Paused { received: u64, total: Option<u64> },
    Verifying,
    Done(Outcome),
    Failed(String),
    Cancelled,
}

/// A quotient of two integers, the divisor not zero.
#[derive(Clone, Copy, Debug, PartialEq, Eq, Structural)]
pub struct Ratio {
    pub numerator: u64,
    pub denominator: u64,
}

impl Progress {
    /// Done or cancelled: no wish of the user changes what is shown.
    pub open spec fn finished(self) -> bool {
        self is Done || self is Cancelled
    }

    /// Paused or failed: the download can be taken up again.
    pub open spec fn resumable(self) -> bool {
        self is Paused || self is Failed
    }

    /// Done, failed or cancelled: what is shown is how the download ended, for now or for good.
    pub open spec fn settled(self) -> bool {
        self is Done || self is Failed || self is Cancelled
    }

    /// The bytes that are known to have arrived.
    pub open spec fn received_bytes(self) -> u64 {
        match self {
            Progress::Downloading { received, .. } => received,
            Progress::Paused { received, .. } => received,
            Progress::Done(outcome) => outcome.bytes,
            _ => 0,
        }
    }

    /// The share of the file that has arrived, where the size of the file is known and not zero.
    pub open spec fn share(self) -> Option<Ratio> {
        match self {
            Progress::Downloading { received, total: Some(total), .. } if total > 0 => Some(
                Ratio { numerator: received, denominator: total },
            ),
            Progress::Paused { received, total: Some(total) } if total > 0 => Some(
                Ratio { numerator: received, denominator: total },
            ),
            Progress::Done(_) => Some(Ratio { numerator: 1, denominator: 1 }),
            _ => None,
        }
    }

    /// Whether the download is done or cancelled. A failed one is not finished: it can be resumed.
    pub fn is_finished(&self) -> (b: bool)
        ensures
            b == self.finished(),
    {
        matches!(self, Progress::Done(_) | Progress::Cancelled)
    }

    /// Whether a worker is busy with the download.
    pub fn is_running(&self) -> (b: bool)
        ensures
            b == (self is Downloading || self is Verifying),
    {
        matches!(self, Progress::Downloading { .. } | Progress::Verifying)
    }

    /// The bytes that are known to have arrived.
    pub fn received(&self) -> (bytes: u64)
        ensures
            bytes == self.received_bytes(),
    {
        match self {
            Progress::Downloading { received, .. } => *received,
            Progress::Paused { received, .. } => *received,
            Progress::Done(outcome) => outcome.bytes,
            _ => 0,
        }
    }

    /// The speed of a running transfer, and zero where there is none.
    pub fn speed(&self) -> (speed: Speed)
        ensures
            speed == (match *self {
                Progress::Downloading { speed, .. } => speed,
                _ => Speed { bits: 0 },
            }),
    {
        match self {
            Progress::Downloading { speed, .. } => *speed,
            _ => Speed::zero(),
        }
    }

    /// The share of the file that has arrived, where the size of the file is known and not zero.
    pub fn fraction(&self) -> (share: Option<Ratio>)
        ensures
            share == self.share(),
            share is Some ==> share->0.denominator > 0,
    {
        match self {
            Progress::Downloading { received, total: Some(total), .. } if *total > 0 => Some(
                Ratio { numerator: *received, denominator: *total },
            ),
            Progress::Paused { received, total: Some(total) } if *total > 0 => Some(
                Ratio { numerator: *received, denominator: *total },
            ),
            Progress::Done(_) => Some(Ratio { numerator: 1, denominator: 1 }),
            _ => None,
        }
    }
}

} // verus!
