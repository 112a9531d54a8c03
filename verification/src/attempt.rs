//! One attempt at a download, as a state machine.
//!
//! The machine asks for one action at a time; whoever runs it performs the action and hands back
//! the event that came of it.

use crate::digest;
use crate::download::Command;
use crate::job::Job;
use crate::progress::{Outcome, Progress, Verification};
use crate::speed::Speed;
use crate::text;
use std::path::PathBuf;
use vstd::prelude::*;

verus! {

/// The status of a response that holds the rest of a file.
pub const PARTIAL_CONTENT: u16 = 206;

/// The status of a response to a range that starts at or behind the end of the file.
pub const RANGE_NOT_SATISFIABLE: u16 = 416;

/// So many new bytes are worth a report.
pub const REPORT_BYTES: u64 = 65536;

/// So many nanoseconds without a report are enough.
pub const REPORT_NANOS: u128 = 250_000_000;

/// How an attempt ends.
#[derive(Debug)]
pub enum AttemptOutcome {
    Completed(Outcome),
    Paused { received: u64, total: Option<u64> },
    Cancelled,
    Failed(String),
}

/// What the machine reads of a response.
#[derive(Debug)]
pub struct Response {
    pub status: u16,
    /// Why the response counts as an error, where its status makes it one.
    pub rejected: Option<String>,
    pub content_length: Option<u64>,
}

/// What an action came to.
#[derive(Debug)]
pub enum Event {
    /// The directory of the file is there, or could not be made.
    Prepared(Result<(), String>),
    /// The size of the file on disk, zero where there is none.
    Measured(u64),
    /// The server answered, or the request failed.
    Responded(Result<Response, String>),
    /// The digest of the file on disk, or why it could not be read.
    Hashed(Result<String, String>),
    /// The file is open for writing, or could not be opened.
    Opened(Result<(), String>),
    /// What the user wants at this moment.
    Commanded(Command),
    /// A chunk came and was written, so long after the clock was last restarted.
    Wrote { len: u64, elapsed_nanos: u128 },
    /// A chunk came and could not be written.
    WriteFailed(String),
    /// No chunk came: the transfer broke off.
    StreamFailed(String),
    /// No chunk came: the transfer is over.
    StreamEnded,
    /// The speed of the transfer after a sample: a finite number, and not less than zero.
    Sampled(Speed),
    /// The file was flushed, or could not be.
    Flushed(Result<(), String>),
}

/// What is to be done next.
#[derive(Debug)]
pub enum Action {
    /// Make the directory of the file.
    Prepare,
    /// Look up the size of the file.
    Measure,
    /// Ask the server for the file from an offset on, or for all of it.
    Request { range_from: Option<u64> },
    /// Read the file and compute its digest.
    Hash,
    /// Open the file to append to it, or emptied.
    Open { append: bool },
    /// Look up what the user wants.
    Poll,
    /// Wait for the next chunk and write it.
    Fetch,
    /// Compute the speed from the bytes and the time since the last report, and from the speed
    /// before, where there was one.
    Sample { bytes: u64, elapsed_nanos: u128, previous: Option<Speed> },
    /// Flush the file.
    Flush,
    /// The attempt is over.
    Finish(AttemptOutcome),
}

/// What follows from an event: what to show, whether to restart the clock, and what to do then.
#[derive(Debug)]
pub struct Step {
    pub publish: Option<Progress>,
    pub restart_clock: bool,
    pub action: Action,
}

/// A transfer in progress.
#[derive(Clone, Copy, Debug)]
pub struct Transfer {
    /// The bytes of the file that are on disk.
    pub received: u64,
    /// The size of the file.
    pub total: Option<u64>,
    pub speed: Speed,
    /// What `received` was at the last report.
    pub last_bytes: u64,
}

/// What the machine waits for.
#[derive(Debug)]
pub enum Stage {
    /// The directory.
    Preparing,
    /// The size of what is on disk already.
    Measuring,
    /// The response to a request from `offset` on.
    Requesting { offset: u64, allow_resume: bool },
    /// The digest of a file that is complete already.
    Rechecking,
    /// The size of a file that is complete already.
    Remeasuring { sha256: String, verified: Verification },
    /// The open file.
    Opening { offset: u64, resuming: bool, total: Option<u64> },
    /// The wish of the user.
    Polling(Transfer),
    /// The next chunk.
    Fetching(Transfer),
    /// The new speed.
    Sampling(Transfer),
    /// A last flush whose result does not matter.
    Stopping(AttemptOutcome),
    /// The flush of the whole file.
    Flushing { received: u64 },
    /// The digest of the file that was just written.
    Hashing { received: u64 },
    /// Nothing.
    Finished,
}

/// One attempt at a download.
#[derive(Debug)]
pub struct Attempt {
    pub path: PathBuf,
    pub expected: Option<String>,
    pub stage: Stage,
}

/// A step that shows nothing.
pub open spec fn silent(action: Action) -> Step {
    Step { publish: None, restart_clock: false, action }
}

/// The end of an attempt.
pub open spec fn over(outcome: AttemptOutcome) -> (Stage, Step) {
    (Stage::Finished, silent(Action::Finish(outcome)))
}

/// A transfer is shown as it stands, and goes on.
pub open spec fn report(t: Transfer) -> (Stage, Step) {
    (
        Stage::Polling(Transfer { last_bytes: t.received, ..t }),
        Step {
            publish: Some(
                Progress::Downloading { received: t.received, total: t.total, speed: t.speed },
            ),
            restart_clock: true,
            action: Action::Poll,
        },
    )
}

/// Whether a response says that the file on disk is complete.
pub open spec fn says_complete(allow_resume: bool, response: Response) -> bool {
    response.status == RANGE_NOT_SATISFIABLE && allow_resume
}

/// Whether a response holds the rest of the file that was asked for.
pub open spec fn holds_rest(allow_resume: bool, response: Response) -> bool {
    allow_resume && response.status == PARTIAL_CONTENT
}

/// What follows from a response to a request from `offset` on.
pub open spec fn on_response(offset: u64, allow_resume: bool, response: Response) -> (Stage, Step) {
    if says_complete(allow_resume, response) {
        (
            Stage::Rechecking,
            Step {
                publish: Some(Progress::Verifying),
                restart_clock: false,
                action: Action::Hash,
            },
        )
    } else {
        match response.rejected {
            Some(error) => over(AttemptOutcome::Failed(error)),
            None => {
                let resuming = holds_rest(allow_resume, response);
                let start: u64 = if resuming {
                    offset
                } else {
                    0
                };
                let total = match response.content_length {
                    Some(len) => Some((start + len) as u64),
                    None => None,
                };
                (
                    Stage::Opening { offset: start, resuming, total },
                    silent(Action::Open { append: resuming }),
                )
            },
        }
    }
}

/// What follows from the wish of the user between two chunks.
pub open spec fn on_command(t: Transfer, command: Command) -> (Stage, Step) {
    match command {
        Command::Run => (Stage::Fetching(t), silent(Action::Fetch)),
        Command::Pause => (
            Stage::Stopping(AttemptOutcome::Paused { received: t.received, total: t.total }),
            silent(Action::Flush),
        ),
        Command::Cancel => (Stage::Stopping(AttemptOutcome::Cancelled), silent(Action::Flush)),
    }
}

/// Whether a report is due after so many new bytes and so much time.
pub open spec fn report_due(bytes: int, elapsed_nanos: u128) -> bool {
    bytes >= REPORT_BYTES || elapsed_nanos >= REPORT_NANOS
}

/// What follows from a chunk that was written.
pub open spec fn on_chunk(t: Transfer, len: u64, elapsed_nanos: u128) -> (Stage, Step) {
    let grown = Transfer { received: (t.received + len) as u64, ..t };
    let bytes = grown.received - grown.last_bytes;
    if !report_due(bytes, elapsed_nanos) {
        (Stage::Polling(grown), silent(Action::Poll))
    } else if elapsed_nanos > 0 {
        let previous = if t.speed.is_zero_number() {
            None
        } else {
            Some(t.speed)
        };
        (
            Stage::Sampling(grown),
            silent(Action::Sample { bytes: bytes as u64, elapsed_nanos, previous }),
        )
    } else {
        report(grown)
    }
}

impl Attempt {
    /// A completed attempt.
    pub open spec fn completed(self, bytes: u64, sha256: String, verified: Verification) -> (
        Stage,
        Step,
    ) {
        over(
            AttemptOutcome::Completed(Outcome { path: self.path, bytes, sha256, verified }),
        )
    }

    /// The verdict on a digest.
    pub open spec fn verdict(self, sha256: String) -> Verification {
        digest::verdict(digest::text_of(self.expected), sha256@)
    }

    /// What an event leads to: the new stage and the step to take.
    pub open spec fn transition(self, event: Event) -> (Stage, Step) {
        match (self.stage, event) {
            (Stage::Preparing, Event::Prepared(Ok(_))) => (
                Stage::Measuring,
                silent(Action::Measure),
            ),
            (Stage::Preparing, Event::Prepared(Err(error))) => over(AttemptOutcome::Failed(error)),
            (Stage::Measuring, Event::Measured(size)) => (
                Stage::Requesting { offset: size, allow_resume: size > 0 },
                silent(
                    Action::Request {
                        range_from: if size > 0 {
                            Some(size)
                        } else {
                            None
                        },
                    },
                ),
            ),
            (Stage::Requesting { .. }, Event::Responded(Err(error))) => over(
                AttemptOutcome::Failed(error),
            ),
            (Stage::Requesting { offset, allow_resume }, Event::Responded(Ok(response))) =>
                on_response(offset, allow_resume, response),
            (Stage::Rechecking, Event::Hashed(Err(error))) => over(AttemptOutcome::Failed(error)),
            (Stage::Rechecking, Event::Hashed(Ok(sha256))) => if self.verdict(sha256)
                == Verification::Mismatch {
                (
                    Stage::Requesting { offset: 0, allow_resume: false },
                    silent(Action::Request { range_from: None }),
                )
            } else {
                (
                    Stage::Remeasuring { sha256, verified: self.verdict(sha256) },
                    silent(Action::Measure),
                )
            },
            (Stage::Remeasuring { sha256, verified }, Event::Measured(size)) => self.completed(
                size,
                sha256,
                verified,
            ),
            (Stage::Opening { .. }, Event::Opened(Err(error))) => over(
                AttemptOutcome::Failed(error),
            ),
            (Stage::Opening { offset, total, .. }, Event::Opened(Ok(_))) => report(
                Transfer { received: offset, total, speed: Speed { bits: 0 }, last_bytes: offset },
            ),
            (Stage::Polling(t), Event::Commanded(command)) => on_command(t, command),
            (Stage::Fetching(t), Event::Wrote { len, elapsed_nanos }) => on_chunk(
                t,
                len,
                elapsed_nanos,
            ),
            (Stage::Fetching(_), Event::WriteFailed(error)) => over(AttemptOutcome::Failed(error)),
            (Stage::Fetching(_), Event::StreamFailed(error)) => (
                Stage::Stopping(AttemptOutcome::Failed(error)),
                silent(Action::Flush),
            ),
            (Stage::Fetching(t), Event::StreamEnded) => (
                Stage::Flushing { received: t.received },
                silent(Action::Flush),
            ),
            (Stage::Sampling(t), Event::Sampled(speed)) => report(Transfer { speed, ..t }),
            (Stage::Stopping(outcome), Event::Flushed(_)) => over(outcome),
            (Stage::Flushing { .. }, Event::Flushed(Err(error))) => over(
                AttemptOutcome::Failed(error),
            ),
            (Stage::Flushing { received }, Event::Flushed(Ok(_))) => (
                Stage::Hashing { received },
                Step {
                    publish: Some(Progress::Verifying),
                    restart_clock: false,
                    action: Action::Hash,
                },
            ),
            (Stage::Hashing { .. }, Event::Hashed(Err(error))) => over(
                AttemptOutcome::Failed(error),
            ),
            (Stage::Hashing { received }, Event::Hashed(Ok(sha256))) => self.completed(
                received,
                sha256,
                self.verdict(sha256),
            ),
            _ => arbitrary(),
        }
    }

    /// Whether the event answers what the machine waits for, with sizes that stay countable and a
    /// speed that is a finite number, not less than zero.
    pub open spec fn accepted(self, event: Event) -> bool {
        match (self.stage, event) {
            (Stage::Preparing, Event::Prepared(_)) => true,
            (Stage::Measuring, Event::Measured(_)) => true,
            (Stage::Requesting { .. }, Event::Responded(Err(_))) => true,
            (Stage::Requesting { offset, allow_resume }, Event::Responded(Ok(response))) => {
                holds_rest(allow_resume, response) && response.rejected is None
                    && response.content_length is Some ==> offset + response.content_length->0
                    <= u64::MAX
            },
            (Stage::Rechecking, Event::Hashed(_)) => true,
            (Stage::Remeasuring { .. }, Event::Measured(_)) => true,
            (Stage::Opening { .. }, Event::Opened(_)) => true,
            (Stage::Polling(_), Event::Commanded(_)) => true,
            (Stage::Fetching(t), Event::Wrote { len, .. }) => t.received + len <= u64::MAX,
            (Stage::Fetching(_), Event::WriteFailed(_)) => true,
            (Stage::Fetching(_), Event::StreamFailed(_)) => true,
            (Stage::Fetching(_), Event::StreamEnded) => true,
            (Stage::Sampling(_), Event::Sampled(speed)) => speed.is_a_rate(),
            (Stage::Stopping(_), Event::Flushed(_)) => true,
            (Stage::Flushing { .. }, Event::Flushed(_)) => true,
            (Stage::Hashing { .. }, Event::Hashed(_)) => true,
            _ => false,
        }
    }

    /// A range is asked for exactly where there is something on disk, what is not resumed starts
    /// at zero, the last report lies less than `REPORT_BYTES` behind a transfer that goes on, its
    /// speed is a finite number and not less than zero, a file that is kept has the verdict of its
    /// digest, and what is stopped is not completed.
    pub open spec fn wf(self) -> bool {
        match self.stage {
            Stage::Requesting { offset, allow_resume } => allow_resume == (offset > 0),
            Stage::Opening { offset, resuming, .. } => resuming == (offset > 0),
            Stage::Polling(t) => t.last_bytes <= t.received < t.last_bytes + REPORT_BYTES
                && t.speed.is_a_rate(),
            Stage::Fetching(t) => t.last_bytes <= t.received < t.last_bytes + REPORT_BYTES
                && t.speed.is_a_rate(),
            Stage::Sampling(t) => t.last_bytes <= t.received && t.speed.is_a_rate(),
            Stage::Remeasuring { sha256, verified } => verified == self.verdict(sha256) && verified
                != Verification::Mismatch,
            Stage::Stopping(outcome) => !(outcome is Completed),
            _ => true,
        }
    }

    /// Starts an attempt at a job. The first action is `Action::Prepare`.
    pub fn new(job: &Job) -> (attempt: Attempt)
        ensures
            attempt.path == job.dest,
            attempt.expected == job.expected_sha256,
            attempt.stage == Stage::Preparing,
            attempt.wf(),
    {
        Attempt {
            path: job.dest.clone(),
            expected: match &job.expected_sha256 {
                Some(sha256) => Some(sha256.clone()),
                None => None,
            },
            stage: Stage::Preparing,
        }
    }

    /// Whether the event answers what the machine waits for, with sizes that stay countable and a
    /// speed that is a finite number, not less than zero.
    pub fn accepts(&self, event: &Event) -> (b: bool)
        ensures
            b == self.accepted(*event),
    {
        match (&self.stage, event) {
            (Stage::Preparing, Event::Prepared(_)) => true,
            (Stage::Measuring, Event::Measured(_)) => true,
            (Stage::Requesting { .. }, Event::Responded(Err(_))) => true,
            (Stage::Requesting { offset, allow_resume }, Event::Responded(Ok(response))) => {
                if !*allow_resume || response.status != PARTIAL_CONTENT
                    || response.rejected.is_some() {
                    return true;
                }
                match response.content_length {
                    Some(len) => len <= u64::MAX - *offset,
                    None => true,
                }
            },
            (Stage::Rechecking, Event::Hashed(_)) => true,
            (Stage::Remeasuring { .. }, Event::Measured(_)) => true,
            (Stage::Opening { .. }, Event::Opened(_)) => true,
            (Stage::Polling(_), Event::Commanded(_)) => true,
            (Stage::Fetching(t), Event::Wrote { len, .. }) => *len <= u64::MAX - t.received,
            (Stage::Fetching(_), Event::WriteFailed(_)) => true,
            (Stage::Fetching(_), Event::StreamFailed(_)) => true,
            (Stage::Fetching(_), Event::StreamEnded) => true,
            (Stage::Sampling(_), Event::Sampled(speed)) => speed.is_rate(),
            (Stage::Stopping(_), Event::Flushed(_)) => true,
            (Stage::Flushing { .. }, Event::Flushed(_)) => true,
            (Stage::Hashing { .. }, Event::Hashed(_)) => true,
            _ => false,
        }
    }

    /// Takes in what the last action came to.
    pub fn step(&mut self, event: Event) -> (step: Step)
        requires
            old(self).wf(),
            old(self).accepted(event),
        ensures
            final(self).wf(),
            final(self).path == old(self).path,
            final(self).expected == old(self).expected,
            (final(self).stage, step) == old(self).transition(event),
    {
        let mut stage: Stage = Stage::Finished;
        std::mem::swap(&mut stage, &mut self.stage);
        let (next, step): (Stage, Step) = match (stage, event) {
            (Stage::Preparing, Event::Prepared(Ok(_))) => (
                Stage::Measuring,
                quietly(Action::Measure),
            ),
            (Stage::Preparing, Event::Prepared(Err(error))) => failed(error),
            (Stage::Measuring, Event::Measured(size)) => {
                let range_from: Option<u64> = if size > 0 {
                    Some(size)
                } else {
                    None
                };
                (
                    Stage::Requesting { offset: size, allow_resume: size > 0 },
                    quietly(Action::Request { range_from }),
                )
            },
            (Stage::Requesting { .. }, Event::Responded(Err(error))) => failed(error),
            (Stage::Requesting { offset, allow_resume }, Event::Responded(Ok(response))) =>
                after_response(offset, allow_resume, response),
            (Stage::Rechecking, Event::Hashed(Err(error))) => failed(error),
            (Stage::Rechecking, Event::Hashed(Ok(sha256))) => {
                let verified: Verification = digest::verify(&self.expected, &sha256);
                if verified == Verification::Mismatch {
                    (
                        Stage::Requesting { offset: 0, allow_resume: false },
                        quietly(Action::Request { range_from: None }),
                    )
                } else {
                    (Stage::Remeasuring { sha256, verified }, quietly(Action::Measure))
                }
            },
            (Stage::Remeasuring { sha256, verified }, Event::Measured(size)) => self.complete(
                size,
                sha256,
                verified,
            ),
            (Stage::Opening { .. }, Event::Opened(Err(error))) => failed(error),
            (Stage::Opening { offset, total, .. }, Event::Opened(Ok(_))) => reported(
                Transfer { received: offset, total, speed: Speed::zero(), last_bytes: offset },
            ),
            (Stage::Polling(t), Event::Commanded(command)) => after_command(t, command),
            (Stage::Fetching(t), Event::Wrote { len, elapsed_nanos }) => after_chunk(
                t,
                len,
                elapsed_nanos,
            ),
            (Stage::Fetching(_), Event::WriteFailed(error)) => failed(error),
            (Stage::Fetching(_), Event::StreamFailed(error)) => (
                Stage::Stopping(AttemptOutcome::Failed(error)),
                quietly(Action::Flush),
            ),
            (Stage::Fetching(t), Event::StreamEnded) => (
                Stage::Flushing { received: t.received },
                quietly(Action::Flush),
            ),
            (Stage::Sampling(t), Event::Sampled(speed)) => reported(
                Transfer { received: t.received, total: t.total, speed, last_bytes: t.last_bytes },
            ),
            (Stage::Stopping(outcome), Event::Flushed(_)) => (
                Stage::Finished,
                quietly(Action::Finish(outcome)),
            ),
            (Stage::Flushing { .. }, Event::Flushed(Err(error))) => failed(error),
            (Stage::Flushing { received }, Event::Flushed(Ok(_))) => (
                Stage::Hashing { received },
                Step {
                    publish: Some(Progress::Verifying),
                    restart_clock: false,
                    action: Action::Hash,
                },
            ),
            (Stage::Hashing { .. }, Event::Hashed(Err(error))) => failed(error),
            (Stage::Hashing { received }, Event::Hashed(Ok(sha256))) => {
                let verified: Verification = digest::verify(&self.expected, &sha256);
                self.complete(received, sha256, verified)
            },
            _ => (Stage::Finished, quietly(Action::Finish(AttemptOutcome::Cancelled))),
        };
        self.stage = next;
        step
    }

    fn complete(&self, bytes: u64, sha256: String, verified: Verification) -> (r: (Stage, Step))
        ensures
            r == self.completed(bytes, sha256, verified),
    {
        let outcome: Outcome = Outcome { path: self.path.clone(), bytes, sha256, verified };
        (Stage::Finished, quietly(Action::Finish(AttemptOutcome::Completed(outcome))))
    }
}

/// The value of the `Range` header of a request from `offset` on.
pub fn range_header(offset: u64) -> (value: String)
    ensures
        value@ == "bytes="@ + text::decimal(offset as nat) + "-"@,
{
    let mut value: String = String::from("bytes=");
    text::push_decimal(&mut value, offset);
    value.append("-");
    value
}

fn quietly(action: Action) -> (step: Step)
    ensures
        step == silent(action),
{
    Step { publish: None, restart_clock: false, action }
}

fn failed(error: String) -> (r: (Stage, Step))
    ensures
        r == over(AttemptOutcome::Failed(error)),
{
    (Stage::Finished, quietly(Action::Finish(AttemptOutcome::Failed(error))))
}

fn reported(t: Transfer) -> (r: (Stage, Step))
    ensures
        r == report(t),
{
    (
        Stage::Polling(
            Transfer {
                received: t.received,
                total: t.total,
                speed: t.speed,
                last_bytes: t.received,
            },
        ),
        Step {
            publish: Some(
                Progress::Downloading { received: t.received, total: t.total, speed: t.speed },
            ),
            restart_clock: true,
            action: Action::Poll,
        },
    )
}

fn after_response(offset: u64, allow_resume: bool, response: Response) -> (r: (Stage, Step))
    requires
        holds_rest(allow_resume, response) && response.rejected is None
            && response.content_length is Some ==> offset + response.content_length->0 <= u64::MAX,
    ensures
        r == on_response(offset, allow_resume, response),
{
    if response.status == RANGE_NOT_SATISFIABLE && allow_resume {
        return (
            Stage::Rechecking,
            Step {
                publish: Some(Progress::Verifying),
                restart_clock: false,
                action: Action::Hash,
            },
        );
    }
    match response.rejected {
        Some(error) => failed(error),
        None => {
            let resuming: bool = allow_resume && response.status == PARTIAL_CONTENT;
            let start: u64 = if resuming {
                offset
            } else {
                0
            };
            let total: Option<u64> = match response.content_length {
                Some(len) => Some(start + len),
                None => None,
            };
            (
                Stage::Opening { offset: start, resuming, total },
                quietly(Action::Open { append: resuming }),
            )
        },
    }
}

fn after_command(t: Transfer, command: Command) -> (r: (Stage, Step))
    ensures
        r == on_command(t, command),
{
    match command {
        Command::Run => (Stage::Fetching(t), quietly(Action::Fetch)),
        Command::Pause => (
            Stage::Stopping(AttemptOutcome::Paused { received: t.received, total: t.total }),
            quietly(Action::Flush),
        ),
        Command::Cancel => (Stage::Stopping(AttemptOutcome::Cancelled), quietly(Action::Flush)),
    }
}

fn after_chunk(t: Transfer, len: u64, elapsed_nanos: u128) -> (r: (Stage, Step))
    requires
        t.last_bytes <= t.received,
        t.received + len <= u64::MAX,
    ensures
        r == on_chunk(t, len, elapsed_nanos),
{
    let grown: Transfer = Transfer {
        received: t.received + len,
        total: t.total,
        speed: t.speed,
        last_bytes: t.last_bytes,
    };
    let bytes: u64 = grown.received - grown.last_bytes;
    if bytes < REPORT_BYTES && elapsed_nanos < REPORT_NANOS {
        (Stage::Polling(grown), quietly(Action::Poll))
    } else if elapsed_nanos > 0 {
        let previous: Option<Speed> = if t.speed.is_zero() {
            None
        } else {
            Some(t.speed)
        };
        (Stage::Sampling(grown), quietly(Action::Sample { bytes, elapsed_nanos, previous }))
    } else {
        reported(grown)
    }
}

} // verus!
