//! What is shown of an attempt that is over, and what the moves of a download leave as it was.

use crate::attempt::{Attempt, AttemptOutcome, Event};
use crate::digest;
use crate::download::{Begin, Command, DownloadState};
use crate::job::Job;
use crate::laws::attempt::{
    after, after_all, all_accepted, events_keep_wf, what_completes_was_verified,
};
use crate::laws::protocol::{every_end_has_its_cause, last_step, the_last_event_comes_last};
use crate::progress::{Outcome, Progress, Verification};
use crate::text;
use vstd::prelude::*;

verus! {

/// An attempt that is over is shown as it ended: a completed one with that very outcome, its path,
/// size, digest and verdict, a paused one with that count and total, a failed one with that reason.
/// One that was cancelled is shown as before, until what is on disk is gone. The worker is done with
/// the download in every case, and what the user asked for stays.
pub proof fn an_attempt_is_shown_as_it_ended(d: DownloadState, ended: AttemptOutcome)
    ensures
        ({
            let shown = d.after_settle(ended);
            &&& ended matches AttemptOutcome::Completed(outcome) ==> shown.progress
                == Progress::Done(outcome)
            &&& ended matches AttemptOutcome::Paused { received, total } ==> shown.progress
                == (Progress::Paused { received, total })
            &&& ended matches AttemptOutcome::Failed(error) ==> shown.progress == Progress::Failed(
                error,
            )
            &&& ended is Cancelled ==> shown.progress == d.progress
            &&& !shown.running
            &&& shown.command == d.command
            &&& shown.id == d.id
            &&& shown.job == d.job
        }),
{
}

/// Whether an outcome is the right one for a job: it is about the file of the job, and its verdict
/// is that of its digest. There is none exactly where the job has no expected digest, and the file
/// matches exactly where the expected digest is that of the file, but for white space around it and
/// the case of its letters.
pub open spec fn does_justice(outcome: Outcome, job: Job) -> bool {
    &&& outcome.path == job.dest
    &&& outcome.verified == Verification::Skipped <==> job.expected_sha256 is None
    &&& outcome.verified == Verification::Matched <==> job.expected_sha256 is Some
        && text::same_ignoring_ascii_case(
        text::trim(job.expected_sha256->0@),
        outcome.sha256@,
    )
}

/// Whatever the events of an attempt at a job: where it completes, the download is shown as done,
/// with the file of the job and the digest that was computed of it. It is shown as skipped exactly
/// where the job has no expected digest, and as matched only where it has one and the file has it.
pub proof fn a_done_download_is_judged_by_its_digest(
    d: DownloadState,
    a: Attempt,
    events: Seq<Event>,
)
    requires
        a.stage is Preparing,
        a.path == d.job.dest,
        a.expected == d.job.expected_sha256,
        all_accepted(a, events),
        events.len() > 0,
        last_step(a, events).action is Finish,
        last_step(a, events).action->Finish_0 is Completed,
    ensures
        ({
            let settled = d.after_settle(last_step(a, events).action->Finish_0);
            let n = events.len();
            &&& settled.progress is Done
            &&& does_justice(settled.progress->Done_0, d.job)
            &&& events[n - 1] == Event::Hashed(Ok(settled.progress->Done_0.sha256)) || (n >= 2
                && events[n - 2] == Event::Hashed(Ok(settled.progress->Done_0.sha256)))
        }),
{
    let outcome = last_step(a, events).action->Finish_0->Completed_0;
    every_end_has_its_cause(a, events);
    the_last_event_comes_last(a, events);
    let before = events.drop_last();
    attempts_keep_their_job(a, before);
    events_keep_wf(a, before);
    what_completes_was_verified(after_all(a, before), events.last(), outcome);
}

proof fn attempts_keep_their_job(a: Attempt, events: Seq<Event>)
    ensures
        after_all(a, events).path == a.path,
        after_all(a, events).expected == a.expected,
    decreases events.len(),
{
    if events.len() > 0 {
        attempts_keep_their_job(after(a, events.first()), events.drop_first());
    }
}

/// The verdict on a digest: none where nothing is expected, else whether the expected digest is the
/// one that was found, but for white space around it and the case of its letters.
pub proof fn a_verdict_is_about_the_expected_digest(a: Attempt, sha256: String)
    ensures
        a.expected is None <==> a.verdict(sha256) == Verification::Skipped,
        a.verdict(sha256) == Verification::Matched <==> a.expected is Some
            && text::same_ignoring_ascii_case(text::trim(a.expected->0@), sha256@),
        digest::text_of(a.expected) == match a.expected {
            Some(expected) => Some(expected@),
            None => None,
        },
{
}

/// A download with a content is shown as matched exactly where the expected digest is that of the
/// content, and never where there is none.
pub proof fn a_done_download_is_judged_by_its_content(
    d: DownloadState,
    a: Attempt,
    content: Seq<u8>,
    sha256: String,
)
    requires
        a.stage is Hashing,
        a.path == d.job.dest,
        a.expected == d.job.expected_sha256,
        sha256@ == text::hex(digest::sha256(content)),
    ensures
        ({
            let action = a.transition(Event::Hashed(Ok(sha256))).1.action;
            let shown = d.after_settle(action->Finish_0).progress;
            &&& a.accepted(Event::Hashed(Ok(sha256)))
            &&& action is Finish
            &&& shown is Done
            &&& shown->Done_0.path == d.job.dest
            &&& shown->Done_0.bytes == a.stage->Hashing_received
            &&& shown->Done_0.sha256 == sha256
            &&& shown->Done_0.verified == match d.job.expected_sha256 {
                None => Verification::Skipped,
                Some(expected) => if text::same_ignoring_ascii_case(
                    text::trim(expected@),
                    text::hex(digest::sha256(content)),
                ) {
                    Verification::Matched
                } else {
                    Verification::Mismatch
                },
            }
        }),
{
}

/// Where the worker ends up with a download, after any attempt at its job: it is shown as done,
/// paused or failed exactly where the attempt was completed, paused or failed, and a pause or a
/// cancellation was the wish of the user.
pub proof fn a_download_is_stopped_by_its_user_alone(
    d: DownloadState,
    a: Attempt,
    events: Seq<Event>,
)
    requires
        a.stage is Preparing,
        all_accepted(a, events),
        events.len() > 0,
        last_step(a, events).action is Finish,
    ensures
        ({
            let ended = last_step(a, events).action->Finish_0;
            let n = events.len();
            let settled = d.after_settle(ended);
            &&& !(ended is Cancelled) && settled.progress is Paused ==> n >= 2 && events[n - 2]
                == Event::Commanded(Command::Pause)
            &&& ended is Cancelled ==> n >= 2 && events[n - 2] == Event::Commanded(Command::Cancel)
            &&& !(ended is Cancelled) && settled.progress is Done <==> ended is Completed
        }),
{
    every_end_has_its_cause(a, events);
}

/// A new download waits for its turn: nothing was asked for but that it run, and no worker has it.
pub proof fn a_new_download_waits_for_its_turn(id: u64, job: Job)
    ensures
        ({
            let d = DownloadState::fresh(id, job);
            &&& d.id == id
            &&& d.job == job
            &&& d.command == Command::Run
            &&& !d.running
            &&& d.progress is Queued
            &&& d.beginning() == Begin::Attempt
        }),
{
}

/// A wish of the user to pause or to cancel is noted and changes nothing else. A cancellation needs
/// a worker exactly where none has the download and it is neither done nor cancelled already.
pub proof fn a_wish_is_noted_alone(d: DownloadState)
    ensures
        d.after_pause().command == Command::Pause,
        d.after_cancel().command == Command::Cancel,
        d.after_pause().id == d.id && d.after_cancel().id == d.id,
        d.after_pause().job == d.job && d.after_cancel().job == d.job,
        d.after_pause().running == d.running && d.after_cancel().running == d.running,
        d.after_pause().progress == d.progress && d.after_cancel().progress == d.progress,
        d.cancel_wakes() <==> !d.running && !(d.progress is Done) && !(d.progress is Cancelled),
{
}

/// A resumption puts a paused or failed download, and no other, back to where it waits for its turn;
/// elsewhere it takes back a pause that was not seen to yet, unless the download is done or
/// cancelled, and changes nothing else.
pub proof fn a_resumption_takes_up_what_stopped(d: DownloadState)
    ensures
        ({
            let r = d.after_resume();
            let stopped = d.progress is Paused || d.progress is Failed;
            let over = d.progress is Done || d.progress is Cancelled;
            &&& d.progress.resumable() <==> stopped
            &&& d.progress.finished() <==> over
            &&& stopped ==> r.progress is Queued
            &&& !stopped ==> r.progress == d.progress
            &&& stopped || (d.command == Command::Pause && !over) ==> r.command == Command::Run
            &&& !stopped && (d.command != Command::Pause || over) ==> r.command == d.command
            &&& r.running == d.running
            &&& r.id == d.id
            &&& r.job == d.job
        }),
{
}

/// A worker that takes a download does what the user last asked for: it attempts it where it is to
/// run, and only then counts as running it, looks up what is on disk where it is to be paused, and
/// removes that where it is to be cancelled. Nothing else of the download changes.
pub proof fn a_worker_does_what_was_asked_for(d: DownloadState)
    ensures
        d.beginning() == Begin::Attempt <==> d.command == Command::Run,
        d.beginning() == Begin::MeasurePartial <==> d.command == Command::Pause,
        d.beginning() == Begin::RemovePartial <==> d.command == Command::Cancel,
        d.after_begin().running <==> d.running || d.command == Command::Run,
        d.after_begin().command == d.command,
        d.after_begin().progress == d.progress,
        d.after_begin().id == d.id,
        d.after_begin().job == d.job,
{
}

/// What is shown of a download can be changed without changing anything else.
pub proof fn showing_changes_what_is_shown_alone(d: DownloadState, progress: Progress)
    ensures
        d.showing(progress).progress == progress,
        d.showing(progress).command == d.command,
        d.showing(progress).running == d.running,
        d.showing(progress).id == d.id,
        d.showing(progress).job == d.job,
{
}

} // verus!
