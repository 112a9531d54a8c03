//! What the wishes of the user come to in a running transfer, and what becomes of one that broke off.

use crate::attempt::{Action, Attempt, AttemptOutcome, Event, Response, Stage, Transfer};
use crate::download::{Begin, Command, DownloadState};
use crate::laws::attempt::{a_range_continues_the_file, after, goes_on_from};
use crate::progress::Progress;
use crate::speed::Speed;
use vstd::prelude::*;

verus! {

/// Whether an attempt that finds so many bytes on disk is shown with the total that the transfer
/// before it had, where the response is the rest of a file of that size.
pub open spec fn keeps_the_total(t: Transfer, again: Attempt, size: u64, response: Response) -> bool {
    let opening = after(after(again, Event::Measured(size)), Event::Responded(Ok(response)));
    t.total is Some && response.content_length is Some && size + response.content_length->0
        == t.total->0 ==> opening.transition(Event::Opened(Ok(()))).1.publish == Some(
        Progress::Downloading { received: size, total: t.total, speed: Speed { bits: 0 } },
    )
}

/// A running transfer that is paused is shown as paused with the exact count. Once resumed it is
/// attempted again and goes on from that count where the server sends the rest, with the total that
/// it had.
pub proof fn a_transfer_is_paused_and_resumed(
    d: DownloadState,
    a: Attempt,
    t: Transfer,
    flushed: Result<(), String>,
    again: Attempt,
    response: Response,
)
    requires
        d.running,
        a.stage == Stage::Polling(t),
        again.stage is Measuring,
        t.received > 0 ==> response.status == 206,
        response.rejected is None,
        response.content_length is Some ==> t.received + response.content_length->0 <= u64::MAX,
    ensures
        ({
            let wish = Event::Commanded(d.after_pause().command);
            let stopping = after(a, wish);
            let outcome = AttemptOutcome::Paused { received: t.received, total: t.total };
            let paused = d.after_pause().after_settle(outcome);
            &&& a.accepted(wish)
            &&& stopping.accepted(Event::Flushed(flushed))
            &&& stopping.transition(Event::Flushed(flushed)).1.action == Action::Finish(outcome)
            &&& paused.progress == Progress::Paused { received: t.received, total: t.total }
            &&& paused.after_resume() == DownloadState::fresh(d.id, d.job)
            &&& paused.after_resume().beginning() == Begin::Attempt
            &&& goes_on_from(again, t.received, response)
            &&& keeps_the_total(t, again, t.received, response)
        }),
{
    a_range_continues_the_file(again, t.received, response);
}

/// A running transfer whose pause is taken back before the worker looks goes on as if nothing had
/// been asked for.
pub proof fn a_transfer_goes_on_when_a_pause_is_taken_back(d: DownloadState, a: Attempt, t: Transfer)
    requires
        d.command == Command::Run,
        d.progress is Downloading,
        a.stage == Stage::Polling(t),
    ensures
        d.after_pause().after_resume() == d,
        ({
            let wish = Event::Commanded(d.after_pause().after_resume().command);
            &&& a.accepted(wish)
            &&& a.transition(wish).1.action == Action::Fetch
            &&& after(a, wish).stage == Stage::Fetching(t)
        }),
{
}

/// A running transfer that breaks off fails with the reason given, whatever the flush comes to.
/// Once resumed it is attempted again and goes on from what is on disk where the server sends the
/// rest, with the total that it had.
pub proof fn a_broken_transfer_is_resumed(
    d: DownloadState,
    a: Attempt,
    t: Transfer,
    error: String,
    flushed: Result<(), String>,
    again: Attempt,
    on_disk: u64,
    response: Response,
)
    requires
        d.running,
        a.stage == Stage::Fetching(t),
        again.stage is Measuring,
        on_disk > 0 ==> response.status == 206,
        response.rejected is None,
        response.content_length is Some ==> on_disk + response.content_length->0 <= u64::MAX,
    ensures
        ({
            let broken = Event::StreamFailed(error);
            let stopping = after(a, broken);
            let outcome = AttemptOutcome::Failed(error);
            let failed = d.after_settle(outcome);
            &&& a.accepted(broken)
            &&& a.transition(broken).1.action == Action::Flush
            &&& stopping.accepted(Event::Flushed(flushed))
            &&& stopping.transition(Event::Flushed(flushed)).1.action == Action::Finish(outcome)
            &&& failed.progress == Progress::Failed(error)
            &&& failed.after_resume() == DownloadState::fresh(d.id, d.job)
            &&& failed.after_resume().beginning() == Begin::Attempt
            &&& goes_on_from(again, on_disk, response)
            &&& keeps_the_total(t, again, on_disk, response)
        }),
{
    a_range_continues_the_file(again, on_disk, response);
}

/// A running transfer that is cancelled stops before its next chunk, and once what was written is
/// removed the download is shown as cancelled and cannot be resumed.
pub proof fn a_transfer_is_cancelled(
    d: DownloadState,
    a: Attempt,
    t: Transfer,
    flushed: Result<(), String>,
)
    requires
        d.running,
        a.stage == Stage::Polling(t),
    ensures
        ({
            let wish = Event::Commanded(d.after_cancel().command);
            let stopping = after(a, wish);
            let settled = d.after_cancel().after_settle(AttemptOutcome::Cancelled);
            let gone = settled.showing(Progress::Cancelled);
            &&& !d.cancel_wakes()
            &&& a.accepted(wish)
            &&& a.transition(wish).1.action == Action::Flush
            &&& stopping.accepted(Event::Flushed(flushed))
            &&& stopping.transition(Event::Flushed(flushed)).1.action == Action::Finish(
                AttemptOutcome::Cancelled,
            )
            &&& gone.progress.finished()
            &&& !gone.running
            &&& gone.after_resume() == gone
        }),
{
}

} // verus!
