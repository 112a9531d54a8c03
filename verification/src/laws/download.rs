//! What holds of the life of a download.

use crate::attempt::AttemptOutcome;
use crate::download::{Begin, Command, DownloadState};
use crate::progress::{Outcome, Progress};
use vstd::prelude::*;

verus! {

/// One move of the user or of a worker.
pub enum Move {
    Pause,
    Resume,
    Cancel,
    Begin,
    Show(Progress),
    Settle(AttemptOutcome),
}

/// The download after a move. `Download::parked` and `Download::discarded` are moves to another
/// progress.
pub open spec fn after(d: DownloadState, m: Move) -> DownloadState {
    match m {
        Move::Pause => d.after_pause(),
        Move::Resume => d.after_resume(),
        Move::Cancel => d.after_cancel(),
        Move::Begin => d.after_begin(),
        Move::Show(progress) => d.showing(progress),
        Move::Settle(outcome) => d.after_settle(outcome),
    }
}

/// The download after some moves, the first one first.
pub open spec fn after_all(d: DownloadState, moves: Seq<Move>) -> DownloadState
    decreases moves.len(),
{
    if moves.len() == 0 {
        d
    } else {
        after_all(after(d, moves.first()), moves.drop_first())
    }
}

/// No move changes the number of a download or its job.
pub proof fn identity_is_kept(d: DownloadState, moves: Seq<Move>)
    ensures
        after_all(d, moves).id == d.id,
        after_all(d, moves).job == d.job,
    decreases moves.len(),
{
    if moves.len() > 0 {
        identity_is_kept(after(d, moves.first()), moves.drop_first());
    }
}

/// No wish of the user changes what is shown of a finished download, or puts it on the queue.
pub proof fn a_finished_download_stays_finished(d: DownloadState)
    requires
        d.progress.finished(),
    ensures
        d.after_pause().progress == d.progress,
        d.after_resume() == d,
        d.after_cancel().progress == d.progress,
        !d.progress.resumable(),
        !d.cancel_wakes(),
{
}

/// The last of several wishes counts, on every download that is not finished: a resumption takes
/// back a pause, whether it was carried out or not. A cancellation that was not carried out yet is
/// not taken back, except on a download that waits for a resumption.
pub proof fn the_last_wish_counts(d: DownloadState)
    ensures
        d.after_pause().after_cancel() == d.after_cancel(),
        d.after_cancel().after_pause() == d.after_pause(),
        d.after_pause().after_pause() == d.after_pause(),
        d.after_cancel().after_cancel() == d.after_cancel(),
        !d.progress.finished() ==> d.after_pause().after_resume().command == Command::Run,
        !d.progress.finished() ==> d.after_pause().after_resume().beginning() == Begin::Attempt,
        d.progress.resumable() ==> d.after_pause().after_resume() == d.after_resume(),
        d.progress.resumable() ==> d.after_cancel().after_resume() == d.after_resume(),
        !d.progress.resumable() ==> d.after_cancel().after_resume() == d.after_cancel(),
{
}

/// A pause that no worker has seen to yet is taken back by a resumption: a download that was to
/// run is then just as it was, and is not queued a second time.
pub proof fn a_pending_pause_is_taken_back(d: DownloadState)
    requires
        !d.progress.resumable(),
        !d.progress.finished(),
    ensures
        d.after_pause().after_resume() == (DownloadState { command: Command::Run, ..d }),
        d.command == Command::Run ==> d.after_pause().after_resume() == d,
        !d.after_pause().progress.resumable(),
{
}

/// A download that was resumed is not queued a second time by another resumption.
pub proof fn a_second_resumption_does_nothing(d: DownloadState)
    ensures
        d.progress.resumable() ==> !d.after_resume().progress.resumable(),
        d.after_resume().after_resume() == d.after_resume(),
{
}

/// A download that is cancelled while no worker attempts it ends as cancelled: it is put on the
/// queue unless it is finished already, the worker removes what is on disk and shows it as
/// cancelled, and it cannot be resumed.
pub proof fn an_idle_download_can_be_cancelled(d: DownloadState)
    requires
        !d.running,
        !d.progress.finished(),
    ensures
        d.cancel_wakes(),
        d.after_cancel().beginning() == Begin::RemovePartial,
        ({
            let gone = d.after_cancel().after_begin().showing(Progress::Cancelled);
            &&& !gone.running
            &&& gone.progress.finished()
            &&& gone.after_resume() == gone
        }),
{
}

/// A download whose attempt was cancelled ends as cancelled, too, once what is on disk is gone.
pub proof fn a_running_download_can_be_cancelled(d: DownloadState)
    requires
        d.running,
    ensures
        !d.cancel_wakes(),
        ({
            let gone = d.after_cancel().after_settle(AttemptOutcome::Cancelled).showing(
                Progress::Cancelled,
            );
            &&& !gone.running
            &&& gone.progress.finished()
            &&& gone.after_resume() == gone
        }),
{
}

/// A resumption undoes a pause: a download that is paused before its turn is parked with what is
/// on disk, and once resumed it waits in the queue to be attempted, as if it were new.
pub proof fn a_resumption_undoes_a_pause(d: DownloadState, received: u64)
    requires
        d == DownloadState::fresh(d.id, d.job),
    ensures
        d.after_pause().beginning() == Begin::MeasurePartial,
        ({
            let parked = d.after_pause().after_begin().showing(
                Progress::Paused { received, total: None },
            );
            &&& parked.progress.resumable()
            &&& parked.after_resume() == d
            &&& parked.after_resume().beginning() == Begin::Attempt
        }),
{
}

/// A download whose attempt was paused or failed can be resumed, and is then attempted again; one
/// that was completed cannot.
pub proof fn an_interrupted_download_can_be_resumed(
    d: DownloadState,
    received: u64,
    total: Option<u64>,
    error: String,
    outcome: Outcome,
)
    ensures
        ({
            let paused = d.after_settle(AttemptOutcome::Paused { received, total });
            &&& paused.progress.resumable()
            &&& paused.after_resume() == DownloadState::fresh(d.id, d.job)
            &&& paused.after_resume().beginning() == Begin::Attempt
        }),
        ({
            let failed = d.after_settle(AttemptOutcome::Failed(error));
            &&& failed.progress.resumable()
            &&& failed.after_resume() == DownloadState::fresh(d.id, d.job)
            &&& failed.after_resume().beginning() == Begin::Attempt
        }),
        ({
            let done = d.after_settle(AttemptOutcome::Completed(outcome));
            &&& done.progress.finished()
            &&& done.after_resume() == done
        }),
{
}

/// A worker attempts a download exactly where the user wants it to run, and it is idle again
/// when the attempt is over.
pub proof fn an_attempt_is_bracketed(d: DownloadState, outcome: AttemptOutcome)
    ensures
        d.beginning() == Begin::Attempt <==> d.command == Command::Run,
        d.beginning() == Begin::Attempt ==> d.after_begin().running,
        !d.after_settle(outcome).running,
{
}

} // verus!
