//! What holds of the workers of a downloader, their queue and the downloads they share.

use crate::attempt::AttemptOutcome;
use crate::download::{Begin, DownloadState};
use crate::downloader::DownloaderState;
use crate::job::Job;
use crate::progress::Progress;
use vstd::multiset::Multiset;
use vstd::prelude::*;

verus! {

/// What a worker is at.
pub enum Worker {
    /// It waits on the queue.
    Idle,
    /// It attempts a download.
    Attempting(int),
    /// It removes what is on disk of a cancelled download.
    Removing(int),
    /// It looks up what is on disk of a paused download.
    Measuring(int),
}

impl Worker {
    /// The download that the worker holds, and none of them where it holds none.
    pub open spec fn held(self) -> int {
        match self {
            Worker::Idle => -1,
            Worker::Attempting(i) => i,
            Worker::Removing(i) => i,
            Worker::Measuring(i) => i,
        }
    }
}

/// The workers, the queue they wait on, and all downloads in the order of their arrival.
pub struct Pool {
    pub workers: Seq<Worker>,
    /// The downloads on the queue, each as often as it was put there.
    pub queue: Multiset<int>,
    pub downloads: Seq<DownloadState>,
}

/// One move of a user or of a worker.
pub enum Move {
    /// A job is enqueued.
    Enqueue(u64, Job),
    /// A user asks for something of a download.
    Pause(int),
    Resume(int),
    Cancel(int),
    /// A worker takes a download off the queue: `Download::begin`.
    Take(int, int),
    /// A worker shows how far its attempt has come: `Download::set`.
    Show(int, Progress),
    /// The attempt of a worker is over: `Download::settle`.
    Settle(int, AttemptOutcome),
    /// A worker has removed what was on disk: `Download::discarded`.
    Discard(int),
    /// A worker has looked up what is on disk: `Download::parked`.
    Park(int, u64),
}

impl Pool {
    /// The pool of a new downloader: as many idle workers as downloads may run at once, and an
    /// empty queue.
    pub open spec fn new(downloader: DownloaderState) -> Pool {
        Pool {
            workers: Seq::new(downloader.max_concurrent as nat, |w: int| Worker::Idle),
            queue: Multiset::empty(),
            downloads: Seq::empty(),
        }
    }

    /// Whether the move can be made. A worker takes a download only when it holds none, and only
    /// off the queue.
    pub open spec fn possible(self, m: Move) -> bool {
        match m {
            Move::Enqueue(..) => true,
            Move::Pause(i) => 0 <= i < self.downloads.len(),
            Move::Resume(i) => 0 <= i < self.downloads.len(),
            Move::Cancel(i) => 0 <= i < self.downloads.len(),
            Move::Take(w, i) => 0 <= w < self.workers.len() && self.workers[w] is Idle
                && self.queue.count(i) > 0,
            Move::Show(w, _) => 0 <= w < self.workers.len() && self.workers[w] is Attempting,
            Move::Settle(w, _) => 0 <= w < self.workers.len() && self.workers[w] is Attempting,
            Move::Discard(w) => 0 <= w < self.workers.len() && self.workers[w] is Removing,
            Move::Park(w, _) => 0 <= w < self.workers.len() && self.workers[w] is Measuring,
        }
    }

    /// A download becomes another.
    pub open spec fn with_download(self, i: int, d: DownloadState) -> Pool {
        Pool { downloads: self.downloads.update(i, d), ..self }
    }

    /// A worker turns to something else.
    pub open spec fn with_worker(self, w: int, worker: Worker) -> Pool {
        Pool { workers: self.workers.update(w, worker), ..self }
    }

    /// A download is put on the queue where it is to wake a worker.
    pub open spec fn waking(self, i: int, wake: bool) -> Pool {
        if wake {
            Pool { queue: self.queue.insert(i), ..self }
        } else {
            self
        }
    }

    /// The pool after a move.
    pub open spec fn after(self, m: Move) -> Pool {
        match m {
            Move::Enqueue(id, job) => Pool {
                downloads: self.downloads.push(DownloadState::fresh(id, job)),
                queue: self.queue.insert(self.downloads.len() as int),
                ..self
            },
            Move::Pause(i) => self.with_download(i, self.downloads[i].after_pause()),
            Move::Resume(i) => self.with_download(i, self.downloads[i].after_resume()).waking(
                i,
                self.downloads[i].progress.resumable(),
            ),
            Move::Cancel(i) => self.with_download(i, self.downloads[i].after_cancel()).waking(
                i,
                self.downloads[i].cancel_wakes(),
            ),
            Move::Take(w, i) => {
                let taken = Pool { queue: self.queue.remove(i), ..self };
                taken.with_download(i, self.downloads[i].after_begin()).with_worker(
                    w,
                    match self.downloads[i].beginning() {
                        Begin::Attempt => Worker::Attempting(i),
                        Begin::RemovePartial => Worker::Removing(i),
                        Begin::MeasurePartial => Worker::Measuring(i),
                    },
                )
            },
            Move::Show(w, progress) => {
                let i = self.workers[w].held();
                self.with_download(i, self.downloads[i].showing(progress))
            },
            Move::Settle(w, outcome) => {
                let i = self.workers[w].held();
                self.with_download(i, self.downloads[i].after_settle(outcome)).with_worker(
                    w,
                    if outcome is Cancelled {
                        Worker::Removing(i)
                    } else {
                        Worker::Idle
                    },
                )
            },
            Move::Discard(w) => {
                let i = self.workers[w].held();
                self.with_download(
                    i,
                    self.downloads[i].showing(Progress::Cancelled),
                ).with_worker(w, Worker::Idle)
            },
            Move::Park(w, received) => {
                let i = self.workers[w].held();
                self.with_download(
                    i,
                    self.downloads[i].showing(Progress::Paused { received, total: None }),
                ).with_worker(w, Worker::Idle)
            },
        }
    }

    /// The pool after some moves, the first one first.
    pub open spec fn after_all(self, moves: Seq<Move>) -> Pool
        decreases moves.len(),
    {
        if moves.len() == 0 {
            self
        } else {
            self.after(moves.first()).after_all(moves.drop_first())
        }
    }

    /// Whether each of the moves can be made in its turn.
    pub open spec fn all_possible(self, moves: Seq<Move>) -> bool
        decreases moves.len(),
    {
        moves.len() > 0 ==> {
            &&& self.possible(moves.first())
            &&& self.after(moves.first()).all_possible(moves.drop_first())
        }
    }

    /// Whether some worker holds a download.
    pub open spec fn is_held(self, i: int) -> bool {
        exists|w: int| 0 <= w < self.workers.len() && (#[trigger] self.workers[w]).held() == i
    }

    /// Whether a download runs: a worker attempts it, or what is shown is a transfer or the look at
    /// the file that it left.
    pub open spec fn is_busy(self, i: int) -> bool {
        &&& 0 <= i < self.downloads.len()
        &&& self.downloads[i].running || self.downloads[i].progress is Downloading
            || self.downloads[i].progress is Verifying
    }

    /// The downloads that run.
    pub open spec fn busy(self) -> Set<int> {
        Set::new(|i: int| self.is_busy(i))
    }

    /// Workers hold downloads that there are and the queue holds no others, a running download is
    /// attempted by some worker, one that is shown as running is held by some worker, and one that
    /// is shown as queued is on the queue or held by some worker.
    spec fn wf(self) -> bool {
        &&& forall|i: int|
            #[trigger] self.queue.count(i) > 0 ==> 0 <= i < self.downloads.len()
        &&& forall|i: int|
            0 <= i < self.downloads.len() && (#[trigger] self.downloads[i]).progress is Queued
                ==> self.queue.count(i) > 0 || self.is_held(i)
        &&& forall|w: int|
            0 <= w < self.workers.len() && !((#[trigger] self.workers[w]) is Idle) ==> 0
                <= self.workers[w].held() < self.downloads.len()
        &&& forall|i: int| #[trigger] self.is_busy(i) ==> self.is_held(i)
        &&& forall|i: int|
            0 <= i < self.downloads.len() && (#[trigger] self.downloads[i]).running ==> exists|
                w: int,
            |
                0 <= w < self.workers.len() && #[trigger] self.workers[w] == Worker::Attempting(i)
    }
}

/// A worker that stays as it is still holds what it held.
proof fn a_hold_is_kept(p: Pool, q: Pool, i: int, except: int)
    requires
        p.is_held(i),
        q.workers.len() == p.workers.len(),
        forall|w: int| 0 <= w < p.workers.len() && w != except ==> #[trigger] q.workers[w] == p.workers[w],
        0 <= except < p.workers.len() ==> q.workers[except].held() == p.workers[except].held()
            || p.workers[except].held() != i,
    ensures
        q.is_held(i),
{
    let w = choose|w: int| 0 <= w < p.workers.len() && (#[trigger] p.workers[w]).held() == i;
    assert(q.workers[w].held() == i);
}

proof fn a_move_keeps_wf(p: Pool, m: Move)
    requires
        p.wf(),
        p.possible(m),
    ensures
        p.after(m).wf(),
        p.after(m).workers.len() == p.workers.len(),
{
    let q = p.after(m);
    // The worker and the download that the move is about.
    let except = match m {
        Move::Take(w, _) => w,
        Move::Show(w, _) => w,
        Move::Settle(w, _) => w,
        Move::Discard(w) => w,
        Move::Park(w, _) => w,
        _ => -1,
    };
    assert forall|w: int| 0 <= w < q.workers.len() && !((#[trigger] q.workers[w]) is Idle) implies 0
        <= q.workers[w].held() < q.downloads.len() by {
        assert(p.workers[w] is Idle || 0 <= p.workers[w].held() < p.downloads.len());
    }
    assert forall|i: int| #[trigger] q.is_busy(i) implies q.is_held(i) by {
        if m is Take && i == m->Take_1 {
            assert(q.workers[except].held() == i);
        } else if except >= 0 && i == p.workers[except].held() {
            assert(q.workers[except].held() == i || m is Settle || m is Discard || m is Park);
            if m is Settle && !(m->Settle_1 is Cancelled) {
                assert(!q.downloads[i].running);
                assert(false);
            } else if m is Discard || m is Park {
                // The progress is not that of a running download, so the download is attempted by
                // another worker.
                assert(q.downloads[i].running);
                assert(p.downloads[i].running);
                let w = choose|w: int|
                    0 <= w < p.workers.len() && #[trigger] p.workers[w] == Worker::Attempting(i);
                assert(w != except);
                assert(q.workers[w].held() == i);
            } else {
                assert(q.workers[except].held() == i);
            }
        } else {
            assert(p.is_busy(i));
            a_hold_is_kept(p, q, i, except);
        }
    }
    assert forall|i: int| 0 <= i < q.downloads.len() && (
    #[trigger] q.downloads[i]).progress is Queued implies q.queue.count(i) > 0 || q.is_held(i) by {
        if m is Take && i == m->Take_1 {
            assert(q.workers[except].held() == i);
        } else if except >= 0 && i == p.workers[except].held() {
            assert(q.workers[except].held() == i);
        } else if i < p.downloads.len() && p.downloads[i].progress is Queued {
            if p.is_held(i) {
                a_hold_is_kept(p, q, i, except);
            } else {
                assert(p.queue.count(i) > 0);
            }
        }
    }
    assert forall|i: int| 0 <= i < q.downloads.len() && (
    #[trigger] q.downloads[i]).running implies exists|w: int|
        0 <= w < q.workers.len() && #[trigger] q.workers[w] == Worker::Attempting(i) by {
        if m is Take && i == m->Take_1 && q.workers[except] == Worker::Attempting(i) {
        } else {
            assert(p.downloads[i].running);
            let w = choose|w: int|
                0 <= w < p.workers.len() && #[trigger] p.workers[w] == Worker::Attempting(i);
            assert(q.workers[w] == Worker::Attempting(i));
        }
    }
}

proof fn moves_keep_wf(p: Pool, moves: Seq<Move>)
    requires
        p.wf(),
        p.all_possible(moves),
    ensures
        p.after_all(moves).wf(),
        p.after_all(moves).workers.len() == p.workers.len(),
    decreases moves.len(),
{
    if moves.len() > 0 {
        a_move_keeps_wf(p, moves.first());
        moves_keep_wf(p.after(moves.first()), moves.drop_first());
    }
}

/// No download is lost: whatever users ask for and whatever attempts come to, one that is shown as
/// queued is on the queue or with a worker, one that is shown as running is with a worker, and so
/// every download is on the queue, with a worker, finished, or paused or failed and open to a
/// resumption.
pub proof fn no_download_is_lost(downloader: DownloaderState, moves: Seq<Move>, i: int)
    requires
        Pool::new(downloader).all_possible(moves),
        0 <= i < Pool::new(downloader).after_all(moves).downloads.len(),
    ensures
        ({
            let p = Pool::new(downloader).after_all(moves);
            let progress = p.downloads[i].progress;
            &&& progress is Queued ==> p.queue.count(i) > 0 || p.is_held(i)
            &&& progress is Downloading || progress is Verifying ==> p.is_held(i)
            &&& p.queue.count(i) > 0 || p.is_held(i) || progress.finished() || progress.resumable()
        }),
{
    let start = Pool::new(downloader);
    let p = start.after_all(moves);
    assert(start.wf());
    moves_keep_wf(start, moves);
    assert(p.downloads[i].progress is Downloading || p.downloads[i].progress is Verifying
        ==> p.is_busy(i));
}

/// The workers are the limit: whatever users ask for and whatever attempts come to, no more
/// downloads of a downloader run at once than its settings allow.
pub proof fn no_more_run_than_there_are_workers(downloader: DownloaderState, moves: Seq<Move>)
    requires
        Pool::new(downloader).all_possible(moves),
    ensures
        Pool::new(downloader).after_all(moves).workers.len() == downloader.max_concurrent,
        Pool::new(downloader).after_all(moves).busy().finite(),
        Pool::new(downloader).after_all(moves).busy().len() <= downloader.max_concurrent,
{
    let start = Pool::new(downloader);
    let p = start.after_all(moves);
    assert(start.wf());
    moves_keep_wf(start, moves);
    let held = p.workers.map_values(|worker: Worker| worker.held());
    held.lemma_cardinality_of_set();
    assert forall|i: int| p.busy().contains(i) implies held.to_set().contains(i) by {
        assert(p.is_busy(i));
        let w = choose|w: int| 0 <= w < p.workers.len() && (#[trigger] p.workers[w]).held() == i;
        assert(held[w] == i);
    }
    vstd::set_lib::lemma_len_subset(p.busy(), held.to_set());
}

} // verus!
