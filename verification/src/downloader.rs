//! The source of downloads.

use crate::batch::Batch;
use crate::download::{Download, DownloadState};
use crate::job::Job;
use crate::settings::Settings;
use vstd::prelude::*;

verus! {

/// Numbers the downloads, and knows how many threads and workers there are.
#[derive(Debug)]
pub struct Downloader {
    next_id: u64,
    worker_threads: usize,
    max_concurrent: usize,
}

/// What a downloader is.
pub struct DownloaderState {
    /// The number of the next download.
    pub next_id: u64,
    /// The worker threads of the runtime.
    pub worker_threads: usize,
    /// The workers, which is to say the downloads that run at once.
    pub max_concurrent: usize,
}

/// The number of the download that is enqueued `n` downloads after number `first`.
pub open spec fn id_after(first: u64, n: nat) -> u64 {
    ((first + n) % 0x1_0000_0000_0000_0000) as u64
}

impl View for Downloader {
    type V = DownloaderState;

    closed spec fn view(&self) -> DownloaderState {
        DownloaderState {
            next_id: self.next_id,
            worker_threads: self.worker_threads,
            max_concurrent: self.max_concurrent,
        }
    }
}

impl Downloader {
    /// A downloader with these settings, on a machine that runs `available` threads in parallel,
    /// or that does not say how many. There is at least one thread and at least one worker.
    pub fn new(settings: Settings, available: Option<usize>) -> (downloader: Downloader)
        requires
            available != Some(0usize),
        ensures
            downloader@ == (DownloaderState {
                next_id: 1,
                worker_threads: settings.threads.count(available),
                max_concurrent: if settings.max_concurrent > 1 {
                    settings.max_concurrent
                } else {
                    1
                },
            }),
            downloader@.worker_threads >= 1,
            downloader@.max_concurrent >= 1,
    {
        let max_concurrent: usize = if settings.max_concurrent > 1 {
            settings.max_concurrent
        } else {
            1
        };
        Downloader {
            next_id: 1,
            worker_threads: settings.threads.resolve(available),
            max_concurrent,
        }
    }

    /// The worker threads of the runtime.
    pub fn worker_threads(&self) -> (n: usize)
        ensures
            n == self@.worker_threads,
    {
        self.worker_threads
    }

    /// The downloads that run at once.
    pub fn max_concurrent(&self) -> (n: usize)
        ensures
            n == self@.max_concurrent,
    {
        self.max_concurrent
    }

    /// A download of the job, with the next number. It is to be put on the queue.
    pub fn enqueue(&mut self, job: Job) -> (download: Download)
        ensures
            download@ == DownloadState::fresh(old(self)@.next_id, job),
            final(self)@ == (DownloaderState {
                next_id: id_after(old(self)@.next_id, 1),
                ..old(self)@
            }),
    {
        let id: u64 = self.next_id;
        self.next_id = id.wrapping_add(1);
        Download::new(id, job)
    }

    /// Downloads of the jobs, in their order and with consecutive numbers. Each is to be put on
    /// the queue.
    pub fn enqueue_batch(&mut self, jobs: Vec<Job>) -> (batch: Batch)
        ensures
            batch@ == Seq::new(
                jobs@.len(),
                |i: int| DownloadState::fresh(id_after(old(self)@.next_id, i as nat), jobs@[i]),
            ),
            final(self)@ == (DownloaderState {
                next_id: id_after(old(self)@.next_id, jobs@.len()),
                ..old(self)@
            }),
    {
        let ghost first = self@.next_id;
        let mut downloads: Vec<Download> = Vec::new();
        for job in iter: jobs
            invariant
                iter.seq() == jobs@,
                downloads@.len() == iter.index(),
                forall|i: int|
                    0 <= i < downloads@.len() ==> (#[trigger] downloads@[i])@
                        == DownloadState::fresh(id_after(first, i as nat), jobs@[i]),
                self@ == (DownloaderState {
                    next_id: id_after(first, downloads@.len()),
                    ..old(self)@
                }),
        {
            let download: Download = self.enqueue(job);
            downloads.push(download);
        }
        let batch: Batch = Batch::new(downloads);
        assert(batch@ == Seq::new(
            jobs@.len(),
            |i: int| DownloadState::fresh(id_after(first, i as nat), jobs@[i]),
        ));
        batch
    }
}

/// No two of fewer than 2 to the 64 downloads have the same number.
pub proof fn ids_are_distinct(first: u64, i: nat, j: nat)
    requires
        i < j < i + 0x1_0000_0000_0000_0000,
    ensures
        id_after(first, i) != id_after(first, j),
{
    let m: int = 0x1_0000_0000_0000_0000;
    let a = (first + i) as int;
    let b = (first + j) as int;
    if a % m == b % m {
        vstd::arithmetic::div_mod::lemma_fundamental_div_mod(a, m);
        vstd::arithmetic::div_mod::lemma_fundamental_div_mod(b, m);
        assert(b - a == m * (b / m) - m * (a / m));
        assert(b - a == m * (b / m - a / m)) by (nonlinear_arith)
            requires
                b - a == m * (b / m) - m * (a / m),
        ;
        assert(false) by (nonlinear_arith)
            requires
                0 < b - a < m,
                b - a == m * (b / m - a / m),
        ;
    }
}

} // verus!
