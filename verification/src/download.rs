//! A download, the wishes of its user and the moves of its worker.

use crate::attempt::AttemptOutcome;
use crate::job::Job;
use crate::progress::Progress;
use vstd::prelude::*;

verus! {

/// What the user last asked for.
#[derive(Clone, Copy, Debug, PartialEq, Eq, Structural)]
pub enum Command {
    Run,
    Pause,
    Cancel,
}

/// What a worker does with a download that it takes off the queue.
#[derive(Clone, Copy, Debug, PartialEq, Eq, Structural)]
pub enum Begin {
    /// Remove what is on disk, then report with `Download::discarded`.
    RemovePartial,
    /// Look up the size of what is on disk, then report it with `Download::parked`.
    MeasurePartial,
    /// Attempt the download, then report with `Download::settle`.
    Attempt,
}

/// What a worker does when an attempt is over.
#[derive(Clone, Copy, Debug, PartialEq, Eq, Structural)]
pub enum Settled {
    /// Nothing: the outcome is shown.
    Shown,
    /// Remove what is on disk, then report with `Download::discarded`.
    RemovePartial,
}

/// A download.
#[derive(Clone, Debug)]
pub struct Download {
    id: u64,
    job: Job,
    command: Command,
    running: bool,
    progress: Progress,
}

/// What a download is.
pub struct DownloadState {
    pub id: u64,
    pub job: Job,
    /// What the user last asked for.
    pub command: Command,
    /// Whether a worker attempts the download.
    pub running: bool,
    /// What is shown of the download.
    pub progress: Progress,
}

impl DownloadState {
    /// A download that waits for a worker.
    pub open spec fn fresh(id: u64, job: Job) -> DownloadState {
        DownloadState {
            id,
            job,
            command: Command::Run,
            running: false,
            progress: Progress::Queued,
        }
    }

    /// Another progress is shown.
    pub open spec fn showing(self, progress: Progress) -> DownloadState {
        DownloadState { progress, ..self }
    }

    /// After `Download::pause`.
    pub open spec fn after_pause(self) -> DownloadState {
        DownloadState { command: Command::Pause, ..self }
    }

    /// After `Download::resume`. A paused or failed download waits in the queue again; a pause that
    /// was not carried out yet is taken back.
    pub open spec fn after_resume(self) -> DownloadState {
        if self.progress.resumable() {
            DownloadState { command: Command::Run, progress: Progress::Queued, ..self }
        } else if self.command == Command::Pause && !self.progress.finished() {
            DownloadState { command: Command::Run, ..self }
        } else {
            self
        }
    }

    /// After `Download::cancel`.
    pub open spec fn after_cancel(self) -> DownloadState {
        DownloadState { command: Command::Cancel, ..self }
    }

    /// Whether a cancellation needs a worker to carry it out.
    pub open spec fn cancel_wakes(self) -> bool {
        !self.running && !self.progress.finished()
    }

    /// What a worker does with the download.
    pub open spec fn beginning(self) -> Begin {
        match self.command {
            Command::Cancel => Begin::RemovePartial,
            Command::Pause => Begin::MeasurePartial,
            Command::Run => Begin::Attempt,
        }
    }

    /// After `Download::begin`.
    pub open spec fn after_begin(self) -> DownloadState {
        match self.command {
            Command::Run => DownloadState { running: true, ..self },
            _ => self,
        }
    }

    /// After `Download::settle`.
    pub open spec fn after_settle(self, outcome: AttemptOutcome) -> DownloadState {
        let idle = DownloadState { running: false, ..self };
        match outcome {
            AttemptOutcome::Completed(outcome) => idle.showing(Progress::Done(outcome)),
            AttemptOutcome::Paused { received, total } => idle.showing(
                Progress::Paused { received, total },
            ),
            AttemptOutcome::Cancelled => idle,
            AttemptOutcome::Failed(error) => idle.showing(Progress::Failed(error)),
        }
    }
}

impl View for Download {
    type V = DownloadState;

    closed spec fn view(&self) -> DownloadState {
        DownloadState {
            id: self.id,
            job: self.job,
            command: self.command,
            running: self.running,
            progress: self.progress,
        }
    }
}

impl Download {
    /// A download that waits for a worker.
    pub fn new(id: u64, job: Job) -> (download: Download)
        ensures
            download@ == DownloadState::fresh(id, job),
    {
        Download { id, job, command: Command::Run, running: false, progress: Progress::Queued }
    }

    /// The number of the download.
    pub fn id(&self) -> (id: u64)
        ensures
            id == self@.id,
    {
        self.id
    }

    /// What is downloaded.
    pub fn job(&self) -> (job: &Job)
        ensures
            *job == self@.job,
    {
        &self.job
    }

    /// What is shown of the download.
    pub fn progress(&self) -> (progress: &Progress)
        ensures
            *progress == self@.progress,
    {
        &self.progress
    }

    /// What the user last asked for.
    pub fn command(&self) -> (command: Command)
        ensures
            command == self@.command,
    {
        self.command
    }

    /// Asks for a pause. The worker sees to it between two chunks.
    pub fn pause(&mut self)
        ensures
            final(self)@ == old(self)@.after_pause(),
    {
        self.command = Command::Pause;
    }

    /// Queues a paused or failed download again, and says whether it is to be put on the queue. A
    /// download that is neither is on the queue or with a worker already, or finished: of a pause
    /// that no worker has seen to yet, all that is needed is to take it back.
    pub fn resume(&mut self) -> (wake: bool)
        ensures
            wake == old(self)@.progress.resumable(),
            final(self)@ == old(self)@.after_resume(),
    {
        if matches!(self.progress, Progress::Paused { .. } | Progress::Failed(_)) {
            self.command = Command::Run;
            self.progress = Progress::Queued;
            true
        } else {
            if self.command == Command::Pause && !self.progress.is_finished() {
                self.command = Command::Run;
            }
            false
        }
    }

    /// Asks for the end of the download, and says whether it is to be put on the queue for a
    /// worker to see to it.
    pub fn cancel(&mut self) -> (wake: bool)
        ensures
            wake == old(self)@.cancel_wakes(),
            final(self)@ == old(self)@.after_cancel(),
    {
        self.command = Command::Cancel;
        !self.running && !self.progress.is_finished()
    }

    /// Shows another progress.
    pub fn set(&mut self, progress: Progress)
        ensures
            final(self)@ == old(self)@.showing(progress),
    {
        self.progress = progress;
    }

    /// A worker takes the download off the queue.
    pub fn begin(&mut self) -> (begin: Begin)
        ensures
            begin == old(self)@.beginning(),
            final(self)@ == old(self)@.after_begin(),
    {
        match self.command {
            Command::Cancel => Begin::RemovePartial,
            Command::Pause => Begin::MeasurePartial,
            Command::Run => {
                self.running = true;
                Begin::Attempt
            },
        }
    }

    /// The download was paused before it was attempted, with so much on disk.
    pub fn parked(&mut self, received: u64)
        ensures
            final(self)@ == old(self)@.showing(Progress::Paused { received, total: None }),
    {
        self.progress = Progress::Paused { received, total: None };
    }

    /// What was on disk of a cancelled download is gone.
    pub fn discarded(&mut self)
        ensures
            final(self)@ == old(self)@.showing(Progress::Cancelled),
    {
        self.progress = Progress::Cancelled;
    }

    /// An attempt is over.
    pub fn settle(&mut self, outcome: AttemptOutcome) -> (settled: Settled)
        ensures
            settled == (if outcome is Cancelled {
                Settled::RemovePartial
            } else {
                Settled::Shown
            }),
            final(self)@ == old(self)@.after_settle(outcome),
    {
        self.running = false;
        match outcome {
            AttemptOutcome::Completed(outcome) => {
                self.progress = Progress::Done(outcome);
                Settled::Shown
            },
            AttemptOutcome::Paused { received, total } => {
                self.progress = Progress::Paused { received, total };
                Settled::Shown
            },
            AttemptOutcome::Cancelled => Settled::RemovePartial,
            AttemptOutcome::Failed(error) => {
                self.progress = Progress::Failed(error);
                Settled::Shown
            },
        }
    }
}

} // verus!
