use async_downloader::attempt::AttemptOutcome;
use async_downloader::batch::accumulate_total;
use async_downloader::download::Command;
use async_downloader::{
    Batch, BatchProgress, Download, Job, Outcome, Progress, Ratio, Speed, Verification,
};

fn showing(progress: Progress) -> Download {
    let mut download: Download = Download::new(1, Job::new("u", "d"));
    download.set(progress);
    download
}

fn done(bytes: u64) -> Download {
    judged(bytes, Verification::Matched)
}

fn judged(bytes: u64, verified: Verification) -> Download {
    let mut download: Download = Download::new(1, Job::new("u", "d"));
    download.begin();
    download.settle(AttemptOutcome::Completed(Outcome {
        path: "d".into(),
        bytes,
        sha256: String::new(),
        verified,
    }));
    download
}

fn running(received: u64, total: Option<u64>, speed: f64) -> Download {
    showing(Progress::Downloading {
        received,
        total,
        speed: Speed::from_bits(speed.to_bits()),
    })
}

fn failed() -> Download {
    showing(Progress::Failed("x".to_owned()))
}

fn paused(received: u64, total: Option<u64>) -> Download {
    showing(Progress::Paused { received, total })
}

fn of(downloads: Vec<Download>) -> BatchProgress {
    let batch: Batch = Batch::new(downloads);
    assert!(batch.fits());
    batch.progress()
}

fn share(progress: &BatchProgress) -> Option<(u64, u64)> {
    progress
        .fraction()
        .map(|r: Ratio| (r.numerator, r.denominator))
}

#[test]
fn totals_are_added_while_they_are_known() {
    let mut acc: Option<u64> = Some(3);
    accumulate_total(&mut acc, Some(4));
    assert_eq!(acc, Some(7));
    accumulate_total(&mut acc, None);
    assert_eq!(acc, None);
    accumulate_total(&mut acc, Some(4));
    assert_eq!(acc, None);
}

#[test]
fn a_batch_sums_up_its_downloads() {
    let progress: BatchProgress = of(vec![
        done(10),
        running(5, Some(20), 1.5),
        paused(2, Some(30)),
        showing(Progress::Cancelled),
        running(1, Some(4), 2.5),
    ]);
    assert_eq!(progress.files, 5);
    assert_eq!(progress.done, 1);
    assert_eq!(progress.failed, 0);
    assert_eq!(progress.cancelled, 1);
    assert_eq!(progress.bytes_received, 18);
    assert_eq!(progress.bytes_total, Some(64));
    let speeds: Vec<f64> = progress.speeds.iter().map(|s| f64::from_bits(s.bits)).collect();
    assert_eq!(speeds, vec![1.5, 2.5]);
    assert_eq!(progress.settled(), 2);
    assert!(!progress.is_complete());
    assert!(!progress.all_done());
    assert_eq!(share(&progress), Some((18, 64)));
}

#[test]
fn one_unknown_size_hides_the_total() {
    for unknown in [
        showing(Progress::Queued),
        showing(Progress::Verifying),
        failed(),
        running(1, None, 0.0),
        paused(1, None),
    ] {
        assert_eq!(of(vec![done(5), unknown.clone()]).bytes_total, None);
        assert_eq!(of(vec![unknown, done(5)]).bytes_total, None);
    }
}

#[test]
fn without_a_total_the_files_are_counted() {
    let progress: BatchProgress = of(vec![done(5), failed(), showing(Progress::Queued)]);
    assert_eq!(share(&progress), Some((2, 3)));
    let progress: BatchProgress = of(vec![done(0), paused(0, Some(0))]);
    assert_eq!(progress.bytes_total, Some(0));
    assert_eq!(share(&progress), Some((1, 2)));
}

#[test]
fn a_share_is_never_more_than_all() {
    let progress: BatchProgress = of(vec![running(50, Some(20), 0.0)]);
    assert_eq!(share(&progress), Some((20, 20)));
}

#[test]
fn an_empty_batch_is_nothing() {
    let batch: Batch = Batch::new(vec![]);
    assert!(!batch.is_finished());
    let progress: BatchProgress = batch.progress();
    assert_eq!(progress.files, 0);
    assert_eq!(progress.bytes_total, Some(0));
    assert!(!progress.is_complete());
    assert!(!progress.all_done());
    assert_eq!(share(&progress), None);
}

#[test]
fn a_settled_batch_is_finished_and_whole() {
    let batch: Batch = Batch::new(vec![done(5), failed(), showing(Progress::Cancelled)]);
    assert!(batch.is_finished());
    let progress: BatchProgress = batch.progress();
    assert!(progress.is_complete());
    assert!(!progress.all_done());
    assert_eq!(share(&progress), Some((3, 3)));
    let progress: BatchProgress = of(vec![done(5), showing(Progress::Cancelled)]);
    assert_eq!(share(&progress), Some((5, 5)));
    assert!(!Batch::new(vec![done(5), paused(1, None)]).is_finished());
}

#[test]
fn a_batch_of_done_files_is_all_done() {
    let progress: BatchProgress = of(vec![done(5), done(6)]);
    assert!(progress.all_done());
    assert!(progress.is_complete());
    assert_eq!(progress.bytes_total, Some(progress.bytes_received));
    assert_eq!(share(&progress), Some((11, 11)));
}

#[test]
fn a_mismatched_file_is_done_but_not_all_done() {
    let progress: BatchProgress = of(vec![
        done(5),
        judged(6, Verification::Mismatch),
        judged(7, Verification::Skipped),
    ]);
    assert_eq!(progress.done, 3);
    assert_eq!(progress.mismatched, 1);
    assert!(progress.is_complete());
    assert!(!progress.all_done());
}

#[test]
fn a_file_without_an_expected_digest_counts_as_done() {
    let progress: BatchProgress = of(vec![done(5), judged(7, Verification::Skipped)]);
    assert_eq!(progress.mismatched, 0);
    assert!(progress.all_done());
}

#[test]
fn sums_that_do_not_fit_are_told() {
    assert!(!Batch::new(vec![done(u64::MAX), done(1)]).fits());
    assert!(!Batch::new(vec![running(0, Some(u64::MAX), 0.0), paused(0, Some(1))]).fits());
    assert!(Batch::new(vec![running(0, Some(u64::MAX), 0.0), failed(), paused(0, Some(1))]).fits());
    assert!(Batch::new(vec![done(u64::MAX), showing(Progress::Cancelled)]).fits());
}

#[test]
fn all_downloads_are_paused_resumed_and_cancelled() {
    let mut batch: Batch = Batch::new(vec![failed(), done(1), paused(2, None)]);
    batch.pause_all();
    for download in batch.downloads() {
        assert_eq!(download.command(), Command::Pause);
    }
    let mut pending: Batch = Batch::new(vec![showing(Progress::Queued)]);
    pending.pause_all();
    assert_eq!(pending.resume_all(), vec![false]);
    assert_eq!(pending.downloads()[0].command(), Command::Run);
    assert_eq!(batch.resume_all(), vec![true, false, true]);
    let commands: Vec<Command> = batch.downloads().iter().map(|d| d.command()).collect();
    assert_eq!(commands, vec![Command::Run, Command::Pause, Command::Run]);
    assert!(matches!(batch.downloads()[0].progress(), Progress::Queued));
    assert_eq!(batch.cancel_all(), vec![true, false, true]);
    for download in batch.downloads() {
        assert_eq!(download.command(), Command::Cancel);
    }
}
