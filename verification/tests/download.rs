use async_downloader::attempt::AttemptOutcome;
use async_downloader::download::{Begin, Command, Settled};
use async_downloader::{
    Download, Downloader, Job, Outcome, Progress, Ratio, Settings, Speed, Threads, Verification,
};

fn job() -> Job {
    Job::new("http://example.com/a", "/data/a")
}

fn outcome(bytes: u64) -> Outcome {
    Outcome {
        path: "/data/a".into(),
        bytes,
        sha256: "ab".to_owned(),
        verified: Verification::Skipped,
    }
}

#[test]
fn a_job_is_what_it_is_made_of() {
    let job: Job = Job::new(String::from("u"), std::path::PathBuf::from("d"));
    assert_eq!(job.url, "u");
    assert_eq!(job.dest, std::path::PathBuf::from("d"));
    assert_eq!(job.expected_sha256, None);
    let job: Job = job.with_sha256("first").with_sha256(String::from("second"));
    assert_eq!(job.url, "u");
    assert_eq!(job.dest, std::path::PathBuf::from("d"));
    assert_eq!(job.expected_sha256, Some("second".to_owned()));
}

#[test]
fn threads_are_resolved() {
    assert_eq!(Threads::Auto.resolve(Some(12)), 12);
    assert_eq!(Threads::Auto.resolve(None), 4);
    assert_eq!(Threads::Fixed(0).resolve(Some(12)), 1);
    assert_eq!(Threads::Fixed(1).resolve(None), 1);
    assert_eq!(Threads::Fixed(7).resolve(Some(2)), 7);
}

#[test]
fn settings_have_defaults() {
    let settings: Settings = Settings::default();
    assert!(matches!(settings.threads, Threads::Auto));
    assert_eq!(settings.max_concurrent, 3);
}

#[test]
fn a_downloader_has_at_least_one_worker() {
    let downloader: Downloader = Downloader::new(
        Settings {
            threads: Threads::Fixed(2),
            max_concurrent: 0,
        },
        None,
    );
    assert_eq!(downloader.worker_threads(), 2);
    assert_eq!(downloader.max_concurrent(), 1);
    let downloader: Downloader = Downloader::new(Settings::default(), Some(6));
    assert_eq!(downloader.worker_threads(), 6);
    assert_eq!(downloader.max_concurrent(), 3);
}

#[test]
fn downloads_are_numbered_from_one() {
    let mut downloader: Downloader = Downloader::new(Settings::default(), None);
    assert_eq!(downloader.enqueue(job()).id(), 1);
    assert_eq!(downloader.enqueue(job()).id(), 2);
    let batch = downloader.enqueue_batch(vec![Job::new("x", "x"), Job::new("y", "y")]);
    let ids: Vec<u64> = batch.downloads().iter().map(|d| d.id()).collect();
    let urls: Vec<&str> = batch.downloads().iter().map(|d| d.job().url.as_str()).collect();
    assert_eq!(ids, vec![3, 4]);
    assert_eq!(urls, vec!["x", "y"]);
    assert_eq!(downloader.enqueue(job()).id(), 5);
}

#[test]
fn a_new_download_waits() {
    let download: Download = Download::new(9, job());
    assert_eq!(download.id(), 9);
    assert_eq!(download.job().url, "http://example.com/a");
    assert_eq!(download.command(), Command::Run);
    assert!(matches!(download.progress(), Progress::Queued));
}

#[test]
fn a_worker_attempts_a_waiting_download() {
    let mut download: Download = Download::new(1, job());
    assert_eq!(download.begin(), Begin::Attempt);
    assert!(!download.cancel());
    assert_eq!(download.settle(AttemptOutcome::Cancelled), Settled::RemovePartial);
    assert!(matches!(download.progress(), Progress::Queued));
    download.discarded();
    assert!(matches!(download.progress(), Progress::Cancelled));
    assert!(!download.resume());
    assert!(!download.cancel());
}

#[test]
fn a_paused_download_is_parked_and_resumed() {
    let mut download: Download = Download::new(1, job());
    download.pause();
    assert_eq!(download.command(), Command::Pause);
    assert!(matches!(download.progress(), Progress::Queued));
    assert_eq!(download.begin(), Begin::MeasurePartial);
    download.parked(77);
    assert!(matches!(
        download.progress(),
        Progress::Paused {
            received: 77,
            total: None
        }
    ));
    assert!(download.resume());
    assert!(!download.resume());
    assert!(matches!(download.progress(), Progress::Queued));
    assert_eq!(download.command(), Command::Run);
    assert_eq!(download.begin(), Begin::Attempt);
}

#[test]
fn a_pending_pause_is_taken_back_by_a_resumption() {
    let mut download: Download = Download::new(1, job());
    download.pause();
    assert!(!download.resume());
    assert_eq!(download.command(), Command::Run);
    assert!(matches!(download.progress(), Progress::Queued));
    assert_eq!(download.begin(), Begin::Attempt);
    download.set(Progress::Downloading {
        received: 1,
        total: None,
        speed: Speed::zero(),
    });
    download.pause();
    assert!(!download.resume());
    assert_eq!(download.command(), Command::Run);
    assert!(matches!(
        download.progress(),
        Progress::Downloading { received: 1, .. }
    ));
}

#[test]
fn a_pending_cancellation_stands() {
    let mut download: Download = Download::new(1, job());
    assert!(download.cancel());
    assert!(!download.resume());
    assert_eq!(download.command(), Command::Cancel);
    download.discarded();
    download.pause();
    assert!(!download.resume());
    assert_eq!(download.command(), Command::Pause);
    assert!(matches!(download.progress(), Progress::Cancelled));
}

#[test]
fn an_idle_download_is_cancelled_by_a_worker() {
    let mut download: Download = Download::new(1, job());
    assert!(download.cancel());
    assert_eq!(download.command(), Command::Cancel);
    assert!(matches!(download.progress(), Progress::Queued));
    assert_eq!(download.begin(), Begin::RemovePartial);
    download.discarded();
    assert!(matches!(download.progress(), Progress::Cancelled));
    download.pause();
    assert!(matches!(download.progress(), Progress::Cancelled));
}

#[test]
fn the_outcome_of_an_attempt_is_shown() {
    let mut download: Download = Download::new(1, job());
    download.begin();
    assert_eq!(
        download.settle(AttemptOutcome::Failed("no route".to_owned())),
        Settled::Shown
    );
    match download.progress() {
        Progress::Failed(error) => assert_eq!(error, "no route"),
        other => panic!("{other:?}"),
    }
    assert!(download.resume());
    assert_eq!(download.begin(), Begin::Attempt);
    assert_eq!(
        download.settle(AttemptOutcome::Paused {
            received: 5,
            total: Some(9)
        }),
        Settled::Shown
    );
    assert!(matches!(
        download.progress(),
        Progress::Paused {
            received: 5,
            total: Some(9)
        }
    ));
    assert!(download.resume());
    download.begin();
    assert_eq!(
        download.settle(AttemptOutcome::Completed(outcome(9))),
        Settled::Shown
    );
    assert_eq!(download.progress().received(), 9);
    assert!(download.progress().is_finished());
    assert!(!download.resume());
    assert!(!download.cancel());
}

#[test]
fn progress_is_shown() {
    let mut download: Download = Download::new(1, job());
    download.set(Progress::Verifying);
    assert!(matches!(download.progress(), Progress::Verifying));
}

#[test]
fn progress_tells_what_it_knows() {
    let speed: Speed = Speed::from_bits(2.5f64.to_bits());
    let running: Progress = Progress::Downloading {
        received: 3,
        total: Some(12),
        speed,
    };
    let paused: Progress = Progress::Paused {
        received: 4,
        total: Some(8),
    };
    let done: Progress = Progress::Done(outcome(6));
    let failed: Progress = Progress::Failed("x".to_owned());
    let all: [&Progress; 7] = [
        &Progress::Queued,
        &running,
        &paused,
        &Progress::Verifying,
        &done,
        &failed,
        &Progress::Cancelled,
    ];
    let finished: Vec<bool> = all.iter().map(|p| p.is_finished()).collect();
    let busy: Vec<bool> = all.iter().map(|p| p.is_running()).collect();
    let received: Vec<u64> = all.iter().map(|p| p.received()).collect();
    let speeds: Vec<u64> = all.iter().map(|p| p.speed().bits).collect();
    assert_eq!(finished, vec![false, false, false, false, true, false, true]);
    assert_eq!(busy, vec![false, true, false, true, false, false, false]);
    assert_eq!(received, vec![0, 3, 4, 0, 6, 0, 0]);
    assert_eq!(speeds, vec![0, speed.bits, 0, 0, 0, 0, 0]);
    let shares: Vec<Option<(u64, u64)>> = all
        .iter()
        .map(|p| p.fraction().map(|r: Ratio| (r.numerator, r.denominator)))
        .collect();
    assert_eq!(
        shares,
        vec![None, Some((3, 12)), Some((4, 8)), None, Some((1, 1)), None, None]
    );
}

#[test]
fn an_unknown_or_empty_size_has_no_share() {
    for total in [None, Some(0u64)] {
        let running: Progress = Progress::Downloading {
            received: 3,
            total,
            speed: Speed::zero(),
        };
        assert!(running.fraction().is_none());
        assert!(Progress::Paused { received: 3, total }.fraction().is_none());
    }
}
