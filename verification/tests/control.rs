use async_downloader::attempt::{Action, Attempt, AttemptOutcome, Event, Response, Step};
use async_downloader::download::{Begin, Command, Settled};
use async_downloader::{Download, Downloader, Job, Progress, Settings, Speed, Threads};

fn answer(status: u16, content_length: u64) -> Event {
    Event::Responded(Ok(Response {
        status,
        rejected: None,
        content_length: Some(content_length),
    }))
}

fn outcome_of(step: Step) -> AttemptOutcome {
    match step.action {
        Action::Finish(outcome) => outcome,
        other => panic!("{other:?}"),
    }
}

/// A transfer of a hundred bytes, forty of which have been written.
fn halfway(download: &mut Download) -> Attempt {
    assert_eq!(download.begin(), Begin::Attempt);
    let mut attempt: Attempt = Attempt::new(download.job());
    attempt.step(Event::Prepared(Ok(())));
    attempt.step(Event::Measured(0));
    attempt.step(answer(200, 100));
    attempt.step(Event::Opened(Ok(())));
    attempt.step(Event::Commanded(download.command()));
    attempt.step(Event::Wrote {
        len: 40,
        elapsed_nanos: 10,
    });
    attempt
}

#[test]
fn a_paused_transfer_goes_on_where_it_was() {
    let mut download: Download = Download::new(1, Job::new("u", "d"));
    let mut attempt: Attempt = halfway(&mut download);
    download.pause();
    attempt.step(Event::Commanded(download.command()));
    let outcome: AttemptOutcome = outcome_of(attempt.step(Event::Flushed(Ok(()))));
    assert_eq!(download.settle(outcome), Settled::Shown);
    assert!(matches!(
        download.progress(),
        Progress::Paused {
            received: 40,
            total: Some(100)
        }
    ));

    assert!(download.resume());
    assert_eq!(download.begin(), Begin::Attempt);
    let mut again: Attempt = Attempt::new(download.job());
    again.step(Event::Prepared(Ok(())));
    let step: Step = again.step(Event::Measured(40));
    assert!(matches!(
        step.action,
        Action::Request {
            range_from: Some(40)
        }
    ));
    let step: Step = again.step(answer(206, 60));
    assert!(matches!(step.action, Action::Open { append: true }));
    match again.step(Event::Opened(Ok(()))).publish {
        Some(Progress::Downloading {
            received,
            total,
            speed,
        }) => assert_eq!((received, total, speed), (40, Some(100), Speed::zero())),
        other => panic!("{other:?}"),
    }
}

#[test]
fn a_cancelled_transfer_is_removed() {
    let mut download: Download = Download::new(1, Job::new("u", "d"));
    let mut attempt: Attempt = halfway(&mut download);
    assert!(!download.cancel());
    let step: Step = attempt.step(Event::Commanded(download.command()));
    assert!(matches!(step.action, Action::Flush));
    let outcome: AttemptOutcome = outcome_of(attempt.step(Event::Flushed(Err("x".to_owned()))));
    assert_eq!(download.settle(outcome), Settled::RemovePartial);
    download.discarded();
    assert!(matches!(download.progress(), Progress::Cancelled));
    assert!(!download.resume());
}

#[test]
fn a_pause_that_is_taken_back_in_time_changes_nothing() {
    let mut download: Download = Download::new(1, Job::new("u", "d"));
    let mut attempt: Attempt = halfway(&mut download);
    download.pause();
    assert!(!download.resume());
    let step: Step = attempt.step(Event::Commanded(download.command()));
    assert!(matches!(step.action, Action::Fetch));
}

#[test]
fn a_broken_transfer_goes_on_from_what_is_on_disk() {
    let mut download: Download = Download::new(1, Job::new("u", "d"));
    let mut attempt: Attempt = halfway(&mut download);
    attempt.step(Event::Commanded(download.command()));
    attempt.step(Event::StreamFailed("reset".to_owned()));
    let outcome: AttemptOutcome = outcome_of(attempt.step(Event::Flushed(Ok(()))));
    assert_eq!(download.settle(outcome), Settled::Shown);
    match download.progress() {
        Progress::Failed(error) => assert_eq!(error, "reset"),
        other => panic!("{other:?}"),
    }
    assert!(download.resume());
    assert_eq!(download.begin(), Begin::Attempt);
    let mut again: Attempt = Attempt::new(download.job());
    again.step(Event::Prepared(Ok(())));
    again.step(Event::Measured(40));
    again.step(Event::Responded(Ok(Response {
        status: 206,
        rejected: None,
        content_length: None,
    })));
    assert!(matches!(
        again.step(Event::Opened(Ok(()))).publish,
        Some(Progress::Downloading {
            received: 40,
            total: None,
            ..
        })
    ));
}

fn next(state: &mut u64) -> usize {
    *state ^= *state << 13;
    *state ^= *state >> 7;
    *state ^= *state << 17;
    (*state >> 11) as usize
}

/// Workers that share twelve downloads and a queue, with users who interfere at random.
#[test]
fn no_more_downloads_run_than_there_are_workers_and_none_is_lost() {
    let settings: Settings = Settings {
        threads: Threads::Fixed(8),
        max_concurrent: 3,
    };
    let mut downloader: Downloader = Downloader::new(settings, None);
    let limit: usize = downloader.max_concurrent();
    assert_eq!(limit, 3);
    let mut downloads: Vec<Download> = Vec::new();
    let mut queue: Vec<usize> = Vec::new();
    for i in 0usize..12 {
        downloads.push(downloader.enqueue(Job::new("u", "d")));
        queue.push(i);
    }
    let mut workers: Vec<Option<(usize, Begin)>> = vec![None; limit];
    let mut state: u64 = 88172645463325252;
    let mut most: usize = 0;
    for round in 0usize..20_000 {
        let i: usize = next(&mut state) % downloads.len();
        match next(&mut state) % 12 {
            0 => downloads[i].pause(),
            1 | 2 => {
                if downloads[i].resume() {
                    queue.push(i);
                }
            }
            3 if round % 8 == 0 => {
                if downloads[i].cancel() {
                    queue.push(i);
                }
            }
            _ => {}
        }
        let w: usize = next(&mut state) % limit;
        workers[w] = match workers[w] {
            None if queue.is_empty() => None,
            None => {
                let taken: usize = queue.remove(0);
                Some((taken, downloads[taken].begin()))
            }
            Some((held, Begin::MeasurePartial)) => {
                downloads[held].parked(1);
                None
            }
            Some((held, Begin::RemovePartial)) => {
                downloads[held].discarded();
                None
            }
            Some((held, Begin::Attempt)) => match next(&mut state) % 6 {
                0 => match downloads[held].settle(AttemptOutcome::Failed("x".to_owned())) {
                    Settled::Shown => None,
                    Settled::RemovePartial => panic!("{held}"),
                },
                1 => {
                    downloads[held].settle(AttemptOutcome::Paused {
                        received: 1,
                        total: None,
                    });
                    None
                }
                2 if downloads[held].command() == Command::Cancel => {
                    match downloads[held].settle(AttemptOutcome::Cancelled) {
                        Settled::Shown => panic!("{held}"),
                        Settled::RemovePartial => Some((held, Begin::RemovePartial)),
                    }
                }
                _ => {
                    downloads[held].set(Progress::Downloading {
                        received: 1,
                        total: None,
                        speed: Speed::zero(),
                    });
                    Some((held, Begin::Attempt))
                }
            },
        };
        let busy: usize = downloads.iter().filter(|d| d.progress().is_running()).count();
        assert!(busy <= limit);
        most = most.max(busy);
        for (i, download) in downloads.iter().enumerate() {
            let held: bool = workers
                .iter()
                .any(|worker| matches!(worker, Some((held, _)) if *held == i));
            let resumable: bool = matches!(
                download.progress(),
                Progress::Paused { .. } | Progress::Failed(_)
            );
            assert!(queue.contains(&i) || held || resumable || download.progress().is_finished());
            if matches!(download.progress(), Progress::Queued) {
                assert!(queue.contains(&i) || held);
            }
        }
    }
    assert_eq!(most, limit);
}
