use async_downloader::attempt::{
    Action, Attempt, AttemptOutcome, Event, Response, Stage, Step,
};
use async_downloader::download::Command;
use async_downloader::{Job, Outcome, Progress, Speed, Verification};

const ABC: &str = "ba7816bf8f01cfea414140de5dae2223b00361a396177a9cb410ff61f20015ad";

fn job() -> Job {
    Job::new("http://example.com/a", "/data/a")
}

fn answer(status: u16, content_length: Option<u64>) -> Event {
    let rejected: Option<String> = if status >= 400 {
        Some(format!("status {status}"))
    } else {
        None
    };
    Event::Responded(Ok(Response {
        status,
        rejected,
        content_length,
    }))
}

fn after(job: &Job, events: Vec<Event>) -> (Attempt, Step) {
    let mut attempt: Attempt = Attempt::new(job);
    let mut last: Step = Step {
        publish: None,
        restart_clock: false,
        action: Action::Prepare,
    };
    for event in events {
        assert!(attempt.accepts(&event));
        last = attempt.step(event);
    }
    (attempt, last)
}

fn failure(step: &Step) -> &str {
    match &step.action {
        Action::Finish(AttemptOutcome::Failed(error)) => error,
        other => panic!("{other:?}"),
    }
}

fn completed(step: &Step) -> &Outcome {
    match &step.action {
        Action::Finish(AttemptOutcome::Completed(outcome)) => outcome,
        other => panic!("{other:?}"),
    }
}

fn shown(step: &Step) -> (u64, Option<u64>, Speed) {
    match &step.publish {
        Some(Progress::Downloading {
            received,
            total,
            speed,
        }) => (*received, *total, *speed),
        other => panic!("{other:?}"),
    }
}

#[test]
fn an_attempt_starts_with_the_directory() {
    let (attempt, step): (Attempt, Step) = after(&job(), vec![]);
    assert!(matches!(attempt.stage, Stage::Preparing));
    assert!(matches!(step.action, Action::Prepare));
    assert!(attempt.path == std::path::PathBuf::from("/data/a"));
    let (_, step): (Attempt, Step) = after(&job(), vec![Event::Prepared(Err("full".to_owned()))]);
    assert_eq!(failure(&step), "full");
}

#[test]
fn a_new_file_is_asked_for_in_full() {
    let (_, step): (Attempt, Step) =
        after(&job(), vec![Event::Prepared(Ok(())), Event::Measured(0)]);
    assert!(matches!(step.action, Action::Request { range_from: None }));
    let (_, step): (Attempt, Step) = after(
        &job(),
        vec![
            Event::Prepared(Ok(())),
            Event::Measured(0),
            answer(200, Some(10)),
        ],
    );
    assert!(matches!(step.action, Action::Open { append: false }));
    let (_, step): (Attempt, Step) = after(
        &job(),
        vec![
            Event::Prepared(Ok(())),
            Event::Measured(0),
            answer(200, Some(10)),
            Event::Opened(Ok(())),
        ],
    );
    assert_eq!(shown(&step), (0, Some(10), Speed::zero()));
    assert!(step.restart_clock);
    assert!(matches!(step.action, Action::Poll));
}

#[test]
fn a_partial_file_is_continued() {
    let (_, step): (Attempt, Step) =
        after(&job(), vec![Event::Prepared(Ok(())), Event::Measured(40)]);
    assert!(matches!(
        step.action,
        Action::Request {
            range_from: Some(40)
        }
    ));
    let (_, step): (Attempt, Step) = after(
        &job(),
        vec![
            Event::Prepared(Ok(())),
            Event::Measured(40),
            answer(206, Some(60)),
        ],
    );
    assert!(matches!(step.action, Action::Open { append: true }));
    let (_, step): (Attempt, Step) = after(
        &job(),
        vec![
            Event::Prepared(Ok(())),
            Event::Measured(40),
            answer(206, Some(60)),
            Event::Opened(Ok(())),
        ],
    );
    assert_eq!(shown(&step), (40, Some(100), Speed::zero()));
}

#[test]
fn a_server_without_ranges_sends_all() {
    let (_, step): (Attempt, Step) = after(
        &job(),
        vec![
            Event::Prepared(Ok(())),
            Event::Measured(40),
            answer(200, None),
            Event::Opened(Ok(())),
        ],
    );
    assert_eq!(shown(&step), (0, None, Speed::zero()));
}

#[test]
fn a_partial_answer_to_a_whole_request_is_whole() {
    let (attempt, step): (Attempt, Step) = after(
        &job(),
        vec![
            Event::Prepared(Ok(())),
            Event::Measured(0),
            answer(206, Some(9)),
        ],
    );
    assert!(matches!(step.action, Action::Open { append: false }));
    assert!(matches!(
        attempt.stage,
        Stage::Opening {
            offset: 0,
            resuming: false,
            total: Some(9)
        }
    ));
}

#[test]
fn a_complete_file_is_verified_and_kept() {
    let job: Job = job().with_sha256(ABC.to_uppercase());
    let (_, step): (Attempt, Step) = after(
        &job,
        vec![
            Event::Prepared(Ok(())),
            Event::Measured(3),
            answer(416, None),
        ],
    );
    assert!(matches!(step.publish, Some(Progress::Verifying)));
    assert!(matches!(step.action, Action::Hash));
    let (attempt, step): (Attempt, Step) = after(
        &job,
        vec![
            Event::Prepared(Ok(())),
            Event::Measured(3),
            answer(416, None),
            Event::Hashed(Ok(ABC.to_owned())),
            Event::Measured(3),
        ],
    );
    let outcome: &Outcome = completed(&step);
    assert_eq!(outcome.bytes, 3);
    assert_eq!(outcome.sha256, ABC);
    assert_eq!(outcome.verified, Verification::Matched);
    assert_eq!(outcome.path, job.dest);
    assert!(matches!(attempt.stage, Stage::Finished));
    assert!(!attempt.accepts(&Event::StreamEnded));
}

#[test]
fn a_complete_file_without_an_expected_digest_is_kept() {
    let (_, step): (Attempt, Step) = after(
        &job(),
        vec![
            Event::Prepared(Ok(())),
            Event::Measured(3),
            answer(416, None),
            Event::Hashed(Ok(ABC.to_owned())),
            Event::Measured(4),
        ],
    );
    assert_eq!(completed(&step).verified, Verification::Skipped);
    assert_eq!(completed(&step).bytes, 4);
}

#[test]
fn a_wrong_file_is_fetched_anew_once() {
    let job: Job = job().with_sha256("00");
    let (_, step): (Attempt, Step) = after(
        &job,
        vec![
            Event::Prepared(Ok(())),
            Event::Measured(3),
            answer(416, None),
            Event::Hashed(Ok(ABC.to_owned())),
        ],
    );
    assert!(matches!(step.action, Action::Request { range_from: None }));
    let (_, step): (Attempt, Step) = after(
        &job,
        vec![
            Event::Prepared(Ok(())),
            Event::Measured(3),
            answer(416, None),
            Event::Hashed(Ok(ABC.to_owned())),
            answer(416, None),
        ],
    );
    assert_eq!(failure(&step), "status 416");
    let (attempt, step): (Attempt, Step) = after(
        &job,
        vec![
            Event::Prepared(Ok(())),
            Event::Measured(3),
            answer(416, None),
            Event::Hashed(Ok(ABC.to_owned())),
            answer(200, Some(8)),
        ],
    );
    assert!(matches!(step.action, Action::Open { append: false }));
    assert!(matches!(attempt.stage, Stage::Opening { offset: 0, .. }));
}

#[test]
fn errors_are_the_reason_given() {
    let start: fn() -> Vec<Event> = || vec![Event::Prepared(Ok(())), Event::Measured(5)];
    let error: fn() -> String = || "broken".to_owned();
    let mut events: Vec<Event> = start();
    events.push(Event::Responded(Err(error())));
    assert_eq!(failure(&after(&job(), events).1), "broken");

    let mut events: Vec<Event> = start();
    events.push(answer(404, None));
    assert_eq!(failure(&after(&job(), events).1), "status 404");

    let mut events: Vec<Event> = start();
    events.push(answer(416, None));
    events.push(Event::Hashed(Err(error())));
    assert_eq!(failure(&after(&job(), events).1), "broken");

    let mut events: Vec<Event> = start();
    events.push(answer(206, None));
    events.push(Event::Opened(Err(error())));
    assert_eq!(failure(&after(&job(), events).1), "broken");
}

fn streaming() -> Vec<Event> {
    vec![
        Event::Prepared(Ok(())),
        Event::Measured(100),
        answer(206, Some(1_000_000)),
        Event::Opened(Ok(())),
        Event::Commanded(Command::Run),
    ]
}

#[test]
fn a_chunk_is_fetched_when_the_user_wants_it() {
    let (_, step): (Attempt, Step) = after(&job(), streaming());
    assert!(matches!(step.action, Action::Fetch));
    assert!(step.publish.is_none());
}

#[test]
fn a_small_early_chunk_is_not_reported() {
    let mut events: Vec<Event> = streaming();
    events.push(Event::Wrote {
        len: 65535,
        elapsed_nanos: 249_999_999,
    });
    let (attempt, step): (Attempt, Step) = after(&job(), events);
    assert!(step.publish.is_none());
    assert!(!step.restart_clock);
    assert!(matches!(step.action, Action::Poll));
    match attempt.stage {
        Stage::Polling(t) => assert_eq!((t.received, t.last_bytes), (65635, 100)),
        other => panic!("{other:?}"),
    }
}

#[test]
fn enough_bytes_are_sampled_and_reported() {
    let speed: Speed = Speed::from_bits(1000.0f64.to_bits());
    let mut events: Vec<Event> = streaming();
    events.push(Event::Wrote {
        len: 65536,
        elapsed_nanos: 1,
    });
    let (mut attempt, step): (Attempt, Step) = after(&job(), events);
    assert!(matches!(
        step.action,
        Action::Sample {
            bytes: 65536,
            elapsed_nanos: 1,
            previous: None
        }
    ));
    let step: Step = attempt.step(Event::Sampled(speed));
    assert_eq!(shown(&step), (65636, Some(1_000_100), speed));
    assert!(step.restart_clock);
    assert!(matches!(step.action, Action::Poll));

    assert!(matches!(
        attempt.step(Event::Commanded(Command::Run)).action,
        Action::Fetch
    ));
    let step: Step = attempt.step(Event::Wrote {
        len: 1,
        elapsed_nanos: 250_000_000,
    });
    match step.action {
        Action::Sample {
            bytes,
            elapsed_nanos,
            previous,
        } => {
            assert_eq!(bytes, 1);
            assert_eq!(elapsed_nanos, 250_000_000);
            assert_eq!(previous, Some(speed));
        }
        other => panic!("{other:?}"),
    }
}

#[test]
fn a_sample_is_a_finite_number_and_not_less_than_zero() {
    let mut events: Vec<Event> = streaming();
    events.push(Event::Wrote {
        len: 65536,
        elapsed_nanos: 1,
    });
    let (attempt, _): (Attempt, Step) = after(&job(), events);
    for sample in [f64::NAN, f64::INFINITY, f64::NEG_INFINITY, -1.0] {
        assert!(!attempt.accepts(&Event::Sampled(Speed::from_bits(sample.to_bits()))));
    }
    for sample in [0.0, 1e-300, 1.5, f64::MAX] {
        assert!(attempt.accepts(&Event::Sampled(Speed::from_bits(sample.to_bits()))));
    }
}

#[test]
fn no_time_means_no_sample() {
    let mut events: Vec<Event> = streaming();
    events.push(Event::Wrote {
        len: 70_000,
        elapsed_nanos: 0,
    });
    let (_, step): (Attempt, Step) = after(&job(), events);
    assert_eq!(shown(&step), (70_100, Some(1_000_100), Speed::zero()));
    assert!(step.restart_clock);
    assert!(matches!(step.action, Action::Poll));
}

#[test]
fn a_pause_between_chunks_keeps_the_count() {
    for flushed in [Ok(()), Err("gone".to_owned())] {
        let mut events: Vec<Event> = streaming();
        events.push(Event::Wrote {
            len: 50,
            elapsed_nanos: 5,
        });
        events.push(Event::Commanded(Command::Pause));
        let (mut attempt, step): (Attempt, Step) = after(&job(), events);
        assert!(matches!(step.action, Action::Flush));
        let step: Step = attempt.step(Event::Flushed(flushed));
        assert!(matches!(
            step.action,
            Action::Finish(AttemptOutcome::Paused {
                received: 150,
                total: Some(1_000_100)
            })
        ));
    }
}

#[test]
fn a_cancellation_between_chunks_ends_it() {
    let mut events: Vec<Event> = vec![
        Event::Prepared(Ok(())),
        Event::Measured(0),
        answer(200, None),
        Event::Opened(Ok(())),
    ];
    events.push(Event::Commanded(Command::Cancel));
    let (mut attempt, step): (Attempt, Step) = after(&job(), events);
    assert!(matches!(step.action, Action::Flush));
    let step: Step = attempt.step(Event::Flushed(Err("ignored".to_owned())));
    assert!(matches!(
        step.action,
        Action::Finish(AttemptOutcome::Cancelled)
    ));
}

#[test]
fn a_failed_write_ends_at_once() {
    let mut events: Vec<Event> = streaming();
    events.push(Event::WriteFailed("disk full".to_owned()));
    assert_eq!(failure(&after(&job(), events).1), "disk full");
}

#[test]
fn a_broken_stream_is_flushed_first() {
    let mut events: Vec<Event> = streaming();
    events.push(Event::StreamFailed("reset".to_owned()));
    let (mut attempt, step): (Attempt, Step) = after(&job(), events);
    assert!(matches!(step.action, Action::Flush));
    assert_eq!(failure(&attempt.step(Event::Flushed(Ok(())))), "reset");
}

#[test]
fn an_ended_stream_is_flushed_verified_and_done() {
    let job: Job = job().with_sha256("wrong");
    let mut events: Vec<Event> = streaming();
    events.push(Event::Wrote {
        len: 7,
        elapsed_nanos: 3,
    });
    events.push(Event::Commanded(Command::Run));
    events.push(Event::StreamEnded);
    let (mut attempt, step): (Attempt, Step) = after(&job, events);
    assert!(matches!(step.action, Action::Flush));
    let step: Step = attempt.step(Event::Flushed(Ok(())));
    assert!(matches!(step.publish, Some(Progress::Verifying)));
    assert!(matches!(step.action, Action::Hash));
    let step: Step = attempt.step(Event::Hashed(Ok(ABC.to_owned())));
    assert_eq!(completed(&step).bytes, 107);
    assert_eq!(completed(&step).verified, Verification::Mismatch);
}

#[test]
fn the_last_flush_and_the_last_read_can_fail() {
    let mut events: Vec<Event> = streaming();
    events.push(Event::StreamEnded);
    events.push(Event::Flushed(Err("no flush".to_owned())));
    assert_eq!(failure(&after(&job(), events).1), "no flush");
    let mut events: Vec<Event> = streaming();
    events.push(Event::StreamEnded);
    events.push(Event::Flushed(Ok(())));
    events.push(Event::Hashed(Err("no read".to_owned())));
    assert_eq!(failure(&after(&job(), events).1), "no read");
}

#[test]
fn what_cannot_be_counted_is_not_accepted() {
    let (attempt, _): (Attempt, Step) = after(
        &job(),
        vec![Event::Prepared(Ok(())), Event::Measured(u64::MAX)],
    );
    assert!(!attempt.accepts(&answer(206, Some(1))));
    assert!(attempt.accepts(&answer(206, Some(0))));
    assert!(attempt.accepts(&answer(200, Some(1))));
    assert!(attempt.accepts(&answer(416, Some(1))));
    let (attempt, _): (Attempt, Step) = after(&job(), streaming());
    assert!(!attempt.accepts(&Event::Wrote {
        len: u64::MAX,
        elapsed_nanos: 0
    }));
    assert!(!attempt.accepts(&Event::Measured(0)));
}

#[test]
fn what_is_received_is_what_is_written() {
    let mut events: Vec<Event> = streaming();
    let mut sum: u64 = 100;
    for len in [1u64, 500, 20_000, 30_000] {
        events.push(Event::Wrote {
            len,
            elapsed_nanos: 1000,
        });
        events.push(Event::Commanded(Command::Run));
        sum += len;
    }
    let (attempt, _): (Attempt, Step) = after(&job(), events);
    match attempt.stage {
        Stage::Fetching(t) => assert_eq!((t.received, t.total), (sum, Some(1_000_100))),
        other => panic!("{other:?}"),
    }
}

#[test]
fn what_is_shown_is_in_order() {
    let job: Job = job().with_sha256("00");
    let sampled: Speed = Speed::from_bits(7.0f64.to_bits());
    let events: Vec<Event> = vec![
        Event::Prepared(Ok(())),
        Event::Measured(3),
        answer(416, None),
        Event::Hashed(Ok(ABC.to_owned())),
        answer(200, Some(200_000)),
        Event::Opened(Ok(())),
        Event::Commanded(Command::Run),
        Event::Wrote {
            len: 70_000,
            elapsed_nanos: 9,
        },
        Event::Sampled(sampled),
        Event::Commanded(Command::Run),
        Event::Wrote {
            len: 70_000,
            elapsed_nanos: 0,
        },
        Event::Commanded(Command::Run),
        Event::StreamEnded,
        Event::Flushed(Ok(())),
        Event::Hashed(Ok(ABC.to_owned())),
    ];
    let mut attempt: Attempt = Attempt::new(&job);
    let mut seen: Vec<Option<(u64, Option<u64>, Speed)>> = Vec::new();
    for event in events {
        assert!(attempt.accepts(&event));
        let step: Step = attempt.step(event);
        match &step.publish {
            Some(Progress::Verifying) => seen.push(None),
            Some(_) => seen.push(Some(shown(&step))),
            None => {}
        }
    }
    let total: Option<u64> = Some(200_000);
    assert_eq!(
        seen,
        vec![
            None,
            Some((0, total, Speed::zero())),
            Some((70_000, total, sampled)),
            Some((140_000, total, sampled)),
            None,
        ]
    );
}
