//! What holds of whole attempts.

use crate::attempt::{Action, Attempt, AttemptOutcome, Event, Response, Stage, Transfer};
use crate::digest;
use crate::download::Command;
use crate::laws::digest::a_file_is_accepted_for_its_digest_alone;
use crate::progress::{Outcome, Progress, Verification};
use crate::speed::Speed;
use crate::text;
use vstd::prelude::*;

verus! {

/// The attempt after an event.
pub open spec fn after(a: Attempt, event: Event) -> Attempt {
    Attempt { stage: a.transition(event).0, ..a }
}

/// The attempt after some events, the first one first.
pub open spec fn after_all(a: Attempt, events: Seq<Event>) -> Attempt
    decreases events.len(),
{
    if events.len() == 0 {
        a
    } else {
        after_all(after(a, events.first()), events.drop_first())
    }
}

/// Whether each of the events is accepted in its turn.
pub open spec fn all_accepted(a: Attempt, events: Seq<Event>) -> bool
    decreases events.len(),
{
    events.len() > 0 ==> {
        &&& a.accepted(events.first())
        &&& all_accepted(after(a, events.first()), events.drop_first())
    }
}

/// The number of requests that are asked for on the way.
pub open spec fn requests(a: Attempt, events: Seq<Event>) -> nat
    decreases events.len(),
{
    if events.len() == 0 {
        0
    } else {
        requests(after(a, events.first()), events.drop_first()) + if a.transition(
            events.first(),
        ).1.action is Request {
            1nat
        } else {
            0nat
        }
    }
}

/// The bytes of the chunks that were written.
pub open spec fn written(events: Seq<Event>) -> nat
    decreases events.len(),
{
    if events.len() == 0 {
        0
    } else {
        written(events.drop_first()) + match events.first() {
            Event::Wrote { len, .. } => len as nat,
            _ => 0nat,
        }
    }
}

/// The requests that may still follow in a stage.
spec fn requests_left(stage: Stage) -> nat {
    match stage {
        Stage::Preparing => 2,
        Stage::Measuring => 2,
        Stage::Requesting { allow_resume, .. } => if allow_resume {
            1
        } else {
            0
        },
        Stage::Rechecking => 1,
        _ => 0,
    }
}

proof fn requests_are_bounded(a: Attempt, events: Seq<Event>)
    requires
        all_accepted(a, events),
    ensures
        requests(a, events) <= requests_left(a.stage),
    decreases events.len(),
{
    if events.len() > 0 {
        requests_are_bounded(after(a, events.first()), events.drop_first());
    }
}

/// An attempt makes at most two requests: one, and a second one where a file that seemed complete
/// has the wrong digest.
pub proof fn at_most_two_requests(a: Attempt, events: Seq<Event>)
    requires
        a.stage is Preparing,
        all_accepted(a, events),
    ensures
        requests(a, events) <= 2,
{
    requests_are_bounded(a, events);
}

/// Every stage that events lead to is well-formed.
pub proof fn events_keep_wf(a: Attempt, events: Seq<Event>)
    requires
        a.wf(),
        all_accepted(a, events),
    ensures
        after_all(a, events).wf(),
    decreases events.len(),
{
    if events.len() > 0 {
        events_keep_wf(after(a, events.first()), events.drop_first());
    }
}

/// An attempt that is over takes no more events.
pub proof fn nothing_follows_the_end(a: Attempt, event: Event)
    requires
        a.stage is Finished,
    ensures
        !a.accepted(event),
{
}

/// The bytes that a stage of a transfer counts.
pub open spec fn counted(stage: Stage) -> Option<u64> {
    match stage {
        Stage::Polling(t) => Some(t.received),
        Stage::Fetching(t) => Some(t.received),
        Stage::Sampling(t) => Some(t.received),
        Stage::Stopping(AttemptOutcome::Paused { received, .. }) => Some(received),
        Stage::Flushing { received } => Some(received),
        Stage::Hashing { received } => Some(received),
        _ => None,
    }
}

/// The size of the file that a stage of a transfer knows of.
pub open spec fn known_total(stage: Stage) -> Option<Option<u64>> {
    match stage {
        Stage::Polling(t) => Some(t.total),
        Stage::Fetching(t) => Some(t.total),
        Stage::Sampling(t) => Some(t.total),
        Stage::Stopping(AttemptOutcome::Paused { total, .. }) => Some(total),
        _ => None,
    }
}

spec fn behind_a_transfer(stage: Stage) -> bool {
    stage is Stopping || stage is Flushing || stage is Hashing || stage is Finished
}

proof fn count_grows_by_what_is_written(a: Attempt, events: Seq<Event>)
    requires
        all_accepted(a, events),
        counted(a.stage) is Some || behind_a_transfer(a.stage),
    ensures
        ({
            let last = after_all(a, events).stage;
            &&& counted(last) is Some || behind_a_transfer(last)
            &&& counted(a.stage) is Some && counted(last) is Some ==> counted(last)->0
                == counted(a.stage)->0 + written(events)
            &&& known_total(a.stage) is Some && known_total(last) is Some ==> known_total(last)
                == known_total(a.stage)
            &&& counted(a.stage) is None ==> counted(last) is None
            &&& known_total(a.stage) is None ==> known_total(last) is None
        }),
    decreases events.len(),
{
    if events.len() > 0 {
        count_grows_by_what_is_written(after(a, events.first()), events.drop_first());
    }
}

/// At every point of a transfer the count of received bytes is what was on disk at its start plus
/// what was written since, and the size of the file that it knows of is the one it started with.
pub proof fn received_is_start_plus_written(a: Attempt, events: Seq<Event>)
    requires
        a.stage is Opening,
        all_accepted(a, events),
    ensures
        counted(after_all(a, events).stage) is Some ==> counted(after_all(a, events).stage)->0
            == a.stage->Opening_offset + written(events),
        known_total(after_all(a, events).stage) is Some ==> known_total(
            after_all(a, events).stage,
        )->0 == a.stage->Opening_total,
{
    if events.len() > 0 {
        let next = after(a, events.first());
        count_grows_by_what_is_written(next, events.drop_first());
    }
}

/// A transfer that ends and whose file can be flushed and read completes with the digest of the
/// file, the verdict on it, and the count of all its bytes.
pub proof fn an_ended_transfer_completes(a: Attempt, sha256: String)
    requires
        a.stage is Fetching,
    ensures
        ({
            let events = seq![
                Event::StreamEnded,
                Event::Flushed(Ok(())),
                Event::Hashed(Ok(sha256)),
            ];
            let hashing = after(after(a, events[0]), events[1]);
            &&& a.accepted(events[0])
            &&& after(a, events[0]).accepted(events[1])
            &&& hashing.accepted(events[2])
            &&& after(a, events[0]).transition(events[1]).1.publish == Some(Progress::Verifying)
            &&& hashing.transition(events[2]).1.action == Action::Finish(
                AttemptOutcome::Completed(
                    Outcome {
                        path: a.path,
                        bytes: a.stage->Fetching_0.received,
                        sha256,
                        verified: a.verdict(sha256),
                    },
                ),
            )
        }),
{
}

/// An attempt completes only when the digest of the file on disk was computed, and what is said
/// of the digest is the verdict on it.
pub proof fn what_completes_was_verified(a: Attempt, event: Event, outcome: Outcome)
    requires
        a.wf(),
        a.accepted(event),
        a.transition(event).1.action == Action::Finish(AttemptOutcome::Completed(outcome)),
    ensures
        outcome.path == a.path,
        outcome.verified == a.verdict(outcome.sha256),
        event == Event::Hashed(Ok(outcome.sha256)) || (a.stage is Remeasuring
            && a.stage->Remeasuring_sha256 == outcome.sha256),
{
}

/// The file on disk decides: with an expected digest, a transfer that ended is completed as matched
/// exactly where the content of the file has that digest, and a file that seemed complete is kept
/// exactly there, else fetched anew.
pub proof fn the_content_is_verified(
    a: Attempt,
    wanted: Seq<u8>,
    content: Seq<u8>,
    sha256: String,
)
    requires
        a.stage is Hashing || a.stage is Rechecking,
        a.expected is Some,
        text::same_ignoring_ascii_case(text::trim(a.expected->0@), text::hex(wanted)),
        sha256@ == text::hex(digest::sha256(content)),
    ensures
        a.accepted(Event::Hashed(Ok(sha256))),
        a.stage is Hashing ==> a.transition(Event::Hashed(Ok(sha256))).1.action == Action::Finish(
            AttemptOutcome::Completed(
                Outcome {
                    path: a.path,
                    bytes: a.stage->Hashing_received,
                    sha256,
                    verified: if wanted == digest::sha256(content) {
                        Verification::Matched
                    } else {
                        Verification::Mismatch
                    },
                },
            ),
        ),
        a.stage is Rechecking && wanted == digest::sha256(content) ==> after(
            a,
            Event::Hashed(Ok(sha256)),
        ).stage == (Stage::Remeasuring { sha256, verified: Verification::Matched }),
        a.stage is Rechecking && wanted != digest::sha256(content) ==> a.transition(
            Event::Hashed(Ok(sha256)),
        ).1.action == (Action::Request { range_from: None }),
{
    a_file_is_accepted_for_its_digest_alone(a.expected->0@, wanted, content);
}

/// The stage that waits for the size of a file that is kept is reached by a digest alone.
pub proof fn what_is_kept_was_hashed(a: Attempt, event: Event)
    requires
        a.accepted(event),
        after(a, event).stage is Remeasuring,
    ensures
        event == Event::Hashed(Ok(after(a, event).stage->Remeasuring_sha256)),
{
}

/// Whether an attempt that finds so many bytes on disk and gets this response goes on from them:
/// the request asks for the rest of the file, the response is appended, and the count starts with
/// what was there, towards the size of the whole file where the response tells it. Where nothing is
/// on disk, all of the file is asked for and the count starts at zero.
pub open spec fn goes_on_from(a: Attempt, size: u64, response: Response) -> bool {
    let measured = Event::Measured(size);
    let asked = after(a, measured);
    let answered = Event::Responded(Ok(response));
    let opening = after(asked, answered);
    &&& a.accepted(measured)
    &&& a.transition(measured).1.action == Action::Request {
        range_from: if size > 0 {
            Some(size)
        } else {
            None
        },
    }
    &&& asked.accepted(answered)
    &&& asked.transition(answered).1.action == Action::Open { append: size > 0 }
    &&& opening.accepted(Event::Opened(Ok(())))
    &&& opening.transition(Event::Opened(Ok(()))).1.publish == Some(
        Progress::Downloading {
            received: size,
            total: match response.content_length {
                Some(len) => Some((size + len) as u64),
                None => None,
            },
            speed: Speed { bits: 0 },
        },
    )
}

/// A transfer takes up what is on disk, where the server sends the rest of the file.
pub proof fn a_range_continues_the_file(a: Attempt, size: u64, response: Response)
    requires
        a.stage is Measuring,
        size > 0 ==> response.status == 206,
        response.rejected is None,
        response.content_length is Some ==> size + response.content_length->0 <= u64::MAX,
    ensures
        goes_on_from(a, size, response),
{
}

/// A response that does not hold the rest that was asked for replaces what is on disk: the file
/// is emptied and counted from zero.
pub proof fn a_whole_response_starts_over(a: Attempt, response: Response)
    requires
        a.stage is Requesting,
        a.wf(),
        response.rejected is None,
        response.status != 206,
        response.status != 416,
    ensures
        a.accepted(Event::Responded(Ok(response))),
        a.transition(Event::Responded(Ok(response))).1.action == (Action::Open { append: false }),
        after(a, Event::Responded(Ok(response))).stage == (Stage::Opening {
            offset: 0,
            resuming: false,
            total: response.content_length,
        }),
{
}

/// A file that is on disk in full and does not have the wrong digest is not downloaded again: one
/// request, the digest, and the attempt is completed without opening the file.
pub proof fn a_complete_file_is_not_fetched(
    a: Attempt,
    size: u64,
    response: Response,
    sha256: String,
    size_now: u64,
)
    requires
        a.stage is Measuring,
        size > 0,
        response.status == 416,
        a.verdict(sha256) != Verification::Mismatch,
    ensures
        ({
            let events = seq![
                Event::Measured(size),
                Event::Responded(Ok(response)),
                Event::Hashed(Ok(sha256)),
                Event::Measured(size_now),
            ];
            let asked = after(a, events[0]);
            let rechecking = after(asked, events[1]);
            let remeasuring = after(rechecking, events[2]);
            &&& all_accepted(a, events)
            &&& requests(a, events) == 1
            &&& asked.transition(events[1]).1.publish == Some(Progress::Verifying)
            &&& asked.transition(events[1]).1.action == Action::Hash
            &&& rechecking.transition(events[2]).1.action == Action::Measure
            &&& remeasuring.transition(events[3]).1.action == Action::Finish(
                AttemptOutcome::Completed(
                    Outcome {
                        path: a.path,
                        bytes: size_now,
                        sha256,
                        verified: a.verdict(sha256),
                    },
                ),
            )
        }),
{
    let events = seq![
        Event::Measured(size),
        Event::Responded(Ok(response)),
        Event::Hashed(Ok(sha256)),
        Event::Measured(size_now),
    ];
    reveal_with_fuel(all_accepted, 5);
    reveal_with_fuel(requests, 5);
    assert(events.drop_first().drop_first().drop_first().drop_first().len() == 0);
}

/// A file that is on disk in full and has the wrong digest is downloaded again from its start.
pub proof fn a_mismatched_file_is_fetched_anew(a: Attempt, sha256: String, response: Response)
    requires
        a.stage is Rechecking,
        a.verdict(sha256) == Verification::Mismatch,
        response.rejected is None,
    ensures
        a.accepted(Event::Hashed(Ok(sha256))),
        a.transition(Event::Hashed(Ok(sha256))).1.action == (Action::Request { range_from: None }),
        ({
            let asked = after(a, Event::Hashed(Ok(sha256)));
            let answered = Event::Responded(Ok(response));
            &&& asked.accepted(answered)
            &&& asked.transition(answered).1.action == Action::Open { append: false }
            &&& after(asked, answered).stage == Stage::Opening {
                offset: 0,
                resuming: false,
                total: response.content_length,
            }
        }),
{
}

/// The wish of the user is looked up before every chunk: one is fetched only where the user has
/// just said to go on, and a chunk that was written leads to the next look, at once or after a
/// sample of the speed.
pub proof fn every_chunk_follows_a_wish(a: Attempt, event: Event)
    requires
        a.accepted(event),
    ensures
        a.transition(event).1.action is Fetch <==> event == Event::Commanded(Command::Run),
        event is Wrote ==> a.transition(event).1.action is Poll || a.transition(
            event,
        ).1.action is Sample,
        event is Sampled ==> a.transition(event).1.action is Poll,
{
}

/// A pause between two chunks ends the attempt with the exact count, whatever the flush comes to.
pub proof fn a_pause_keeps_the_count(a: Attempt, t: Transfer, flushed: Result<(), String>)
    requires
        a.stage == Stage::Polling(t),
    ensures
        ({
            let stopping = after(a, Event::Commanded(Command::Pause));
            &&& a.accepted(Event::Commanded(Command::Pause))
            &&& a.transition(Event::Commanded(Command::Pause)).1.action == Action::Flush
            &&& stopping.accepted(Event::Flushed(flushed))
            &&& stopping.transition(Event::Flushed(flushed)).1.action == Action::Finish(
                AttemptOutcome::Paused { received: t.received, total: t.total },
            )
        }),
{
}

/// A cancellation between two chunks ends the attempt as cancelled, whatever the flush comes to.
pub proof fn a_cancellation_ends_the_attempt(
    a: Attempt,
    t: Transfer,
    flushed: Result<(), String>,
)
    requires
        a.stage == Stage::Polling(t),
    ensures
        ({
            let stopping = after(a, Event::Commanded(Command::Cancel));
            &&& a.accepted(Event::Commanded(Command::Cancel))
            &&& a.transition(Event::Commanded(Command::Cancel)).1.action == Action::Flush
            &&& stopping.accepted(Event::Flushed(flushed))
            &&& stopping.transition(Event::Flushed(flushed)).1.action == Action::Finish(
                AttemptOutcome::Cancelled,
            )
        }),
{
}

/// The error that an event brings.
pub open spec fn error_of(event: Event) -> Option<String> {
    match event {
        Event::Prepared(Err(error)) => Some(error),
        Event::Responded(Err(error)) => Some(error),
        Event::Responded(Ok(response)) => response.rejected,
        Event::Hashed(Err(error)) => Some(error),
        Event::Opened(Err(error)) => Some(error),
        Event::WriteFailed(error) => Some(error),
        Event::StreamFailed(error) => Some(error),
        Event::Flushed(Err(error)) => Some(error),
        _ => None,
    }
}

/// An error ends the attempt and is the reason given, at once or after a last flush of what had
/// arrived. The exceptions are a range behind the end of the file, which is no error, and the
/// flush of a transfer that is being stopped.
pub proof fn an_error_ends_the_attempt(a: Attempt, event: Event)
    requires
        a.accepted(event),
        error_of(event) is Some,
        !(a.stage is Stopping),
        !(event matches Event::Responded(Ok(response)) && response.status == 416
            && a.stage->allow_resume),
    ensures
        ({
            let reason = AttemptOutcome::Failed(error_of(event)->0);
            ||| a.transition(event).1.action == Action::Finish(reason)
            ||| a.stage is Fetching && event is StreamFailed && after(a, event).stage
                == Stage::Stopping(reason)
        }),
{
}

/// What is shown of a transfer is its exact count at that moment.
pub proof fn a_report_is_exact(a: Attempt, event: Event)
    requires
        a.accepted(event),
        a.transition(event).1.publish is Some,
        a.transition(event).1.publish->0 is Downloading,
    ensures
        after(a, event).stage is Polling,
        ({
            let t = after(a, event).stage->Polling_0;
            a.transition(event).1.publish->0 == (Progress::Downloading {
                received: t.received,
                total: t.total,
                speed: t.speed,
            })
        }),
{
}

/// What is shown on the way, in its order.
pub open spec fn shown(a: Attempt, events: Seq<Event>) -> Seq<Progress>
    decreases events.len(),
{
    if events.len() == 0 {
        Seq::empty()
    } else {
        let rest = shown(after(a, events.first()), events.drop_first());
        match a.transition(events.first()).1.publish {
            Some(progress) => seq![progress] + rest,
            None => rest,
        }
    }
}

/// Whether a sequence is what one transfer shows: reports that begin with speed zero, whose count
/// never decreases and whose total stays, and at most one `Verifying`, behind all of them.
pub open spec fn shows_a_transfer(p: Seq<Progress>) -> bool {
    &&& forall|i: int| 0 <= i < p.len() ==> (#[trigger] p[i]) is Downloading || p[i] is Verifying
    &&& forall|i: int| 0 <= i < p.len() && (#[trigger] p[i]) is Verifying ==> i == p.len() - 1
    &&& forall|i: int, j: int|
        0 <= i < j < p.len() && (#[trigger] p[i]) is Downloading && (#[trigger] p[j]) is Downloading
            ==> p[i]->Downloading_received <= p[j]->Downloading_received
            && p[i]->Downloading_total == p[j]->Downloading_total
    &&& p.len() > 0 ==> p[0] is Downloading && p[0]->speed == (Speed { bits: 0 })
}

/// Whether a sequence is what one attempt shows: what a transfer shows, after a `Verifying` where a
/// file that seemed complete was looked into first.
pub open spec fn shows_an_attempt(p: Seq<Progress>) -> bool {
    shows_a_transfer(p) || (p.len() > 0 && p[0] is Verifying && shows_a_transfer(p.drop_first()))
}

/// The rest of what a transfer shows, from a stage with a count on.
spec fn continues_a_transfer(p: Seq<Progress>, received: u64, total: Option<u64>) -> bool {
    &&& forall|i: int| 0 <= i < p.len() ==> (#[trigger] p[i]) is Downloading || p[i] is Verifying
    &&& forall|i: int| 0 <= i < p.len() && (#[trigger] p[i]) is Verifying ==> i == p.len() - 1
    &&& forall|i: int|
        0 <= i < p.len() && (#[trigger] p[i]) is Downloading ==> p[i]->Downloading_received
            >= received && p[i]->Downloading_total == total
    &&& forall|i: int, j: int|
        0 <= i < j < p.len() && (#[trigger] p[i]) is Downloading && (#[trigger] p[j]) is Downloading
            ==> p[i]->Downloading_received <= p[j]->Downloading_received
}

proof fn nothing_is_shown_behind_a_transfer(a: Attempt, events: Seq<Event>)
    requires
        all_accepted(a, events),
        behind_a_transfer(a.stage),
    ensures
        shown(a, events).len() <= 1,
        !(a.stage is Flushing) ==> shown(a, events).len() == 0,
        shown(a, events).len() == 1 ==> shown(a, events)[0] is Verifying,
    decreases events.len(),
{
    if events.len() > 0 {
        nothing_is_shown_behind_a_transfer(after(a, events.first()), events.drop_first());
    }
}

spec fn in_a_transfer(stage: Stage) -> bool {
    stage is Polling || stage is Fetching || stage is Sampling
}

proof fn a_transfer_is_shown_in_order(a: Attempt, events: Seq<Event>)
    requires
        all_accepted(a, events),
        in_a_transfer(a.stage),
    ensures
        continues_a_transfer(
            shown(a, events),
            counted(a.stage)->0,
            known_total(a.stage)->0,
        ),
    decreases events.len(),
{
    if events.len() > 0 {
        let event = events.first();
        let next = after(a, event);
        let rest = shown(next, events.drop_first());
        if in_a_transfer(next.stage) {
            a_transfer_is_shown_in_order(next, events.drop_first());
            assert(counted(a.stage)->0 <= counted(next.stage)->0);
            assert(known_total(a.stage) == known_total(next.stage));
            if a.transition(event).1.publish is Some {
                let first = a.transition(event).1.publish->0;
                let p = seq![first] + rest;
                assert(first->Downloading_received == counted(next.stage)->0);
                assert(forall|i: int| 0 < i < p.len() ==> #[trigger] p[i] == rest[i - 1]);
            }
        } else {
            nothing_is_shown_behind_a_transfer(next, events.drop_first());
        }
    }
}

proof fn an_opening_is_shown_in_order(a: Attempt, events: Seq<Event>)
    requires
        all_accepted(a, events),
        a.stage is Opening,
    ensures
        shows_a_transfer(shown(a, events)),
{
    if events.len() > 0 {
        let event = events.first();
        let next = after(a, event);
        let rest = shown(next, events.drop_first());
        if in_a_transfer(next.stage) {
            a_transfer_is_shown_in_order(next, events.drop_first());
            let first = a.transition(event).1.publish->0;
            let p = seq![first] + rest;
            assert(p[0] == first);
            assert(forall|i: int| 0 < i < p.len() ==> #[trigger] p[i] == rest[i - 1]);
        } else {
            nothing_is_shown_behind_a_transfer(next, events.drop_first());
        }
    }
}

proof fn a_whole_request_is_shown_in_order(a: Attempt, events: Seq<Event>)
    requires
        all_accepted(a, events),
        a.stage is Requesting,
        !a.stage->allow_resume,
    ensures
        shows_a_transfer(shown(a, events)),
{
    if events.len() > 0 {
        let next = after(a, events.first());
        if next.stage is Opening {
            an_opening_is_shown_in_order(next, events.drop_first());
        } else {
            nothing_is_shown_behind_a_transfer(next, events.drop_first());
        }
    }
}

proof fn a_recheck_is_shown_in_order(a: Attempt, events: Seq<Event>)
    requires
        all_accepted(a, events),
        a.stage is Rechecking || a.stage is Remeasuring,
    ensures
        shows_a_transfer(shown(a, events)),
    decreases events.len(),
{
    if events.len() > 0 {
        let next = after(a, events.first());
        if next.stage is Requesting {
            a_whole_request_is_shown_in_order(next, events.drop_first());
        } else if next.stage is Remeasuring {
            a_recheck_is_shown_in_order(next, events.drop_first());
        } else {
            nothing_is_shown_behind_a_transfer(next, events.drop_first());
        }
    }
}

proof fn a_start_is_shown_in_order(a: Attempt, events: Seq<Event>)
    requires
        all_accepted(a, events),
        a.stage is Preparing || a.stage is Measuring || a.stage is Requesting,
    ensures
        shows_an_attempt(shown(a, events)),
    decreases events.len(),
{
    if events.len() > 0 {
        let rest = events.drop_first();
        let next = after(a, events.first());
        if next.stage is Measuring || next.stage is Requesting {
            a_start_is_shown_in_order(next, rest);
        } else if next.stage is Rechecking {
            a_recheck_is_shown_in_order(next, rest);
            assert(shown(a, events).drop_first() == shown(next, rest));
        } else if next.stage is Opening {
            an_opening_is_shown_in_order(next, rest);
        } else {
            nothing_is_shown_behind_a_transfer(next, rest);
        }
    }
}

/// Whether the reports in a sequence begin with speed zero, never count less than before and keep
/// their total, no report follows a `Verifying` but one that stands first, and nothing follows a
/// `Verifying` behind a report.
pub open spec fn in_order(p: Seq<Progress>) -> bool {
    &&& forall|i: int, j: int|
        0 <= i < j < p.len() && (#[trigger] p[i]) is Downloading && (#[trigger] p[j]) is Downloading
            ==> p[i]->Downloading_received <= p[j]->Downloading_received
            && p[i]->Downloading_total == p[j]->Downloading_total
    &&& forall|j: int|
        0 <= j < p.len() && (#[trigger] p[j]) is Downloading && (forall|i: int|
            0 <= i < j ==> !((#[trigger] p[i]) is Downloading)) ==> p[j]->speed == (Speed {
            bits: 0,
        })
    &&& forall|i: int, j: int|
        0 <= i < j < p.len() && (#[trigger] p[i]) is Downloading && (#[trigger] p[j]) is Verifying
            ==> j == p.len() - 1
    &&& forall|i: int, j: int|
        0 <= i < j < p.len() && (#[trigger] p[i]) is Verifying && (#[trigger] p[j]) is Downloading
            ==> i == 0
}

proof fn an_attempt_shows_in_order(p: Seq<Progress>)
    requires
        shows_an_attempt(p),
    ensures
        in_order(p),
{
    if !shows_a_transfer(p) {
        let q = p.drop_first();
        assert(forall|i: int| 0 < i < p.len() ==> #[trigger] p[i] == q[i - 1]);
    }
    assert forall|j: int|
        0 <= j < p.len() && (#[trigger] p[j]) is Downloading && (forall|i: int|
            0 <= i < j ==> !((#[trigger] p[i]) is Downloading)) implies p[j]->speed == (Speed {
        bits: 0,
    }) by {
        if j > 0 {
            assert(!(p[0] is Downloading));
            if j > 1 {
                assert(!(p[1] is Downloading));
            }
        }
    }
}

proof fn accepted_samples_are_rates(a: Attempt, events: Seq<Event>)
    requires
        all_accepted(a, events),
    ensures
        forall|k: int|
            0 <= k < events.len() && (#[trigger] events[k]) is Sampled
                ==> events[k]->Sampled_0.is_a_rate(),
    decreases events.len(),
{
    if events.len() > 0 {
        let rest = events.drop_first();
        accepted_samples_are_rates(after(a, events.first()), rest);
        assert forall|k: int| 0 <= k < events.len() && (#[trigger] events[k]) is Sampled implies
            events[k]->Sampled_0.is_a_rate() by {
            if k > 0 {
                assert(events[k] == rest[k - 1]);
            }
        }
    }
}

/// The speed that a stage of a transfer carries.
spec fn carried_speed(stage: Stage) -> Speed {
    match stage {
        Stage::Polling(t) => t.speed,
        Stage::Fetching(t) => t.speed,
        Stage::Sampling(t) => t.speed,
        _ => Speed { bits: 0 },
    }
}

proof fn speeds_are_carried_or_sampled(
    a: Attempt,
    events: Seq<Event>,
    holds: spec_fn(Speed) -> bool,
)
    requires
        all_accepted(a, events),
        holds(Speed { bits: 0 }),
        holds(carried_speed(a.stage)),
        forall|k: int|
            0 <= k < events.len() && (#[trigger] events[k]) is Sampled ==> holds(
                events[k]->Sampled_0,
            ),
    ensures
        forall|i: int|
            0 <= i < shown(a, events).len() && (#[trigger] shown(a, events)[i]) is Downloading
                ==> holds(shown(a, events)[i]->speed),
    decreases events.len(),
{
    if events.len() > 0 {
        let event = events.first();
        let rest = events.drop_first();
        let next = after(a, event);
        assert(event == events[0]);
        assert forall|k: int| 0 <= k < rest.len() && (#[trigger] rest[k]) is Sampled implies holds(
            rest[k]->Sampled_0,
        ) by {
            assert(rest[k] == events[k + 1]);
        }
        assert(holds(carried_speed(next.stage)));
        speeds_are_carried_or_sampled(next, rest, holds);
        if a.transition(event).1.publish is Some {
            let first = a.transition(event).1.publish->0;
            let q = shown(next, rest);
            let p = seq![first] + q;
            assert(first is Downloading ==> holds(first->speed));
            assert(forall|i: int| 0 < i < p.len() ==> #[trigger] p[i] == q[i - 1]);
        }
    }
}

/// What one attempt shows is in order. The first report of its transfer has speed zero; the count
/// of the reports never decreases and their total stays; no report follows the `Verifying` of the
/// file that was transferred; every speed is a finite number and not less than zero. One
/// `Verifying` may come before all reports: that of a file that seemed complete already.
pub proof fn an_attempt_is_shown_in_order(a: Attempt, events: Seq<Event>)
    requires
        a.stage is Preparing,
        all_accepted(a, events),
    ensures
        shows_an_attempt(shown(a, events)),
        in_order(shown(a, events)),
        forall|i: int|
            0 <= i < shown(a, events).len() && (#[trigger] shown(a, events)[i]) is Downloading
                ==> shown(a, events)[i]->speed.is_a_rate(),
{
    a_start_is_shown_in_order(a, events);
    an_attempt_shows_in_order(shown(a, events));
    accepted_samples_are_rates(a, events);
    speeds_are_carried_or_sampled(a, events, |speed: Speed| speed.is_a_rate());
}

/// Every speed that an attempt shows is zero or a speed that was sampled: whatever holds of zero and
/// of the samples holds of all that is shown.
pub proof fn shown_speeds_are_sampled(a: Attempt, events: Seq<Event>, holds: spec_fn(Speed) -> bool)
    requires
        a.stage is Preparing,
        all_accepted(a, events),
        holds(Speed { bits: 0 }),
        forall|k: int|
            0 <= k < events.len() && (#[trigger] events[k]) is Sampled ==> holds(
                events[k]->Sampled_0,
            ),
    ensures
        forall|i: int|
            0 <= i < shown(a, events).len() && (#[trigger] shown(a, events)[i]) is Downloading
                ==> holds(shown(a, events)[i]->speed),
{
    speeds_are_carried_or_sampled(a, events, holds);
}

} // verus!
