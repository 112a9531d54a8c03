//! How the actions of an attempt and the events that answer them follow each other.

use crate::attempt::{Action, Attempt, AttemptOutcome, Event, Stage, Step, Transfer};
use crate::download::Command;
use crate::laws::attempt::{
    after, after_all, all_accepted, error_of, received_is_start_plus_written, shown, written,
};
use crate::progress::Progress;
use crate::speed::Speed;
use vstd::prelude::*;

verus! {

/// Whether an action is the one that a stage waits for.
pub open spec fn waits_for(stage: Stage, action: Action) -> bool {
    match stage {
        Stage::Preparing => action is Prepare,
        Stage::Measuring => action is Measure,
        Stage::Requesting { .. } => action is Request,
        Stage::Rechecking => action is Hash,
        Stage::Remeasuring { .. } => action is Measure,
        Stage::Opening { .. } => action is Open,
        Stage::Polling(_) => action is Poll,
        Stage::Fetching(_) => action is Fetch,
        Stage::Sampling(_) => action is Sample,
        Stage::Stopping(_) => action is Flush,
        Stage::Flushing { .. } => action is Flush,
        Stage::Hashing { .. } => action is Hash,
        Stage::Finished => action is Finish,
    }
}

/// Whether an event is something that an action can come to.
pub open spec fn answers(action: Action, event: Event) -> bool {
    match event {
        Event::Prepared(_) => action is Prepare,
        Event::Measured(_) => action is Measure,
        Event::Responded(_) => action is Request,
        Event::Hashed(_) => action is Hash,
        Event::Opened(_) => action is Open,
        Event::Commanded(_) => action is Poll,
        Event::Wrote { .. } => action is Fetch,
        Event::WriteFailed(_) => action is Fetch,
        Event::StreamFailed(_) => action is Fetch,
        Event::StreamEnded => action is Fetch,
        Event::Sampled(_) => action is Sample,
        Event::Flushed(_) => action is Flush,
    }
}

/// Whether an event keeps the count of a stage within 64 bits, and brings no speed but a finite
/// one that is not less than zero.
pub open spec fn countable(stage: Stage, event: Event) -> bool {
    match event {
        Event::Responded(Ok(response)) => stage is Requesting && response.content_length is Some
            ==> stage->Requesting_offset + response.content_length->0 <= u64::MAX,
        Event::Wrote { len, .. } => stage is Fetching ==> stage->Fetching_0.received + len
            <= u64::MAX,
        Event::Sampled(speed) => speed.bits < 0x7ff0_0000_0000_0000 || speed.bits
            == 0x8000_0000_0000_0000,
        _ => true,
    }
}

/// The action that a step asks for is the one whose event the new stage waits for, and a step asks
/// for the end exactly where the attempt is over.
pub proof fn a_step_asks_for_what_it_waits_for(a: Attempt, event: Event)
    requires
        a.accepted(event),
    ensures
        waits_for(after(a, event).stage, a.transition(event).1.action),
        a.transition(event).1.action is Finish <==> after(a, event).stage is Finished,
{
}

/// After a step, an event is accepted only where it answers the action that the step asked for, and
/// every such answer is accepted as long as it can be counted: whoever performs the actions and
/// hands back what they came to is never stuck before the end.
pub proof fn an_answer_is_accepted(a: Attempt, event: Event, answer: Event)
    requires
        a.accepted(event),
    ensures
        after(a, event).accepted(answer) ==> answers(a.transition(event).1.action, answer),
        answers(a.transition(event).1.action, answer) && countable(after(a, event).stage, answer)
            ==> after(a, event).accepted(answer),
        after(a, event).accepted(answer) && !(answer is Responded) ==> countable(
            after(a, event).stage,
            answer,
        ),
{
}

/// An attempt begins with the directory, whatever comes of it.
pub proof fn an_attempt_begins_with_the_directory(a: Attempt, event: Event)
    requires
        a.stage is Preparing,
    ensures
        a.accepted(event) <==> answers(Action::Prepare, event),
{
}

/// The stages that can follow a stage while nothing fails and the user wants the download to run.
pub open spec fn leads_on(from: Stage, to: Stage) -> bool {
    match from {
        Stage::Preparing => to is Measuring,
        Stage::Measuring => to is Requesting,
        Stage::Requesting { .. } => to is Rechecking || to is Opening,
        Stage::Rechecking => to is Remeasuring || to is Requesting,
        Stage::Remeasuring { .. } => to is Finished,
        Stage::Opening { .. } => to is Polling,
        Stage::Polling(_) => to is Fetching,
        Stage::Fetching(_) => to is Polling || to is Sampling || to is Flushing,
        Stage::Sampling(_) => to is Polling,
        Stage::Stopping(_) => to is Finished,
        Stage::Flushing { .. } => to is Hashing,
        Stage::Hashing { .. } => to is Finished,
        Stage::Finished => false,
    }
}

/// While nothing fails and the user wants the download to run, an attempt goes its way: directory,
/// size, request, file, wishes and chunks in turn, flush and digest, or request and digest alone
/// where the server says that there is nothing to send. Only the end of the transfer leads to the
/// flush, and only a status of 416 to a request with a range leads to the digest alone.
pub proof fn an_attempt_goes_its_way(a: Attempt, event: Event)
    requires
        a.accepted(event),
        error_of(event) is None,
        event != Event::Commanded(Command::Pause),
        event != Event::Commanded(Command::Cancel),
    ensures
        leads_on(a.stage, after(a, event).stage),
        a.stage is Fetching ==> (after(a, event).stage is Flushing <==> event is StreamEnded),
        a.stage is Requesting ==> (after(a, event).stage is Rechecking
            <==> a.stage->Requesting_allow_resume
            && event->Responded_0->Ok_0.status == 416),
{
}

/// What had failed is no reason to go on: an error ends the attempt at once, with the error as the
/// reason. Where the transfer breaks off, what had arrived is flushed first. A status of 416 to a
/// request with a range is no error, and no more is the last flush of a transfer that is stopped.
pub proof fn an_error_is_the_end(a: Attempt, event: Event)
    requires
        a.accepted(event),
        error_of(event) is Some,
    ensures
        ({
            let reason = AttemptOutcome::Failed(error_of(event)->0);
            let (next, step) = a.transition(event);
            if event is StreamFailed {
                &&& next == Stage::Stopping(reason)
                &&& step.action is Flush
            } else if a.stage is Stopping {
                step.action == Action::Finish(a.stage->Stopping_0)
            } else if a.stage is Requesting && a.stage->Requesting_allow_resume
                && event->Responded_0 is Ok && event->Responded_0->Ok_0.status == 416 {
                &&& next is Rechecking
                &&& step.action is Hash
            } else {
                step.action == Action::Finish(reason)
            }
        }),
{
}

/// A range is asked for exactly where a response may be the rest of the file, and it starts where
/// the file on disk ends; a file is opened to be appended to exactly where the count goes on.
pub proof fn a_request_asks_for_what_is_missing(a: Attempt, event: Event)
    requires
        a.accepted(event),
    ensures
        ({
            let (next, step) = a.transition(event);
            &&& step.action matches Action::Request { range_from } ==> (range_from is Some
                <==> next->Requesting_allow_resume)
            &&& step.action matches Action::Request { range_from } ==> (range_from is Some
                ==> range_from == Some(next->Requesting_offset) && event == Event::Measured(
                next->Requesting_offset,
            ))
            &&& step.action matches Action::Open { append } ==> append == next->Opening_resuming
        }),
{
}

/// What a step shows: that the digest is computed exactly where it asks for the digest, and a
/// transfer exactly where the clock is restarted, when the file is opened and after every sample.
pub proof fn a_step_shows_a_transfer_or_a_digest(a: Attempt, event: Event)
    requires
        a.accepted(event),
    ensures
        ({
            let step = a.transition(event).1;
            &&& step.publish == Some(Progress::Verifying) <==> step.action is Hash
            &&& step.publish is Some && step.publish->0 is Downloading <==> step.restart_clock
            &&& step.publish is Some ==> step.publish->0 is Downloading || step.publish->0
                is Verifying
            &&& step.restart_clock ==> step.action is Poll
            &&& event == Event::Opened(Ok(())) || event is Sampled ==> step.restart_clock
            &&& step.restart_clock ==> event is Opened || event is Sampled || event is Wrote
        }),
{
}

/// The last of the steps that some events lead to.
pub open spec fn last_step(a: Attempt, events: Seq<Event>) -> Step {
    after_all(a, events.drop_last()).transition(events.last()).1
}

/// Events are taken in one by one: what some events come to is what the last one makes of what the
/// others came to.
pub proof fn the_last_event_comes_last(a: Attempt, events: Seq<Event>)
    requires
        events.len() > 0,
        all_accepted(a, events),
    ensures
        all_accepted(a, events.drop_last()),
        after_all(a, events.drop_last()).accepted(events.last()),
        after_all(a, events) == after(after_all(a, events.drop_last()), events.last()),
    decreases events.len(),
{
    let next = after(a, events.first());
    let rest = events.drop_first();
    if rest.len() > 0 {
        the_last_event_comes_last(next, rest);
        assert(rest.drop_last() == events.drop_last().drop_first());
        assert(events.drop_last().first() == events.first());
    } else {
        assert(events.drop_last().len() == 0);
        assert(after_all(next, rest) == next);
    }
}

/// No attempt ends without its cause. It is cancelled or paused only where the event before the
/// last was the wish of the user for that; it fails only with an error that the last event brought,
/// or the one before where the transfer broke off; and it completes only with the digest that was
/// just computed, and for a file that is kept with the size that was just measured.
pub proof fn every_end_has_its_cause(a: Attempt, events: Seq<Event>)
    requires
        a.stage is Preparing,
        all_accepted(a, events),
        events.len() > 0,
    ensures
        ({
            let action = last_step(a, events).action;
            let n = events.len();
            &&& action == Action::Finish(AttemptOutcome::Cancelled) ==> n >= 2 && events[n - 2]
                == Event::Commanded(Command::Cancel)
            &&& action is Finish && action->Finish_0 is Paused ==> n >= 2 && events[n - 2]
                == Event::Commanded(Command::Pause)
            &&& action matches Action::Finish(AttemptOutcome::Failed(error)) ==> error_of(
                events[n - 1],
            ) == Some(error) || (n >= 2 && events[n - 2] == Event::StreamFailed(error))
            &&& action matches Action::Finish(AttemptOutcome::Completed(outcome)) ==> events[n - 1]
                == Event::Hashed(Ok(outcome.sha256)) || (n >= 2 && events[n - 2] == Event::Hashed(
                Ok(outcome.sha256),
            ) && events[n - 1] == Event::Measured(outcome.bytes))
        }),
{
    the_last_event_comes_last(a, events);
    let before = events.drop_last();
    if before.len() > 0 {
        the_last_event_comes_last(a, before);
        assert(before.last() == events[events.len() - 2]);
    }
}

/// A download is cancelled or paused by its user alone: where no event of an attempt is such a wish,
/// the attempt does not end so.
pub proof fn an_attempt_is_stopped_by_its_user_alone(a: Attempt, events: Seq<Event>)
    requires
        a.stage is Preparing,
        all_accepted(a, events),
        events.len() > 0,
        last_step(a, events).action is Finish,
    ensures
        last_step(a, events).action->Finish_0 is Cancelled ==> exists|k: int|
            0 <= k < events.len() && #[trigger] events[k] == Event::Commanded(Command::Cancel),
        last_step(a, events).action->Finish_0 is Paused ==> exists|k: int|
            0 <= k < events.len() && #[trigger] events[k] == Event::Commanded(Command::Pause),
{
    every_end_has_its_cause(a, events);
}

spec fn transferred(stage: Stage) -> Option<Transfer> {
    match stage {
        Stage::Polling(t) => Some(t),
        Stage::Fetching(t) => Some(t),
        Stage::Sampling(t) => Some(t),
        _ => None,
    }
}

/// Nothing is fetched or sampled behind a transfer.
proof fn a_transfer_is_not_taken_up(a: Attempt, events: Seq<Event>)
    requires
        all_accepted(a, events),
        a.stage is Stopping || a.stage is Flushing || a.stage is Hashing || a.stage is Finished,
    ensures
        forall|k: int|
            0 <= k < events.len() ==> !((#[trigger] events[k]) is Wrote) && !(events[k] is Sampled),
    decreases events.len(),
{
    if events.len() > 0 {
        let rest = events.drop_first();
        a_transfer_is_not_taken_up(after(a, events.first()), rest);
        assert forall|k: int| 0 <= k < events.len() implies !((#[trigger] events[k]) is Wrote)
            && !(events[k] is Sampled) by {
            if k > 0 {
                assert(events[k] == rest[k - 1]);
            }
        }
    }
}

/// What the last of some events comes to where none before it was shown.
spec fn next_report(
    step: Step,
    event: Event,
    received: int,
    since: int,
    total: Option<u64>,
    speed: Speed,
) -> bool {
    match event {
        Event::Wrote { elapsed_nanos, .. } => if since < 65536 && elapsed_nanos < 250_000_000 {
            &&& step.publish is None
            &&& step.action is Poll
        } else if elapsed_nanos == 0 {
            &&& step.publish == Some(
                Progress::Downloading { received: received as u64, total, speed },
            )
            &&& step.action is Poll
        } else {
            &&& step.publish is None
            &&& step.action == Action::Sample {
                bytes: since as u64,
                elapsed_nanos,
                previous: if speed.bits == 0 || speed.bits == 0x8000_0000_0000_0000 {
                    None
                } else {
                    Some(speed)
                },
            }
        },
        Event::Sampled(sampled) => {
            &&& step.publish == Some(
                Progress::Downloading { received: received as u64, total, speed: sampled },
            )
            &&& step.action is Poll
        },
        _ => !(step.action is Sample) && (step.publish is Some ==> step.publish->0 is Verifying),
    }
}

proof fn the_next_report(a: Attempt, events: Seq<Event>)
    requires
        all_accepted(a, events),
        events.len() > 0,
        shown(a, events.drop_last()).len() == 0,
        transferred(a.stage) is Some,
        transferred(a.stage)->0.last_bytes <= transferred(a.stage)->0.received,
    ensures
        ({
            let t = transferred(a.stage)->0;
            &&& t.received + written(events) <= u64::MAX
            &&& next_report(
                last_step(a, events),
                events.last(),
                t.received + written(events),
                t.received + written(events) - t.last_bytes,
                t.total,
                t.speed,
            )
        }),
    decreases events.len(),
{
    let event = events.first();
    let next = after(a, event);
    let rest = events.drop_first();
    if rest.len() == 0 {
        assert(events.drop_last().len() == 0);
        assert(written(rest) == 0);
        assert(events.last() == event);
    } else {
        assert(events.drop_last().first() == event);
        assert(events.drop_last().drop_first() == rest.drop_last());
        assert(events.last() == rest.last());
        assert(a.transition(event).1.publish is None);
        assert(last_step(a, events) == last_step(next, rest));
        if transferred(next.stage) is Some {
            the_next_report(next, rest);
        } else {
            a_transfer_is_not_taken_up(next, rest);
            nothing_is_written(rest);
            the_last_event_comes_last(next, rest);
            a_stopped_transfer_shows_nothing(next, rest);
            assert(rest.last() == rest[rest.len() - 1]);
        }
    }
}

proof fn nothing_is_written(events: Seq<Event>)
    requires
        forall|k: int| 0 <= k < events.len() ==> !((#[trigger] events[k]) is Wrote),
    ensures
        written(events) == 0,
    decreases events.len(),
{
    if events.len() > 0 {
        let rest = events.drop_first();
        assert forall|k: int| 0 <= k < rest.len() implies !((#[trigger] rest[k]) is Wrote) by {
            assert(!(events[k + 1] is Wrote));
        }
        assert(!(events[0] is Wrote));
        nothing_is_written(rest);
    }
}

proof fn a_stopped_transfer_shows_nothing(a: Attempt, events: Seq<Event>)
    requires
        all_accepted(a, events),
        events.len() > 0,
        a.stage is Stopping || a.stage is Flushing || a.stage is Hashing || a.stage is Finished,
    ensures
        !(last_step(a, events).action is Sample),
        last_step(a, events).publish is Some ==> last_step(a, events).publish->0 is Verifying,
    decreases events.len(),
{
    let next = after(a, events.first());
    let rest = events.drop_first();
    if rest.len() > 0 {
        a_stopped_transfer_shows_nothing(next, rest);
        assert(events.drop_last().drop_first() == rest.drop_last());
        assert(events.drop_last().first() == events.first());
    } else {
        assert(events.drop_last().len() == 0);
    }
}

/// How a report of a transfer and the next one relate. `shown_event` is the event that led to the
/// last report, and none of `events` but the last leads to another.
///
/// Wherever a sample is asked for, its bytes are those of all chunks that were written since the
/// last report, its time is the one that passed since then, and its previous speed is the speed last
/// shown, unless that is zero. One is asked for after 64 KiB or a quarter of a second, where any time
/// has passed at all. The report that follows has the speed that came of it, and every report counts
/// what the last one did and the chunks written since.
pub proof fn a_sample_covers_what_came_since_the_last_report(
    a: Attempt,
    shown_event: Event,
    events: Seq<Event>,
)
    requires
        a.accepted(shown_event),
        a.transition(shown_event).1.publish is Some,
        a.transition(shown_event).1.publish->0 is Downloading,
        all_accepted(after(a, shown_event), events),
        events.len() > 0,
        shown(after(a, shown_event), events.drop_last()).len() == 0,
    ensures
        ({
            let last = a.transition(shown_event).1.publish->0;
            let received = last->Downloading_received;
            let total = last->Downloading_total;
            let step = last_step(after(a, shown_event), events);
            let since = written(events);
            &&& received + since <= u64::MAX
            &&& step.action matches Action::Sample { bytes, elapsed_nanos, previous } ==> {
                &&& bytes == since
                &&& events.last() is Wrote
                &&& elapsed_nanos == events.last()->elapsed_nanos
                &&& elapsed_nanos > 0
                &&& since >= 65536 || elapsed_nanos >= 250_000_000
                &&& previous == if last->speed.bits == 0 || last->speed.bits
                    == 0x8000_0000_0000_0000 {
                    None::<Speed>
                } else {
                    Some(last->speed)
                }
            }
            &&& events.last() is Wrote && (since >= 65536 || events.last()->elapsed_nanos
                >= 250_000_000) ==> if events.last()->elapsed_nanos > 0 {
                &&& step.action is Sample
                &&& step.publish is None
            } else {
                step.publish == Some(
                    Progress::Downloading {
                        received: (received + since) as u64,
                        total,
                        speed: last->speed,
                    },
                )
            }
            &&& events.last() is Wrote && since < 65536 && events.last()->elapsed_nanos
                < 250_000_000 ==> step.publish is None && step.action is Poll
            &&& events.last() is Sampled ==> step.publish == Some(
                Progress::Downloading {
                    received: (received + since) as u64,
                    total,
                    speed: events.last()->Sampled_0,
                },
            )
        }),
{
    the_next_report(after(a, shown_event), events);
}

proof fn an_open_file_is_not_kept_unread(a: Attempt, events: Seq<Event>)
    requires
        all_accepted(a, events),
        a.stage is Opening || transferred(a.stage) is Some || a.stage is Stopping
            || a.stage is Flushing || a.stage is Hashing || a.stage is Finished,
        a.stage is Stopping ==> !(a.stage->Stopping_0 is Completed),
    ensures
        ({
            let last = after_all(a, events).stage;
            &&& !(last is Remeasuring)
            &&& last is Stopping ==> !(last->Stopping_0 is Completed)
        }),
    decreases events.len(),
{
    if events.len() > 0 {
        an_open_file_is_not_kept_unread(after(a, events.first()), events.drop_first());
    }
}

/// A transfer that ends, in whatever way, has counted every byte: a completed file has the size that
/// it had when it was opened and all chunks that were written since, and a paused one is counted the
/// same way, with the total of the response.
pub proof fn an_ended_transfer_has_counted_every_byte(a: Attempt, events: Seq<Event>)
    requires
        a.stage is Opening,
        all_accepted(a, events),
        events.len() > 0,
    ensures
        ({
            let action = last_step(a, events).action;
            &&& action matches Action::Finish(AttemptOutcome::Completed(outcome)) ==> outcome.bytes
                == a.stage->Opening_offset + written(events)
            &&& action matches Action::Finish(AttemptOutcome::Paused { received, total })
                ==> received == a.stage->Opening_offset + written(events) && total
                == a.stage->Opening_total
        }),
{
    let before = events.drop_last();
    the_last_event_comes_last(a, events);
    received_is_start_plus_written(a, before);
    an_open_file_is_not_kept_unread(a, before);
    the_last_chunk_is_written_last(events);
}

proof fn the_last_chunk_is_written_last(events: Seq<Event>)
    requires
        events.len() > 0,
    ensures
        written(events) == written(events.drop_last()) + match events.last() {
            Event::Wrote { len, .. } => len as nat,
            _ => 0nat,
        },
    decreases events.len(),
{
    let rest = events.drop_first();
    if rest.len() > 0 {
        the_last_chunk_is_written_last(rest);
        assert(events.drop_last().first() == events.first());
        assert(events.drop_last().drop_first() == rest.drop_last());
    } else {
        assert(written(rest) == 0);
        assert(events.drop_last().len() == 0);
    }
}

} // verus!
