//! Runs of the submission machine: what holds of every sequence of events.

use crate::submitter::{
    transient_timeout, transition, Action, Event, ReservationError, Submission, SubmitterConfig,
};
use vstd::prelude::*;

verus! {

/// The state reached from `state` after the events, taken in order.
pub open spec fn state_after(
    state: Submission,
    events: Seq<Event>,
    config: SubmitterConfig,
) -> Submission
    decreases events.len(),
{
    if events.len() == 0 {
        state
    } else {
        transition(state_after(state, events.drop_last(), config), events.last(), config).0
    }
}

/// The actions that the machine answers the events with, one for each.
pub open spec fn actions_of(state: Submission, events: Seq<Event>, config: SubmitterConfig) -> Seq<
    Action,
>
    decreases events.len(),
{
    if events.len() == 0 {
        Seq::empty()
    } else {
        actions_of(state, events.drop_last(), config).push(
            transition(state_after(state, events.drop_last(), config), events.last(), config).1,
        )
    }
}

/// How many of the actions deliver an outcome.
pub open spec fn deliveries(actions: Seq<Action>) -> nat
    decreases actions.len(),
{
    if actions.len() == 0 {
        0
    } else {
        deliveries(actions.drop_last()) + if actions.last() is Deliver {
            1nat
        } else {
            0nat
        }
    }
}

/// How many of the actions send a transaction.
pub open spec fn submits(actions: Seq<Action>) -> nat
    decreases actions.len(),
{
    if actions.len() == 0 {
        0
    } else {
        submits(actions.drop_last()) + if actions.last() is Submit {
            1nat
        } else {
            0nat
        }
    }
}

/// The sends that the retry bound still allows after `attempt` of them.
pub open spec fn retries_left(attempt: u32, config: SubmitterConfig) -> nat {
    if attempt < config.retry_attempts {
        (config.retry_attempts - attempt) as nat
    } else {
        0
    }
}

/// The most sends that can still follow from a state.
pub open spec fn sends_left(state: Submission, config: SubmitterConfig) -> nat {
    match state {
        Submission::ReadingSequence { .. } => 1 + retries_left(1, config),
        Submission::Simulating { .. } => 1 + retries_left(1, config),
        Submission::Jittering { .. } => 1 + retries_left(1, config),
        Submission::Submitting { attempt, .. } => retries_left(attempt, config),
        Submission::Backoff { next_attempt, .. } => 1 + retries_left(next_attempt, config),
        Submission::Finished => 0,
    }
}

/// The most awaited events that a state can still take before it finishes.
pub open spec fn steps_left(state: Submission, config: SubmitterConfig) -> nat {
    match state {
        Submission::ReadingSequence { .. } => 4 + 2 * retries_left(1, config),
        Submission::Simulating { .. } => 3 + 2 * retries_left(1, config),
        Submission::Jittering { .. } => 2 + 2 * retries_left(1, config),
        Submission::Submitting { attempt, .. } => 1 + 2 * retries_left(attempt, config),
        Submission::Backoff { next_attempt, .. } => 2 + 2 * retries_left(next_attempt, config),
        Submission::Finished => 0,
    }
}

/// The event is one that the state waits for.
pub open spec fn awaits(state: Submission, event: Event) -> bool {
    match state {
        Submission::ReadingSequence { .. } => event is SequenceRead,
        Submission::Simulating { .. } => event is Simulated,
        Submission::Jittering { .. } => event is DelayElapsed,
        Submission::Submitting { .. } => event is Submitted,
        Submission::Backoff { .. } => event is DelayElapsed,
        Submission::Finished => false,
    }
}

/// The state is past the sequence read and bound to the number `number`.
pub open spec fn bound_to(state: Submission, number: u64) -> bool {
    match state {
        Submission::ReadingSequence { .. } => false,
        Submission::Simulating { sequence_number, .. } => sequence_number == number,
        Submission::Jittering { sequence_number, .. } => sequence_number == number,
        Submission::Submitting { sequence_number, .. } => sequence_number == number,
        Submission::Backoff { sequence_number, .. } => sequence_number == number,
        Submission::Finished => true,
    }
}

/// Every event gets one action.
pub proof fn lemma_one_action_per_event(
    state: Submission,
    events: Seq<Event>,
    config: SubmitterConfig,
)
    ensures
        actions_of(state, events, config).len() == events.len(),
    decreases events.len(),
{
    if events.len() > 0 {
        lemma_one_action_per_event(state, events.drop_last(), config);
    }
}

/// An awaited event brings the request strictly nearer to its end and is
/// never ignored; any other event is ignored and changes nothing. An outcome
/// is delivered exactly on the step that finishes the request.
pub proof fn law_awaited_events_make_progress(
    state: Submission,
    event: Event,
    config: SubmitterConfig,
)
    ensures
        awaits(state, event) ==> steps_left(transition(state, event, config).0, config)
            < steps_left(state, config),
        awaits(state, event) ==> !(transition(state, event, config).1 is Ignore),
        !awaits(state, event) ==> transition(state, event, config) == (state, Action::Ignore),
        transition(state, event, config).1 is Deliver <==> !(state is Finished) && transition(
            state,
            event,
            config,
        ).0 is Finished,
{
}

/// Every event of the run is one that the state it meets waits for.
pub open spec fn all_awaited(state: Submission, events: Seq<Event>, config: SubmitterConfig) -> bool
    decreases events.len(),
{
    events.len() > 0 ==> all_awaited(state, events.drop_last(), config) && awaits(
        state_after(state, events.drop_last(), config),
        events.last(),
    )
}

/// A request ends: a run of awaited events is never longer than the steps
/// that the state had left, so after a read, a dry run, the jitter wait, the
/// allowed sends and the waits between them nothing more is awaited.
pub proof fn law_request_ends_within_its_steps(
    state: Submission,
    events: Seq<Event>,
    config: SubmitterConfig,
)
    requires
        all_awaited(state, events, config),
    ensures
        steps_left(state_after(state, events, config), config) + events.len() <= steps_left(
            state,
            config,
        ),
    decreases events.len(),
{
    if events.len() > 0 {
        let before = events.drop_last();
        law_request_ends_within_its_steps(state, before, config);
        law_awaited_events_make_progress(
            state_after(state, before, config),
            events.last(),
            config,
        );
    }
}

/// Over any run, a request that was open at the start has one outcome
/// delivered if the run finishes it, and none if it does not; nothing is
/// delivered for a request that was finished already.
pub proof fn law_outcome_delivered_once(
    state: Submission,
    events: Seq<Event>,
    config: SubmitterConfig,
)
    ensures
        deliveries(actions_of(state, events, config)) == if !(state is Finished) && state_after(
            state,
            events,
            config,
        ) is Finished {
            1nat
        } else {
            0nat
        },
        state is Finished ==> state_after(state, events, config) is Finished,
    decreases events.len(),
{
    if events.len() > 0 {
        let before = events.drop_last();
        law_outcome_delivered_once(state, before, config);
        let middle = state_after(state, before, config);
        let step = transition(middle, events.last(), config);
        law_awaited_events_make_progress(middle, events.last(), config);
        let earlier = actions_of(state, before, config);
        assert(earlier.push(step.1).drop_last() =~= earlier);
    }
}

/// Over any run, the sends stay within what the retry bound leaves: from the
/// start of a request, at most one send and the retries after it.
pub proof fn law_sends_within_retry_bound(
    state: Submission,
    events: Seq<Event>,
    config: SubmitterConfig,
)
    ensures
        submits(actions_of(state, events, config)) + sends_left(
            state_after(state, events, config),
            config,
        ) <= sends_left(state, config),
    decreases events.len(),
{
    if events.len() > 0 {
        let before = events.drop_last();
        law_sends_within_retry_bound(state, before, config);
        let middle = state_after(state, before, config);
        let step = transition(middle, events.last(), config);
        let earlier = actions_of(state, before, config);
        assert(earlier.push(step.1).drop_last() =~= earlier);
    }
}

/// Once a dry run has failed, nothing is ever sent for that request.
pub proof fn law_failed_simulation_never_submits(
    state: Submission,
    events: Seq<Event>,
    config: SubmitterConfig,
)
    requires
        state is Simulating,
        events.len() > 0,
        events[0] matches Event::Simulated { verdict } && verdict is Err,
    ensures
        submits(actions_of(state, events, config)) == 0,
        state_after(state, events, config) is Finished,
    decreases events.len(),
{
    let before = events.drop_last();
    let earlier = actions_of(state, before, config);
    let middle = state_after(state, before, config);
    let step = transition(middle, events.last(), config);
    assert(earlier.push(step.1).drop_last() =~= earlier);
    if events.len() > 1 {
        assert(before[0] == events[0]);
        law_failed_simulation_never_submits(state, before, config);
    } else {
        assert(events.last() == events[0]);
        assert(submits(earlier) == 0);
    }
}

/// A request that is bound to a sequence number sends with that number and
/// no other, whatever follows.
pub proof fn law_bound_number_is_kept(
    state: Submission,
    number: u64,
    events: Seq<Event>,
    config: SubmitterConfig,
)
    requires
        bound_to(state, number),
    ensures
        bound_to(state_after(state, events, config), number),
        forall|i: int|
            0 <= i < events.len() ==> (#[trigger] actions_of(state, events, config)[i]
                matches Action::Submit { sequence_number } ==> sequence_number == number),
    decreases events.len(),
{
    lemma_one_action_per_event(state, events, config);
    if events.len() > 0 {
        let before = events.drop_last();
        law_bound_number_is_kept(state, number, before, config);
        lemma_one_action_per_event(state, before, config);
    }
}

/// Every send of a request carries the sequence number that was read for it
/// at its start.
pub proof fn law_sends_use_the_number_read(
    state: Submission,
    number: u64,
    events: Seq<Event>,
    config: SubmitterConfig,
)
    requires
        state is ReadingSequence,
        events.len() > 0,
        events[0] == (Event::SequenceRead { number: Ok(number) }),
    ensures
        bound_to(state_after(state, events, config), number),
        forall|i: int|
            0 <= i < events.len() ==> (#[trigger] actions_of(state, events, config)[i]
                matches Action::Submit { sequence_number } ==> sequence_number == number),
    decreases events.len(),
{
    lemma_one_action_per_event(state, events, config);
    let before = events.drop_last();
    lemma_one_action_per_event(state, before, config);
    if events.len() > 1 {
        assert(before[0] == events[0]);
        law_sends_use_the_number_read(state, number, before, config);
    } else {
        assert(before.len() == 0);
        assert(events.last() == events[0]);
    }
}

/// From the start of a request the attempt counter counts the sends: while a
/// send is under way it equals the sends made, during a retry wait it is one
/// ahead, and neither passes the retry bound. The retries are reported as
/// exhausted only by the step that follows the last allowed send.
pub proof fn law_exhaustion_follows_the_last_allowed_send(
    state: Submission,
    events: Seq<Event>,
    config: SubmitterConfig,
)
    requires
        state is ReadingSequence,
        config.well_formed(),
    ensures
        ({
            let end = state_after(state, events, config);
            let sent = submits(actions_of(state, events, config));
            &&& end matches Submission::Submitting { attempt, .. } ==> attempt == sent && attempt
                <= config.retry_attempts
            &&& end matches Submission::Backoff { next_attempt, .. } ==> next_attempt == sent + 1
                && next_attempt <= config.retry_attempts
            &&& (end is ReadingSequence || end is Simulating || end is Jittering) ==> sent == 0
            &&& sent <= config.retry_attempts
        }),
        events.len() > 0 ==> (actions_of(state, events, config).last() matches Action::Deliver {
            outcome: Err(ReservationError::SubmissionExhausted { attempts, .. }),
        } ==> attempts == config.retry_attempts && submits(actions_of(state, events, config))
            == config.retry_attempts),
    decreases events.len(),
{
    if events.len() > 0 {
        let before = events.drop_last();
        law_exhaustion_follows_the_last_allowed_send(state, before, config);
        let middle = state_after(state, before, config);
        let step = transition(middle, events.last(), config);
        let earlier = actions_of(state, before, config);
        assert(earlier.push(step.1).drop_last() =~= earlier);
        law_outcome_delivered_once(state, before, config);
    }
}

/// What becomes of a failed send: a failure that is no timeout ends the
/// request at once; a timeout ends it when the bound is reached, and leads
/// to a wait of the retry interval before the next send otherwise.
pub proof fn law_failed_send_is_classified(
    state: Submission,
    message: String,
    config: SubmitterConfig,
)
    requires
        state is Submitting,
    ensures
        ({
            let step = transition(state, Event::Submitted { receipt: Err(message) }, config);
            let attempt = state->Submitting_attempt;
            &&& !transient_timeout(message@) ==> step.0 is Finished && (
            step.1 matches Action::Deliver {
                outcome: Err(ReservationError::Submission { .. }),
            })
            &&& transient_timeout(message@) && attempt >= config.retry_attempts
                ==> step.0 is Finished && (step.1 matches Action::Deliver {
                outcome: Err(ReservationError::SubmissionExhausted { .. }),
            })
            &&& transient_timeout(message@) && attempt < config.retry_attempts
                ==> step.0 is Backoff && step.1 == (Action::Sleep {
                millis: config.retry_interval_ms,
            })
        }),
{
}

} // verus!
