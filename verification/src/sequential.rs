//! The sequential submitter: one request in flight at a time, and the handle
//! its answer is owed to.

use crate::submitter::{transition, Action, Event, ReservationError, Submission, SubmitterConfig};
use vstd::prelude::*;

verus! {

/// The request being handled: where it stands, and the handle its answer
/// goes to.
pub struct InFlight<H> {
    pub response_handle: H,
    pub submission: Submission,
}

/// What the worker is to do after an event.
pub enum Directive<H> {
    /// Carry out the action for the request in flight.
    Perform { action: Action },
    /// Write the outcome to the handle; the request is over.
    Respond { response_handle: H, outcome: Result<String, ReservationError> },
    /// Nothing: no request is in flight, or the event was not awaited.
    Nothing,
}

/// The sole consumer of the queue. It holds at most one request, and takes
/// the next only when that one has been answered.
pub struct SequentialSubmitter<H> {
    pub config: SubmitterConfig,
    pub in_flight: Option<InFlight<H>>,
}

/// What the submitter holds and answers after an event: the request in
/// flight takes one step of the machine; the step that finishes it hands
/// out its handle with the outcome and leaves the submitter idle.
pub open spec fn reaction<H>(
    in_flight: Option<InFlight<H>>,
    event: Event,
    config: SubmitterConfig,
) -> (Option<InFlight<H>>, Directive<H>) {
    match in_flight {
        None => (None, Directive::Nothing),
        Some(current) => {
            let step = transition(current.submission, event, config);
            match step.1 {
                Action::Deliver { outcome } => (
                    None,
                    Directive::Respond { response_handle: current.response_handle, outcome },
                ),
                Action::Ignore => (in_flight, Directive::Nothing),
                action => (
                    Some(
                        InFlight { response_handle: current.response_handle, submission: step.0 },
                    ),
                    Directive::Perform { action },
                ),
            }
        },
    }
}

impl<H> SequentialSubmitter<H> {
    /// The configuration is well formed, and a request in flight is not yet
    /// finished.
    pub open spec fn well_formed(&self) -> bool {
        &&& self.config.well_formed()
        &&& self.in_flight matches Some(current) ==> !(current.submission is Finished)
    }

    /// An idle submitter, if the configuration is well formed.
    pub fn new(config: SubmitterConfig) -> (submitter: Option<Self>)
        ensures
            submitter is Some <==> config.well_formed(),
            submitter matches Some(s) ==> s.config == config && s.in_flight is None
                && s.well_formed(),
    {
        if config.is_well_formed() {
            Some(SequentialSubmitter { config, in_flight: None })
        } else {
            None
        }
    }

    /// Whether no request is in flight.
    pub fn is_idle(&self) -> (idle: bool)
        ensures
            idle == (self.in_flight is None),
    {
        self.in_flight.is_none()
    }

    /// Takes up the next request, whose first action is to read the signer's
    /// sequence number. While another request is in flight the new one is
    /// refused and its handle returned, and nothing changes.
    pub fn begin_next(&mut self, response_handle: H, debug_command: String) -> (first: Result<
        Action,
        H,
    >)
        requires
            old(self).well_formed(),
        ensures
            final(self).well_formed(),
            final(self).config == old(self).config,
            exists|jitter_ms: u64|
                old(self).config.jitter_min_ms <= jitter_ms <= old(self).config.jitter_max_ms
                    && final(self).in_flight == in_flight_after_input(
                    old(self).in_flight,
                    (WorkerInput::Begin { response_handle, debug_command, jitter_ms }),
                    old(self).config,
                ),
            old(self).in_flight is Some ==> first == Err::<Action, H>(response_handle)
                && *final(self) == *old(self),
            old(self).in_flight is None ==> first == Ok::<Action, H>(Action::ReadSequence)
                && exists|jitter_ms: u64|
                old(self).config.jitter_min_ms <= jitter_ms <= old(self).config.jitter_max_ms
                    && final(self).in_flight == Some(
                    InFlight {
                        response_handle,
                        submission: Submission::ReadingSequence { debug_command, jitter_ms },
                    },
                ),
    {
        if self.in_flight.is_some() {
            proof {
                let any_jitter = self.config.jitter_min_ms;
                assert(self.in_flight == in_flight_after_input(
                    self.in_flight,
                    (WorkerInput::Begin { response_handle, debug_command, jitter_ms: any_jitter }),
                    self.config,
                ));
            }
            return Err(response_handle);
        }
        let (submission, action) = Submission::begin(debug_command, &self.config);
        proof {
            let drawn = choose|jitter_ms: u64|
                self.config.jitter_min_ms <= jitter_ms <= self.config.jitter_max_ms && submission
                    == (Submission::ReadingSequence { debug_command, jitter_ms });
            assert(Some(InFlight { response_handle, submission }) == in_flight_after_input(
                self.in_flight,
                (WorkerInput::Begin { response_handle, debug_command, jitter_ms: drawn }),
                self.config,
            ));
        }
        self.in_flight = Some(InFlight { response_handle, submission });
        Ok(action)
    }

    /// Takes one event for the request in flight.
    pub fn handle_event(&mut self, event: Event) -> (directive: Directive<H>)
        requires
            old(self).well_formed(),
        ensures
            final(self).well_formed(),
            final(self).config == old(self).config,
            (final(self).in_flight, directive) == reaction(
                old(self).in_flight,
                event,
                old(self).config,
            ),
            final(self).in_flight == in_flight_after_input(
                old(self).in_flight,
                (WorkerInput::Chain { event }),
                old(self).config,
            ),
    {
        match self.in_flight.take() {
            None => Directive::Nothing,
            Some(current) => {
                let InFlight { response_handle, submission } = current;
                let (next, action) = submission.advance(event, &self.config);
                match action {
                    Action::Deliver { outcome } => Directive::Respond { response_handle, outcome },
                    Action::Ignore => {
                        self.in_flight = Some(InFlight { response_handle, submission: next });
                        Directive::Nothing
                    },
                    action => {
                        self.in_flight = Some(InFlight { response_handle, submission: next });
                        Directive::Perform { action }
                    },
                }
            },
        }
    }
}

/// A request in flight is answered on its own handle, once: the handle
/// leaves the submitter with the outcome on the step that finishes the
/// request, and on no other step; until then it stays where it is.
pub proof fn law_handle_leaves_with_the_outcome<H>(
    current: InFlight<H>,
    event: Event,
    config: SubmitterConfig,
)
    requires
        !(current.submission is Finished),
    ensures
        ({
            let after = reaction(Some(current), event, config);
            let step = transition(current.submission, event, config);
            &&& step.0 is Finished <==> after.1 is Respond
            &&& after.1 is Respond ==> after.0 is None && after.1 == (Directive::Respond {
                response_handle: current.response_handle,
                outcome: step.1->outcome,
            })
            &&& !(after.1 is Respond) ==> after.0 is Some && after.0->0.response_handle
                == current.response_handle && after.0->0.submission == step.0
        }),
{
}

/// What reaches the submitter: a request taken from the queue, with the
/// jitter drawn for it, or an event for the request in flight.
pub enum WorkerInput<H> {
    Begin { response_handle: H, debug_command: String, jitter_ms: u64 },
    Chain { event: Event },
}

/// The request in flight after one input. A request is taken up only by an
/// idle submitter; an event is taken as `reaction` says.
pub open spec fn in_flight_after_input<H>(
    in_flight: Option<InFlight<H>>,
    input: WorkerInput<H>,
    config: SubmitterConfig,
) -> Option<InFlight<H>> {
    match input {
        WorkerInput::Begin { response_handle, debug_command, jitter_ms } => if in_flight is None {
            Some(
                InFlight {
                    response_handle,
                    submission: Submission::ReadingSequence { debug_command, jitter_ms },
                },
            )
        } else {
            in_flight
        },
        WorkerInput::Chain { event } => reaction(in_flight, event, config).0,
    }
}

/// The request in flight after the inputs, taken in order.
pub open spec fn in_flight_after<H>(
    start: Option<InFlight<H>>,
    inputs: Seq<WorkerInput<H>>,
    config: SubmitterConfig,
) -> Option<InFlight<H>>
    decreases inputs.len(),
{
    if inputs.len() == 0 {
        start
    } else {
        in_flight_after_input(
            in_flight_after(start, inputs.drop_last(), config),
            inputs.last(),
            config,
        )
    }
}

/// The handles of the requests that the submitter took up, in order.
pub open spec fn handles_begun<H>(
    start: Option<InFlight<H>>,
    inputs: Seq<WorkerInput<H>>,
    config: SubmitterConfig,
) -> Seq<H>
    decreases inputs.len(),
{
    if inputs.len() == 0 {
        Seq::empty()
    } else {
        let earlier = handles_begun(start, inputs.drop_last(), config);
        match inputs.last() {
            WorkerInput::Begin { response_handle, .. } => if in_flight_after(
                start,
                inputs.drop_last(),
                config,
            ) is None {
                earlier.push(response_handle)
            } else {
                earlier
            },
            WorkerInput::Chain { .. } => earlier,
        }
    }
}

/// The handles that the submitter answered, in order.
pub open spec fn handles_answered<H>(
    start: Option<InFlight<H>>,
    inputs: Seq<WorkerInput<H>>,
    config: SubmitterConfig,
) -> Seq<H>
    decreases inputs.len(),
{
    if inputs.len() == 0 {
        Seq::empty()
    } else {
        let earlier = handles_answered(start, inputs.drop_last(), config);
        match inputs.last() {
            WorkerInput::Begin { .. } => earlier,
            WorkerInput::Chain { event } => match reaction(
                in_flight_after(start, inputs.drop_last(), config),
                event,
                config,
            ).1 {
                Directive::Respond { response_handle, .. } => earlier.push(response_handle),
                _ => earlier,
            },
        }
    }
}

/// The handle that still waits for its answer, if a request is in flight.
pub open spec fn handle_in_flight<H>(in_flight: Option<InFlight<H>>) -> Seq<H> {
    match in_flight {
        Some(current) => seq![current.response_handle],
        None => Seq::empty(),
    }
}

/// One answer for each request, in the order of the requests: whatever the
/// inputs, the handles answered, followed by the one still in flight, are
/// the handle that was in flight at the start followed by those taken up
/// since. No handle is answered twice or skipped, and none overtakes another.
pub proof fn law_each_request_is_answered_once_in_order<H>(
    start: Option<InFlight<H>>,
    inputs: Seq<WorkerInput<H>>,
    config: SubmitterConfig,
)
    ensures
        handles_answered(start, inputs, config) + handle_in_flight(
            in_flight_after(start, inputs, config),
        ) == handle_in_flight(start) + handles_begun(start, inputs, config),
    decreases inputs.len(),
{
    if inputs.len() == 0 {
        assert(Seq::<H>::empty() + handle_in_flight(start) =~= handle_in_flight(start)
            + Seq::<H>::empty());
    } else {
        let before = inputs.drop_last();
        law_each_request_is_answered_once_in_order(start, before, config);
        let middle = in_flight_after(start, before, config);
        let answered = handles_answered(start, before, config);
        let begun = handles_begun(start, before, config);
        let waiting = handle_in_flight(start);
        assert(answered + handle_in_flight(middle) == waiting + begun);
        match inputs.last() {
            WorkerInput::Begin { response_handle, .. } => {
                if middle is None {
                    assert(answered + seq![response_handle] =~= (answered + handle_in_flight(
                        middle,
                    )).push(response_handle));
                    assert(waiting + begun.push(response_handle) =~= (waiting + begun).push(
                        response_handle,
                    ));
                }
            },
            WorkerInput::Chain { event } => {
                let after = reaction(middle, event, config);
                match after.1 {
                    Directive::Respond { response_handle, .. } => {
                        assert(answered.push(response_handle) + handle_in_flight(after.0)
                            =~= answered + handle_in_flight(middle));
                    },
                    _ => {
                        assert(handle_in_flight(after.0) =~= handle_in_flight(middle));
                    },
                }
            },
        }
    }
}

} // verus!
