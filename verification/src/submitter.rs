//! The sequential submitter: the decisions taken for one dequeued request,
//! as a machine that is told what the chain client did and answers with what
//! to do next.

use crate::parsing::{draw_between, occurs_in, text_contains};
use crate::validate::ValidationError;
use vstd::prelude::*;

verus! {

/// Why a reservation failed.
#[derive(Clone, Debug, PartialEq, Eq)]
pub enum ReservationError {
    /// The request was malformed and never entered the queue.
    Validation { error: ValidationError },
    /// The queue was saturated.
    QueueFull,
    /// The signer's sequence number could not be read.
    ChainRead { message: String },
    /// The dry run was rejected; nothing was submitted.
    Simulation { diagnostic: String, debug_command: String },
    /// A send failed for a reason other than a timeout.
    Submission { message: String, debug_command: String },
    /// Every allowed send timed out.
    SubmissionExhausted { attempts: u32, last_error: String, debug_command: String },
}

/// Waiting times and the retry bound of the submitter.
#[derive(Clone, Copy, Debug, PartialEq, Eq)]
pub struct SubmitterConfig {
    pub jitter_min_ms: u64,
    pub jitter_max_ms: u64,
    pub retry_attempts: u32,
    pub retry_interval_ms: u64,
}

impl SubmitterConfig {
    /// The jitter range is not empty and at least one send is allowed.
    pub open spec fn well_formed(&self) -> bool {
        self.jitter_min_ms <= self.jitter_max_ms && self.retry_attempts >= 1
    }

    /// Jitter between 100 and 1000 ms, five sends, one second between them.
    pub fn standard() -> (config: SubmitterConfig)
        ensures
            config == (SubmitterConfig {
                jitter_min_ms: 100,
                jitter_max_ms: 1000,
                retry_attempts: 5,
                retry_interval_ms: 1000,
            }),
            config.well_formed(),
    {
        SubmitterConfig {
            jitter_min_ms: 100,
            jitter_max_ms: 1000,
            retry_attempts: 5,
            retry_interval_ms: 1000,
        }
    }

    pub fn is_well_formed(&self) -> (valid: bool)
        ensures
            valid == self.well_formed(),
    {
        self.jitter_min_ms <= self.jitter_max_ms && self.retry_attempts >= 1
    }
}

/// Where the handling of one request stands. `attempt` counts the sends made
/// so far, the one under way included.
#[derive(Clone, Debug, PartialEq, Eq)]
pub enum Submission {
    ReadingSequence { debug_command: String, jitter_ms: u64 },
    Simulating { sequence_number: u64, debug_command: String, jitter_ms: u64 },
    Jittering { sequence_number: u64, debug_command: String },
    Submitting { sequence_number: u64, attempt: u32, debug_command: String },
    Backoff { sequence_number: u64, next_attempt: u32, debug_command: String },
    Finished,
}

/// What the chain client or the clock reports back.
#[derive(Debug, PartialEq, Eq)]
pub enum Event {
    SequenceRead { number: Result<u64, String> },
    Simulated { verdict: Result<(), String> },
    DelayElapsed,
    Submitted { receipt: Result<String, String> },
}

/// What the caller of the machine is to do next.
#[derive(Debug, PartialEq, Eq)]
pub enum Action {
    ReadSequence,
    Simulate,
    Sleep { millis: u64 },
    Submit { sequence_number: u64 },
    Deliver { outcome: Result<String, ReservationError> },
    Ignore,
}

/// A send failure counts as a transient timeout when its message holds the
/// words `request timeout`.
pub open spec fn transient_timeout(message: Seq<char>) -> bool {
    occurs_in("request timeout"@, message)
}

/// Tells whether a send failure is a transient timeout.
pub fn is_transient_timeout(message: &str) -> (transient: bool)
    ensures
        transient == transient_timeout(message@),
{
    text_contains(message, "request timeout")
}

/// The machine's step: the state and action that follow `state` on `event`.
///
/// A sequence number read leads to the dry run, a successful dry run to the
/// jitter wait, the end of that wait to the first send with the number read.
/// A send that times out is repeated after the retry interval while the
/// bound allows; any other failure, and every failure of a read or dry run,
/// ends the request with its error. An event that the state does not await
/// changes nothing.
pub open spec fn transition(state: Submission, event: Event, config: SubmitterConfig) -> (
    Submission,
    Action,
) {
    match (state, event) {
        (
            Submission::ReadingSequence { debug_command, jitter_ms },
            Event::SequenceRead { number: Ok(sequence_number) },
        ) => (
            Submission::Simulating { sequence_number, debug_command, jitter_ms },
            Action::Simulate,
        ),
        (Submission::ReadingSequence { .. }, Event::SequenceRead { number: Err(message) }) => (
            Submission::Finished,
            Action::Deliver { outcome: Err(ReservationError::ChainRead { message }) },
        ),
        (
            Submission::Simulating { sequence_number, debug_command, jitter_ms },
            Event::Simulated { verdict: Ok(_) },
        ) => (
            Submission::Jittering { sequence_number, debug_command },
            Action::Sleep { millis: jitter_ms },
        ),
        (
            Submission::Simulating { debug_command, .. },
            Event::Simulated { verdict: Err(diagnostic) },
        ) => (
            Submission::Finished,
            Action::Deliver {
                outcome: Err(ReservationError::Simulation { diagnostic, debug_command }),
            },
        ),
        (Submission::Jittering { sequence_number, debug_command }, Event::DelayElapsed) => (
            Submission::Submitting { sequence_number, attempt: 1, debug_command },
            Action::Submit { sequence_number },
        ),
        (Submission::Submitting { .. }, Event::Submitted { receipt: Ok(transaction) }) => (
            Submission::Finished,
            Action::Deliver { outcome: Ok(transaction) },
        ),
        (
            Submission::Submitting { sequence_number, attempt, debug_command },
            Event::Submitted { receipt: Err(message) },
        ) => if !transient_timeout(message@) {
            (
                Submission::Finished,
                Action::Deliver {
                    outcome: Err(ReservationError::Submission { message, debug_command }),
                },
            )
        } else if attempt >= config.retry_attempts {
            (
                Submission::Finished,
                Action::Deliver {
                    outcome: Err(
                        ReservationError::SubmissionExhausted {
                            attempts: attempt,
                            last_error: message,
                            debug_command,
                        },
                    ),
                },
            )
        } else {
            (
                Submission::Backoff {
                    sequence_number,
                    next_attempt: (attempt + 1) as u32,
                    debug_command,
                },
                Action::Sleep { millis: config.retry_interval_ms },
            )
        },
        (
            Submission::Backoff { sequence_number, next_attempt, debug_command },
            Event::DelayElapsed,
        ) => (
            Submission::Submitting { sequence_number, attempt: next_attempt, debug_command },
            Action::Submit { sequence_number },
        ),
        (state, _) => (state, Action::Ignore),
    }
}

impl Submission {
    /// Starts on a request with a jitter that the caller chose.
    pub fn begin_with_jitter(debug_command: String, jitter_ms: u64) -> (start: (
        Submission,
        Action,
    ))
        ensures
            start.0 == (Submission::ReadingSequence { debug_command, jitter_ms }),
            start.1 == Action::ReadSequence,
    {
        (Submission::ReadingSequence { debug_command, jitter_ms }, Action::ReadSequence)
    }

    /// Starts on a request and draws its jitter from the configured range.
    pub fn begin(debug_command: String, config: &SubmitterConfig) -> (start: (Submission, Action))
        requires
            config.well_formed(),
        ensures
            start.1 == Action::ReadSequence,
            exists|jitter_ms: u64|
                config.jitter_min_ms <= jitter_ms <= config.jitter_max_ms && start.0 == (
                Submission::ReadingSequence { debug_command, jitter_ms }),
    {
        let jitter_ms: u64 = draw_between(config.jitter_min_ms, config.jitter_max_ms);
        Submission::begin_with_jitter(debug_command, jitter_ms)
    }

    /// Whether the request has been answered.
    pub fn is_finished(&self) -> (finished: bool)
        ensures
            finished == (*self is Finished),
    {
        match self {
            Submission::Finished => true,
            _ => false,
        }
    }

    /// Takes one event and gives the next state and what to do.
    pub fn advance(self, event: Event, config: &SubmitterConfig) -> (next: (Submission, Action))
        ensures
            next == transition(self, event, *config),
    {
        match (self, event) {
            (
                Submission::ReadingSequence { debug_command, jitter_ms },
                Event::SequenceRead { number: Ok(sequence_number) },
            ) => (
                Submission::Simulating { sequence_number, debug_command, jitter_ms },
                Action::Simulate,
            ),
            (Submission::ReadingSequence { .. }, Event::SequenceRead { number: Err(message) }) => (
                Submission::Finished,
                Action::Deliver { outcome: Err(ReservationError::ChainRead { message }) },
            ),
            (
                Submission::Simulating { sequence_number, debug_command, jitter_ms },
                Event::Simulated { verdict: Ok(_) },
            ) => (
                Submission::Jittering { sequence_number, debug_command },
                Action::Sleep { millis: jitter_ms },
            ),
            (
                Submission::Simulating { debug_command, .. },
                Event::Simulated { verdict: Err(diagnostic) },
            ) => (
                Submission::Finished,
                Action::Deliver {
                    outcome: Err(ReservationError::Simulation { diagnostic, debug_command }),
                },
            ),
            (Submission::Jittering { sequence_number, debug_command }, Event::DelayElapsed) => (
                Submission::Submitting { sequence_number, attempt: 1, debug_command },
                Action::Submit { sequence_number },
            ),
            (Submission::Submitting { .. }, Event::Submitted { receipt: Ok(transaction) }) => (
                Submission::Finished,
                Action::Deliver { outcome: Ok(transaction) },
            ),
            (
                Submission::Submitting { sequence_number, attempt, debug_command },
                Event::Submitted { receipt: Err(message) },
            ) => {
                if !is_transient_timeout(message.as_str()) {
                    (
                        Submission::Finished,
                        Action::Deliver {
                            outcome: Err(ReservationError::Submission { message, debug_command }),
                        },
                    )
                } else if attempt >= config.retry_attempts {
                    (
                        Submission::Finished,
                        Action::Deliver {
                            outcome: Err(
                                ReservationError::SubmissionExhausted {
                                    attempts: attempt,
                                    last_error: message,
                                    debug_command,
                                },
                            ),
                        },
                    )
                } else {
                    (
                        Submission::Backoff {
                            sequence_number,
                            next_attempt: attempt + 1,
                            debug_command,
                        },
                        Action::Sleep { millis: config.retry_interval_ms },
                    )
                }
            },
            (
                Submission::Backoff { sequence_number, next_attempt, debug_command },
                Event::DelayElapsed,
            ) => (
                Submission::Submitting { sequence_number, attempt: next_attempt, debug_command },
                Action::Submit { sequence_number },
            ),
            (state, _) => (state, Action::Ignore),
        }
    }
}

} // verus!
