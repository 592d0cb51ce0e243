use reservation_paymaster::response::{
    debug_command, decimal_string, field_text, render_response, ReservationByPaymasterResponse,
};
use reservation_paymaster::submitter::{
    is_transient_timeout, Action, Event, ReservationError, Submission, SubmitterConfig,
};
use reservation_paymaster::validate::{RequestField, ValidationError};

fn quiet() -> SubmitterConfig {
    SubmitterConfig { jitter_min_ms: 0, jitter_max_ms: 0, retry_attempts: 5, retry_interval_ms: 0 }
}

fn timeout() -> Event {
    Event::Submitted { receipt: Err("error sending request: request timeout".to_string()) }
}

/// Feeds the events in order and collects the actions, the first included.
fn drive(config: &SubmitterConfig, jitter: u64, events: Vec<Event>) -> (Submission, Vec<Action>) {
    let (mut state, first) = Submission::begin_with_jitter("cmd".to_string(), jitter);
    let mut actions = vec![first];
    for event in events {
        let (next, action) = state.advance(event, config);
        state = next;
        actions.push(action);
    }
    (state, actions)
}

fn count_submits(actions: &[Action]) -> usize {
    actions.iter().filter(|a| matches!(a, Action::Submit { .. })).count()
}

fn count_deliveries(actions: &[Action]) -> usize {
    actions.iter().filter(|a| matches!(a, Action::Deliver { .. })).count()
}

#[test]
fn the_standard_settings_are_the_documented_ones() {
    let config = SubmitterConfig::standard();
    assert_eq!(config.jitter_min_ms, 100);
    assert_eq!(config.jitter_max_ms, 1000);
    assert_eq!(config.retry_attempts, 5);
    assert_eq!(config.retry_interval_ms, 1000);
    assert!(config.is_well_formed());
    assert!(!SubmitterConfig { jitter_min_ms: 2, jitter_max_ms: 1, ..config }.is_well_formed());
    assert!(!SubmitterConfig { retry_attempts: 0, ..config }.is_well_formed());
}

#[test]
fn a_request_starts_by_reading_the_sequence_number() {
    let (state, action) = Submission::begin_with_jitter("cmd".to_string(), 250);
    assert_eq!(
        state,
        Submission::ReadingSequence { debug_command: "cmd".to_string(), jitter_ms: 250 }
    );
    assert_eq!(action, Action::ReadSequence);
    assert!(!state.is_finished());
}

#[test]
fn the_jitter_is_drawn_from_the_configured_range() {
    let config = SubmitterConfig::standard();
    for _ in 0..200 {
        let (state, action) = Submission::begin("cmd".to_string(), &config);
        assert_eq!(action, Action::ReadSequence);
        match state {
            Submission::ReadingSequence { jitter_ms, debug_command } => {
                assert!((100..=1000).contains(&jitter_ms));
                assert_eq!(debug_command, "cmd");
            }
            other => panic!("unexpected state {:?}", other),
        }
    }
    let fixed = SubmitterConfig { jitter_min_ms: 7, jitter_max_ms: 7, ..config };
    let (state, _) = Submission::begin("cmd".to_string(), &fixed);
    assert_eq!(
        state,
        Submission::ReadingSequence { debug_command: "cmd".to_string(), jitter_ms: 7 }
    );
}

#[test]
fn a_request_that_meets_no_failure_is_sent_once() {
    let (state, actions) = drive(
        &quiet(),
        250,
        vec![
            Event::SequenceRead { number: Ok(41) },
            Event::Simulated { verdict: Ok(()) },
            Event::DelayElapsed,
            Event::Submitted { receipt: Ok("0xabc".to_string()) },
        ],
    );
    assert_eq!(
        actions,
        vec![
            Action::ReadSequence,
            Action::Simulate,
            Action::Sleep { millis: 250 },
            Action::Submit { sequence_number: 41 },
            Action::Deliver { outcome: Ok("0xabc".to_string()) },
        ]
    );
    assert!(state.is_finished());
}

#[test]
fn a_successful_request_answers_with_its_transaction() {
    let (_, mut actions) = drive(
        &quiet(),
        0,
        vec![
            Event::SequenceRead { number: Ok(0) },
            Event::Simulated { verdict: Ok(()) },
            Event::DelayElapsed,
            Event::Submitted { receipt: Ok("<id>".to_string()) },
        ],
    );
    let outcome = match actions.pop() {
        Some(Action::Deliver { outcome }) => outcome,
        other => panic!("unexpected action {:?}", other),
    };
    assert_eq!(
        render_response(outcome),
        ReservationByPaymasterResponse {
            status: true,
            tx_hash: Some("<id>".to_string()),
            error: None
        }
    );
}

#[test]
fn a_failed_sequence_read_ends_the_request() {
    let (state, actions) =
        drive(&quiet(), 0, vec![Event::SequenceRead { number: Err("no route".to_string()) }]);
    assert_eq!(
        actions[1],
        Action::Deliver {
            outcome: Err(ReservationError::ChainRead { message: "no route".to_string() })
        }
    );
    assert!(state.is_finished());
    assert_eq!(count_submits(&actions), 0);
}

#[test]
fn a_failed_simulation_is_never_submitted() {
    let (state, actions) = drive(
        &quiet(),
        0,
        vec![
            Event::SequenceRead { number: Ok(3) },
            Event::Simulated { verdict: Err("revert: not enough liquidity".to_string()) },
            Event::DelayElapsed,
            Event::Submitted { receipt: Ok("late".to_string()) },
            Event::DelayElapsed,
        ],
    );
    assert_eq!(
        actions[2],
        Action::Deliver {
            outcome: Err(ReservationError::Simulation {
                diagnostic: "revert: not enough liquidity".to_string(),
                debug_command: "cmd".to_string(),
            })
        }
    );
    assert_eq!(&actions[3..], &[Action::Ignore, Action::Ignore, Action::Ignore]);
    assert_eq!(count_submits(&actions), 0);
    assert_eq!(count_deliveries(&actions), 1);
    assert!(state.is_finished());
}

#[test]
fn five_timeouts_exhaust_the_retries() {
    let config = SubmitterConfig { retry_interval_ms: 1000, ..quiet() };
    let mut events =
        vec![Event::SequenceRead { number: Ok(9) }, Event::Simulated { verdict: Ok(()) }];
    events.push(Event::DelayElapsed);
    for _ in 0..4 {
        events.push(timeout());
        events.push(Event::DelayElapsed);
    }
    events.push(timeout());
    let (state, actions) = drive(&config, 0, events);
    assert!(state.is_finished());
    assert_eq!(count_submits(&actions), 5);
    let waits = actions.iter().filter(|a| **a == Action::Sleep { millis: 1000 }).count();
    assert_eq!(waits, 4);
    assert!(actions
        .iter()
        .all(|a| !matches!(a, Action::Submit { sequence_number } if *sequence_number != 9)));
    assert_eq!(
        actions.last(),
        Some(&Action::Deliver {
            outcome: Err(ReservationError::SubmissionExhausted {
                attempts: 5,
                last_error: "error sending request: request timeout".to_string(),
                debug_command: "cmd".to_string(),
            })
        })
    );
    assert_eq!(count_deliveries(&actions), 1);
}

#[test]
fn a_timeout_followed_by_success_delivers_the_transaction() {
    let (state, actions) = drive(
        &quiet(),
        0,
        vec![
            Event::SequenceRead { number: Ok(9) },
            Event::Simulated { verdict: Ok(()) },
            Event::DelayElapsed,
            timeout(),
            Event::DelayElapsed,
            Event::Submitted { receipt: Ok("0x1".to_string()) },
        ],
    );
    assert!(state.is_finished());
    assert_eq!(count_submits(&actions), 2);
    assert_eq!(actions.last(), Some(&Action::Deliver { outcome: Ok("0x1".to_string()) }));
}

#[test]
fn a_failure_that_is_no_timeout_is_not_retried() {
    let (state, actions) = drive(
        &quiet(),
        0,
        vec![
            Event::SequenceRead { number: Ok(9) },
            Event::Simulated { verdict: Ok(()) },
            Event::DelayElapsed,
            Event::Submitted { receipt: Err("nonce too low".to_string()) },
        ],
    );
    assert!(state.is_finished());
    assert_eq!(count_submits(&actions), 1);
    assert_eq!(
        actions.last(),
        Some(&Action::Deliver {
            outcome: Err(ReservationError::Submission {
                message: "nonce too low".to_string(),
                debug_command: "cmd".to_string(),
            })
        })
    );
}

#[test]
fn a_single_allowed_attempt_is_exhausted_by_one_timeout() {
    let config = SubmitterConfig { retry_attempts: 1, ..quiet() };
    let (state, actions) = drive(
        &config,
        0,
        vec![
            Event::SequenceRead { number: Ok(9) },
            Event::Simulated { verdict: Ok(()) },
            Event::DelayElapsed,
            timeout(),
        ],
    );
    assert!(state.is_finished());
    assert_eq!(count_submits(&actions), 1);
    assert!(matches!(
        actions.last(),
        Some(Action::Deliver {
            outcome: Err(ReservationError::SubmissionExhausted { attempts: 1, .. })
        })
    ));
}

#[test]
fn an_event_that_is_not_awaited_changes_nothing() {
    let (state, first) = Submission::begin_with_jitter("cmd".to_string(), 5);
    assert_eq!(first, Action::ReadSequence);
    let before = state.clone();
    let (state, action) = state.advance(Event::DelayElapsed, &quiet());
    assert_eq!(action, Action::Ignore);
    assert_eq!(state, before);
    let stray = Event::Submitted { receipt: Ok("x".to_string()) };
    let (state, action) = state.advance(stray, &quiet());
    assert_eq!(action, Action::Ignore);
    assert_eq!(state, before);
    let late = Event::SequenceRead { number: Ok(1) };
    let (state, action) = Submission::Finished.advance(late, &quiet());
    assert_eq!(action, Action::Ignore);
    assert_eq!(state, Submission::Finished);
}

#[test]
fn a_timeout_is_told_by_its_words() {
    assert!(is_transient_timeout("request timeout"));
    assert!(is_transient_timeout("transport error: request timeout after 30s"));
    assert!(!is_transient_timeout("request timed out"));
    assert!(!is_transient_timeout("Request Timeout"));
    assert!(!is_transient_timeout("request  timeout"));
    assert!(!is_transient_timeout(""));
}

#[test]
fn numbers_are_written_in_decimal() {
    assert_eq!(decimal_string(0), "0");
    assert_eq!(decimal_string(9), "9");
    assert_eq!(decimal_string(10), "10");
    assert_eq!(decimal_string(12345), "12345");
    assert_eq!(decimal_string(u64::MAX), "18446744073709551615");
}

#[test]
fn the_debug_command_names_contract_data_and_node() {
    assert_eq!(
        debug_command("0xc0ffee", "0xdeadbeef", "http://localhost:8545"),
        "cast call 0xc0ffee --data 0xdeadbeef --trace --rpc-url http://localhost:8545"
    );
}

#[test]
fn fields_go_by_their_request_names() {
    assert_eq!(field_text(RequestField::Sender), "sender");
    assert_eq!(field_text(RequestField::VaultIndexes), "vault_indexes_to_reserve");
    assert_eq!(field_text(RequestField::Amounts), "amounts_to_reserve");
    assert_eq!(field_text(RequestField::PayoutAddress), "eth_payout_address");
    assert_eq!(field_text(RequestField::TotalInput), "total_sats_input_including_proxy_fee");
    assert_eq!(field_text(RequestField::ExpiredIndexes), "expired_swap_reservation_indexes");
}

#[test]
fn each_error_has_its_text() {
    let validation = ReservationError::Validation {
        error: ValidationError::MalformedInteger { field: RequestField::Amounts, position: 12 },
    };
    assert_eq!(
        validation.message(),
        "Validation Error: malformed integer in amounts_to_reserve at position 12"
    );
    let address = ValidationError::MalformedAddress { field: RequestField::Sender };
    assert_eq!(address.message(), "Validation Error: malformed address in sender");
    assert_eq!(ReservationError::QueueFull.message(), "Failed to queue request");
    assert_eq!(
        ReservationError::ChainRead { message: "no route".to_string() }.message(),
        "Chain Read Error: no route"
    );
    assert_eq!(
        ReservationError::Simulation {
            diagnostic: "revert".to_string(),
            debug_command: "cast call x".to_string()
        }
        .message(),
        "Simulation Error: revert\nDebug Command: cast call x"
    );
    assert_eq!(
        ReservationError::Submission {
            message: "nonce too low".to_string(),
            debug_command: "cast call x".to_string()
        }
        .message(),
        "Transaction Error: nonce too low\nDebug Command: cast call x"
    );
    assert_eq!(
        ReservationError::SubmissionExhausted {
            attempts: 5,
            last_error: "request timeout".to_string(),
            debug_command: "cast call x".to_string()
        }
        .message(),
        "Transaction Error after 5 attempts: request timeout\nDebug Command: cast call x"
    );
}

#[test]
fn a_failure_answers_without_a_transaction() {
    let response = render_response(Err(ReservationError::QueueFull));
    assert_eq!(
        response,
        ReservationByPaymasterResponse {
            status: false,
            tx_hash: None,
            error: Some("Failed to queue request".to_string())
        }
    );
}
