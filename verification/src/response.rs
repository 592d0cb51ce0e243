//! What the relay says back: the response to a request, the text of each
//! error, and the command that reproduces a call.

use crate::submitter::ReservationError;
use crate::validate::{RequestField, ValidationError};
use vstd::prelude::*;
use vstd::string::StringExecFns;

verus! {

/// The answer to a reservation request.
#[derive(Debug, PartialEq, Eq)]
pub struct ReservationByPaymasterResponse {
    pub status: bool,
    pub tx_hash: Option<String>,
    pub error: Option<String>,
}

/// The character of a digit below ten.
pub open spec fn digit_char(digit: nat) -> char {
    (digit + 48) as char
}

/// The decimal numeral of a number, without leading zeros.
pub open spec fn decimal_digits(number: nat) -> Seq<char>
    decreases number,
{
    if number < 10 {
        seq![digit_char(number)]
    } else {
        decimal_digits(number / 10).push(digit_char(number % 10))
    }
}

/// The name a field has in a request.
pub open spec fn field_name(field: RequestField) -> Seq<char> {
    match field {
        RequestField::Sender => "sender"@,
        RequestField::VaultIndexes => "vault_indexes_to_reserve"@,
        RequestField::Amounts => "amounts_to_reserve"@,
        RequestField::PayoutAddress => "eth_payout_address"@,
        RequestField::TotalInput => "total_sats_input_including_proxy_fee"@,
        RequestField::ExpiredIndexes => "expired_swap_reservation_indexes"@,
    }
}

/// The text of a validation error: the kind, the field and, for a number,
/// its position.
pub open spec fn validation_message(error: ValidationError) -> Seq<char> {
    match error {
        ValidationError::MalformedAddress { field } => "Validation Error: malformed address in "@
            + field_name(field),
        ValidationError::MalformedInteger { field, position } =>
            "Validation Error: malformed integer in "@ + field_name(field) + " at position "@
            + decimal_digits(position as nat),
    }
}

/// The text of an error.
pub open spec fn error_message(error: ReservationError) -> Seq<char> {
    match error {
        ReservationError::Validation { error } => validation_message(error),
        ReservationError::QueueFull => "Failed to queue request"@,
        ReservationError::ChainRead { message } => "Chain Read Error: "@ + message@,
        ReservationError::Simulation { diagnostic, debug_command } => "Simulation Error: "@
            + diagnostic@ + "\nDebug Command: "@ + debug_command@,
        ReservationError::Submission { message, debug_command } => "Transaction Error: "@
            + message@ + "\nDebug Command: "@ + debug_command@,
        ReservationError::SubmissionExhausted { attempts, last_error, debug_command } =>
            "Transaction Error after "@ + decimal_digits(attempts as nat) + " attempts: "@
            + last_error@ + "\nDebug Command: "@ + debug_command@,
    }
}

/// The command that replays a call against a node, with its trace.
pub open spec fn debug_invocation(
    contract: Seq<char>,
    calldata: Seq<char>,
    rpc_url: Seq<char>,
) -> Seq<char> {
    "cast call "@ + contract + " --data "@ + calldata + " --trace --rpc-url "@ + rpc_url
}

fn digit_text(digit: u64) -> (text: &'static str)
    requires
        digit < 10,
    ensures
        text@ == seq![digit_char(digit as nat)],
{
    proof {
        reveal_strlit("0");
        reveal_strlit("1");
        reveal_strlit("2");
        reveal_strlit("3");
        reveal_strlit("4");
        reveal_strlit("5");
        reveal_strlit("6");
        reveal_strlit("7");
        reveal_strlit("8");
        reveal_strlit("9");
    }
    let text = if digit == 0 {
        "0"
    } else if digit == 1 {
        "1"
    } else if digit == 2 {
        "2"
    } else if digit == 3 {
        "3"
    } else if digit == 4 {
        "4"
    } else if digit == 5 {
        "5"
    } else if digit == 6 {
        "6"
    } else if digit == 7 {
        "7"
    } else if digit == 8 {
        "8"
    } else {
        "9"
    };
    assert(text@ =~= seq![digit_char(digit as nat)]);
    text
}

/// Writes a number as a decimal numeral.
pub fn decimal_string(number: u64) -> (text: String)
    ensures
        text@ == decimal_digits(number as nat),
    decreases number,
{
    if number < 10 {
        digit_text(number).to_owned()
    } else {
        let mut text = decimal_string(number / 10);
        text.append(digit_text(number % 10));
        text
    }
}

/// The name a field has in a request.
pub fn field_text(field: RequestField) -> (text: &'static str)
    ensures
        text@ == field_name(field),
{
    match field {
        RequestField::Sender => "sender",
        RequestField::VaultIndexes => "vault_indexes_to_reserve",
        RequestField::Amounts => "amounts_to_reserve",
        RequestField::PayoutAddress => "eth_payout_address",
        RequestField::TotalInput => "total_sats_input_including_proxy_fee",
        RequestField::ExpiredIndexes => "expired_swap_reservation_indexes",
    }
}

/// Builds the command that replays a call: the contract, the call data and
/// the node to ask.
pub fn debug_command(contract: &str, calldata: &str, rpc_url: &str) -> (command: String)
    ensures
        command@ == debug_invocation(contract@, calldata@, rpc_url@),
{
    let mut command = "cast call ".to_owned();
    command.append(contract);
    command.append(" --data ");
    command.append(calldata);
    command.append(" --trace --rpc-url ");
    command.append(rpc_url);
    command
}

impl ValidationError {
    /// The text of the error.
    pub fn message(&self) -> (text: String)
        ensures
            text@ == validation_message(*self),
    {
        match self {
            ValidationError::MalformedAddress { field } => {
                let mut text = "Validation Error: malformed address in ".to_owned();
                text.append(field_text(*field));
                text
            },
            ValidationError::MalformedInteger { field, position } => {
                let mut text = "Validation Error: malformed integer in ".to_owned();
                text.append(field_text(*field));
                text.append(" at position ");
                let digits = decimal_string(*position as u64);
                text.append(digits.as_str());
                text
            },
        }
    }
}

impl ReservationError {
    /// The text of the error.
    pub fn message(&self) -> (text: String)
        ensures
            text@ == error_message(*self),
    {
        match self {
            ReservationError::Validation { error } => error.message(),
            ReservationError::QueueFull => "Failed to queue request".to_owned(),
            ReservationError::ChainRead { message } => {
                let mut text = "Chain Read Error: ".to_owned();
                text.append(message.as_str());
                text
            },
            ReservationError::Simulation { diagnostic, debug_command } => {
                let mut text = "Simulation Error: ".to_owned();
                text.append(diagnostic.as_str());
                text.append("\nDebug Command: ");
                text.append(debug_command.as_str());
                text
            },
            ReservationError::Submission { message, debug_command } => {
                let mut text = "Transaction Error: ".to_owned();
                text.append(message.as_str());
                text.append("\nDebug Command: ");
                text.append(debug_command.as_str());
                text
            },
            ReservationError::SubmissionExhausted { attempts, last_error, debug_command } => {
                let mut text = "Transaction Error after ".to_owned();
                let digits = decimal_string(*attempts as u64);
                text.append(digits.as_str());
                text.append(" attempts: ");
                text.append(last_error.as_str());
                text.append("\nDebug Command: ");
                text.append(debug_command.as_str());
                text
            },
        }
    }
}

/// Renders an outcome: a transaction identifier with `status` set, or the
/// text of the error without it.
pub fn render_response(outcome: Result<String, ReservationError>) -> (response:
    ReservationByPaymasterResponse)
    ensures
        match outcome {
            Ok(transaction) => response == (ReservationByPaymasterResponse {
                status: true,
                tx_hash: Some(transaction),
                error: None,
            }),
            Err(error) => {
                &&& !response.status
                &&& response.tx_hash is None
                &&& response.error is Some
                &&& response.error->0@ == error_message(error)
            },
        },
{
    match outcome {
        Ok(transaction) => ReservationByPaymasterResponse {
            status: true,
            tx_hash: Some(transaction),
            error: None,
        },
        Err(error) => ReservationByPaymasterResponse {
            status: false,
            tx_hash: None,
            error: Some(error.message()),
        },
    }
}

} // verus!
