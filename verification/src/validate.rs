//! The request validator: turns the textual fields of a reservation request
//! into typed values, or names the first field that is malformed.

use crate::parsing::{
    address_of_text, check_decimal_text, decode_address, decode_decimal, limbs_value, uint_of_text,
};
use vstd::prelude::*;

verus! {

/// An account address: twenty bytes.
#[derive(Clone, Copy, Debug, PartialEq, Eq)]
pub struct Address {
    pub bytes: [u8; 20],
}

/// An unsigned integer of 256 bits, held as four limbs, least significant
/// first.
#[derive(Clone, Copy, Debug, PartialEq, Eq)]
pub struct Uint256 {
    pub limbs: [u64; 4],
}

impl Uint256 {
    /// The number the limbs stand for.
    pub open spec fn value(&self) -> nat {
        limbs_value(self.limbs@)
    }
}

/// A reservation request as it arrives: every address and number is text.
#[derive(Clone, Debug, PartialEq, Eq)]
pub struct ReservationByPaymasterRequest {
    pub sender: String,
    pub vault_indexes_to_reserve: Vec<String>,
    pub amounts_to_reserve: Vec<String>,
    pub eth_payout_address: String,
    pub total_sats_input_including_proxy_fee: String,
    pub expired_swap_reservation_indexes: Vec<String>,
}

/// A reservation request whose fields have all been parsed.
#[derive(Clone, Debug, PartialEq, Eq)]
pub struct ValidatedReservation {
    pub sender: Address,
    pub vault_indexes_to_reserve: Vec<Uint256>,
    pub amounts_to_reserve: Vec<Uint256>,
    pub eth_payout_address: Address,
    pub total_sats_input_including_proxy_fee: Uint256,
    pub expired_swap_reservation_indexes: Vec<Uint256>,
}

/// What a validated reservation holds, as mathematical values.
pub struct ReservationView {
    pub sender: Seq<u8>,
    pub vault_indexes_to_reserve: Seq<nat>,
    pub amounts_to_reserve: Seq<nat>,
    pub eth_payout_address: Seq<u8>,
    pub total_sats_input_including_proxy_fee: nat,
    pub expired_swap_reservation_indexes: Seq<nat>,
}

/// The fields of a request, in the order in which they are validated.
#[derive(Clone, Copy, Debug, PartialEq, Eq)]
pub enum RequestField {
    Sender,
    VaultIndexes,
    Amounts,
    PayoutAddress,
    TotalInput,
    ExpiredIndexes,
}

/// Why a request was rejected: the field that failed to parse and, for a
/// number, its position in the field's list (zero for a single number).
#[derive(Clone, Copy, Debug, PartialEq, Eq)]
pub enum ValidationError {
    MalformedAddress { field: RequestField },
    MalformedInteger { field: RequestField, position: usize },
}

/// The numbers that a list of limbs stands for.
pub open spec fn uint_values(numbers: Seq<Uint256>) -> Seq<nat> {
    Seq::new(numbers.len(), |i: int| numbers[i].value())
}

/// The numbers that a list of well-formed texts denotes.
pub open spec fn text_values(texts: Seq<String>) -> Seq<nat> {
    Seq::new(texts.len(), |i: int| uint_of_text(texts[i]@)->0)
}

/// `position` holds the first text of the list that denotes no number.
pub open spec fn is_first_malformed(texts: Seq<String>, position: int) -> bool {
    &&& 0 <= position < texts.len()
    &&& uint_of_text(texts[position]@) is None
    &&& forall|i: int| 0 <= i < position ==> uint_of_text(#[trigger] texts[i]@) is Some
}

/// The position of the first text that denotes no number, if there is one.
pub open spec fn first_malformed(texts: Seq<String>) -> Option<int> {
    if exists|p: int| is_first_malformed(texts, p) {
        Some(choose|p: int| is_first_malformed(texts, p))
    } else {
        None
    }
}

impl ValidatedReservation {
    pub open spec fn view(&self) -> ReservationView {
        ReservationView {
            sender: self.sender.bytes@,
            vault_indexes_to_reserve: uint_values(self.vault_indexes_to_reserve@),
            amounts_to_reserve: uint_values(self.amounts_to_reserve@),
            eth_payout_address: self.eth_payout_address.bytes@,
            total_sats_input_including_proxy_fee: self.total_sats_input_including_proxy_fee.value(),
            expired_swap_reservation_indexes: uint_values(self.expired_swap_reservation_indexes@),
        }
    }
}

/// What validation makes of a request. The fields are taken in order: sender,
/// vault indexes, amounts, payout address, total input, expired indexes. The
/// first text that fails to parse decides the error; with none, every field
/// is given by its value.
pub open spec fn validation_of(request: ReservationByPaymasterRequest) -> Result<
    ReservationView,
    ValidationError,
> {
    let vaults = request.vault_indexes_to_reserve@;
    let amounts = request.amounts_to_reserve@;
    let expired = request.expired_swap_reservation_indexes@;
    let total = request.total_sats_input_including_proxy_fee@;
    if address_of_text(request.sender@) is None {
        Err(ValidationError::MalformedAddress { field: RequestField::Sender })
    } else if first_malformed(vaults) is Some {
        Err(
            ValidationError::MalformedInteger {
                field: RequestField::VaultIndexes,
                position: first_malformed(vaults)->0 as usize,
            },
        )
    } else if first_malformed(amounts) is Some {
        Err(
            ValidationError::MalformedInteger {
                field: RequestField::Amounts,
                position: first_malformed(amounts)->0 as usize,
            },
        )
    } else if address_of_text(request.eth_payout_address@) is None {
        Err(ValidationError::MalformedAddress { field: RequestField::PayoutAddress })
    } else if uint_of_text(total) is None {
        Err(ValidationError::MalformedInteger { field: RequestField::TotalInput, position: 0 })
    } else if first_malformed(expired) is Some {
        Err(
            ValidationError::MalformedInteger {
                field: RequestField::ExpiredIndexes,
                position: first_malformed(expired)->0 as usize,
            },
        )
    } else {
        Ok(
            ReservationView {
                sender: address_of_text(request.sender@)->0,
                vault_indexes_to_reserve: text_values(vaults),
                amounts_to_reserve: text_values(amounts),
                eth_payout_address: address_of_text(request.eth_payout_address@)->0,
                total_sats_input_including_proxy_fee: uint_of_text(total)->0,
                expired_swap_reservation_indexes: text_values(expired),
            },
        )
    }
}

/// Parses a textual address.
pub fn parse_address(text: &str) -> (parsed: Option<Address>)
    ensures
        parsed is Some <==> address_of_text(text@) is Some,
        parsed is Some ==> parsed->0.bytes@ == address_of_text(text@)->0,
{
    match decode_address(text) {
        Some(bytes) => Some(Address { bytes }),
        None => None,
    }
}

/// Parses a textual integer: a decimal numeral below two to the 256.
pub fn parse_uint(text: &str) -> (parsed: Option<Uint256>)
    ensures
        parsed is Some <==> uint_of_text(text@) is Some,
        parsed is Some ==> parsed->0.value() == uint_of_text(text@)->0,
{
    if !check_decimal_text(text) {
        return None;
    }
    match decode_decimal(text) {
        Some(limbs) => Some(Uint256 { limbs }),
        None => None,
    }
}

/// Parses a list of textual integers element by element and stops at the
/// first that is malformed, whose position is the error.
pub fn parse_uints(texts: &Vec<String>) -> (parsed: Result<Vec<Uint256>, usize>)
    ensures
        match parsed {
            Ok(numbers) => first_malformed(texts@) is None && uint_values(numbers@) == text_values(
                texts@,
            ),
            Err(position) => first_malformed(texts@) == Some(position as int),
        },
{
    let mut numbers: Vec<Uint256> = Vec::new();
    let mut position: usize = 0;
    while position < texts.len()
        invariant
            position <= texts.len(),
            numbers.len() == position,
            forall|i: int| 0 <= i < position ==> uint_of_text(#[trigger] texts@[i]@) is Some,
            forall|i: int|
                0 <= i < position ==> (#[trigger] numbers@[i]).value() == uint_of_text(
                    texts@[i]@,
                )->0,
        decreases texts.len() - position,
    {
        match parse_uint(texts[position].as_str()) {
            Some(number) => {
                numbers.push(number);
            },
            None => {
                proof {
                    assert(is_first_malformed(texts@, position as int));
                    lemma_first_malformed_unique(texts@, position as int);
                }
                return Err(position);
            },
        }
        position += 1;
    }
    proof {
        assert forall|p: int| !is_first_malformed(texts@, p) by {}
        assert(uint_values(numbers@) =~= text_values(texts@));
    }
    Ok(numbers)
}

/// A list has at most one first malformed text.
pub proof fn lemma_first_malformed_unique(texts: Seq<String>, position: int)
    requires
        is_first_malformed(texts, position),
    ensures
        first_malformed(texts) == Some(position),
{
    let chosen = choose|p: int| is_first_malformed(texts, p);
    assert(is_first_malformed(texts, chosen));
    if chosen < position {
        assert(uint_of_text(texts[chosen]@) is Some);
    }
    if position < chosen {
        assert(uint_of_text(texts[position]@) is Some);
    }
}

/// Every text of the list denotes a number.
pub open spec fn all_well_formed(texts: Seq<String>) -> bool {
    forall|i: int| 0 <= i < texts.len() ==> uint_of_text(#[trigger] texts[i]@) is Some
}

/// A list with a malformed text has a first one.
pub proof fn lemma_malformed_has_first(texts: Seq<String>, position: int)
    requires
        0 <= position < texts.len(),
        uint_of_text(texts[position]@) is None,
    ensures
        first_malformed(texts) is Some,
    decreases position,
{
    if exists|j: int| 0 <= j < position && uint_of_text(#[trigger] texts[j]@) is None {
        let earlier = choose|j: int|
            0 <= j < position && uint_of_text(#[trigger] texts[j]@) is None;
        lemma_malformed_has_first(texts, earlier);
    } else {
        assert(is_first_malformed(texts, position));
    }
}

/// A request passes validation exactly when every one of its texts is well
/// formed: both addresses, the total, and each element of the three lists.
/// One malformed text anywhere rejects the request.
pub proof fn law_malformed_text_is_rejected(request: ReservationByPaymasterRequest)
    ensures
        validation_of(request) is Ok <==> {
            &&& address_of_text(request.sender@) is Some
            &&& all_well_formed(request.vault_indexes_to_reserve@)
            &&& all_well_formed(request.amounts_to_reserve@)
            &&& address_of_text(request.eth_payout_address@) is Some
            &&& uint_of_text(request.total_sats_input_including_proxy_fee@) is Some
            &&& all_well_formed(request.expired_swap_reservation_indexes@)
        },
{
    lemma_none_malformed_means_all_well_formed(request.vault_indexes_to_reserve@);
    lemma_none_malformed_means_all_well_formed(request.amounts_to_reserve@);
    lemma_none_malformed_means_all_well_formed(request.expired_swap_reservation_indexes@);
}

/// A list has no first malformed text exactly when all its texts are well
/// formed.
pub proof fn lemma_none_malformed_means_all_well_formed(texts: Seq<String>)
    ensures
        first_malformed(texts) is None <==> all_well_formed(texts),
{
    if first_malformed(texts) is None {
        assert forall|i: int| 0 <= i < texts.len() implies uint_of_text(
            #[trigger] texts[i]@,
        ) is Some by {
            if uint_of_text(texts[i]@) is None {
                lemma_malformed_has_first(texts, i);
            }
        }
    } else {
        let found = choose|p: int| is_first_malformed(texts, p);
        assert(is_first_malformed(texts, found));
    }
}

/// Validates a request: every textual field is parsed, in order, and the
/// first failure rejects the whole request.
pub fn validate(request: &ReservationByPaymasterRequest) -> (outcome: Result<
    ValidatedReservation,
    ValidationError,
>)
    ensures
        match outcome {
            Ok(reservation) => validation_of(*request) == Ok::<ReservationView, ValidationError>(
                reservation@,
            ),
            Err(error) => validation_of(*request) == Err::<ReservationView, ValidationError>(
                error,
            ),
        },
{
    let sender = match parse_address(request.sender.as_str()) {
        Some(address) => address,
        None => {
            return Err(ValidationError::MalformedAddress { field: RequestField::Sender });
        },
    };
    let vault_indexes_to_reserve = match parse_uints(&request.vault_indexes_to_reserve) {
        Ok(numbers) => numbers,
        Err(position) => {
            return Err(
                ValidationError::MalformedInteger { field: RequestField::VaultIndexes, position },
            );
        },
    };
    let amounts_to_reserve = match parse_uints(&request.amounts_to_reserve) {
        Ok(numbers) => numbers,
        Err(position) => {
            return Err(
                ValidationError::MalformedInteger { field: RequestField::Amounts, position },
            );
        },
    };
    let eth_payout_address = match parse_address(request.eth_payout_address.as_str()) {
        Some(address) => address,
        None => {
            return Err(ValidationError::MalformedAddress { field: RequestField::PayoutAddress });
        },
    };
    let total_sats_input_including_proxy_fee = match parse_uint(
        request.total_sats_input_including_proxy_fee.as_str(),
    ) {
        Some(number) => number,
        None => {
            return Err(
                ValidationError::MalformedInteger { field: RequestField::TotalInput, position: 0 },
            );
        },
    };
    let expired_swap_reservation_indexes = match parse_uints(
        &request.expired_swap_reservation_indexes,
    ) {
        Ok(numbers) => numbers,
        Err(position) => {
            return Err(
                ValidationError::MalformedInteger { field: RequestField::ExpiredIndexes, position },
            );
        },
    };
    Ok(
        ValidatedReservation {
            sender,
            vault_indexes_to_reserve,
            amounts_to_reserve,
            eth_payout_address,
            total_sats_input_including_proxy_fee,
            expired_swap_reservation_indexes,
        },
    )
}

} // verus!
