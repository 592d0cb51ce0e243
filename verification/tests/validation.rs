use reservation_paymaster::config::Args;
use reservation_paymaster::parsing::check_decimal_text;
use reservation_paymaster::validate::{
    parse_address, parse_uint, parse_uints, validate, Address, RequestField,
    ReservationByPaymasterRequest, Uint256, ValidationError,
};

const SENDER: &str = "0x00112233445566778899aAbBcCdDeEfF01020304";
const PAYOUT: &str = "ffffffffffffffffffffffffffffffffffffffff";

fn texts(items: &[&str]) -> Vec<String> {
    items.iter().map(|s| s.to_string()).collect()
}

fn request(vaults: &[&str], amounts: &[&str]) -> ReservationByPaymasterRequest {
    ReservationByPaymasterRequest {
        sender: SENDER.to_string(),
        vault_indexes_to_reserve: texts(vaults),
        amounts_to_reserve: texts(amounts),
        eth_payout_address: PAYOUT.to_string(),
        total_sats_input_including_proxy_fee: "300".to_string(),
        expired_swap_reservation_indexes: texts(&["7"]),
    }
}

fn small(n: u64) -> Uint256 {
    Uint256 { limbs: [n, 0, 0, 0] }
}

fn sender_bytes() -> [u8; 20] {
    [
        0x00, 0x11, 0x22, 0x33, 0x44, 0x55, 0x66, 0x77, 0x88, 0x99, 0xaa, 0xbb, 0xcc, 0xdd, 0xee,
        0xff, 0x01, 0x02, 0x03, 0x04,
    ]
}

#[test]
fn address_with_prefix_is_decoded_byte_by_byte() {
    assert_eq!(parse_address(SENDER), Some(Address { bytes: sender_bytes() }));
}

#[test]
fn address_prefix_is_optional_and_may_be_upper_case() {
    let bare = "00112233445566778899aabbccddeeff01020304";
    let upper = "0X00112233445566778899AABBCCDDEEFF01020304";
    assert_eq!(parse_address(bare), Some(Address { bytes: sender_bytes() }));
    assert_eq!(parse_address(upper), Some(Address { bytes: sender_bytes() }));
}

#[test]
fn address_of_wrong_length_is_rejected() {
    assert_eq!(parse_address(""), None);
    assert_eq!(parse_address("0x"), None);
    assert_eq!(parse_address("0x0011"), None);
    assert_eq!(parse_address("0x00112233445566778899aabbccddeeff0102030"), None);
    assert_eq!(parse_address("0x00112233445566778899aabbccddeeff010203040"), None);
    assert_eq!(parse_address("0x00112233445566778899aabbccddeeff0102030405"), None);
}

#[test]
fn address_with_a_foreign_character_is_rejected() {
    assert_eq!(parse_address("0x00112233445566778899aabbccddeeff0102030g"), None);
    assert_eq!(parse_address("0x00112233445566778899aabbccddeeff010203 4"), None);
    assert_eq!(parse_address("0x0x112233445566778899aabbccddeeff01020304"), None);
    assert_eq!(parse_address("0x00112233445566778899aabbccddeeff010203\u{e9}"), None);
}

#[test]
fn decimal_text_is_digits_only() {
    assert!(check_decimal_text("0"));
    assert!(check_decimal_text("0012"));
    assert!(!check_decimal_text(""));
    assert!(!check_decimal_text("12a"));
    assert!(!check_decimal_text("-1"));
    assert!(!check_decimal_text("+1"));
    assert!(!check_decimal_text("1 "));
    assert!(!check_decimal_text("\u{ff11}\u{ff12}"));
}

#[test]
fn small_numbers_fill_the_lowest_limb() {
    assert_eq!(parse_uint("0"), Some(small(0)));
    assert_eq!(parse_uint("100"), Some(small(100)));
    assert_eq!(parse_uint("000100"), Some(small(100)));
    assert_eq!(parse_uint("18446744073709551615"), Some(small(u64::MAX)));
}

#[test]
fn larger_numbers_carry_into_higher_limbs() {
    assert_eq!(parse_uint("18446744073709551616"), Some(Uint256 { limbs: [0, 1, 0, 0] }));
    assert_eq!(
        parse_uint("340282366920938463463374607431768211457"),
        Some(Uint256 { limbs: [1, 0, 1, 0] })
    );
}

#[test]
fn the_largest_number_fits_and_the_next_does_not() {
    let largest = "115792089237316195423570985008687907853269984665640564039457584007913129639935";
    let next = "115792089237316195423570985008687907853269984665640564039457584007913129639936";
    assert_eq!(parse_uint(largest), Some(Uint256 { limbs: [u64::MAX; 4] }));
    assert_eq!(parse_uint(next), None);
}

#[test]
fn text_that_is_no_decimal_numeral_is_rejected() {
    assert_eq!(parse_uint(""), None);
    assert_eq!(parse_uint("abc"), None);
    assert_eq!(parse_uint("0x10"), None);
    assert_eq!(parse_uint("1_000"), None);
    assert_eq!(parse_uint("12.5"), None);
    assert_eq!(parse_uint(" 12"), None);
}

#[test]
fn a_list_parses_element_by_element() {
    assert_eq!(parse_uints(&texts(&[])), Ok(vec![]));
    assert_eq!(parse_uints(&texts(&["1", "2", "3"])), Ok(vec![small(1), small(2), small(3)]));
}

#[test]
fn a_list_fails_at_its_first_malformed_element() {
    assert_eq!(parse_uints(&texts(&["1", "x", "3", "y"])), Err(1));
    assert_eq!(parse_uints(&texts(&["", "2"])), Err(0));
    assert_eq!(parse_uints(&texts(&["1", "2", "-3"])), Err(2));
}

#[test]
fn a_well_formed_request_is_typed_field_by_field() {
    let validated = validate(&request(&["1", "2"], &["100", "200"])).unwrap();
    assert_eq!(validated.sender, Address { bytes: sender_bytes() });
    assert_eq!(validated.vault_indexes_to_reserve, vec![small(1), small(2)]);
    assert_eq!(validated.amounts_to_reserve, vec![small(100), small(200)]);
    assert_eq!(validated.eth_payout_address, Address { bytes: [0xff; 20] });
    assert_eq!(validated.total_sats_input_including_proxy_fee, small(300));
    assert_eq!(validated.expired_swap_reservation_indexes, vec![small(7)]);
}

#[test]
fn a_malformed_amount_rejects_the_request() {
    assert_eq!(
        validate(&request(&["1", "2"], &["abc"])),
        Err(ValidationError::MalformedInteger { field: RequestField::Amounts, position: 0 })
    );
}

#[test]
fn every_field_is_named_when_it_fails() {
    let mut r = request(&["1"], &["2"]);
    r.sender = "0x12".to_string();
    assert_eq!(
        validate(&r),
        Err(ValidationError::MalformedAddress { field: RequestField::Sender })
    );
    let r = request(&["1", "2", "z"], &["2"]);
    assert_eq!(
        validate(&r),
        Err(ValidationError::MalformedInteger { field: RequestField::VaultIndexes, position: 2 })
    );
    let mut r = request(&["1"], &["2"]);
    r.eth_payout_address = "payout".to_string();
    assert_eq!(
        validate(&r),
        Err(ValidationError::MalformedAddress { field: RequestField::PayoutAddress })
    );
    let mut r = request(&["1"], &["2"]);
    r.total_sats_input_including_proxy_fee = "3e5".to_string();
    assert_eq!(
        validate(&r),
        Err(ValidationError::MalformedInteger { field: RequestField::TotalInput, position: 0 })
    );
    let mut r = request(&["1"], &["2"]);
    r.expired_swap_reservation_indexes = texts(&["4", "5", ""]);
    assert_eq!(
        validate(&r),
        Err(ValidationError::MalformedInteger { field: RequestField::ExpiredIndexes, position: 2 })
    );
}

#[test]
fn the_earliest_field_decides_the_error() {
    let mut r = request(&["x"], &["y"]);
    r.eth_payout_address = "bad".to_string();
    assert_eq!(
        validate(&r),
        Err(ValidationError::MalformedInteger { field: RequestField::VaultIndexes, position: 0 })
    );
    r.sender = "bad".to_string();
    assert_eq!(
        validate(&r),
        Err(ValidationError::MalformedAddress { field: RequestField::Sender })
    );
}

#[test]
fn lists_of_unequal_length_are_accepted_as_they_are() {
    let validated = validate(&request(&["1", "2"], &["100"])).unwrap();
    assert_eq!(validated.vault_indexes_to_reserve.len(), 2);
    assert_eq!(validated.amounts_to_reserve.len(), 1);
}

#[test]
fn the_contract_address_is_read_from_the_settings() {
    let mut args = Args {
        evm_http_rpc: "http://localhost:8545".to_string(),
        private_key: "0x01".to_string(),
        rift_exchange_address: SENDER.to_string(),
    };
    assert_eq!(args.contract_address(), Some(Address { bytes: sender_bytes() }));
    args.rift_exchange_address = "exchange".to_string();
    assert_eq!(args.contract_address(), None);
}
