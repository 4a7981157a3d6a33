use ff::Field;
use ff::PrimeField;
use halo2curves::bn256::Fr;
use poseidon_prover::field::public_input_in_field;
use poseidon_prover::payload::decode_task_data;
use poseidon_prover::payload::parse_u64;

const FR_MODULUS: &str = "21888242871839275222246405745257275088548364400416034343698204186575808495617";
const FR_MODULUS_MINUS_ONE: &str =
    "21888242871839275222246405745257275088548364400416034343698204186575808495616";

#[test]
fn parse_u64_reads_decimals() {
    assert_eq!(parse_u64("0"), Some(0));
    assert_eq!(parse_u64("42"), Some(42));
    assert_eq!(parse_u64("000123"), Some(123));
    assert_eq!(parse_u64("18446744073709551615"), Some(u64::MAX));
}

#[test]
fn parse_u64_rejects_bad_numerals() {
    assert_eq!(parse_u64(""), None);
    assert_eq!(parse_u64("1e5"), None);
    assert_eq!(parse_u64("-3"), None);
    assert_eq!(parse_u64(" 7"), None);
    assert_eq!(parse_u64("18446744073709551616"), None);
    assert_eq!(parse_u64("99999999999999999999999"), None);
}

#[test]
fn decode_splits_privates_and_public() {
    let decoded = decode_task_data("1,2;3").expect("well-formed payload");
    assert_eq!(decoded.0, vec![1, 2]);
    assert_eq!(decoded.1, "3");

    let decoded = decode_task_data("7;9").expect("well-formed payload");
    assert_eq!(decoded.0, vec![7]);
    assert_eq!(decoded.1, "9");

    let decoded = decode_task_data("0,18446744073709551615;003").expect("well-formed payload");
    assert_eq!(decoded.0, vec![0, u64::MAX]);
    assert_eq!(decoded.1, "003");
}

#[test]
fn decode_rejects_malformed_payloads() {
    assert!(decode_task_data("").is_none());
    assert!(decode_task_data("1").is_none());
    assert!(decode_task_data(";9").is_none());
    assert!(decode_task_data("1,;9").is_none());
    assert!(decode_task_data("1;").is_none());
    assert!(decode_task_data("1;2;3").is_none());
    assert!(decode_task_data("a;9").is_none());
    assert!(decode_task_data("1;x").is_none());
    assert!(decode_task_data("18446744073709551616;9").is_none());
}

#[test]
fn field_membership_is_value_below_modulus() {
    assert!(public_input_in_field("0"));
    assert!(public_input_in_field("1"));
    assert!(public_input_in_field(FR_MODULUS_MINUS_ONE));
    assert!(!public_input_in_field(FR_MODULUS));
    assert!(!public_input_in_field(
        "21888242871839275222246405745257275088548364400416034343698204186575808495618"
    ));
    assert!(!public_input_in_field(
        "999999999999999999999999999999999999999999999999999999999999999999999999999999"
    ));
}

#[test]
fn field_membership_ignores_leading_zeros() {
    let mut padded = String::from("000");
    padded.push_str(FR_MODULUS_MINUS_ONE);
    assert!(public_input_in_field(&padded));

    let mut padded = String::from("000");
    padded.push_str(FR_MODULUS);
    assert!(!public_input_in_field(&padded));
}

#[test]
fn field_membership_rejects_non_numerals() {
    assert!(!public_input_in_field(""));
    assert!(!public_input_in_field("12a"));
    assert!(!public_input_in_field("0x12"));
}

#[test]
fn modulus_constant_matches_the_scalar_field() {
    // The modulus numeral reduces to zero in the field, and one less than
    // it reduces to minus one: the constant is exactly the field's order.
    let zero = Fr::from_str_vartime(FR_MODULUS).expect("decimal parses");
    assert_eq!(zero, Fr::ZERO);
    let minus_one = Fr::from_str_vartime(FR_MODULUS_MINUS_ONE).expect("decimal parses");
    assert_eq!(minus_one, Fr::ZERO - Fr::ONE);
}
