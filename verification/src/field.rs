//! Membership of public inputs in the scalar field.
//!
//! The circuit's arithmetic lives in the BN254 scalar field; a declared
//! public input is usable only when its decimal value reduces into that
//! field, that is, lies strictly below the field modulus. This check runs
//! before any key generation or proving, so a malformed or oversized input
//! is diagnosed cheaply and unambiguously.

use vstd::prelude::*;
use crate::decimal::all_dec_digits;
use crate::decimal::all_digits;
use crate::decimal::dec_lt;
use crate::decimal::dec_value;
use crate::errors::Error;

verus! {

/// The decimal numeral of the BN254 scalar-field modulus, the order of the
/// field the circuit's public inputs must reduce into.
pub open spec fn fr_modulus_dec() -> Seq<char> {
    "21888242871839275222246405745257275088548364400416034343698204186575808495617"@
}

/// The BN254 scalar-field modulus as a number.
pub open spec fn fr_modulus() -> nat {
    dec_value(fr_modulus_dec())
}

/// A public input is valid when it is a non-empty decimal numeral whose
/// value lies strictly below the scalar-field modulus.
pub open spec fn valid_public_input(s: Seq<char>) -> bool {
    s.len() > 0 && all_dec_digits(s) && dec_value(s) < fr_modulus()
}

/// Decide whether a declared public input reduces into the scalar field.
pub fn public_input_in_field(s: &str) -> (r: bool)
    ensures
        r == valid_public_input(s@),
{
    let m: &str = "21888242871839275222246405745257275088548364400416034343698204186575808495617";
    proof {
        reveal_strlit("21888242871839275222246405745257275088548364400416034343698204186575808495617");
        assert(m@ == fr_modulus_dec());
        assert(all_dec_digits(m@));
    }
    if s.unicode_len() == 0 {
        return false;
    }
    if !all_digits(s) {
        return false;
    }
    dec_lt(s, m)
}

/// Admit a public input into the pipeline, or reject it with the
/// stage-tagged error naming the offending value. Rejection happens
/// exactly on the inputs that do not reduce into the scalar field.
pub fn check_public_input(s: &String) -> (r: Result<(), Error>)
    ensures
        r is Ok <==> valid_public_input(s@),
        r is Err ==> r->Err_0 == (Error::PubInputOutOfField { public_input: *s }),
{
    if public_input_in_field(s.as_str()) {
        Ok(())
    } else {
        Err(Error::pub_input_out_of_field(s.clone()))
    }
}

} // verus!
