//! The proof-type discriminator and its integer wire codes.
//!
//! On the wire a proof type travels as an integer: 0 for `Undefined`,
//! 1 for `Chunk`, 2 for `Batch`. Decoding is defensive: every integer
//! other than 1 and 2 (including 0) decodes to `Undefined`.

use vstd::prelude::*;

verus! {

#[derive(Debug, Clone, Copy, PartialEq, Eq, Structural)]
pub enum ProofType {
    Undefined,
    Chunk,
    Batch,
}

/// The wire code of a proof type: the integer written when encoding.
pub open spec fn code_of(t: ProofType) -> u8 {
    match t {
        ProofType::Undefined => 0,
        ProofType::Chunk => 1,
        ProofType::Batch => 2,
    }
}

/// The proof type a wire code decodes to; unknown codes fall back to `Undefined`.
pub open spec fn type_of_code(v: u8) -> ProofType {
    if v == 1 {
        ProofType::Chunk
    } else if v == 2 {
        ProofType::Batch
    } else {
        ProofType::Undefined
    }
}

impl ProofType {
    /// Decode a wire code, mapping every unknown code to `Undefined`.
    pub fn from_u8(v: u8) -> (r: Self)
        ensures
            r == type_of_code(v),
    {
        match v {
            1 => ProofType::Chunk,
            2 => ProofType::Batch,
            _ => ProofType::Undefined,
        }
    }

    /// Encode this proof type as its wire code.
    pub fn to_u8(self) -> (r: u8)
        ensures
            r == code_of(self),
    {
        match self {
            ProofType::Undefined => 0,
            ProofType::Chunk => 1,
            ProofType::Batch => 2,
        }
    }
}

impl Default for ProofType {
    /// A proof type defaults to `Undefined`, the defensive fallback.
    fn default() -> (r: Self)
        ensures
            r == ProofType::Undefined,
    {
        ProofType::Undefined
    }
}

/// Wire-code stability: encoding any proof type and decoding the code
/// gives the same proof type back, and the codes are exactly 0, 1, 2.
pub proof fn lemma_wire_code_round_trip(t: ProofType)
    ensures
        type_of_code(code_of(t)) == t,
        code_of(t) <= 2,
{
}

/// Defensive decoding: every wire code other than 1 and 2 decodes to
/// `Undefined`, so no unknown code is ever mistaken for a known one.
pub proof fn lemma_unknown_code_decodes_to_undefined(v: u8)
    requires
        v != 1,
        v != 2,
    ensures
        type_of_code(v) == ProofType::Undefined,
{
}

} // verus!
