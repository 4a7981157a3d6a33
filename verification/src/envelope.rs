//! The task and response envelopes.
//!
//! A task arrives with its identifiers, its proof type and its opaque
//! circuit payload; the response echoes the identifier and proof type and
//! carries either the text-safe encoding of the proof bytes or a non-empty
//! diagnostic. A failure is carried as data in the envelope, never as a
//! crash.

use vstd::prelude::*;
use crate::proof_type::ProofType;
use crate::errors::Error;
use crate::errors::message_of;

verus! {

/// One proving request, delivered by the host runtime.
pub struct Task {
    pub uuid: String,
    pub id: String,
    pub task_type: ProofType,
    pub task_data: String,
    pub hard_fork_name: String,
}

/// The response to one task.
pub struct ProofDetail {
    pub id: String,
    pub proof_type: ProofType,
    pub proof_data: String,
    pub error: String,
}

/// The text-safe encoding of a byte sequence, as the base64 standard
/// alphabet with padding produces it.
pub uninterp spec fn base64_of(b: Seq<u8>) -> Seq<char>;

/// Relies on the base64 crate's STANDARD engine: the standard alphabet
/// with padding, whose output depends on the input bytes alone and is
/// four characters for every started group of three input bytes. The
/// engine aborts when that length cannot be computed in a machine word,
/// so inputs near the address-space bound stay out.
#[verifier::external_body]
fn base64_encode(b: &Vec<u8>) -> (r: String)
    requires
        b@.len() <= usize::MAX / 4,
    ensures
        r@ == base64_of(b@),
        r@.len() == 4 * ((b@.len() + 2) / 3),
{
    base64::Engine::encode(&base64::engine::general_purpose::STANDARD, b.as_slice())
}

impl ProofDetail {
    /// Assemble the successful response: the proof bytes, text-safe
    /// encoded, with an empty diagnostic.
    pub fn success(id: String, proof_type: ProofType, proof_bytes: &Vec<u8>) -> (r: ProofDetail)
        requires
            proof_bytes@.len() <= usize::MAX / 4,
        ensures
            r.id == id,
            r.proof_type == proof_type,
            r.proof_data@ == base64_of(proof_bytes@),
            r.proof_data@.len() == 4 * ((proof_bytes@.len() + 2) / 3),
            r.error@.len() == 0,
    {
        ProofDetail {
            id,
            proof_type,
            proof_data: base64_encode(proof_bytes),
            error: String::new(),
        }
    }

    /// Assemble the failing response: no proof data, and the stage-tagged
    /// diagnostic of the error that ended the pipeline.
    pub fn failure(id: String, proof_type: ProofType, e: &Error) -> (r: ProofDetail)
        ensures
            r.id == id,
            r.proof_type == proof_type,
            r.proof_data@.len() == 0,
            r.error@ == message_of(*e),
            r.error@.len() > 0,
    {
        ProofDetail { id, proof_type, proof_data: String::new(), error: e.message() }
    }
}

} // verus!
