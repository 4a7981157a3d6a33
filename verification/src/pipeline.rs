//! The proving pipeline's decision core.
//!
//! Screening runs before any cryptographic work: it decodes the task's
//! payload and judges the declared public input against the scalar field.
//! Only a task that passes screening yields a proving request; a task that
//! fails is finished on the spot with a diagnosed response, so the prover
//! engine is never invoked for it. Once the proving protocol has run, the
//! outcome — proof bytes, or the failing stage's diagnostic — is settled
//! into the response envelope.

use vstd::prelude::*;
use crate::envelope::ProofDetail;
use crate::envelope::Task;
use crate::envelope::base64_of;
use crate::errors::Error;
use crate::errors::message_of;
use crate::field::check_public_input;
use crate::field::valid_public_input;
use crate::payload::decode_task_data;
use crate::payload::decoded_privates;
use crate::payload::decoded_public;
use crate::payload::spec_decode;
use crate::proof_type::ProofType;

verus! {

/// The circuit inputs handed onward to key generation and proving. The
/// proof type and the hard-fork tag travel along: the constraint library
/// may select differently shaped circuits by them.
pub struct ProvingRequest {
    pub task_type: ProofType,
    pub hard_fork_name: String,
    pub private_input: Vec<u64>,
    pub public_input: String,
}

/// The screening decision: a request ready for the prover engine, or the
/// finished response of a task that never reaches it.
pub enum Screened {
    Ready(ProvingRequest),
    Rejected(ProofDetail),
}

/// A task passes screening when its payload is well formed and its
/// declared public input reduces into the scalar field.
pub open spec fn screen_accepts(data: Seq<char>) -> bool {
    spec_decode(data) is Some && valid_public_input(decoded_public(data))
}

/// The diagnostic for a payload that does not decode.
pub open spec fn decode_failure_message() -> Seq<char> {
    "task data is not a well-formed circuit payload"@
}

/// The diagnostic for a public input that does not reduce into the field.
pub open spec fn out_of_field_message(p: Seq<char>) -> Seq<char> {
    "public input out of field: "@ + p
}

/// Screen one task. Exactly the tasks whose payload decodes and whose
/// public input reduces into the scalar field come out ready, carrying the
/// decoded inputs; every other task is finished here with an empty proof
/// and the stage's diagnostic, and is never handed to the prover engine.
pub fn screen_task(t: &Task) -> (r: Screened)
    ensures
        match r {
            Screened::Ready(rq) => screen_accepts(t.task_data@) && rq.task_type == t.task_type
                && rq.hard_fork_name == t.hard_fork_name
                && rq.private_input@ == decoded_privates(t.task_data@)
                && rq.public_input@ == decoded_public(t.task_data@),
            Screened::Rejected(d) => !screen_accepts(t.task_data@) && d.id == t.id
                && d.proof_type == t.task_type && d.proof_data@.len() == 0 && d.error@.len() > 0
                && (spec_decode(t.task_data@) is None ==> d.error@ == decode_failure_message())
                && (spec_decode(t.task_data@) is Some ==> d.error@ == out_of_field_message(
                    decoded_public(t.task_data@),
                )),
        },
{
    let decoded = decode_task_data(t.task_data.as_str());
    match decoded {
        None => {
            proof {
                reveal_strlit("task data is not a well-formed circuit payload");
            }
            Screened::Rejected(ProofDetail {
                id: t.id.clone(),
                proof_type: t.task_type,
                proof_data: String::new(),
                error: String::from_str("task data is not a well-formed circuit payload"),
            })
        },
        Some((private_input, public_input)) => {
            match check_public_input(&public_input) {
                Ok(()) => Screened::Ready(ProvingRequest {
                    task_type: t.task_type,
                    hard_fork_name: t.hard_fork_name.clone(),
                    private_input,
                    public_input,
                }),
                Err(e) => Screened::Rejected(ProofDetail::failure(t.id.clone(), t.task_type, &e)),
            }
        },
    }
}

/// What the proving protocol reported back for one screened request:
/// the self-verified proof bytes, or the diagnostic of the stage that
/// failed. Keys are derived per request; a key-derivation failure is a
/// structural mismatch and is not retried.
pub enum ProvingOutcome {
    Proved(Vec<u8>),
    KeygenVkFailed(String),
    KeygenPkFailed(String),
    ProveFailed(String),
    VerifyFailed(String),
}

/// Settle a proving outcome into the response envelope: proof bytes are
/// text-safe encoded with an empty diagnostic; a stage failure keeps the
/// proof data empty and carries that stage's tagged message.
pub fn settle_task(id: String, proof_type: ProofType, outcome: ProvingOutcome) -> (r: ProofDetail)
    requires
        outcome matches ProvingOutcome::Proved(bytes) ==> bytes@.len() <= usize::MAX / 4,
    ensures
        r.id == id,
        r.proof_type == proof_type,
        match outcome {
            ProvingOutcome::Proved(bytes) => r.proof_data@ == base64_of(bytes@) && r.error@.len()
                == 0,
            ProvingOutcome::KeygenVkFailed(d) => r.proof_data@.len() == 0 && r.error@ == message_of(
                Error::WhileKeygenVk { plonk_error: d },
            ),
            ProvingOutcome::KeygenPkFailed(d) => r.proof_data@.len() == 0 && r.error@ == message_of(
                Error::WhileKeygenPk { plonk_error: d },
            ),
            ProvingOutcome::ProveFailed(d) => r.proof_data@.len() == 0 && r.error@ == message_of(
                Error::WhileProve { plonk_error: d },
            ),
            ProvingOutcome::VerifyFailed(d) => r.proof_data@.len() == 0 && r.error@ == message_of(
                Error::WhileVerify { plonk_error: d },
            ),
        },
{
    match outcome {
        ProvingOutcome::Proved(bytes) => ProofDetail::success(id, proof_type, &bytes),
        ProvingOutcome::KeygenVkFailed(d) => ProofDetail::failure(
            id,
            proof_type,
            &Error::while_keygen_vk(d),
        ),
        ProvingOutcome::KeygenPkFailed(d) => ProofDetail::failure(
            id,
            proof_type,
            &Error::while_keygen_pk(d),
        ),
        ProvingOutcome::ProveFailed(d) => ProofDetail::failure(
            id,
            proof_type,
            &Error::while_prove(d),
        ),
        ProvingOutcome::VerifyFailed(d) => ProofDetail::failure(
            id,
            proof_type,
            &Error::while_verify(d),
        ),
    }
}

/// A public input that does not reduce into the scalar field never passes
/// screening, whatever the rest of the payload holds: the prover engine is
/// only ever invoked for a task that screening let through.
pub proof fn lemma_out_of_field_never_proved(data: Seq<char>)
    requires
        !valid_public_input(decoded_public(data)),
    ensures
        !screen_accepts(data),
{
}

} // verus!
