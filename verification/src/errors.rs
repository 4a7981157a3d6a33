//! The stage-tagged error taxonomy of the proving pipeline.
//!
//! Each variant names the pipeline stage that failed and carries the
//! underlying diagnostic as opaque text: the cryptographic library's own
//! error type is not transportable, so only its printed form travels.
//! A stage failure is terminal for the task; no partial proof is returned.

use vstd::prelude::*;

verus! {

#[derive(Debug)]
pub enum Error {
    WhileKeygenVk { plonk_error: String },
    WhileKeygenPk { plonk_error: String },
    PubInputOutOfField { public_input: String },
    WhileProve { plonk_error: String },
    WhileVerify { plonk_error: String },
}

/// The fixed text that introduces a stage's diagnostic in a response.
pub open spec fn stage_prefix(e: Error) -> Seq<char> {
    match e {
        Error::WhileKeygenVk { .. } => "while generating verifying key: "@,
        Error::WhileKeygenPk { .. } => "while generating proving key: "@,
        Error::PubInputOutOfField { .. } => "public input out of field: "@,
        Error::WhileProve { .. } => "while proving: "@,
        Error::WhileVerify { .. } => "while verifying: "@,
    }
}

/// The diagnostic text an error carries, without its stage prefix.
pub open spec fn diagnostic_of(e: Error) -> Seq<char> {
    match e {
        Error::WhileKeygenVk { plonk_error } => plonk_error@,
        Error::WhileKeygenPk { plonk_error } => plonk_error@,
        Error::PubInputOutOfField { public_input } => public_input@,
        Error::WhileProve { plonk_error } => plonk_error@,
        Error::WhileVerify { plonk_error } => plonk_error@,
    }
}

/// The full human-readable message of an error: its stage prefix
/// followed by the diagnostic it carries.
pub open spec fn message_of(e: Error) -> Seq<char> {
    stage_prefix(e) + diagnostic_of(e)
}

impl Error {
    /// Tag a key-derivation failure that occurred while building the verifying key.
    pub fn while_keygen_vk(plonk_error: String) -> (r: Self)
        ensures
            r == (Error::WhileKeygenVk { plonk_error }),
    {
        Error::WhileKeygenVk { plonk_error }
    }

    /// Tag a key-derivation failure that occurred while building the proving key.
    pub fn while_keygen_pk(plonk_error: String) -> (r: Self)
        ensures
            r == (Error::WhileKeygenPk { plonk_error }),
    {
        Error::WhileKeygenPk { plonk_error }
    }

    /// Tag a failure of the proving protocol itself.
    pub fn while_prove(plonk_error: String) -> (r: Self)
        ensures
            r == (Error::WhileProve { plonk_error }),
    {
        Error::WhileProve { plonk_error }
    }

    /// Tag a self-verification failure: an internal defect, never surfaced
    /// as a successful proof.
    pub fn while_verify(plonk_error: String) -> (r: Self)
        ensures
            r == (Error::WhileVerify { plonk_error }),
    {
        Error::WhileVerify { plonk_error }
    }

    /// Reject a public input that does not reduce into the scalar field,
    /// naming the offending value.
    pub fn pub_input_out_of_field(public_input: String) -> (r: Self)
        ensures
            r == (Error::PubInputOutOfField { public_input }),
    {
        Error::PubInputOutOfField { public_input }
    }

    /// Render the error as the diagnostic string carried in a response
    /// envelope. The message is never empty: each stage contributes a
    /// non-empty prefix even when the underlying diagnostic is empty.
    pub fn message(&self) -> (r: String)
        ensures
            r@ == message_of(*self),
            r@.len() > 0,
    {
        let (prefix, detail): (&str, &String) = match self {
            Error::WhileKeygenVk { plonk_error } => ("while generating verifying key: ", plonk_error),
            Error::WhileKeygenPk { plonk_error } => ("while generating proving key: ", plonk_error),
            Error::PubInputOutOfField { public_input } => ("public input out of field: ", public_input),
            Error::WhileProve { plonk_error } => ("while proving: ", plonk_error),
            Error::WhileVerify { plonk_error } => ("while verifying: ", plonk_error),
        };
        proof {
            reveal_strlit("while generating verifying key: ");
            reveal_strlit("while generating proving key: ");
            reveal_strlit("public input out of field: ");
            reveal_strlit("while proving: ");
            reveal_strlit("while verifying: ");
        }
        String::from_str(prefix).concat(detail.as_str())
    }
}

} // verus!
