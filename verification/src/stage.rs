//! The per-task pipeline state machine.
//!
//! One task moves through the stages in order — received, decoded, shape
//! ready, keys ready, proved, self-verified, encoded — and a failure at any
//! stage moves it to the failure-encoded state. Both encoded states are
//! terminal: a task never re-enters the pipeline, and a task that failed a
//! stage never reaches a later stage. In particular, a task whose decode or
//! field check failed never reaches the proving stage.

use vstd::prelude::*;

verus! {

/// The states one task passes through, in pipeline order.
#[derive(Debug, Clone, Copy, PartialEq, Eq, Structural)]
pub enum Stage {
    Received,
    Decoded,
    ShapeReady,
    KeyReady,
    Proved,
    SelfVerified,
    EncodedOk,
    EncodedErr,
}

/// The stage a successful step leads to; the encoded stages are terminal.
pub open spec fn next_on_success(s: Stage) -> Stage {
    match s {
        Stage::Received => Stage::Decoded,
        Stage::Decoded => Stage::ShapeReady,
        Stage::ShapeReady => Stage::KeyReady,
        Stage::KeyReady => Stage::Proved,
        Stage::Proved => Stage::SelfVerified,
        Stage::SelfVerified => Stage::EncodedOk,
        Stage::EncodedOk => Stage::EncodedOk,
        Stage::EncodedErr => Stage::EncodedErr,
    }
}

/// Whether a stage is terminal: a task that reached it never moves again.
pub open spec fn is_terminal(s: Stage) -> bool {
    s == Stage::EncodedOk || s == Stage::EncodedErr
}

/// The transition of one pipeline step: forward on success, to the
/// failure-encoded state on a stage failure, and no motion from a
/// terminal state.
pub open spec fn next_stage(s: Stage, ok: bool) -> Stage {
    if is_terminal(s) {
        s
    } else if ok {
        next_on_success(s)
    } else {
        Stage::EncodedErr
    }
}

/// The stage a run reaches from `s` after the given step results.
pub open spec fn run_from(s: Stage, steps: Seq<bool>) -> Stage
    decreases steps.len(),
{
    if steps.len() == 0 {
        s
    } else {
        run_from(next_stage(s, steps[0]), steps.skip(1))
    }
}

impl Stage {
    /// Take one pipeline step from this stage.
    pub fn advance(self, ok: bool) -> (r: Stage)
        ensures
            r == next_stage(self, ok),
    {
        if matches!(self, Stage::EncodedOk) || matches!(self, Stage::EncodedErr) {
            self
        } else if !ok {
            Stage::EncodedErr
        } else {
            match self {
                Stage::Received => Stage::Decoded,
                Stage::Decoded => Stage::ShapeReady,
                Stage::ShapeReady => Stage::KeyReady,
                Stage::KeyReady => Stage::Proved,
                Stage::Proved => Stage::SelfVerified,
                Stage::SelfVerified => Stage::EncodedOk,
                Stage::EncodedOk => Stage::EncodedOk,
                Stage::EncodedErr => Stage::EncodedErr,
            }
        }
    }
}

/// A task that reached a terminal state stays there, whatever steps follow.
pub proof fn lemma_terminal_absorbs(s: Stage, steps: Seq<bool>)
    requires
        is_terminal(s),
    ensures
        run_from(s, steps) == s,
    decreases steps.len(),
{
    if steps.len() > 0 {
        lemma_terminal_absorbs(s, steps.skip(1));
    }
}

/// A task whose first step failed — its payload did not decode, or its
/// public input did not reduce into the field — is failure-encoded at once
/// and never reaches the proving stage or any later one.
pub proof fn lemma_failed_screen_never_proves(steps: Seq<bool>)
    requires
        steps.len() > 0,
        !steps[0],
    ensures
        run_from(Stage::Received, steps) == Stage::EncodedErr,
{
    lemma_terminal_absorbs(Stage::EncodedErr, steps.skip(1));
}

} // verus!
