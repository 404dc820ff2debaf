//! The synthetic-input side of a remap: the batch of events to inject
//! for the replacement key, the judgment of what the OS reported back,
//! and the reply the hook owes the OS for the original event.

use vstd::prelude::*;

use crate::intercept::RemapDecision;

verus! {

/// One synthetic keyboard event: a press (`up == false`) or a release
/// (`up == true`) of a virtual-key code.
#[derive(Debug, Clone, Copy, PartialEq, Eq)]
pub struct SyntheticKey {
    pub vk: u16,
    pub up: bool,
}

/// Error from submitting synthetic input: the OS accepted fewer events
/// than were submitted. Carries the OS's last-error code and both
/// counts; the caller logs them and continues.
#[derive(Debug, Clone, Copy, PartialEq, Eq)]
pub struct KeyInputError {
    pub error_code: u32,
    pub accepted: u32,
    pub submitted: u32,
}

/// The batch a remap injects for a virtual-key code: a down event
/// followed immediately by an up event for the same key, to be submitted
/// to the OS as one atomic batch.
pub open spec fn spec_key_batch(new_key: u32) -> Seq<SyntheticKey> {
    seq![
        SyntheticKey { vk: new_key as u16, up: false },
        SyntheticKey { vk: new_key as u16, up: true },
    ]
}

/// Builds the down+up batch for the given virtual-key code.
pub fn build_key_batch(new_key: u32) -> (batch: Vec<SyntheticKey>)
    ensures
        batch@ == spec_key_batch(new_key),
{
    let vk = new_key as u16;
    let mut batch: Vec<SyntheticKey> = Vec::new();
    batch.push(SyntheticKey { vk, up: false });
    batch.push(SyntheticKey { vk, up: true });
    proof {
        assert(batch@ =~= spec_key_batch(new_key));
    }
    batch
}

/// Judges the OS's report on a submitted batch: success only if every
/// submitted event was accepted; partial acceptance is a failure
/// carrying the OS's last-error code and both counts.
pub fn judge_submission(submitted: u32, accepted: u32, error_code: u32) -> (r: Result<
    (),
    KeyInputError,
>)
    ensures
        r == (if accepted == submitted {
            Result::<(), KeyInputError>::Ok(())
        } else {
            Result::<(), KeyInputError>::Err(KeyInputError { error_code, accepted, submitted })
        }),
{
    if accepted == submitted {
        Ok(())
    } else {
        Err(KeyInputError { error_code, accepted, submitted })
    }
}

/// The reply the hook gives the OS for the original event: block it
/// exactly when the decision was to suppress it. A failed synthetic
/// emission is logged by the caller but never re-allows the original
/// event through: a decided suppression may drop a keystroke, never
/// double or garble one.
pub fn hook_reply(
    decision: &RemapDecision,
    _emission: &Option<Result<(), KeyInputError>>,
) -> (block: bool)
    ensures
        block == (decision is Suppress),
{
    match decision {
        RemapDecision::Suppress(_) => true,
        RemapDecision::Passthrough => false,
    }
}

} // verus!
