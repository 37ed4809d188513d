//! The size gate: decides whether a produced file is an improvement
//! over the original, purely from the two byte counts.

use vstd::prelude::*;

verus! {

/// Decision derived from (original byte length, produced byte length).
#[derive(Clone, Copy, Debug, PartialEq, Eq, Structural)]
pub enum SizeDecision {
    /// The produced file is strictly smaller; carries the bytes saved.
    Improved(u64),
    /// The produced file is not smaller (or the original was empty).
    NotImproved,
}

/// Compares the original and produced sizes and decides accept/discard.
///
/// An empty original is never improved upon, whatever the produced
/// size; otherwise the produced file is an improvement exactly when it
/// is strictly smaller, and the saving is the exact difference.
pub fn size_gate(original_bytes: u64, produced_bytes: u64) -> (d: SizeDecision)
    ensures
        original_bytes > 0 && produced_bytes < original_bytes ==> d == SizeDecision::Improved(
            (original_bytes - produced_bytes) as u64,
        ),
        original_bytes == 0 ==> d == SizeDecision::NotImproved,
        produced_bytes >= original_bytes ==> d == SizeDecision::NotImproved,
{
    if original_bytes > 0 && produced_bytes < original_bytes {
        SizeDecision::Improved(original_bytes - produced_bytes)
    } else {
        SizeDecision::NotImproved
    }
}

} // verus!
