//! The running score total, and the score-delta event a settled reaction
//! emits.

use vstd::prelude::*;

verus! {

/// The global score total. A settled reaction adds its final combo value
/// here in one atomic update.
#[derive(Clone, Copy, Debug, PartialEq, Eq, Structural)]
pub struct Score(pub u64);

impl Default for Score {
    /// A fresh round starts from zero.
    fn default() -> (s: Score)
        ensures
            s.0 == 0,
    {
        Score(0)
    }
}

/// Outbound event: how much a settled reaction added to the total.
#[derive(Clone, Copy, Debug, PartialEq, Eq, Structural)]
pub struct AddToScore(pub u64);

} // verus!
