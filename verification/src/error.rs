//! What can go wrong, all of it at start-up.

use vstd::prelude::*;

verus! {

/// The failures of the simulation core.
#[derive(Clone, Copy, Debug, PartialEq, Eq, Structural)]
pub enum SimError {
    /// No point with the required separation was found within the retry
    /// budget.
    PlacementInfeasible,
    /// A density or layout selection that names no known choice.
    InvalidConfiguration,
}

} // verus!
