//! The liveness probe.

use crate::routes::subscriptions::Outcome;
use vstd::prelude::*;

verus! {

/// Answers the liveness probe: always with success, whatever else goes on.
pub fn health_check() -> (outcome: Outcome)
    ensures
        outcome == Outcome::Success,
{
    Outcome::Success
}

} // verus!
