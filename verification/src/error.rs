//! The ways in which an operation on a campaign is refused.

use vstd::prelude::*;

verus! {

/// Why a call was refused. A refused call leaves the campaign as it was.
#[derive(Clone, Copy, Debug, PartialEq, Eq, Structural)]
pub enum LedgerError {
    /// A constraint on the parameters of a new campaign is violated.
    InvalidParameters,
    /// The amount is below the floor for a single contribution.
    BelowMinimumContribution,
    /// The contribution arrived at or after the deadline.
    DeadlinePassed,
    /// The campaign would hold more than its hard cap.
    HardCapExceeded,
    /// The contributor would have more on record than one contributor may.
    PerUserCapExceeded,
    /// A claim was made while the campaign was still collecting.
    ClaimTooEarly,
    /// Someone other than the owner claimed the funds of a successful campaign.
    Unauthorized,
    /// A query named an identity that is not well formed.
    InvalidInput,
}

} // verus!
