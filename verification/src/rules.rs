//! The rules of a campaign on plain values: which parameters are admissible,
//! which contribution is admitted, where the campaign stands at a given time,
//! and what a claim pays.

use vstd::prelude::*;
use crate::error::LedgerError;

verus! {

/// Where a campaign stands at a given time. It is derived from the time and
/// the funds held whenever it is asked for, and never stored.
#[derive(Clone, Copy, Debug, PartialEq, Eq, Structural)]
pub enum Status {
    /// The deadline has not passed: the campaign is collecting.
    FundingPeriod,
    /// The deadline has passed and the target was reached.
    Successful,
    /// The deadline has passed and the target was missed.
    Failed,
}

/// What a claim that is not refused asks the host to do.
#[derive(Clone, Copy, Debug, PartialEq, Eq, Structural)]
pub enum Settlement {
    /// Nothing is due to the caller: no record changes and nothing is sent.
    Nothing,
    /// The campaign succeeded: all it holds goes to the owner.
    Payout(u128),
    /// The campaign failed: the caller's record is deleted, then its amount
    /// goes back to the caller.
    Refund(u128),
}

impl Settlement {
    /// The amount that goes to the caller.
    pub open spec fn due(self) -> nat {
        match self {
            Settlement::Nothing => 0,
            Settlement::Payout(amount) => amount as nat,
            Settlement::Refund(amount) => amount as nat,
        }
    }

    /// The amount that goes to the caller; zero where nothing is sent.
    pub fn amount(&self) -> (amount: u128)
        ensures
            amount == self.due(),
    {
        match self {
            Settlement::Nothing => 0,
            Settlement::Payout(amount) => *amount,
            Settlement::Refund(amount) => *amount,
        }
    }
}

/// The status of a campaign with the given deadline and target that holds
/// `held` at time `now`. At the deadline itself it is still collecting.
pub open spec fn status_of(now: u64, deadline: u64, held: nat, target: nat) -> Status {
    if now <= deadline {
        Status::FundingPeriod
    } else if held >= target {
        Status::Successful
    } else {
        Status::Failed
    }
}

/// Why a claim is refused, if it is: before the deadline has passed nobody
/// may claim, and from a successful campaign only the owner.
pub open spec fn claim_refusal(status: Status, is_owner: bool) -> Option<LedgerError> {
    match status {
        Status::FundingPeriod => Some(LedgerError::ClaimTooEarly),
        Status::Successful => if is_owner {
            None
        } else {
            Some(LedgerError::Unauthorized)
        },
        Status::Failed => None,
    }
}

/// The amount that a claim which is not refused pays to the caller, where the
/// campaign holds `held` and the caller has `deposited` on record: from a
/// successful campaign all funds, from a failed one the caller's record, as
/// far as the campaign still holds it.
pub open spec fn due_of(status: Status, held: nat, deposited: nat) -> nat {
    match status {
        Status::FundingPeriod => 0,
        Status::Successful => held,
        Status::Failed => if deposited <= held {
            deposited
        } else {
            0
        },
    }
}

/// What a claim that is not refused asks for.
pub open spec fn settlement_of(status: Status, held: u128, deposited: u128) -> Settlement {
    if status == Status::Successful {
        Settlement::Payout(held)
    } else if due_of(status, held as nat, deposited as nat) > 0 {
        Settlement::Refund(deposited)
    } else {
        Settlement::Nothing
    }
}

/// What is fixed when a campaign is created.
#[derive(Clone, Copy, Debug, PartialEq, Eq, Structural)]
pub struct CampaignParameters {
    /// The least total for the campaign to succeed.
    pub target: u128,
    /// The time up to which the campaign collects.
    pub deadline: u64,
    /// The least amount of one contribution.
    pub min_contribution: u128,
    /// The most that one contributor may have on record.
    pub max_per_user: u128,
    /// The most that the campaign may hold.
    pub max_cap: u128,
}

impl CampaignParameters {
    /// The constraints among the amounts: a positive target within the hard
    /// cap, and a floor per contribution within the cap per contributor.
    pub open spec fn valid(self) -> bool {
        &&& 0 < self.target <= self.max_cap
        &&& self.min_contribution <= self.max_per_user
    }

    /// Whether a campaign with these parameters may be created at `now`.
    pub open spec fn admissible(self, now: u64) -> bool {
        self.valid() && self.deadline > now
    }

    /// The status at `now` of a campaign with these parameters that holds
    /// `held`.
    pub open spec fn status_at(self, held: nat, now: u64) -> Status {
        status_of(now, self.deadline, held, self.target as nat)
    }

    /// The first rule that a contribution of `amount` breaks, if any, where
    /// the campaign held `held` before it and the contributor had `deposited`
    /// on record. The rules are tried in a fixed order: the floor per
    /// contribution, the deadline, the hard cap on the funds with this
    /// contribution counted in, the cap per contributor.
    pub open spec fn refusal(self, held: nat, deposited: nat, amount: nat, now: u64) -> Option<
        LedgerError,
    > {
        if amount < self.min_contribution {
            Some(LedgerError::BelowMinimumContribution)
        } else if now >= self.deadline {
            Some(LedgerError::DeadlinePassed)
        } else if held + amount > self.max_cap {
            Some(LedgerError::HardCapExceeded)
        } else if deposited + amount > self.max_per_user {
            Some(LedgerError::PerUserCapExceeded)
        } else {
            None
        }
    }

    /// Checks the parameters of a campaign to be created at `now`, in this
    /// order: a positive target, a hard cap that reaches the target, a cap
    /// per contributor that reaches the floor per contribution, a deadline
    /// after `now`. Each failure gives `InvalidParameters`.
    pub fn checked(
        target: u128,
        deadline: u64,
        min_contribution: u128,
        max_per_user: u128,
        max_cap: u128,
        now: u64,
    ) -> (r: Result<CampaignParameters, LedgerError>)
        ensures
            r is Ok <==> (CampaignParameters {
                target,
                deadline,
                min_contribution,
                max_per_user,
                max_cap,
            }).admissible(now),
            r is Ok ==> r->Ok_0 == (CampaignParameters {
                target,
                deadline,
                min_contribution,
                max_per_user,
                max_cap,
            }),
            r is Err ==> r->Err_0 == LedgerError::InvalidParameters,
    {
        if target == 0 {
            return Err(LedgerError::InvalidParameters);
        }
        if max_cap < target {
            return Err(LedgerError::InvalidParameters);
        }
        if max_per_user < min_contribution {
            return Err(LedgerError::InvalidParameters);
        }
        if deadline <= now {
            return Err(LedgerError::InvalidParameters);
        }
        Ok(CampaignParameters { target, deadline, min_contribution, max_per_user, max_cap })
    }

    /// The status at `now` of a campaign that holds `held`.
    pub fn status(&self, held: u128, now: u64) -> (s: Status)
        ensures
            s == self.status_at(held as nat, now),
    {
        if now <= self.deadline {
            Status::FundingPeriod
        } else if held >= self.target {
            Status::Successful
        } else {
            Status::Failed
        }
    }

    /// Decides on a contribution of `amount` at `now`, where the campaign
    /// held `held` before it and the contributor had `deposited` on record.
    /// An admitted contribution gives the contributor's new record.
    pub fn accept(&self, held: u128, deposited: u128, amount: u128, now: u64) -> (r: Result<
        u128,
        LedgerError,
    >)
        ensures
            match self.refusal(held as nat, deposited as nat, amount as nat, now) {
                Some(e) => r == Err::<u128, LedgerError>(e),
                None => r is Ok && r->Ok_0 == deposited + amount,
            },
    {
        if amount < self.min_contribution {
            return Err(LedgerError::BelowMinimumContribution);
        }
        if now >= self.deadline {
            return Err(LedgerError::DeadlinePassed);
        }
        if held > self.max_cap || amount > self.max_cap - held {
            return Err(LedgerError::HardCapExceeded);
        }
        if deposited > self.max_per_user || amount > self.max_per_user - deposited {
            return Err(LedgerError::PerUserCapExceeded);
        }
        Ok(deposited + amount)
    }

    /// Decides on a claim at `now`, where the campaign holds `held`, the
    /// caller has `deposited` on record, and `is_owner` says whether the
    /// caller owns the campaign.
    pub fn settle(&self, held: u128, deposited: u128, is_owner: bool, now: u64) -> (r: Result<
        Settlement,
        LedgerError,
    >)
        ensures
            match claim_refusal(self.status_at(held as nat, now), is_owner) {
                Some(e) => r == Err::<Settlement, LedgerError>(e),
                None => r == Ok::<Settlement, LedgerError>(
                    settlement_of(self.status_at(held as nat, now), held, deposited),
                ),
            },
    {
        match self.status(held, now) {
            Status::FundingPeriod => Err(LedgerError::ClaimTooEarly),
            Status::Successful => {
                if is_owner {
                    Ok(Settlement::Payout(held))
                } else {
                    Err(LedgerError::Unauthorized)
                }
            },
            Status::Failed => {
                if deposited > 0 && deposited <= held {
                    Ok(Settlement::Refund(deposited))
                } else {
                    Ok(Settlement::Nothing)
                }
            },
        }
    }
}

} // verus!
