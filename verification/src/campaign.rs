//! One campaign: its parameters, its owner, what it holds, and the rules for
//! contributing to it and for claiming from it.

use vstd::prelude::*;
use crate::error::LedgerError;
use crate::identity::Identity;
use crate::ledger::ContributorLedger;
use crate::rules::{claim_refusal, due_of, CampaignParameters, Settlement, Status};

verus! {

/// A campaign and its accounts.
#[derive(Debug)]
pub struct CrowdfundingSc {
    owner: Identity,
    params: CampaignParameters,
    deposits: ContributorLedger,
    held: u128,
}

impl CrowdfundingSc {
    /// The parameters the campaign was created with.
    pub closed spec fn parameters(&self) -> CampaignParameters {
        self.params
    }

    /// The beneficiary of the campaign.
    pub closed spec fn owner_id(&self) -> Seq<u8> {
        self.owner@
    }

    /// The funds that the campaign holds.
    pub closed spec fn funds(&self) -> nat {
        self.held as nat
    }

    /// The amount on record for `who`; zero for a contributor never seen.
    pub closed spec fn recorded(&self, who: Seq<u8>) -> nat {
        self.deposits.recorded(who)
    }

    /// The sum of what is on record for all contributors.
    pub closed spec fn pledged(&self) -> nat {
        self.deposits.total()
    }

    /// The ledger keeps one entry per contributor and its sum covers each.
    pub closed spec fn ledger_sound(&self) -> bool {
        &&& self.deposits.wf()
        &&& forall|who: Seq<u8>| #[trigger] self.deposits.recorded(who) <= self.deposits.total()
    }

    /// What holds of a campaign at every moment: valid parameters, nobody above
    /// the cap per contributor, the funds within the hard cap, and every unit
    /// held backed by a record.
    pub open spec fn wf(&self) -> bool {
        &&& self.parameters().valid()
        &&& self.ledger_sound()
        &&& forall|who: Seq<u8>| #[trigger] self.recorded(who) <= self.parameters().max_per_user
        &&& self.funds() <= self.parameters().max_cap
        &&& self.funds() <= self.pledged()
    }

    /// Nothing was paid out to the owner so far: the funds are the sum of the
    /// records.
    pub open spec fn fully_backed(&self) -> bool {
        self.funds() == self.pledged()
    }

    /// No contributor has more on record than all contributors together.
    pub proof fn lemma_recorded_within_pledged(&self, who: Seq<u8>)
        requires
            self.wf(),
        ensures
            self.recorded(who) <= self.pledged(),
    {
        assert(self.deposits.recorded(who) <= self.deposits.total());
    }

    /// The status of the campaign at time `now`.
    pub open spec fn status_at(&self, now: u64) -> Status {
        self.parameters().status_at(self.funds(), now)
    }

    /// A campaign as `init` leaves it: nothing held, nothing on record.
    pub open spec fn fresh(&self, owner: Seq<u8>, p: CampaignParameters) -> bool {
        &&& self.wf()
        &&& self.parameters() == p
        &&& self.owner_id() == owner
        &&& self.funds() == 0
        &&& self.pledged() == 0
        &&& forall|who: Seq<u8>| #[trigger] self.recorded(who) == 0
    }

    /// The first rule that a contribution of `amount` by `caller` at `now`
    /// breaks, if any.
    pub open spec fn fund_refusal(&self, caller: Seq<u8>, amount: u128, now: u64) -> Option<
        LedgerError,
    > {
        self.parameters().refusal(self.funds(), self.recorded(caller), amount as nat, now)
    }

    /// `post` is `pre` with `amount` more held and `amount` more on record for
    /// `caller`, and nothing else changed.
    pub open spec fn credited(pre: Self, post: Self, caller: Seq<u8>, amount: nat) -> bool {
        &&& post.parameters() == pre.parameters()
        &&& post.owner_id() == pre.owner_id()
        &&& post.funds() == pre.funds() + amount
        &&& post.pledged() == pre.pledged() + amount
        &&& post.recorded(caller) == pre.recorded(caller) + amount
        &&& forall|other: Seq<u8>|
            other != caller ==> #[trigger] post.recorded(other) == pre.recorded(other)
    }

    /// `post` is `pre` with `amount` less held and nothing on record for
    /// `caller`, who had `amount`; nothing else changed.
    pub open spec fn refunded(pre: Self, post: Self, caller: Seq<u8>, amount: nat) -> bool {
        &&& post.parameters() == pre.parameters()
        &&& post.owner_id() == pre.owner_id()
        &&& pre.recorded(caller) == amount
        &&& post.funds() == pre.funds() - amount
        &&& post.pledged() == pre.pledged() - amount
        &&& post.recorded(caller) == 0
        &&& forall|other: Seq<u8>|
            other != caller ==> #[trigger] post.recorded(other) == pre.recorded(other)
    }

    /// `post` is `pre` with nothing held; the records are as they were.
    pub open spec fn paid_out(pre: Self, post: Self) -> bool {
        &&& post.parameters() == pre.parameters()
        &&& post.owner_id() == pre.owner_id()
        &&& post.funds() == 0
        &&& post.pledged() == pre.pledged()
        &&& forall|who: Seq<u8>| #[trigger] post.recorded(who) == pre.recorded(who)
    }

    /// What a call of `fund` does: it is refused by the first rule broken and
    /// changes nothing, or it credits the amount.
    pub open spec fn fund_step(
        pre: Self,
        post: Self,
        caller: Seq<u8>,
        amount: u128,
        now: u64,
        r: Result<(), LedgerError>,
    ) -> bool {
        &&& post.wf()
        &&& match pre.fund_refusal(caller, amount, now) {
            Some(e) => r == Err::<(), LedgerError>(e) && post == pre,
            None => r is Ok && Self::credited(pre, post, caller, amount as nat),
        }
    }

    /// Why a claim by `caller` at `now` is refused, if it is.
    pub open spec fn claim_refusal(&self, caller: Seq<u8>, now: u64) -> Option<LedgerError> {
        claim_refusal(self.status_at(now), caller == self.owner_id())
    }

    /// The amount that a claim by `caller` at `now` pays, where it is not
    /// refused.
    pub open spec fn claim_due(&self, caller: Seq<u8>, now: u64) -> nat {
        due_of(self.status_at(now), self.funds(), self.recorded(caller))
    }

    /// What a call of `claim` does. A refused claim changes nothing. The
    /// owner's claim from a successful campaign empties the funds and
    /// leaves the records. A claim from a failed campaign deletes the
    /// caller's record and takes its amount from the funds; where nothing is
    /// due it changes nothing.
    pub open spec fn claim_step(
        pre: Self,
        post: Self,
        caller: Seq<u8>,
        now: u64,
        r: Result<u128, LedgerError>,
    ) -> bool {
        &&& post.wf()
        &&& match pre.claim_refusal(caller, now) {
            Some(e) => r == Err::<u128, LedgerError>(e) && post == pre,
            None => {
                &&& r is Ok
                &&& r->Ok_0 == pre.claim_due(caller, now)
                &&& if pre.status_at(now) == Status::Successful {
                    Self::paid_out(pre, post)
                } else if pre.claim_due(caller, now) > 0 {
                    Self::refunded(pre, post, caller, pre.claim_due(caller, now))
                } else {
                    post == pre
                }
            },
        }
    }

    /// Creates a campaign for `owner` at time `now`. The parameters are
    /// checked in this order: a positive target, a hard cap that reaches the
    /// target, a cap per contributor that reaches the floor per contribution,
    /// a deadline after `now`. Each failure gives `InvalidParameters`.
    pub fn init(
        owner: Identity,
        target: u128,
        deadline: u64,
        min_contribution: u128,
        max_per_user: u128,
        max_cap: u128,
        now: u64,
    ) -> (r: Result<CrowdfundingSc, LedgerError>)
        ensures
            r is Ok <==> (CampaignParameters {
                target,
                deadline,
                min_contribution,
                max_per_user,
                max_cap,
            }).admissible(now),
            r is Err ==> r->Err_0 == LedgerError::InvalidParameters,
            r is Ok ==> r->Ok_0.fresh(
                owner@,
                (CampaignParameters { target, deadline, min_contribution, max_per_user, max_cap }),
            ),
            r is Ok ==> r->Ok_0.status_at((deadline - 1) as u64) == Status::FundingPeriod,
    {
        match CampaignParameters::checked(
            target,
            deadline,
            min_contribution,
            max_per_user,
            max_cap,
            now,
        ) {
            Ok(params) => Ok(
                CrowdfundingSc { owner, params, deposits: ContributorLedger::new(), held: 0 },
            ),
            Err(e) => Err(e),
        }
    }

    /// Takes a contribution of `amount` from `caller` at time `now`. The host
    /// has credited the amount before the call; here it is counted into the
    /// funds only if the contribution is admitted.
    pub fn fund(&mut self, caller: &Identity, amount: u128, now: u64) -> (r: Result<
        (),
        LedgerError,
    >)
        requires
            old(self).wf(),
        ensures
            Self::fund_step(*old(self), *final(self), caller@, amount, now, r),
    {
        let deposited = self.deposits.get(caller);
        let new_user_total = match self.params.accept(self.held, deposited, amount, now) {
            Ok(total) => total,
            Err(e) => {
                return Err(e);
            },
        };
        self.deposits.set(caller, new_user_total);
        self.held = self.held + amount;
        proof {
            assert forall|who: Seq<u8>| #[trigger]
                self.deposits.recorded(who) <= self.deposits.total() by {
                self.deposits.lemma_recorded_within_total(who);
            }
            assert forall|who: Seq<u8>| #[trigger]
                self.recorded(who) <= self.parameters().max_per_user by {
                if who != caller@ {
                    assert(self.recorded(who) == old(self).recorded(who));
                }
            }
        }
        Ok(())
    }

    /// The status of the campaign at time `now`.
    pub fn status(&self, now: u64) -> (s: Status)
        ensures
            s == self.status_at(now),
    {
        self.params.status(self.held, now)
    }

    /// Settles the claim of `caller` at time `now` and returns the amount
    /// that the host has to transfer to `caller`; zero means no transfer.
    /// The accounts are updated before the amount is handed out, so a
    /// second claim finds nothing left to take.
    pub fn claim(&mut self, caller: &Identity, now: u64) -> (r: Result<u128, LedgerError>)
        requires
            old(self).wf(),
        ensures
            Self::claim_step(*old(self), *final(self), caller@, now, r),
    {
        let deposit = self.deposits.get(caller);
        let is_owner = caller.same(&self.owner);
        match self.params.settle(self.held, deposit, is_owner, now) {
            Err(e) => Err(e),
            Ok(Settlement::Nothing) => Ok(0),
            Ok(Settlement::Payout(balance)) => {
                self.held = 0;
                proof {
                    assert forall|who: Seq<u8>| #[trigger]
                        self.recorded(who) <= self.parameters().max_per_user by {
                        assert(self.recorded(who) == old(self).recorded(who));
                    }
                }
                Ok(balance)
            },
            Ok(Settlement::Refund(amount)) => {
                self.deposits.clear(caller);
                self.held = self.held - amount;
                proof {
                    assert forall|who: Seq<u8>| #[trigger]
                        self.deposits.recorded(who) <= self.deposits.total() by {
                        self.deposits.lemma_recorded_within_total(who);
                    }
                    assert forall|who: Seq<u8>| #[trigger]
                        self.recorded(who) <= self.parameters().max_per_user by {
                        if who != caller@ {
                            assert(self.recorded(who) == old(self).recorded(who));
                        }
                    }
                }
                Ok(amount)
            },
        }
    }

    /// The funds that the campaign holds.
    pub fn get_current_funds(&self) -> (held: u128)
        ensures
            held == self.funds(),
    {
        self.held
    }

    /// The least total for the campaign to succeed.
    pub fn target(&self) -> (v: u128)
        ensures
            v == self.parameters().target,
    {
        self.params.target
    }

    /// The time up to which the campaign collects.
    pub fn deadline(&self) -> (v: u64)
        ensures
            v == self.parameters().deadline,
    {
        self.params.deadline
    }

    /// The least amount of one contribution.
    pub fn min_contribution(&self) -> (v: u128)
        ensures
            v == self.parameters().min_contribution,
    {
        self.params.min_contribution
    }

    /// The most that one contributor may have on record.
    pub fn max_per_user(&self) -> (v: u128)
        ensures
            v == self.parameters().max_per_user,
    {
        self.params.max_per_user
    }

    /// The most that the campaign may hold.
    pub fn max_cap(&self) -> (v: u128)
        ensures
            v == self.parameters().max_cap,
    {
        self.params.max_cap
    }

    /// The beneficiary of the campaign.
    pub fn owner(&self) -> (id: Identity)
        ensures
            id@ == self.owner_id(),
    {
        self.owner
    }

    /// The amount on record for the contributor whose identity is `donor`.
    /// Bytes that are no identity give `InvalidInput`.
    pub fn deposit(&self, donor: &[u8]) -> (r: Result<u128, LedgerError>)
        requires
            self.wf(),
        ensures
            match r {
                Ok(amount) => donor@.len() == crate::identity::IDENTITY_LEN && amount
                    == self.recorded(donor@),
                Err(e) => donor@.len() != crate::identity::IDENTITY_LEN && e
                    == LedgerError::InvalidInput,
            },
    {
        match Identity::from_bytes(donor) {
            Ok(id) => Ok(self.deposits.get(&id)),
            Err(e) => Err(e),
        }
    }
}

} // verus!
