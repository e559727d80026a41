//! What holds of a campaign over several calls, proved from the contracts of
//! the operations.

use vstd::prelude::*;
use crate::campaign::CrowdfundingSc;
use crate::error::LedgerError;
use crate::rules::{CampaignParameters, Status};

verus! {

/// A campaign that was created at `now` with admissible parameters is
/// collecting at the instant before its deadline.
pub proof fn law_new_campaign_is_collecting(
    c: CrowdfundingSc,
    owner: Seq<u8>,
    p: CampaignParameters,
    now: u64,
)
    requires
        p.admissible(now),
        c.fresh(owner, p),
    ensures
        p.deadline >= 1,
        c.status_at((p.deadline - 1) as u64) == Status::FundingPeriod,
{
}

/// The rules of admission keep the caps: after a contribution that no rule
/// refuses, no contributor has more on record than one contributor may, and
/// the campaign holds no more than its hard cap. As long as nothing was paid
/// out, the same holds of the sum of all records.
pub proof fn law_admitted_contribution_keeps_caps(
    pre: CrowdfundingSc,
    post: CrowdfundingSc,
    caller: Seq<u8>,
    amount: u128,
    now: u64,
    who: Seq<u8>,
)
    requires
        pre.wf(),
        pre.fund_refusal(caller, amount, now) is None,
        CrowdfundingSc::credited(pre, post, caller, amount as nat),
    ensures
        post.recorded(who) <= post.parameters().max_per_user,
        post.funds() <= post.parameters().max_cap,
        pre.fully_backed() ==> post.fully_backed() && post.pledged() <= post.parameters().max_cap,
{
    if who != caller {
        assert(post.recorded(who) == pre.recorded(who));
    }
}

/// Whatever the answer to a contribution, and whatever was called before,
/// the caps hold afterwards; a refused contribution changes nothing.
pub proof fn law_caps_hold_after_every_contribution(
    pre: CrowdfundingSc,
    post: CrowdfundingSc,
    caller: Seq<u8>,
    amount: u128,
    now: u64,
    r: Result<(), LedgerError>,
    who: Seq<u8>,
)
    requires
        pre.wf(),
        CrowdfundingSc::fund_step(pre, post, caller, amount, now, r),
    ensures
        post.recorded(who) <= post.parameters().max_per_user,
        post.funds() <= post.parameters().max_cap,
        post.parameters() == pre.parameters(),
        r is Err ==> post == pre,
        r is Ok ==> post.recorded(caller) == pre.recorded(caller) + amount,
{
}

/// `post` is what some call of `fund` or of `claim` at time `now` makes of
/// `pre`.
pub open spec fn one_call_at(pre: CrowdfundingSc, post: CrowdfundingSc, now: u64) -> bool {
    ||| exists|caller: Seq<u8>, amount: u128, r: Result<(), LedgerError>|
        #[trigger] CrowdfundingSc::fund_step(pre, post, caller, amount, now, r)
    ||| exists|caller: Seq<u8>, r: Result<u128, LedgerError>|
        #[trigger] CrowdfundingSc::claim_step(pre, post, caller, now, r)
}

/// The states that a campaign passes through, one call after the other:
/// the call that leads from `history[i]` to the next state is made at
/// `times[i]`.
pub open spec fn is_history(history: Seq<CrowdfundingSc>, times: Seq<u64>) -> bool {
    &&& history.len() == times.len() + 1
    &&& history[0].wf()
    &&& forall|i: int|
        0 <= i < times.len() ==> one_call_at(#[trigger] history[i], history[i + 1], times[i])
}

/// In whatever order contributions and claims are made, by whomever and at
/// whatever times: every state that a campaign passes through keeps its
/// parameters, has nobody above the cap per contributor, and holds no more
/// than its hard cap.
pub proof fn law_caps_hold_in_every_history(
    history: Seq<CrowdfundingSc>,
    times: Seq<u64>,
    k: int,
    who: Seq<u8>,
)
    requires
        is_history(history, times),
        0 <= k < history.len(),
    ensures
        history[k].wf(),
        history[k].parameters() == history[0].parameters(),
        history[k].recorded(who) <= history[0].parameters().max_per_user,
        history[k].funds() <= history[0].parameters().max_cap,
    decreases k,
{
    if k > 0 {
        law_caps_hold_in_every_history(history, times, k - 1, who);
        assert(one_call_at(history[k - 1], history[k - 1 + 1], times[k - 1]));
    }
}

/// Under a clock that does not run backwards, a campaign that starts with
/// its funds equal to the sum of its records keeps them equal until the
/// owner is paid; from then on it holds nothing, and the deadline has
/// passed. So up to the deadline the sum of all records stays within the
/// hard cap.
pub proof fn law_funds_are_the_records_until_paid_out(
    history: Seq<CrowdfundingSc>,
    times: Seq<u64>,
    k: int,
)
    requires
        is_history(history, times),
        history[0].fully_backed(),
        forall|i: int, j: int| 0 <= i <= j < times.len() ==> times[i] <= times[j],
        0 <= k < history.len(),
    ensures
        history[k].wf(),
        history[k].parameters() == history[0].parameters(),
        history[k].fully_backed() || (history[k].funds() == 0 && k > 0 && times[k - 1]
            > history[0].parameters().deadline),
        k == 0 || times[k - 1] <= history[0].parameters().deadline ==> history[k].pledged()
            <= history[0].parameters().max_cap,
    decreases k,
{
    if k > 0 {
        law_funds_are_the_records_until_paid_out(history, times, k - 1);
        assert(one_call_at(history[k - 1], history[k - 1 + 1], times[k - 1]));
        if k > 1 {
            assert(times[k - 2] <= times[k - 1]);
        }
    }
}

/// A claim pays out of the funds and never more than they hold: what the
/// caller receives is what the campaign holds less afterwards.
pub proof fn law_claim_pays_from_funds(
    pre: CrowdfundingSc,
    post: CrowdfundingSc,
    caller: Seq<u8>,
    now: u64,
    r: Result<u128, LedgerError>,
)
    requires
        pre.wf(),
        CrowdfundingSc::claim_step(pre, post, caller, now, r),
    ensures
        r is Ok ==> r->Ok_0 <= pre.funds() && post.funds() == pre.funds() - r->Ok_0,
        r is Err ==> post == pre,
{
}

/// After the deadline of a failed campaign, a contributor whose record the
/// campaign still holds is refunded once: the first claim pays exactly what
/// was on record and deletes the record, and a second claim, then or later,
/// pays nothing and changes nothing.
pub proof fn law_refund_is_paid_once(
    s0: CrowdfundingSc,
    s1: CrowdfundingSc,
    s2: CrowdfundingSc,
    caller: Seq<u8>,
    now: u64,
    later: u64,
    r1: Result<u128, LedgerError>,
    r2: Result<u128, LedgerError>,
)
    requires
        s0.wf(),
        s0.status_at(now) == Status::Failed,
        0 < s0.recorded(caller) <= s0.funds(),
        now <= later,
        CrowdfundingSc::claim_step(s0, s1, caller, now, r1),
        CrowdfundingSc::claim_step(s1, s2, caller, later, r2),
    ensures
        r1 is Ok && r1->Ok_0 == s0.recorded(caller),
        s1.recorded(caller) == 0,
        s1.funds() == s0.funds() - s0.recorded(caller),
        r2 == Ok::<u128, LedgerError>(0),
        s2 == s1,
{
    assert(s1.status_at(later) == Status::Failed);
}

/// After the deadline of a successful campaign the owner is paid once: the
/// first claim pays all that the campaign holds, and a second claim, then or
/// later, pays nothing and changes nothing. Where nothing was paid out
/// before, the two claims together pay what all contributors deposited.
pub proof fn law_payout_is_paid_once(
    s0: CrowdfundingSc,
    s1: CrowdfundingSc,
    s2: CrowdfundingSc,
    now: u64,
    later: u64,
    r1: Result<u128, LedgerError>,
    r2: Result<u128, LedgerError>,
)
    requires
        s0.wf(),
        s0.status_at(now) == Status::Successful,
        now <= later,
        CrowdfundingSc::claim_step(s0, s1, s0.owner_id(), now, r1),
        CrowdfundingSc::claim_step(s1, s2, s0.owner_id(), later, r2),
    ensures
        r1 is Ok && r1->Ok_0 == s0.funds(),
        r1->Ok_0 >= s0.parameters().target,
        s1.funds() == 0,
        r2 == Ok::<u128, LedgerError>(0),
        s2 == s1,
        s0.fully_backed() ==> r1->Ok_0 + r2->Ok_0 == s0.pledged(),
{
    assert(s1.status_at(later) == Status::Failed);
}

/// Once a campaign holds nothing, no claim by anyone pays anything or
/// changes anything.
pub proof fn law_nothing_left_to_claim(
    pre: CrowdfundingSc,
    post: CrowdfundingSc,
    caller: Seq<u8>,
    now: u64,
    r: Result<u128, LedgerError>,
)
    requires
        pre.wf(),
        pre.funds() == 0,
        CrowdfundingSc::claim_step(pre, post, caller, now, r),
    ensures
        r is Ok ==> r->Ok_0 == 0,
        post == pre,
{
}

/// As long as nothing was paid out to the owner, a failed campaign holds
/// every record in full: the claim of any contributor pays exactly what they
/// have on record and deletes the record, and the funds stay the sum of the
/// records that are left.
pub proof fn law_failed_campaign_refunds_in_full(
    pre: CrowdfundingSc,
    post: CrowdfundingSc,
    caller: Seq<u8>,
    now: u64,
    r: Result<u128, LedgerError>,
)
    requires
        pre.wf(),
        pre.fully_backed(),
        pre.status_at(now) == Status::Failed,
        CrowdfundingSc::claim_step(pre, post, caller, now, r),
    ensures
        r is Ok && r->Ok_0 == pre.recorded(caller),
        post.recorded(caller) == 0,
        post.fully_backed(),
{
    pre.lemma_recorded_within_pledged(caller);
}

/// Before a campaign has paid out to its owner, its funds are the sum of its
/// records, and contributions and refunds keep it so.
pub proof fn law_backing_is_kept(
    pre: CrowdfundingSc,
    post: CrowdfundingSc,
    caller: Seq<u8>,
    amount: nat,
)
    requires
        pre.fully_backed(),
        CrowdfundingSc::credited(pre, post, caller, amount) || CrowdfundingSc::refunded(
            pre,
            post,
            caller,
            amount,
        ),
    ensures
        post.fully_backed(),
{
}

} // verus!
