use vstd::prelude::*;
use crate::account::AccountId;
use crate::basket::BasketConfig;
use crate::basket::execute_gate;
use crate::basket::executor_allowed;
use crate::errors::ErrorCode;
use crate::proposal::ThresholdProposal;
use crate::proposal::finalize_gate;
use crate::proposal::quorum_reached;
use crate::proposal::vote_gate;

verus! {

/// No double voting: once a staker stands in a proposal's voter set — and a
/// successful vote always records the staker there — every later vote by
/// that staker is refused, before expiry as a duplicate; and a refused vote
/// leaves the proposal untouched.
pub proof fn lemma_no_double_vote(
    expiration: i64,
    voters: Seq<AccountId>,
    now: i64,
    staker: AccountId,
)
    requires
        voters.contains(staker),
    ensures
        vote_gate(expiration, voters, now, staker) is Some,
        now <= expiration ==> vote_gate(expiration, voters, now, staker)
            == Some(ErrorCode::AlreadyVoted),
{
}

/// Finalization passes exactly when all three conditions hold at once —
/// still within the window, quorum reached, and a strict majority of yes
/// weight; flipping any one of them flips the outcome.
pub proof fn lemma_finalize_characterization(
    yes: u64,
    no: u64,
    supply: u64,
    quorum_percentage: u8,
    expiration: i64,
    now: i64,
)
    ensures
        finalize_gate(yes, no, supply, quorum_percentage, expiration, now) is None
            <==> (now <= expiration
                && quorum_reached(yes, no, supply, quorum_percentage)
                && yes > no),
{
}

/// For a fixed snapshot supply and quorum percentage, quorum is monotone in
/// the participating weight: a tally that reaches quorum never loses it as
/// more weight arrives.
pub proof fn lemma_quorum_monotone(
    yes1: u64,
    no1: u64,
    yes2: u64,
    no2: u64,
    supply: u64,
    quorum_percentage: u8,
)
    requires
        quorum_reached(yes1, no1, supply, quorum_percentage),
        yes2 + no2 >= yes1 + no1,
    ensures
        quorum_reached(yes2, no2, supply, quorum_percentage),
{
    assert((yes2 + no2) * 100 >= (yes1 + no1) * 100) by (nonlinear_arith)
        requires
            yes2 + no2 >= yes1 + no1,
    ;
}

/// The cooldown gate: right after a successful rebalance at time `t` the
/// basket carries `last_rebalance_ts == t`, so a second call is refused as
/// long as `now` lies short of `t + cooldown_seconds`, and the cooldown no
/// longer blocks from the moment `now` reaches it.
pub proof fn lemma_cooldown_gate(basket: BasketConfig, executor: AccountId, now: i64)
    ensures
        now - basket.last_rebalance_ts < basket.cooldown_seconds
            ==> execute_gate(basket, now, executor) == Some(ErrorCode::CooldownActive),
        (now - basket.last_rebalance_ts >= basket.cooldown_seconds
            && executor_allowed(basket.whitelist@, executor))
            ==> execute_gate(basket, now, executor) is None,
{
}

/// First-call bootstrap: a basket that has never rebalanced carries
/// `last_rebalance_ts == 0`, so the cooldown never blocks the first call
/// once the clock reads at least `cooldown_seconds`.
pub proof fn lemma_first_call_bootstrap(basket: BasketConfig, executor: AccountId, now: i64)
    requires
        basket.last_rebalance_ts == 0,
        basket.cooldown_seconds <= now,
        executor_allowed(basket.whitelist@, executor),
    ensures
        execute_gate(basket, now, executor) is None,
{
}

/// Expiry is absorbing: the clock never runs backwards, so once the voting
/// window has closed for a proposal it never reopens — every later vote or
/// finalization attempt is refused as expired, whoever makes it and whatever
/// the tallies say.
pub proof fn lemma_expired_is_absorbing(
    expiration: i64,
    voters: Seq<AccountId>,
    yes: u64,
    no: u64,
    supply: u64,
    quorum_percentage: u8,
    staker: AccountId,
    now1: i64,
    now2: i64,
)
    requires
        now1 > expiration,
        now2 >= now1,
    ensures
        vote_gate(expiration, voters, now2, staker) == Some(ErrorCode::ProposalExpired),
        finalize_gate(yes, no, supply, quorum_percentage, expiration, now2)
            == Some(ErrorCode::ProposalExpired),
{
}

/// A failed finalization closes nothing: the refusal leaves basket and
/// proposal as they were (stated by the finalize contracts), and once later
/// votes bring the same proposal to quorum and majority before it expires,
/// a second attempt goes through.
pub proof fn lemma_failed_finalize_retry(
    before: ThresholdProposal,
    after: ThresholdProposal,
    now1: i64,
    now2: i64,
)
    requires
        finalize_gate(
            before.yes_votes,
            before.no_votes,
            before.snapshot_supply,
            before.quorum_percentage,
            before.expiration,
            now1,
        ) is Some,
        after.snapshot_supply == before.snapshot_supply,
        after.quorum_percentage == before.quorum_percentage,
        after.expiration == before.expiration,
        now2 <= after.expiration,
        quorum_reached(after.yes_votes, after.no_votes, after.snapshot_supply, after.quorum_percentage),
        after.yes_votes > after.no_votes,
    ensures
        finalize_gate(
            after.yes_votes,
            after.no_votes,
            after.snapshot_supply,
            after.quorum_percentage,
            after.expiration,
            now2,
        ) is None,
{
}

} // verus!
