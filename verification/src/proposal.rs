use vstd::prelude::*;
use crate::account::AccountId;
use crate::account::contains_account;
use crate::basket::BasketConfig;
use crate::errors::ErrorCode;
use crate::events::ProposalCreated;
use crate::events::ProposalFinalized;
use crate::events::Voted;

verus! {

/// Which governed parameter a proposal changes.  The three lifecycles are
/// identical; only the payload and the basket field it lands in differ.
#[derive(Clone, Copy, PartialEq, Eq, Structural, Debug)]
pub enum ProposalType {
    Threshold,
    Strategy,
    Assets,
}

/// A pending change of the basket's deviation threshold.
#[derive(Clone, Debug)]
pub struct ThresholdProposal {
    pub proposer: AccountId,
    pub basket: AccountId,
    pub proposed_threshold: u64,
    pub yes_votes: u64,
    pub no_votes: u64,
    pub snapshot_supply: u64,
    pub quorum_percentage: u8,
    pub expiration: i64,
    pub voters: Vec<AccountId>,
}

/// A pending change of the basket's strategy tag.
#[derive(Clone, Debug)]
pub struct StrategyProposal {
    pub proposer: AccountId,
    pub basket: AccountId,
    pub proposed_strategy: u8,
    pub yes_votes: u64,
    pub no_votes: u64,
    pub snapshot_supply: u64,
    pub quorum_percentage: u8,
    pub expiration: i64,
    pub voters: Vec<AccountId>,
}

/// A pending change of the basket's eligible asset list.
#[derive(Clone, Debug)]
pub struct AssetsProposal {
    pub proposer: AccountId,
    pub basket: AccountId,
    pub proposed_assets: Vec<AccountId>,
    pub yes_votes: u64,
    pub no_votes: u64,
    pub snapshot_supply: u64,
    pub quorum_percentage: u8,
    pub expiration: i64,
    pub voters: Vec<AccountId>,
}

/// The voting gate, checked in this order: a vote is admitted only at or
/// before expiry, and only from a staker who has not voted on this proposal.
/// `None` means the vote goes through.
pub open spec fn vote_gate(expiration: i64, voters: Seq<AccountId>, now: i64, staker: AccountId) -> Option<ErrorCode> {
    if now > expiration {
        Some(ErrorCode::ProposalExpired)
    } else if voters.contains(staker) {
        Some(ErrorCode::AlreadyVoted)
    } else {
        None
    }
}

/// Quorum: the participating weight, scaled by 100, reaches the snapshot
/// supply scaled by the quorum percentage.
pub open spec fn quorum_reached(yes: u64, no: u64, supply: u64, quorum_percentage: u8) -> bool {
    (yes + no) * 100 >= supply * quorum_percentage
}

/// The finalization gate, checked in this order: expiry, quorum, strict
/// majority.  `None` means the proposal passes and the basket is mutated.
pub open spec fn finalize_gate(
    yes: u64,
    no: u64,
    supply: u64,
    quorum_percentage: u8,
    expiration: i64,
    now: i64,
) -> Option<ErrorCode> {
    if now > expiration {
        Some(ErrorCode::ProposalExpired)
    } else if !quorum_reached(yes, no, supply, quorum_percentage) {
        Some(ErrorCode::QuorumNotReached)
    } else if yes <= no {
        Some(ErrorCode::NotApproved)
    } else {
        None
    }
}

/// How an accepted vote moves a tally: `weight` lands on the chosen side and
/// the other side is untouched.
pub open spec fn tally_updated(
    yes0: u64,
    no0: u64,
    yes1: u64,
    no1: u64,
    weight: u64,
    accept: bool,
) -> bool {
    &&& accept ==> yes1 == yes0 + weight && no1 == no0
    &&& !accept ==> no1 == no0 + weight && yes1 == yes0
}

/// Opens a threshold proposal: zero tallies, no voters, the supply snapshot
/// and the basket's current quorum captured for the proposal's lifetime.
///
/// `snapshot_supply` is the governance mint's total supply as the ledger
/// reports it at this moment; `basket_key` is the basket's address.  The
/// proposed threshold must be positive so that a passing proposal keeps the
/// basket invariant.
pub fn propose_threshold(
    basket: &BasketConfig,
    basket_key: AccountId,
    proposer: AccountId,
    snapshot_supply: u64,
    new_threshold: u64,
    expiration_ts: i64,
) -> (r: (ThresholdProposal, ProposalCreated))
    requires
        new_threshold >= 1,
    ensures
        r.0.proposer == proposer,
        r.0.basket == basket_key,
        r.0.proposed_threshold == new_threshold,
        r.0.yes_votes == 0,
        r.0.no_votes == 0,
        r.0.snapshot_supply == snapshot_supply,
        r.0.quorum_percentage == basket.quorum_percentage,
        r.0.expiration == expiration_ts,
        r.0.voters@.len() == 0,
        r.1 == (ProposalCreated {
            basket: basket_key,
            kind: ProposalType::Threshold,
            proposer,
            expiration: expiration_ts,
        }),
{
    let proposal = ThresholdProposal {
        proposer,
        basket: basket_key,
        proposed_threshold: new_threshold,
        yes_votes: 0,
        no_votes: 0,
        snapshot_supply,
        quorum_percentage: basket.quorum_percentage,
        expiration: expiration_ts,
        voters: Vec::new(),
    };
    let event = ProposalCreated {
        basket: basket_key,
        kind: ProposalType::Threshold,
        proposer,
        expiration: expiration_ts,
    };
    (proposal, event)
}

/// Opens a strategy proposal; see `propose_threshold`.
pub fn propose_strategy(
    basket: &BasketConfig,
    basket_key: AccountId,
    proposer: AccountId,
    snapshot_supply: u64,
    new_strategy: u8,
    expiration_ts: i64,
) -> (r: (StrategyProposal, ProposalCreated))
    ensures
        r.0.proposer == proposer,
        r.0.basket == basket_key,
        r.0.proposed_strategy == new_strategy,
        r.0.yes_votes == 0,
        r.0.no_votes == 0,
        r.0.snapshot_supply == snapshot_supply,
        r.0.quorum_percentage == basket.quorum_percentage,
        r.0.expiration == expiration_ts,
        r.0.voters@.len() == 0,
        r.1 == (ProposalCreated {
            basket: basket_key,
            kind: ProposalType::Strategy,
            proposer,
            expiration: expiration_ts,
        }),
{
    let proposal = StrategyProposal {
        proposer,
        basket: basket_key,
        proposed_strategy: new_strategy,
        yes_votes: 0,
        no_votes: 0,
        snapshot_supply,
        quorum_percentage: basket.quorum_percentage,
        expiration: expiration_ts,
        voters: Vec::new(),
    };
    let event = ProposalCreated {
        basket: basket_key,
        kind: ProposalType::Strategy,
        proposer,
        expiration: expiration_ts,
    };
    (proposal, event)
}

/// Opens an assets proposal; see `propose_threshold`.
pub fn propose_assets(
    basket: &BasketConfig,
    basket_key: AccountId,
    proposer: AccountId,
    snapshot_supply: u64,
    new_assets: Vec<AccountId>,
    expiration_ts: i64,
) -> (r: (AssetsProposal, ProposalCreated))
    ensures
        r.0.proposer == proposer,
        r.0.basket == basket_key,
        r.0.proposed_assets == new_assets,
        r.0.yes_votes == 0,
        r.0.no_votes == 0,
        r.0.snapshot_supply == snapshot_supply,
        r.0.quorum_percentage == basket.quorum_percentage,
        r.0.expiration == expiration_ts,
        r.0.voters@.len() == 0,
        r.1 == (ProposalCreated {
            basket: basket_key,
            kind: ProposalType::Assets,
            proposer,
            expiration: expiration_ts,
        }),
{
    let proposal = AssetsProposal {
        proposer,
        basket: basket_key,
        proposed_assets: new_assets,
        yes_votes: 0,
        no_votes: 0,
        snapshot_supply,
        quorum_percentage: basket.quorum_percentage,
        expiration: expiration_ts,
        voters: Vec::new(),
    };
    let event = ProposalCreated {
        basket: basket_key,
        kind: ProposalType::Assets,
        proposer,
        expiration: expiration_ts,
    };
    (proposal, event)
}

/// Counts one vote on a threshold proposal, weighted by the `weight`
/// governance tokens the staker holds.
///
/// The caller moves exactly `weight` tokens from the staker into this kind's
/// escrow once the checks here admit the vote, and commits the updated
/// proposal only after that move went through, so a vote whose token leg
/// fails counts nothing and records nobody.  A refusal here likewise leaves
/// the proposal exactly as it was.  Tallies never wrap: a sum past
/// `u64::MAX` aborts the call.
pub fn vote_threshold(
    proposal: &mut ThresholdProposal,
    now: i64,
    staker: AccountId,
    weight: u64,
    accept: bool,
) -> (r: Result<Voted, ErrorCode>)
    requires
        (vote_gate(old(proposal).expiration, old(proposal).voters@, now, staker) is None
            && accept) ==> old(proposal).yes_votes + weight <= u64::MAX,
        (vote_gate(old(proposal).expiration, old(proposal).voters@, now, staker) is None
            && !accept) ==> old(proposal).no_votes + weight <= u64::MAX,
    ensures
        match r {
            Ok(ev) => {
                &&& vote_gate(old(proposal).expiration, old(proposal).voters@, now, staker) is None
                &&& tally_updated(
                        old(proposal).yes_votes,
                        old(proposal).no_votes,
                        final(proposal).yes_votes,
                        final(proposal).no_votes,
                        weight,
                        accept,
                    )
                &&& final(proposal).voters@ == old(proposal).voters@.push(staker)
                &&& final(proposal).proposer == old(proposal).proposer
                &&& final(proposal).basket == old(proposal).basket
                &&& final(proposal).proposed_threshold == old(proposal).proposed_threshold
                &&& final(proposal).snapshot_supply == old(proposal).snapshot_supply
                &&& final(proposal).quorum_percentage == old(proposal).quorum_percentage
                &&& final(proposal).expiration == old(proposal).expiration
                &&& ev == (Voted {
                        basket: old(proposal).basket,
                        kind: ProposalType::Threshold,
                        voter: staker,
                        weight,
                        accept,
                    })
            },
            Err(e) => {
                &&& vote_gate(old(proposal).expiration, old(proposal).voters@, now, staker) == Some(e)
                &&& *final(proposal) == *old(proposal)
            },
        },
{
    if now > proposal.expiration {
        return Err(ErrorCode::ProposalExpired);
    }
    if contains_account(&proposal.voters, staker) {
        return Err(ErrorCode::AlreadyVoted);
    }
    if accept {
        proposal.yes_votes = proposal.yes_votes + weight;
    } else {
        proposal.no_votes = proposal.no_votes + weight;
    }
    proposal.voters.push(staker);
    Ok(Voted {
        basket: proposal.basket,
        kind: ProposalType::Threshold,
        voter: staker,
        weight,
        accept,
    })
}

/// Counts one vote on a strategy proposal; see `vote_threshold`.
pub fn vote_strategy(
    proposal: &mut StrategyProposal,
    now: i64,
    staker: AccountId,
    weight: u64,
    accept: bool,
) -> (r: Result<Voted, ErrorCode>)
    requires
        (vote_gate(old(proposal).expiration, old(proposal).voters@, now, staker) is None
            && accept) ==> old(proposal).yes_votes + weight <= u64::MAX,
        (vote_gate(old(proposal).expiration, old(proposal).voters@, now, staker) is None
            && !accept) ==> old(proposal).no_votes + weight <= u64::MAX,
    ensures
        match r {
            Ok(ev) => {
                &&& vote_gate(old(proposal).expiration, old(proposal).voters@, now, staker) is None
                &&& tally_updated(
                        old(proposal).yes_votes,
                        old(proposal).no_votes,
                        final(proposal).yes_votes,
                        final(proposal).no_votes,
                        weight,
                        accept,
                    )
                &&& final(proposal).voters@ == old(proposal).voters@.push(staker)
                &&& final(proposal).proposer == old(proposal).proposer
                &&& final(proposal).basket == old(proposal).basket
                &&& final(proposal).proposed_strategy == old(proposal).proposed_strategy
                &&& final(proposal).snapshot_supply == old(proposal).snapshot_supply
                &&& final(proposal).quorum_percentage == old(proposal).quorum_percentage
                &&& final(proposal).expiration == old(proposal).expiration
                &&& ev == (Voted {
                        basket: old(proposal).basket,
                        kind: ProposalType::Strategy,
                        voter: staker,
                        weight,
                        accept,
                    })
            },
            Err(e) => {
                &&& vote_gate(old(proposal).expiration, old(proposal).voters@, now, staker) == Some(e)
                &&& *final(proposal) == *old(proposal)
            },
        },
{
    if now > proposal.expiration {
        return Err(ErrorCode::ProposalExpired);
    }
    if contains_account(&proposal.voters, staker) {
        return Err(ErrorCode::AlreadyVoted);
    }
    if accept {
        proposal.yes_votes = proposal.yes_votes + weight;
    } else {
        proposal.no_votes = proposal.no_votes + weight;
    }
    proposal.voters.push(staker);
    Ok(Voted {
        basket: proposal.basket,
        kind: ProposalType::Strategy,
        voter: staker,
        weight,
        accept,
    })
}

/// Counts one vote on an assets proposal; see `vote_threshold`.
pub fn vote_assets(
    proposal: &mut AssetsProposal,
    now: i64,
    staker: AccountId,
    weight: u64,
    accept: bool,
) -> (r: Result<Voted, ErrorCode>)
    requires
        (vote_gate(old(proposal).expiration, old(proposal).voters@, now, staker) is None
            && accept) ==> old(proposal).yes_votes + weight <= u64::MAX,
        (vote_gate(old(proposal).expiration, old(proposal).voters@, now, staker) is None
            && !accept) ==> old(proposal).no_votes + weight <= u64::MAX,
    ensures
        match r {
            Ok(ev) => {
                &&& vote_gate(old(proposal).expiration, old(proposal).voters@, now, staker) is None
                &&& tally_updated(
                        old(proposal).yes_votes,
                        old(proposal).no_votes,
                        final(proposal).yes_votes,
                        final(proposal).no_votes,
                        weight,
                        accept,
                    )
                &&& final(proposal).voters@ == old(proposal).voters@.push(staker)
                &&& final(proposal).proposer == old(proposal).proposer
                &&& final(proposal).basket == old(proposal).basket
                &&& final(proposal).proposed_assets == old(proposal).proposed_assets
                &&& final(proposal).snapshot_supply == old(proposal).snapshot_supply
                &&& final(proposal).quorum_percentage == old(proposal).quorum_percentage
                &&& final(proposal).expiration == old(proposal).expiration
                &&& ev == (Voted {
                        basket: old(proposal).basket,
                        kind: ProposalType::Assets,
                        voter: staker,
                        weight,
                        accept,
                    })
            },
            Err(e) => {
                &&& vote_gate(old(proposal).expiration, old(proposal).voters@, now, staker) == Some(e)
                &&& *final(proposal) == *old(proposal)
            },
        },
{
    if now > proposal.expiration {
        return Err(ErrorCode::ProposalExpired);
    }
    if contains_account(&proposal.voters, staker) {
        return Err(ErrorCode::AlreadyVoted);
    }
    if accept {
        proposal.yes_votes = proposal.yes_votes + weight;
    } else {
        proposal.no_votes = proposal.no_votes + weight;
    }
    proposal.voters.push(staker);
    Ok(Voted {
        basket: proposal.basket,
        kind: ProposalType::Assets,
        voter: staker,
        weight,
        accept,
    })
}

/// Settles a threshold proposal before its expiry: if quorum and a strict
/// majority are reached, the basket's threshold becomes the proposed value;
/// any refusal leaves the basket exactly as it was and the proposal open for
/// a later attempt.  The tally sums in the quorum check abort on overflow
/// rather than wrap.
pub fn finalize_threshold(
    basket: &mut BasketConfig,
    proposal: &ThresholdProposal,
    now: i64,
) -> (r: Result<ProposalFinalized, ErrorCode>)
    requires
        old(basket).wf(),
        proposal.proposed_threshold >= 1,
        now <= proposal.expiration ==> proposal.yes_votes + proposal.no_votes <= u64::MAX,
        now <= proposal.expiration ==> (proposal.yes_votes + proposal.no_votes) * 100 <= u64::MAX,
        now <= proposal.expiration ==> proposal.snapshot_supply * proposal.quorum_percentage <= u64::MAX,
    ensures
        final(basket).wf(),
        match r {
            Ok(ev) => {
                &&& finalize_gate(
                        proposal.yes_votes,
                        proposal.no_votes,
                        proposal.snapshot_supply,
                        proposal.quorum_percentage,
                        proposal.expiration,
                        now,
                    ) is None
                &&& final(basket).threshold == proposal.proposed_threshold
                &&& final(basket).strategy == old(basket).strategy
                &&& final(basket).eligible_assets == old(basket).eligible_assets
                &&& final(basket).last_rebalance_ts == old(basket).last_rebalance_ts
                &&& old(basket).same_identity_and_constants(*final(basket))
                &&& ev == (ProposalFinalized {
                        basket: proposal.basket,
                        kind: ProposalType::Threshold,
                        approved: true,
                    })
            },
            Err(e) => {
                &&& finalize_gate(
                        proposal.yes_votes,
                        proposal.no_votes,
                        proposal.snapshot_supply,
                        proposal.quorum_percentage,
                        proposal.expiration,
                        now,
                    ) == Some(e)
                &&& *final(basket) == *old(basket)
            },
        },
{
    if now > proposal.expiration {
        return Err(ErrorCode::ProposalExpired);
    }
    let total_votes = proposal.yes_votes + proposal.no_votes;
    let quorum_floor = proposal.snapshot_supply * (proposal.quorum_percentage as u64);
    if total_votes * 100 < quorum_floor {
        return Err(ErrorCode::QuorumNotReached);
    }
    if proposal.yes_votes <= proposal.no_votes {
        return Err(ErrorCode::NotApproved);
    }
    basket.threshold = proposal.proposed_threshold;
    Ok(ProposalFinalized {
        basket: proposal.basket,
        kind: ProposalType::Threshold,
        approved: true,
    })
}

/// Settles a strategy proposal; see `finalize_threshold`.
pub fn finalize_strategy(
    basket: &mut BasketConfig,
    proposal: &StrategyProposal,
    now: i64,
) -> (r: Result<ProposalFinalized, ErrorCode>)
    requires
        old(basket).wf(),
        now <= proposal.expiration ==> proposal.yes_votes + proposal.no_votes <= u64::MAX,
        now <= proposal.expiration ==> (proposal.yes_votes + proposal.no_votes) * 100 <= u64::MAX,
        now <= proposal.expiration ==> proposal.snapshot_supply * proposal.quorum_percentage <= u64::MAX,
    ensures
        final(basket).wf(),
        match r {
            Ok(ev) => {
                &&& finalize_gate(
                        proposal.yes_votes,
                        proposal.no_votes,
                        proposal.snapshot_supply,
                        proposal.quorum_percentage,
                        proposal.expiration,
                        now,
                    ) is None
                &&& final(basket).strategy == proposal.proposed_strategy
                &&& final(basket).threshold == old(basket).threshold
                &&& final(basket).eligible_assets == old(basket).eligible_assets
                &&& final(basket).last_rebalance_ts == old(basket).last_rebalance_ts
                &&& old(basket).same_identity_and_constants(*final(basket))
                &&& ev == (ProposalFinalized {
                        basket: proposal.basket,
                        kind: ProposalType::Strategy,
                        approved: true,
                    })
            },
            Err(e) => {
                &&& finalize_gate(
                        proposal.yes_votes,
                        proposal.no_votes,
                        proposal.snapshot_supply,
                        proposal.quorum_percentage,
                        proposal.expiration,
                        now,
                    ) == Some(e)
                &&& *final(basket) == *old(basket)
            },
        },
{
    if now > proposal.expiration {
        return Err(ErrorCode::ProposalExpired);
    }
    let total_votes = proposal.yes_votes + proposal.no_votes;
    let quorum_floor = proposal.snapshot_supply * (proposal.quorum_percentage as u64);
    if total_votes * 100 < quorum_floor {
        return Err(ErrorCode::QuorumNotReached);
    }
    if proposal.yes_votes <= proposal.no_votes {
        return Err(ErrorCode::NotApproved);
    }
    basket.strategy = proposal.proposed_strategy;
    Ok(ProposalFinalized {
        basket: proposal.basket,
        kind: ProposalType::Strategy,
        approved: true,
    })
}

/// Settles an assets proposal; see `finalize_threshold`.  The proposed list
/// is copied into the basket by value.
pub fn finalize_assets(
    basket: &mut BasketConfig,
    proposal: &AssetsProposal,
    now: i64,
) -> (r: Result<ProposalFinalized, ErrorCode>)
    requires
        old(basket).wf(),
        now <= proposal.expiration ==> proposal.yes_votes + proposal.no_votes <= u64::MAX,
        now <= proposal.expiration ==> (proposal.yes_votes + proposal.no_votes) * 100 <= u64::MAX,
        now <= proposal.expiration ==> proposal.snapshot_supply * proposal.quorum_percentage <= u64::MAX,
    ensures
        final(basket).wf(),
        match r {
            Ok(ev) => {
                &&& finalize_gate(
                        proposal.yes_votes,
                        proposal.no_votes,
                        proposal.snapshot_supply,
                        proposal.quorum_percentage,
                        proposal.expiration,
                        now,
                    ) is None
                &&& final(basket).eligible_assets@ == proposal.proposed_assets@
                &&& final(basket).threshold == old(basket).threshold
                &&& final(basket).strategy == old(basket).strategy
                &&& final(basket).last_rebalance_ts == old(basket).last_rebalance_ts
                &&& old(basket).same_identity_and_constants(*final(basket))
                &&& ev == (ProposalFinalized {
                        basket: proposal.basket,
                        kind: ProposalType::Assets,
                        approved: true,
                    })
            },
            Err(e) => {
                &&& finalize_gate(
                        proposal.yes_votes,
                        proposal.no_votes,
                        proposal.snapshot_supply,
                        proposal.quorum_percentage,
                        proposal.expiration,
                        now,
                    ) == Some(e)
                &&& *final(basket) == *old(basket)
            },
        },
{
    if now > proposal.expiration {
        return Err(ErrorCode::ProposalExpired);
    }
    let total_votes = proposal.yes_votes + proposal.no_votes;
    let quorum_floor = proposal.snapshot_supply * (proposal.quorum_percentage as u64);
    if total_votes * 100 < quorum_floor {
        return Err(ErrorCode::QuorumNotReached);
    }
    if proposal.yes_votes <= proposal.no_votes {
        return Err(ErrorCode::NotApproved);
    }
    basket.eligible_assets = copy_accounts(&proposal.proposed_assets);
    Ok(ProposalFinalized {
        basket: proposal.basket,
        kind: ProposalType::Assets,
        approved: true,
    })
}

/// Copies an address list element by element.
fn copy_accounts(list: &Vec<AccountId>) -> (r: Vec<AccountId>)
    ensures
        r@ == list@,
{
    let mut out: Vec<AccountId> = Vec::new();
    let mut i: usize = 0;
    while i < list.len()
        invariant
            0 <= i <= list@.len(),
            out@ == list@.subrange(0, i as int),
        decreases list@.len() - i,
    {
        out.push(list[i]);
        i = i + 1;
    }
    assert(out@ == list@.subrange(0, list@.len() as int));
    assert(list@.subrange(0, list@.len() as int) == list@);
    out
}

} // verus!
