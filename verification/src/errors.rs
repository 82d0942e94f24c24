use vstd::prelude::*;

verus! {

/// Why a governance or rebalancing call was refused.  Every refusal leaves
/// the basket and the proposal exactly as they were.
#[derive(Clone, Copy, PartialEq, Eq, Structural, Debug)]
pub enum ErrorCode {
    /// The proposal did not receive strictly more yes than no weight.
    NotApproved,
    /// The voting window has closed; neither voting nor finalization runs.
    ProposalExpired,
    /// Participating weight fell short of the quorum fraction of the
    /// snapshot supply.
    QuorumNotReached,
    /// The staker already voted on this proposal.
    AlreadyVoted,
    /// Not enough time has passed since the last rebalance.
    CooldownActive,
    /// The whitelist is non-empty and the executor is not on it.
    NotWhitelisted,
    /// The proposal does not belong to the named basket.
    BadBasket,
}

} // verus!
