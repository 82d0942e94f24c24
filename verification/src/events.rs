use vstd::prelude::*;
use crate::account::AccountId;
use crate::proposal::ProposalType;

verus! {

/// Notice of a new proposal.  Events are returned to the caller, who appends
/// them to whatever log the deployment keeps; nothing here depends on that
/// log succeeding.
#[derive(Clone, Copy, PartialEq, Eq, Structural, Debug)]
pub struct ProposalCreated {
    pub basket: AccountId,
    pub kind: ProposalType,
    pub proposer: AccountId,
    pub expiration: i64,
}

/// Notice of one accepted vote: `weight` governance tokens were locked in
/// escrow and counted on the `accept` side of the tally.
#[derive(Clone, Copy, PartialEq, Eq, Structural, Debug)]
pub struct Voted {
    pub basket: AccountId,
    pub kind: ProposalType,
    pub voter: AccountId,
    pub weight: u64,
    pub accept: bool,
}

/// Notice that a proposal passed and the basket was mutated.  Failed
/// finalization attempts abort with an error and emit nothing.
#[derive(Clone, Copy, PartialEq, Eq, Structural, Debug)]
pub struct ProposalFinalized {
    pub basket: AccountId,
    pub kind: ProposalType,
    pub approved: bool,
}

/// Notice of a paid rebalance: the executor is owed `token_reward` freshly
/// minted governance tokens and `lamport_reward` native currency from the
/// basket's treasury.
#[derive(Clone, Copy, PartialEq, Eq, Structural, Debug)]
pub struct RebalanceExecuted {
    pub basket: AccountId,
    pub bot: AccountId,
    pub token_reward: u64,
    pub lamport_reward: u64,
    pub timestamp: i64,
}

} // verus!
