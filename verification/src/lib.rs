//! Token-weighted governance for a shared asset basket.
//!
//! A basket's rebalancing parameters (deviation threshold, strategy tag,
//! eligible asset list) change only through proposals that stakers vote on,
//! weighted by the governance-token balance they lock into escrow.  A
//! proposal is finalized before its expiry once quorum and a strict majority
//! are reached, mutating the basket.  Independently, an authorized executor
//! is paid a deviation-scaled, slash-adjusted reward for rebalancing the
//! basket, gated by a cooldown.
//!
//! The ledger work around these decisions (token transfers, minting, the
//! clock, account storage) is an external collaborator: callers read those
//! plain values from it and hand them in, and perform the transfers that the
//! returned values call for.

pub mod account;
pub mod basket;
pub mod errors;
pub mod events;
pub mod laws;
pub mod proposal;

pub use account::AccountId;
pub use account::contains_account;
pub use basket::BasketConfig;
pub use basket::cooldown_passed;
pub use basket::execute_gate;
pub use basket::execute_rebalance;
pub use basket::executor_allowed;
pub use basket::initialize_basket;
pub use basket::reward_amount;
pub use basket::rebalance_reward;
pub use errors::ErrorCode;
pub use events::ProposalCreated;
pub use events::ProposalFinalized;
pub use events::RebalanceExecuted;
pub use events::Voted;
pub use proposal::AssetsProposal;
pub use proposal::ProposalType;
pub use proposal::StrategyProposal;
pub use proposal::ThresholdProposal;
pub use proposal::finalize_assets;
pub use proposal::finalize_gate;
pub use proposal::finalize_strategy;
pub use proposal::finalize_threshold;
pub use proposal::propose_assets;
pub use proposal::propose_strategy;
pub use proposal::propose_threshold;
pub use proposal::quorum_reached;
pub use proposal::tally_updated;
pub use proposal::vote_assets;
pub use proposal::vote_gate;
pub use proposal::vote_strategy;
pub use proposal::vote_threshold;
