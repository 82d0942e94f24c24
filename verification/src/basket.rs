use vstd::prelude::*;
use crate::account::AccountId;
use crate::account::contains_account;
use crate::errors::ErrorCode;
use crate::events::RebalanceExecuted;

verus! {

/// The governed configuration of one asset basket.
///
/// `threshold`, `strategy` and `eligible_assets` change only through
/// finalized proposals; the remaining fields are fixed at initialization.
/// `last_rebalance_ts` is 0 until the first paid rebalance.
#[derive(Clone, Debug)]
pub struct BasketConfig {
    pub initializer: AccountId,
    pub name: String,
    pub description: String,
    pub rebal_mint: AccountId,
    pub threshold: u64,
    pub strategy: u8,
    pub eligible_assets: Vec<AccountId>,
    pub quorum_percentage: u8,
    pub cooldown_seconds: u64,
    pub base_reward: u64,
    pub lamports_reward: u64,
    pub slash_factor: u64,
    pub last_rebalance_ts: i64,
    pub whitelist: Vec<AccountId>,
    pub mint_auth_bump: u8,
    pub fee_vault_bump: u8,
}

impl BasketConfig {
    /// The basket invariant: the reward formula divides by `threshold`, so it
    /// must stay positive, and the quorum is a percentage.
    pub open spec fn wf(&self) -> bool {
        &&& self.threshold >= 1
        &&& self.quorum_percentage <= 100
    }

    /// The fields that neither governance nor rebalancing ever touches.
    pub open spec fn same_identity_and_constants(self, post: Self) -> bool {
        &&& post.initializer == self.initializer
        &&& post.name == self.name
        &&& post.description == self.description
        &&& post.rebal_mint == self.rebal_mint
        &&& post.quorum_percentage == self.quorum_percentage
        &&& post.cooldown_seconds == self.cooldown_seconds
        &&& post.base_reward == self.base_reward
        &&& post.lamports_reward == self.lamports_reward
        &&& post.slash_factor == self.slash_factor
        &&& post.whitelist == self.whitelist
        &&& post.mint_auth_bump == self.mint_auth_bump
        &&& post.fee_vault_bump == self.fee_vault_bump
    }
}

/// Builds the configuration of a fresh basket.  The caller allocates the
/// record on the ledger and stores this value in it.
pub fn initialize_basket(
    authority: AccountId,
    name: String,
    description: String,
    rebal_mint: AccountId,
    initial_threshold: u64,
    initial_strategy: u8,
    initial_assets: Vec<AccountId>,
    quorum_percentage: u8,
    cooldown_seconds: u64,
    base_reward: u64,
    lamports_reward: u64,
    slash_factor: u64,
    mint_auth_bump: u8,
    fee_vault_bump: u8,
) -> (r: BasketConfig)
    requires
        initial_threshold >= 1,
        quorum_percentage <= 100,
    ensures
        r.initializer == authority,
        r.name == name,
        r.description == description,
        r.rebal_mint == rebal_mint,
        r.threshold == initial_threshold,
        r.strategy == initial_strategy,
        r.eligible_assets == initial_assets,
        r.quorum_percentage == quorum_percentage,
        r.cooldown_seconds == cooldown_seconds,
        r.base_reward == base_reward,
        r.lamports_reward == lamports_reward,
        r.slash_factor == slash_factor,
        r.last_rebalance_ts == 0,
        r.whitelist@.len() == 0,
        r.mint_auth_bump == mint_auth_bump,
        r.fee_vault_bump == fee_vault_bump,
        r.wf(),
{
    BasketConfig {
        initializer: authority,
        name,
        description,
        rebal_mint,
        threshold: initial_threshold,
        strategy: initial_strategy,
        eligible_assets: initial_assets,
        quorum_percentage,
        cooldown_seconds,
        base_reward,
        lamports_reward,
        slash_factor,
        last_rebalance_ts: 0,
        whitelist: Vec::new(),
        mint_auth_bump,
        fee_vault_bump,
    }
}

/// The cooldown gate: enough wall-clock time has passed since the last paid
/// rebalance.  With `last_rebalance_ts == 0` ("never"), any `now` at or past
/// `cooldown_seconds` passes, so a fresh basket is immediately eligible.
pub open spec fn cooldown_passed(last_rebalance_ts: i64, cooldown_seconds: u64, now: i64) -> bool {
    now - last_rebalance_ts >= cooldown_seconds
}

/// The whitelist gate: an empty whitelist admits every executor.
pub open spec fn executor_allowed(whitelist: Seq<AccountId>, executor: AccountId) -> bool {
    whitelist.len() == 0 || whitelist.contains(executor)
}

/// Why a rebalance call is refused, checked in this order: cooldown, then
/// whitelist.  `None` means the call goes through.
pub open spec fn execute_gate(basket: BasketConfig, now: i64, executor: AccountId) -> Option<ErrorCode> {
    if !cooldown_passed(basket.last_rebalance_ts, basket.cooldown_seconds, now) {
        Some(ErrorCode::CooldownActive)
    } else if !executor_allowed(basket.whitelist@, executor) {
        Some(ErrorCode::NotWhitelisted)
    } else {
        None
    }
}

/// The executor's token reward: linear in the observed deviation, divided by
/// `slash_factor` once the deviation exceeds the governed threshold.
pub open spec fn reward_amount(base_reward: u64, threshold: u64, slash_factor: u64, current_deviation: u64) -> int {
    if current_deviation > threshold {
        (base_reward * current_deviation / (threshold as int)) / (slash_factor as int)
    } else {
        base_reward * current_deviation / (threshold as int)
    }
}

/// Computes the reward that a rebalance at `current_deviation` earns.
pub fn rebalance_reward(base_reward: u64, threshold: u64, slash_factor: u64, current_deviation: u64) -> (r: u64)
    requires
        threshold >= 1,
        base_reward * current_deviation <= u64::MAX,
        current_deviation > threshold ==> slash_factor >= 1,
    ensures
        r == reward_amount(base_reward, threshold, slash_factor, current_deviation),
{
    let scaled = base_reward * current_deviation;
    let reward = scaled / threshold;
    if current_deviation > threshold {
        reward / slash_factor
    } else {
        reward
    }
}

/// Settles one paid rebalance: checks the cooldown and the whitelist,
/// computes the reward, and starts the next cooldown at `now`.
///
/// The caller performs the two transfers the returned event calls for (mint
/// `token_reward` to the executor, disburse `lamport_reward` from the
/// treasury) and commits the updated basket only if both succeed, so a
/// failed transfer never starts the cooldown clock.
pub fn execute_rebalance(
    basket: &mut BasketConfig,
    basket_key: AccountId,
    now: i64,
    executor: AccountId,
    current_deviation: u64,
) -> (r: Result<RebalanceExecuted, ErrorCode>)
    requires
        old(basket).wf(),
        i64::MIN <= now - old(basket).last_rebalance_ts <= i64::MAX,
        execute_gate(*old(basket), now, executor) is None ==>
            old(basket).base_reward * current_deviation <= u64::MAX,
        (execute_gate(*old(basket), now, executor) is None
            && current_deviation > old(basket).threshold) ==> old(basket).slash_factor >= 1,
    ensures
        final(basket).wf(),
        match r {
            Ok(ev) => {
                &&& execute_gate(*old(basket), now, executor) is None
                &&& old(basket).same_identity_and_constants(*final(basket))
                &&& final(basket).threshold == old(basket).threshold
                &&& final(basket).strategy == old(basket).strategy
                &&& final(basket).eligible_assets == old(basket).eligible_assets
                &&& final(basket).last_rebalance_ts == now
                &&& ev.basket == basket_key
                &&& ev.bot == executor
                &&& ev.token_reward == reward_amount(
                        old(basket).base_reward,
                        old(basket).threshold,
                        old(basket).slash_factor,
                        current_deviation,
                    )
                &&& ev.lamport_reward == old(basket).lamports_reward
                &&& ev.timestamp == now
            },
            Err(e) => {
                &&& execute_gate(*old(basket), now, executor) == Some(e)
                &&& *final(basket) == *old(basket)
            },
        },
{
    let elapsed = now - basket.last_rebalance_ts;
    if elapsed < 0 || (elapsed as u64) < basket.cooldown_seconds {
        return Err(ErrorCode::CooldownActive);
    }
    if basket.whitelist.len() > 0 && !contains_account(&basket.whitelist, executor) {
        return Err(ErrorCode::NotWhitelisted);
    }
    let reward = rebalance_reward(
        basket.base_reward,
        basket.threshold,
        basket.slash_factor,
        current_deviation,
    );
    basket.last_rebalance_ts = now;
    Ok(RebalanceExecuted {
        basket: basket_key,
        bot: executor,
        token_reward: reward,
        lamport_reward: basket.lamports_reward,
        timestamp: now,
    })
}

} // verus!
