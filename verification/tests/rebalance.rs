use rebalancing_execution::AccountId;
use rebalancing_execution::BasketConfig;
use rebalancing_execution::ErrorCode;
use rebalancing_execution::execute_rebalance;
use rebalancing_execution::initialize_basket;
use rebalancing_execution::rebalance_reward;

fn acct(n: u64) -> AccountId {
    AccountId::new(n, 0, 0, 0)
}

fn incentive_basket(cooldown_seconds: u64) -> BasketConfig {
    initialize_basket(
        acct(1),
        String::from("core basket"),
        String::from("governed pool"),
        acct(2),
        10,
        1,
        vec![acct(100)],
        50,
        cooldown_seconds,
        100,
        5000,
        2,
        250,
        251,
    )
}

#[test]
fn initialize_basket_sets_every_field() {
    let b = incentive_basket(3600);
    assert_eq!(b.initializer, acct(1));
    assert_eq!(b.name, "core basket");
    assert_eq!(b.description, "governed pool");
    assert_eq!(b.rebal_mint, acct(2));
    assert_eq!(b.threshold, 10);
    assert_eq!(b.strategy, 1);
    assert_eq!(b.eligible_assets, vec![acct(100)]);
    assert_eq!(b.quorum_percentage, 50);
    assert_eq!(b.cooldown_seconds, 3600);
    assert_eq!(b.base_reward, 100);
    assert_eq!(b.lamports_reward, 5000);
    assert_eq!(b.slash_factor, 2);
    assert_eq!(b.last_rebalance_ts, 0);
    assert!(b.whitelist.is_empty());
    assert_eq!(b.mint_auth_bump, 250);
    assert_eq!(b.fee_vault_bump, 251);
}

#[test]
fn reward_scales_linearly_below_threshold() {
    // base 100, threshold 10, deviation 5: 100 * 5 / 10 = 50
    assert_eq!(rebalance_reward(100, 10, 2, 5), 50);
}

#[test]
fn reward_is_slashed_above_threshold() {
    // base 100, threshold 10, deviation 20: 100 * 20 / 10 = 200, slashed by 2 = 100
    assert_eq!(rebalance_reward(100, 10, 2, 20), 100);
}

#[test]
fn reward_at_exact_threshold_is_not_slashed() {
    assert_eq!(rebalance_reward(100, 10, 2, 10), 100);
}

#[test]
fn reward_division_truncates() {
    // 10 * 2 / 3 = 6 (truncating)
    assert_eq!(rebalance_reward(10, 3, 2, 2), 6);
    // slashed: 7 * 5 / 3 = 11, 11 / 2 = 5
    assert_eq!(rebalance_reward(7, 3, 2, 5), 5);
}

#[test]
fn reward_zero_deviation_pays_nothing() {
    assert_eq!(rebalance_reward(100, 10, 2, 0), 0);
}

#[test]
fn first_call_bootstraps_regardless_of_cooldown() {
    let mut b = incentive_basket(1_000_000);
    let now = 1_700_000_000;
    let ev = execute_rebalance(&mut b, acct(3), now, acct(9), 5).unwrap();
    assert_eq!(ev.basket, acct(3));
    assert_eq!(ev.bot, acct(9));
    assert_eq!(ev.token_reward, 50);
    assert_eq!(ev.lamport_reward, 5000);
    assert_eq!(ev.timestamp, now);
    assert_eq!(b.last_rebalance_ts, now);
}

#[test]
fn cooldown_blocks_until_exactly_elapsed() {
    let mut b = incentive_basket(3600);
    let t = 1_700_000_000;
    execute_rebalance(&mut b, acct(3), t, acct(9), 5).unwrap();
    let r = execute_rebalance(&mut b, acct(3), t + 3599, acct(9), 5);
    assert_eq!(r.unwrap_err(), ErrorCode::CooldownActive);
    assert_eq!(b.last_rebalance_ts, t);
    let ev = execute_rebalance(&mut b, acct(3), t + 3600, acct(9), 5).unwrap();
    assert_eq!(ev.timestamp, t + 3600);
    assert_eq!(b.last_rebalance_ts, t + 3600);
}

#[test]
fn failed_execute_leaves_basket_untouched() {
    let mut b = incentive_basket(3600);
    let t = 1_700_000_000;
    execute_rebalance(&mut b, acct(3), t, acct(9), 5).unwrap();
    let threshold = b.threshold;
    let assets = b.eligible_assets.clone();
    let r = execute_rebalance(&mut b, acct(3), t + 10, acct(9), 5);
    assert_eq!(r.unwrap_err(), ErrorCode::CooldownActive);
    assert_eq!(b.last_rebalance_ts, t);
    assert_eq!(b.threshold, threshold);
    assert_eq!(b.eligible_assets, assets);
}

#[test]
fn empty_whitelist_admits_any_executor() {
    let mut b = incentive_basket(60);
    execute_rebalance(&mut b, acct(3), 1_700_000_000, acct(42), 5).unwrap();
}

#[test]
fn whitelist_blocks_unlisted_executor() {
    let mut b = incentive_basket(60);
    b.whitelist.push(acct(7));
    let r = execute_rebalance(&mut b, acct(3), 1_700_000_000, acct(42), 5);
    assert_eq!(r.unwrap_err(), ErrorCode::NotWhitelisted);
    assert_eq!(b.last_rebalance_ts, 0);
}

#[test]
fn whitelist_admits_member() {
    let mut b = incentive_basket(60);
    b.whitelist.push(acct(7));
    b.whitelist.push(acct(8));
    let ev = execute_rebalance(&mut b, acct(3), 1_700_000_000, acct(8), 5).unwrap();
    assert_eq!(ev.bot, acct(8));
}

#[test]
fn cooldown_is_checked_before_whitelist() {
    let mut b = incentive_basket(3600);
    b.whitelist.push(acct(7));
    let t = 1_700_000_000;
    execute_rebalance(&mut b, acct(3), t, acct(7), 5).unwrap();
    // both gates would fail; the cooldown error wins
    let r = execute_rebalance(&mut b, acct(3), t + 10, acct(42), 5);
    assert_eq!(r.unwrap_err(), ErrorCode::CooldownActive);
}
