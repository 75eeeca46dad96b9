use spl_staking::funders::{authorize_funder, deauthorize_funder};
use spl_staking::pool::{
    close_user, create_user, fund, fund_staking, initialize, pause, unpause, withdraw, Initialize,
    VaultInfo,
};
use spl_staking::reward::{accrue, accrue_if_present};
use spl_staking::staking::{claim_rewards, stake, unstake, ClaimRewards, Stake, Unstake};
use spl_staking::state::{
    pool_signer, CustomError, PoolSigner, Pubkey, StakingAccount, TokenTransfer,
    TransferAuthority, UserStake, LOCKUP_PERIOD, RECOMPUTE_THRESHOLD, SECONDS_PER_DAY,
    SECONDS_PER_YEAR,
};
use spl_staking::teardown::{close_pool, ClosePool, VaultAction};

fn key(n: u64) -> Pubkey {
    Pubkey::new(n, 0, 0, 0)
}

const AUTHORITY: u64 = 1;
const SIGNER: u64 = 2;
const POOL: u64 = 3;
const OWNER: u64 = 4;

fn init_ctx() -> Initialize {
    Initialize {
        authority: key(AUTHORITY),
        signer: key(AUTHORITY),
        pool_signer: key(SIGNER),
        staking_mint: key(10),
        staking_vault: VaultInfo { key: key(11), owner: key(SIGNER), close_authority: None },
        reward_mint: key(12),
        reward_vault: VaultInfo { key: key(13), owner: key(SIGNER), close_authority: None },
    }
}

fn new_pool() -> StakingAccount {
    initialize(&init_ctx(), 7).unwrap()
}

fn user_at(balance: u64, t: u64) -> UserStake {
    UserStake {
        pool: key(POOL),
        owner: key(OWNER),
        balance_staked: balance,
        pending_reward_primary: 0,
        pending_reward_secondary: 0,
        reward_rate_primary: 0,
        reward_rate_secondary: 0,
        last_update_time: t,
        stake_time: t,
        nonce: 0,
    }
}

fn stake_ctx(pool: StakingAccount, user: UserStake, now: u64) -> Stake {
    Stake { staking_account: pool, user_stake: user, owner: key(OWNER), stake_from_account: key(20), now }
}

fn unstake_ctx(pool: StakingAccount, user: UserStake, now: u64) -> Unstake {
    Unstake { staking_account: pool, pool: key(POOL), user_stake: user, stake_to_account: key(20), now }
}

fn claim_ctx(pool: StakingAccount, user: UserStake, staking_amt: u64, reward_amt: u64, now: u64) -> ClaimRewards {
    ClaimRewards {
        staking_account: pool,
        pool: key(POOL),
        user_stake: user,
        staking_vault_amount: staking_amt,
        reward_vault_amount: reward_amt,
        primary_to_account: key(20),
        reward_to_account: key(21),
        now,
    }
}

fn vault_signer() -> TransferAuthority {
    TransferAuthority::Pool(PoolSigner { pool: key(POOL), nonce: 7 })
}

#[test]
fn initialize_creates_active_empty_pool() {
    let p = new_pool();
    assert_eq!(p.authority, key(AUTHORITY));
    assert_eq!(p.nonce, 7);
    assert!(!p.paused);
    assert_eq!(p.staking_vault, key(11));
    assert_eq!(p.reward_vault, key(13));
    assert_eq!(p.user_count, 0);
    assert_eq!(p.funders, vec![None; 5]);
}

#[test]
fn initialize_rejects_wrong_signer() {
    let mut c = init_ctx();
    c.signer = key(99);
    assert_eq!(initialize(&c, 7).unwrap_err(), CustomError::Unauthorized);
}

#[test]
fn initialize_rejects_foreign_vault_owner() {
    let mut c = init_ctx();
    c.reward_vault.owner = key(99);
    assert_eq!(initialize(&c, 7).unwrap_err(), CustomError::InvalidVaultOwner);
}

#[test]
fn initialize_rejects_vault_with_close_authority() {
    let mut c = init_ctx();
    c.staking_vault.close_authority = Some(key(99));
    assert_eq!(initialize(&c, 7).unwrap_err(), CustomError::VaultHasCloseAuthority);
}

#[test]
fn create_user_zeroes_record_and_counts() {
    let mut p = new_pool();
    let u = create_user(&mut p, key(POOL), key(OWNER), 0, 500).unwrap();
    assert_eq!(u, user_at(0, 500));
    assert_eq!(p.user_count, 1);
}

#[test]
fn create_user_refused_while_paused() {
    let mut p = new_pool();
    pause(&mut p, key(AUTHORITY)).unwrap();
    assert_eq!(create_user(&mut p, key(POOL), key(OWNER), 0, 5).unwrap_err(), CustomError::PoolPaused);
    assert_eq!(p.user_count, 0);
}

#[test]
fn pause_and_unpause_check_state_and_authority() {
    let mut p = new_pool();
    assert_eq!(pause(&mut p, key(99)).unwrap_err(), CustomError::Unauthorized);
    assert_eq!(unpause(&mut p, key(AUTHORITY)).unwrap_err(), CustomError::PoolNotPaused);
    pause(&mut p, key(AUTHORITY)).unwrap();
    assert!(p.paused);
    assert_eq!(pause(&mut p, key(AUTHORITY)).unwrap_err(), CustomError::PoolPaused);
    assert_eq!(unpause(&mut p, key(99)).unwrap_err(), CustomError::Unauthorized);
    unpause(&mut p, key(AUTHORITY)).unwrap();
    assert!(!p.paused);
}

#[test]
fn accrue_above_threshold_earns_and_recomputes() {
    let mut u = user_at(RECOMPUTE_THRESHOLD + 1, 100);
    u.reward_rate_secondary = 3;
    u.pending_reward_secondary = 5;
    accrue(&mut u, 110).unwrap();
    assert_eq!(u.pending_reward_secondary, 35);
    assert_eq!(u.reward_rate_secondary, (RECOMPUTE_THRESHOLD + 1) / SECONDS_PER_YEAR);
    assert_eq!(u.reward_rate_secondary, 34_880);
    assert_eq!(u.last_update_time, 110);
    assert_eq!(u.pending_reward_primary, 0);
}

#[test]
fn accrue_at_threshold_changes_nothing() {
    let mut u = user_at(RECOMPUTE_THRESHOLD, 100);
    u.reward_rate_secondary = 3;
    let before = u;
    accrue(&mut u, 1_000_000).unwrap();
    assert_eq!(u, before);
}

#[test]
fn accrue_overflow_is_refused_unchanged() {
    let mut u = user_at(u64::MAX, 0);
    u.reward_rate_secondary = u64::MAX;
    let before = u;
    assert_eq!(accrue(&mut u, 2).unwrap_err(), CustomError::MathOverflow);
    assert_eq!(u, before);
}

#[test]
fn accrue_absent_record_is_noop() {
    let mut none: Option<UserStake> = None;
    accrue_if_present(&mut none, 10).unwrap();
    assert_eq!(none, None);
    let mut some = Some(user_at(RECOMPUTE_THRESHOLD + 1, 0));
    accrue_if_present(&mut some, 10).unwrap();
    assert_eq!(some.unwrap().last_update_time, 10);
}

#[test]
fn stake_adds_balance_and_returns_deposit_transfer() {
    let mut c = stake_ctx(new_pool(), user_at(0, 100), 200);
    let t = stake(&mut c, 1000).unwrap();
    assert_eq!(t, TokenTransfer { from: key(20), to: key(11), authority: TransferAuthority::Holder(key(OWNER)), amount: 1000 });
    assert_eq!(c.user_stake.balance_staked, 1000);
    assert_eq!(c.user_stake.stake_time, 200);
    assert_eq!(c.user_stake.last_update_time, 100);
}

#[test]
fn stake_rejects_zero_and_paused() {
    let mut c = stake_ctx(new_pool(), user_at(0, 100), 200);
    assert_eq!(stake(&mut c, 0).unwrap_err(), CustomError::AmountMustBeGreaterThanZero);
    c.staking_account.paused = true;
    assert_eq!(stake(&mut c, 5).unwrap_err(), CustomError::PoolPaused);
    assert_eq!(c.user_stake, user_at(0, 100));
}

#[test]
fn stake_overflow_is_refused() {
    let mut c = stake_ctx(new_pool(), user_at(u64::MAX, 100), 200);
    assert_eq!(stake(&mut c, 1).unwrap_err(), CustomError::MathOverflow);
    assert_eq!(c.user_stake.balance_staked, u64::MAX);
}

#[test]
fn stake_accrues_old_rate_then_rates_new_balance() {
    let mut u = user_at(RECOMPUTE_THRESHOLD, 100);
    u.reward_rate_secondary = 2;
    let mut c = stake_ctx(new_pool(), u, 150);
    stake(&mut c, SECONDS_PER_YEAR).unwrap();
    assert_eq!(c.user_stake.pending_reward_secondary, 100);
    assert_eq!(c.user_stake.reward_rate_secondary, (RECOMPUTE_THRESHOLD + SECONDS_PER_YEAR) / SECONDS_PER_YEAR);
    assert_eq!(c.user_stake.last_update_time, 150);
}

#[test]
fn balance_tracks_stakes_minus_unstakes() {
    let pool = new_pool();
    let mut c = stake_ctx(pool.clone(), user_at(0, 0), 0);
    stake(&mut c, 700).unwrap();
    stake(&mut c, 300).unwrap();
    let mut u = unstake_ctx(pool, c.user_stake, LOCKUP_PERIOD);
    unstake(&mut u, 400).unwrap();
    assert_eq!(u.user_stake.balance_staked, 600);
    let before = u.user_stake;
    assert_eq!(unstake(&mut u, 601).unwrap_err(), CustomError::InsufficientFundUnstake);
    assert_eq!(u.user_stake, before);
    unstake(&mut u, 600).unwrap();
    assert_eq!(u.user_stake.balance_staked, 0);
}

#[test]
fn unstake_lockup_is_boundary_inclusive() {
    let mut u = unstake_ctx(new_pool(), user_at(50, 1000), 1000 + LOCKUP_PERIOD - 1);
    assert_eq!(unstake(&mut u, 50).unwrap_err(), CustomError::NotEnoughUnstakePeriod);
    assert_eq!(u.user_stake.balance_staked, 50);
    u.now = 1000 + LOCKUP_PERIOD;
    let t = unstake(&mut u, 50).unwrap();
    assert_eq!(t, TokenTransfer { from: key(11), to: key(20), authority: vault_signer(), amount: 50 });
    assert_eq!(u.user_stake.balance_staked, 0);
}

#[test]
fn unstake_rejects_zero_amount() {
    let mut u = unstake_ctx(new_pool(), user_at(50, 0), LOCKUP_PERIOD);
    assert_eq!(unstake(&mut u, 0).unwrap_err(), CustomError::AmountMustBeGreaterThanZero);
}

#[test]
fn restake_resets_lockup_clock() {
    let pool = new_pool();
    let mut c = stake_ctx(pool.clone(), user_at(0, 0), 0);
    stake(&mut c, 100).unwrap();
    c.now = 20 * SECONDS_PER_DAY;
    stake(&mut c, 100).unwrap();
    assert_eq!(c.user_stake.stake_time, 20 * SECONDS_PER_DAY);
    let mut u = unstake_ctx(pool, c.user_stake, 31 * SECONDS_PER_DAY);
    assert_eq!(unstake(&mut u, 100).unwrap_err(), CustomError::NotEnoughUnstakePeriod);
    u.now = 50 * SECONDS_PER_DAY;
    unstake(&mut u, 100).unwrap();
    assert_eq!(u.user_stake.balance_staked, 100);
}

#[test]
fn threshold_users_diverge() {
    let pool = new_pool();
    let mut small = stake_ctx(pool.clone(), user_at(0, 0), 0);
    let mut large = stake_ctx(pool, user_at(0, 0), 0);
    stake(&mut small, RECOMPUTE_THRESHOLD).unwrap();
    stake(&mut large, RECOMPUTE_THRESHOLD + 1).unwrap();
    small.now = 1000;
    large.now = 1000;
    stake(&mut small, 0).unwrap_err();
    let mut cs = claim_ctx(small.staking_account.clone(), small.user_stake, 0, 0, 5000);
    let mut cl = claim_ctx(large.staking_account.clone(), large.user_stake, 0, 0, 5000);
    claim_rewards(&mut cs).unwrap();
    claim_rewards(&mut cl).unwrap();
    assert_eq!(cs.user_stake.last_update_time, 0);
    assert_eq!(cs.user_stake.reward_rate_secondary, 0);
    assert_eq!(cl.user_stake.last_update_time, 5000);
    assert_eq!(cl.user_stake.reward_rate_secondary, (RECOMPUTE_THRESHOLD + 1) / SECONDS_PER_YEAR);
}

#[test]
fn claim_clamps_to_vault_and_forfeits_rest() {
    let mut u = user_at(10, 0);
    u.pending_reward_secondary = 1000;
    let mut c = claim_ctx(new_pool(), u, 0, 600, 100);
    let out = claim_rewards(&mut c).unwrap();
    assert_eq!(out, vec![TokenTransfer { from: key(13), to: key(21), authority: vault_signer(), amount: 600 }]);
    assert_eq!(c.user_stake.pending_reward_secondary, 0);
    let again = claim_rewards(&mut c).unwrap();
    assert!(again.is_empty());
}

#[test]
fn claim_pays_both_tracks_in_order() {
    let mut u = user_at(10, 0);
    u.pending_reward_primary = 30;
    u.pending_reward_secondary = 40;
    let mut c = claim_ctx(new_pool(), u, 100, 100, 0);
    let out = claim_rewards(&mut c).unwrap();
    assert_eq!(
        out,
        vec![
            TokenTransfer { from: key(11), to: key(20), authority: vault_signer(), amount: 30 },
            TokenTransfer { from: key(13), to: key(21), authority: vault_signer(), amount: 40 },
        ]
    );
    assert_eq!(c.user_stake.pending_reward_primary, 0);
}

#[test]
fn claim_with_empty_vault_zeroes_without_transfer() {
    let mut u = user_at(10, 0);
    u.pending_reward_secondary = 9;
    let mut c = claim_ctx(new_pool(), u, 0, 0, 0);
    assert!(claim_rewards(&mut c).unwrap().is_empty());
    assert_eq!(c.user_stake.pending_reward_secondary, 0);
}

#[test]
fn claim_overflow_is_refused_unchanged() {
    let mut u = user_at(u64::MAX, 0);
    u.reward_rate_secondary = u64::MAX;
    let mut c = claim_ctx(new_pool(), u, 0, 0, 5);
    assert_eq!(claim_rewards(&mut c).unwrap_err(), CustomError::MathOverflow);
    assert_eq!(c.user_stake, u);
}

#[test]
fn authorize_funder_fills_first_empty_slot() {
    let mut p = new_pool();
    authorize_funder(&mut p, key(AUTHORITY), key(50)).unwrap();
    assert_eq!(p.funders[0], Some(key(50)));
    authorize_funder(&mut p, key(AUTHORITY), key(51)).unwrap();
    deauthorize_funder(&mut p, key(AUTHORITY), key(50)).unwrap();
    assert_eq!(p.funders, vec![None, Some(key(51)), None, None, None]);
    authorize_funder(&mut p, key(AUTHORITY), key(52)).unwrap();
    assert_eq!(p.funders[0], Some(key(52)));
}

#[test]
fn authorize_funder_rejections() {
    let mut p = new_pool();
    assert_eq!(authorize_funder(&mut p, key(99), key(50)).unwrap_err(), CustomError::Unauthorized);
    assert_eq!(authorize_funder(&mut p, key(AUTHORITY), key(AUTHORITY)).unwrap_err(), CustomError::CannotAuthorizePoolAuthority);
    authorize_funder(&mut p, key(AUTHORITY), key(50)).unwrap();
    assert_eq!(authorize_funder(&mut p, key(AUTHORITY), key(50)).unwrap_err(), CustomError::FunderAlreadyAuthorized);
}

#[test]
fn authorize_funder_rejects_when_all_slots_full() {
    let mut p = new_pool();
    for n in 50..55 {
        authorize_funder(&mut p, key(AUTHORITY), key(n)).unwrap();
    }
    let before = p.funders.clone();
    assert_eq!(authorize_funder(&mut p, key(AUTHORITY), key(60)).unwrap_err(), CustomError::MaxFunders);
    assert_eq!(p.funders, before);
}

#[test]
fn deauthorize_funder_rejections() {
    let mut p = new_pool();
    assert_eq!(deauthorize_funder(&mut p, key(99), key(50)).unwrap_err(), CustomError::Unauthorized);
    assert_eq!(deauthorize_funder(&mut p, key(AUTHORITY), key(AUTHORITY)).unwrap_err(), CustomError::CannotDeauthorizePoolAuthority);
    assert_eq!(deauthorize_funder(&mut p, key(AUTHORITY), key(50)).unwrap_err(), CustomError::CannotDeauthorizeMissingAuthority);
}

#[test]
fn funding_by_authority_and_funders() {
    let mut p = new_pool();
    authorize_funder(&mut p, key(AUTHORITY), key(50)).unwrap();
    assert_eq!(
        fund(&p, key(50), key(30), 8).unwrap(),
        Some(TokenTransfer { from: key(30), to: key(13), authority: TransferAuthority::Holder(key(50)), amount: 8 })
    );
    assert_eq!(
        fund_staking(&p, key(AUTHORITY), key(31), 9).unwrap(),
        Some(TokenTransfer { from: key(31), to: key(11), authority: TransferAuthority::Holder(key(AUTHORITY)), amount: 9 })
    );
    assert_eq!(fund(&p, key(50), key(30), 0).unwrap(), None);
    assert_eq!(fund(&p, key(77), key(30), 8).unwrap_err(), CustomError::InvalidFunder);
    pause(&mut p, key(AUTHORITY)).unwrap();
    assert_eq!(fund_staking(&p, key(50), key(30), 8).unwrap_err(), CustomError::PoolPaused);
}

#[test]
fn withdraw_moves_out_of_staking_vault() {
    let p = new_pool();
    let t = withdraw(&p, key(POOL), key(40), 12);
    assert_eq!(t, TokenTransfer { from: key(11), to: key(40), authority: vault_signer(), amount: 12 });
    assert_eq!(pool_signer(key(POOL), 7), PoolSigner { pool: key(POOL), nonce: 7 });
}

#[test]
fn close_user_requires_empty_record() {
    let mut p = new_pool();
    let u = create_user(&mut p, key(POOL), key(OWNER), 0, 0).unwrap();
    assert_eq!(close_user(&mut p, &user_at(1, 0)).unwrap_err(), CustomError::UserBalanceNonZero);
    let mut pending = user_at(0, 0);
    pending.pending_reward_primary = 1;
    assert_eq!(close_user(&mut p, &pending).unwrap_err(), CustomError::PendingRewardsNonZero);
    close_user(&mut p, &u).unwrap();
    assert_eq!(p.user_count, 0);
    assert_eq!(close_user(&mut p, &u).unwrap_err(), CustomError::MathOverflow);
}

fn close_ctx(pool: StakingAccount, staking_amt: u64, reward_amt: u64) -> ClosePool {
    ClosePool {
        staking_account: pool,
        pool: key(POOL),
        staking_vault_amount: staking_amt,
        reward_vault_amount: reward_amt,
        staking_refundee: key(60),
        reward_refundee: key(61),
        rent_refundee: key(62),
    }
}

#[test]
fn close_pool_preconditions() {
    let mut p = new_pool();
    assert_eq!(close_pool(&close_ctx(p.clone(), 0, 0)).unwrap_err(), CustomError::PoolNotPaused);
    create_user(&mut p, key(POOL), key(OWNER), 0, 0).unwrap();
    pause(&mut p, key(AUTHORITY)).unwrap();
    assert_eq!(close_pool(&close_ctx(p.clone(), 0, 0)).unwrap_err(), CustomError::UsersRemaining);
    p.user_count = 0;
    assert_eq!(close_pool(&close_ctx(p, 1, 0)).unwrap_err(), CustomError::StakingVaultNotEmpty);
}

#[test]
fn close_pool_drains_then_closes_both_vaults() {
    let mut p = new_pool();
    pause(&mut p, key(AUTHORITY)).unwrap();
    let acts = close_pool(&close_ctx(p, 0, 77)).unwrap();
    let s = PoolSigner { pool: key(POOL), nonce: 7 };
    assert_eq!(
        acts,
        vec![
            VaultAction::Transfer(TokenTransfer { from: key(11), to: key(60), authority: TransferAuthority::Pool(s), amount: 0 }),
            VaultAction::Close { account: key(11), destination: key(62), authority: s },
            VaultAction::Transfer(TokenTransfer { from: key(13), to: key(61), authority: TransferAuthority::Pool(s), amount: 77 }),
            VaultAction::Close { account: key(13), destination: key(62), authority: s },
        ]
    );
}

#[test]
fn end_to_end_lockup_then_close_user() {
    let mut p = new_pool();
    let u = create_user(&mut p, key(POOL), key(OWNER), 0, 0).unwrap();
    let mut c = stake_ctx(p.clone(), u, 0);
    stake(&mut c, 1000).unwrap();
    let t0 = c.user_stake.stake_time;
    let mut un = unstake_ctx(p.clone(), c.user_stake, t0 + 29 * SECONDS_PER_DAY);
    assert_eq!(unstake(&mut un, 1000).unwrap_err(), CustomError::NotEnoughUnstakePeriod);
    un.now = t0 + 30 * SECONDS_PER_DAY;
    unstake(&mut un, 1000).unwrap();
    assert_eq!(un.user_stake.balance_staked, 0);
    close_user(&mut p, &un.user_stake).unwrap();
    assert_eq!(p.user_count, 0);
}
