use vstd::prelude::*;
use crate::reward::{accrue, accrue_overflows, accrued};
use crate::state::{
    CustomError, PoolSigner, Pubkey, StakingAccount, TokenTransfer, TransferAuthority, UserStake,
    LOCKUP_PERIOD,
};

verus! {

/// The records and accounts a deposit names.
pub struct Stake {
    pub staking_account: StakingAccount,
    pub user_stake: UserStake,
    /// The depositor, whose signature the host has checked.
    pub owner: Pubkey,
    /// The depositor's token account the deposit is drawn from.
    pub stake_from_account: Pubkey,
    /// The current time.
    pub now: u64,
}

/// The records and accounts a withdrawal of stake names.
pub struct Unstake {
    pub staking_account: StakingAccount,
    /// Identity of the pool record, from which its vault signer derives.
    pub pool: Pubkey,
    pub user_stake: UserStake,
    /// The owner's token account that receives the stake.
    pub stake_to_account: Pubkey,
    pub now: u64,
}

/// The records and accounts a reward claim names.
pub struct ClaimRewards {
    pub staking_account: StakingAccount,
    pub pool: Pubkey,
    pub user_stake: UserStake,
    /// Current balance of the staking vault, which pays the primary track.
    pub staking_vault_amount: u64,
    /// Current balance of the reward vault, which pays the secondary track.
    pub reward_vault_amount: u64,
    /// The user's account for primary-track payouts.
    pub primary_to_account: Pubkey,
    /// The user's account for secondary-track payouts.
    pub reward_to_account: Pubkey,
    pub now: u64,
}

/// What a deposit of `amount` at `now` makes of `u` in a pool that is
/// `paused` or not. The balance grows first; the reward pass then runs with
/// the new balance, and the lock-up clock restarts.
pub open spec fn stake_outcome(paused: bool, u: UserStake, amount: u64, now: u64) -> Result<
    UserStake,
    CustomError,
> {
    if amount == 0 {
        Err(CustomError::AmountMustBeGreaterThanZero)
    } else if paused {
        Err(CustomError::PoolPaused)
    } else if u.balance_staked + amount > u64::MAX {
        Err(CustomError::MathOverflow)
    } else {
        let grown = UserStake { balance_staked: (u.balance_staked + amount) as u64, ..u };
        if accrue_overflows(grown, now) {
            Err(CustomError::MathOverflow)
        } else {
            Ok(UserStake { stake_time: now, ..accrued(grown, now) })
        }
    }
}

/// Whether the lock-up window that the latest deposit opened is still running.
pub open spec fn locked(u: UserStake, now: u64) -> bool {
    now < u.stake_time + LOCKUP_PERIOD
}

/// What a withdrawal of `amount` at `now` makes of `u`.
pub open spec fn unstake_outcome(u: UserStake, amount: u64, now: u64) -> Result<
    UserStake,
    CustomError,
> {
    if amount == 0 {
        Err(CustomError::AmountMustBeGreaterThanZero)
    } else if amount > u.balance_staked {
        Err(CustomError::InsufficientFundUnstake)
    } else if locked(u, now) {
        Err(CustomError::NotEnoughUnstakePeriod)
    } else {
        let shrunk = UserStake { balance_staked: (u.balance_staked - amount) as u64, ..u };
        if accrue_overflows(shrunk, now) {
            Err(CustomError::MathOverflow)
        } else {
            Ok(accrued(shrunk, now))
        }
    }
}

/// Deposits `amount`: updates the user record and returns the transfer from
/// the depositor's account into the staking vault, signed by the depositor.
pub fn stake(ctx: &mut Stake, amount: u64) -> (r: Result<TokenTransfer, CustomError>)
    ensures
        match stake_outcome(old(ctx).staking_account.paused, old(ctx).user_stake, amount, old(ctx).now) {
            Ok(u) => {
                &&& r == Ok::<TokenTransfer, CustomError>(
                    TokenTransfer {
                        from: old(ctx).stake_from_account,
                        to: old(ctx).staking_account.staking_vault,
                        authority: TransferAuthority::Holder(old(ctx).owner),
                        amount,
                    },
                )
                &&& *final(ctx) == (Stake { user_stake: u, ..*old(ctx) })
            },
            Err(e) => r == Err::<TokenTransfer, CustomError>(e) && *final(ctx) == *old(ctx),
        },
{
    if amount == 0 {
        return Err(CustomError::AmountMustBeGreaterThanZero);
    }
    if ctx.staking_account.paused {
        return Err(CustomError::PoolPaused);
    }
    let mut user = ctx.user_stake;
    user.balance_staked = match user.balance_staked.checked_add(amount) {
        Some(b) => b,
        None => return Err(CustomError::MathOverflow),
    };
    match accrue(&mut user, ctx.now) {
        Ok(()) => {},
        Err(e) => return Err(e),
    }
    user.stake_time = ctx.now;
    ctx.user_stake = user;
    Ok(
        TokenTransfer {
            from: ctx.stake_from_account,
            to: ctx.staking_account.staking_vault,
            authority: TransferAuthority::Holder(ctx.owner),
            amount,
        },
    )
}

/// Withdraws `amount` of stake once the lock-up has passed: updates the user
/// record and returns the transfer from the staking vault back to the owner,
/// signed by the pool's derived signer.
pub fn unstake(ctx: &mut Unstake, amount: u64) -> (r: Result<TokenTransfer, CustomError>)
    ensures
        match unstake_outcome(old(ctx).user_stake, amount, old(ctx).now) {
            Ok(u) => {
                &&& r == Ok::<TokenTransfer, CustomError>(
                    TokenTransfer {
                        from: old(ctx).staking_account.staking_vault,
                        to: old(ctx).stake_to_account,
                        authority: TransferAuthority::Pool(
                            PoolSigner { pool: old(ctx).pool, nonce: old(ctx).staking_account.nonce },
                        ),
                        amount,
                    },
                )
                &&& *final(ctx) == (Unstake { user_stake: u, ..*old(ctx) })
            },
            Err(e) => r == Err::<TokenTransfer, CustomError>(e) && *final(ctx) == *old(ctx),
        },
{
    if amount == 0 {
        return Err(CustomError::AmountMustBeGreaterThanZero);
    }
    if amount > ctx.user_stake.balance_staked {
        return Err(CustomError::InsufficientFundUnstake);
    }
    if ctx.now < ctx.user_stake.stake_time || ctx.now - ctx.user_stake.stake_time < LOCKUP_PERIOD {
        return Err(CustomError::NotEnoughUnstakePeriod);
    }
    let mut user = ctx.user_stake;
    user.balance_staked = user.balance_staked - amount;
    match accrue(&mut user, ctx.now) {
        Ok(()) => {},
        Err(e) => return Err(e),
    }
    ctx.user_stake = user;
    Ok(
        TokenTransfer {
            from: ctx.staking_account.staking_vault,
            to: ctx.stake_to_account,
            authority: TransferAuthority::Pool(
                PoolSigner { pool: ctx.pool, nonce: ctx.staking_account.nonce },
            ),
            amount,
        },
    )
}

/// The part of `pending` that a vault holding `available` can pay.
pub open spec fn clamped(pending: u64, available: u64) -> u64 {
    if pending <= available {
        pending
    } else {
        available
    }
}

/// The payouts of a claim, primary track first; a track whose clamped
/// amount is zero gives no transfer.
pub open spec fn claim_transfers(ctx: ClaimRewards, u: UserStake) -> Seq<TokenTransfer> {
    let signer = TransferAuthority::Pool(
        PoolSigner { pool: ctx.pool, nonce: ctx.staking_account.nonce },
    );
    let p = clamped(u.pending_reward_primary, ctx.staking_vault_amount);
    let s = clamped(u.pending_reward_secondary, ctx.reward_vault_amount);
    let first = if p > 0 {
        seq![
            TokenTransfer {
                from: ctx.staking_account.staking_vault,
                to: ctx.primary_to_account,
                authority: signer,
                amount: p,
            },
        ]
    } else {
        Seq::<TokenTransfer>::empty()
    };
    if s > 0 {
        first.push(
            TokenTransfer {
                from: ctx.staking_account.reward_vault,
                to: ctx.reward_to_account,
                authority: signer,
                amount: s,
            },
        )
    } else {
        first
    }
}

/// Pays out both reward tracks after an accrual pass. Each payout is clamped
/// to what its vault holds; the pending amounts are zeroed whatever was paid,
/// so an under-funded vault forfeits the remainder.
pub fn claim_rewards(ctx: &mut ClaimRewards) -> (r: Result<Vec<TokenTransfer>, CustomError>)
    ensures
        accrue_overflows(old(ctx).user_stake, old(ctx).now) ==> {
            &&& r == Err::<Vec<TokenTransfer>, CustomError>(CustomError::MathOverflow)
            &&& *final(ctx) == *old(ctx)
        },
        !accrue_overflows(old(ctx).user_stake, old(ctx).now) ==> {
            let a = accrued(old(ctx).user_stake, old(ctx).now);
            &&& r is Ok
            &&& r->Ok_0@ == claim_transfers(*old(ctx), a)
            &&& *final(ctx) == (ClaimRewards {
                user_stake: UserStake {
                    pending_reward_primary: 0,
                    pending_reward_secondary: 0,
                    ..a
                },
                ..*old(ctx)
            })
        },
{
    let mut user = ctx.user_stake;
    match accrue(&mut user, ctx.now) {
        Ok(()) => {},
        Err(e) => return Err(e),
    }
    let signer = TransferAuthority::Pool(
        PoolSigner { pool: ctx.pool, nonce: ctx.staking_account.nonce },
    );
    let mut out: Vec<TokenTransfer> = Vec::new();
    if user.pending_reward_primary != 0 {
        let pay: u64 = if user.pending_reward_primary <= ctx.staking_vault_amount {
            user.pending_reward_primary
        } else {
            ctx.staking_vault_amount
        };
        user.pending_reward_primary = 0;
        if pay > 0 {
            out.push(
                TokenTransfer {
                    from: ctx.staking_account.staking_vault,
                    to: ctx.primary_to_account,
                    authority: signer,
                    amount: pay,
                },
            );
        }
    }
    if user.pending_reward_secondary != 0 {
        let pay: u64 = if user.pending_reward_secondary <= ctx.reward_vault_amount {
            user.pending_reward_secondary
        } else {
            ctx.reward_vault_amount
        };
        user.pending_reward_secondary = 0;
        if pay > 0 {
            out.push(
                TokenTransfer {
                    from: ctx.staking_account.reward_vault,
                    to: ctx.reward_to_account,
                    authority: signer,
                    amount: pay,
                },
            );
        }
    }
    proof {
        assert(out@ =~= claim_transfers(*old(ctx), accrued(old(ctx).user_stake, old(ctx).now)));
    }
    ctx.user_stake = user;
    Ok(out)
}

} // verus!
