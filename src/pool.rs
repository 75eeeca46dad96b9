use vstd::prelude::*;
use crate::state::{
    CustomError, PoolSigner, Pubkey, StakingAccount, TokenTransfer, TransferAuthority, UserStake,
    MAX_FUNDERS,
};

verus! {

/// What the host knows of a token account that is to become a vault.
#[derive(Clone, Copy, Debug, PartialEq, Eq, Structural)]
pub struct VaultInfo {
    pub key: Pubkey,
    pub owner: Pubkey,
    pub close_authority: Option<Pubkey>,
}

/// The accounts that creating a pool names.
#[derive(Clone, Copy, Debug, PartialEq, Eq, Structural)]
pub struct Initialize {
    /// The authority the new pool is to have.
    pub authority: Pubkey,
    /// The identity whose signature the host has checked.
    pub signer: Pubkey,
    /// The signer derived from the new pool's identity and derivation value.
    pub pool_signer: Pubkey,
    pub staking_mint: Pubkey,
    pub staking_vault: VaultInfo,
    pub reward_mint: Pubkey,
    pub reward_vault: VaultInfo,
}

/// A vault is acceptable when the derived signer owns it and nobody else can close it.
pub open spec fn vault_acceptable(v: VaultInfo, signer: Pubkey) -> bool {
    v.owner == signer && v.close_authority is None
}

/// The error that creating a pool from `ctx` meets, if any.
pub open spec fn initialize_error(ctx: Initialize) -> Option<CustomError> {
    if ctx.signer != ctx.authority {
        Some(CustomError::Unauthorized)
    } else if ctx.staking_vault.owner != ctx.pool_signer || ctx.reward_vault.owner
        != ctx.pool_signer {
        Some(CustomError::InvalidVaultOwner)
    } else if ctx.staking_vault.close_authority is Some || ctx.reward_vault.close_authority is Some {
        Some(CustomError::VaultHasCloseAuthority)
    } else {
        None
    }
}

/// Creates an active pool with no users and five empty funder slots.
pub fn initialize(ctx: &Initialize, nonce: u8) -> (r: Result<StakingAccount, CustomError>)
    ensures
        match initialize_error(*ctx) {
            Some(e) => r == Err::<StakingAccount, CustomError>(e),
            None => r is Ok && {
                let p = r->Ok_0;
                &&& p.wf()
                &&& p.authority == ctx.authority
                &&& p.nonce == nonce
                &&& !p.paused
                &&& p.staking_mint == ctx.staking_mint
                &&& p.staking_vault == ctx.staking_vault.key
                &&& p.reward_mint == ctx.reward_mint
                &&& p.reward_vault == ctx.reward_vault.key
                &&& p.user_count == 0
                &&& p.funders@ == Seq::new(MAX_FUNDERS as nat, |i: int| None::<Pubkey>)
            },
        },
{
    if ctx.signer != ctx.authority {
        return Err(CustomError::Unauthorized);
    }
    if ctx.staking_vault.owner != ctx.pool_signer || ctx.reward_vault.owner != ctx.pool_signer {
        return Err(CustomError::InvalidVaultOwner);
    }
    if ctx.staking_vault.close_authority.is_some() || ctx.reward_vault.close_authority.is_some() {
        return Err(CustomError::VaultHasCloseAuthority);
    }
    let mut funders: Vec<Option<Pubkey>> = Vec::new();
    let mut i: usize = 0;
    while i < MAX_FUNDERS
        invariant
            i <= MAX_FUNDERS,
            funders@ == Seq::new(i as nat, |k: int| None::<Pubkey>),
        decreases MAX_FUNDERS - i,
    {
        funders.push(None);
        i = i + 1;
        assert(funders@ =~= Seq::new(i as nat, |k: int| None::<Pubkey>));
    }
    Ok(
        StakingAccount {
            authority: ctx.authority,
            nonce,
            paused: false,
            staking_mint: ctx.staking_mint,
            staking_vault: ctx.staking_vault.key,
            reward_mint: ctx.reward_mint,
            reward_vault: ctx.reward_vault.key,
            user_count: 0,
            funders,
        },
    )
}

/// Opens the record of `owner` in the pool named `pool_key`, all zero but
/// both timestamps, which are `now`, and its derivation value.
pub fn create_user(
    pool: &mut StakingAccount,
    pool_key: Pubkey,
    owner: Pubkey,
    nonce: u8,
    now: u64,
) -> (r: Result<UserStake, CustomError>)
    ensures
        old(pool).paused ==> r == Err::<UserStake, CustomError>(CustomError::PoolPaused)
            && *final(pool) == *old(pool),
        !old(pool).paused && old(pool).user_count == u64::MAX ==> r == Err::<
            UserStake,
            CustomError,
        >(CustomError::MathOverflow) && *final(pool) == *old(pool),
        !old(pool).paused && old(pool).user_count < u64::MAX ==> {
            &&& r == Ok::<UserStake, CustomError>(
                UserStake {
                    pool: pool_key,
                    owner,
                    balance_staked: 0,
                    pending_reward_primary: 0,
                    pending_reward_secondary: 0,
                    reward_rate_primary: 0,
                    reward_rate_secondary: 0,
                    last_update_time: now,
                    stake_time: now,
                    nonce,
                },
            )
            &&& *final(pool) == (StakingAccount {
                user_count: (old(pool).user_count + 1) as u64,
                ..*old(pool)
            })
        },
{
    if pool.paused {
        return Err(CustomError::PoolPaused);
    }
    if pool.user_count == u64::MAX {
        return Err(CustomError::MathOverflow);
    }
    pool.user_count = pool.user_count + 1;
    Ok(
        UserStake {
            pool: pool_key,
            owner,
            balance_staked: 0,
            pending_reward_primary: 0,
            pending_reward_secondary: 0,
            reward_rate_primary: 0,
            reward_rate_secondary: 0,
            last_update_time: now,
            stake_time: now,
            nonce,
        },
    )
}

/// Closes an emptied user record: its balance and both pending rewards must be zero.
pub fn close_user(pool: &mut StakingAccount, user: &UserStake) -> (r: Result<(), CustomError>)
    ensures
        user.balance_staked != 0 ==> r == Err::<(), CustomError>(CustomError::UserBalanceNonZero),
        user.balance_staked == 0 && (user.pending_reward_primary != 0
            || user.pending_reward_secondary != 0) ==> r == Err::<(), CustomError>(
            CustomError::PendingRewardsNonZero,
        ),
        user.balance_staked == 0 && user.pending_reward_primary == 0
            && user.pending_reward_secondary == 0 && old(pool).user_count == 0 ==> r == Err::<
            (),
            CustomError,
        >(CustomError::MathOverflow),
        r is Err ==> *final(pool) == *old(pool),
        user.balance_staked == 0 && user.pending_reward_primary == 0
            && user.pending_reward_secondary == 0 && old(pool).user_count > 0 ==> r is Ok
            && *final(pool) == (StakingAccount {
            user_count: (old(pool).user_count - 1) as u64,
            ..*old(pool)
        }),
{
    if user.balance_staked != 0 {
        return Err(CustomError::UserBalanceNonZero);
    }
    if user.pending_reward_primary != 0 || user.pending_reward_secondary != 0 {
        return Err(CustomError::PendingRewardsNonZero);
    }
    if pool.user_count == 0 {
        return Err(CustomError::MathOverflow);
    }
    pool.user_count = pool.user_count - 1;
    Ok(())
}

/// Pauses an active pool; only its authority may.
pub fn pause(pool: &mut StakingAccount, signer: Pubkey) -> (r: Result<(), CustomError>)
    ensures
        signer != old(pool).authority ==> r == Err::<(), CustomError>(CustomError::Unauthorized),
        signer == old(pool).authority && old(pool).paused ==> r == Err::<(), CustomError>(
            CustomError::PoolPaused,
        ),
        r is Err ==> *final(pool) == *old(pool),
        signer == old(pool).authority && !old(pool).paused ==> r is Ok && *final(pool) == (
        StakingAccount { paused: true, ..*old(pool) }),
{
    if signer != pool.authority {
        return Err(CustomError::Unauthorized);
    }
    if pool.paused {
        return Err(CustomError::PoolPaused);
    }
    pool.paused = true;
    Ok(())
}

/// Reactivates a paused pool; only its authority may.
pub fn unpause(pool: &mut StakingAccount, signer: Pubkey) -> (r: Result<(), CustomError>)
    ensures
        signer != old(pool).authority ==> r == Err::<(), CustomError>(CustomError::Unauthorized),
        signer == old(pool).authority && !old(pool).paused ==> r == Err::<(), CustomError>(
            CustomError::PoolNotPaused,
        ),
        r is Err ==> *final(pool) == *old(pool),
        signer == old(pool).authority && old(pool).paused ==> r is Ok && *final(pool) == (
        StakingAccount { paused: false, ..*old(pool) }),
{
    if signer != pool.authority {
        return Err(CustomError::Unauthorized);
    }
    if !pool.paused {
        return Err(CustomError::PoolNotPaused);
    }
    pool.paused = false;
    Ok(())
}

/// Checks a top-up of one of the pool's vaults by `funder` and returns the
/// transfer from the funder's own account, or none for a zero amount.
fn top_up(pool: &StakingAccount, vault: Pubkey, funder: Pubkey, from: Pubkey, amount: u64) -> (r:
    Result<Option<TokenTransfer>, CustomError>)
    requires
        pool.wf(),
    ensures
        r == fund_outcome(*pool, vault, funder, from, amount),
{
    if pool.paused {
        return Err(CustomError::PoolPaused);
    }
    let mut allowed = funder == pool.authority;
    let mut i: usize = 0;
    while i < pool.funders.len()
        invariant
            pool.wf(),
            i <= pool.funders@.len(),
            allowed == (funder == pool.authority || exists|j: int|
                0 <= j < i && #[trigger] pool.funders@[j] == Some(funder)),
        decreases pool.funders@.len() - i,
    {
        match pool.funders[i] {
            Some(k) => {
                if k == funder {
                    allowed = true;
                }
            },
            None => {},
        }
        i = i + 1;
    }
    if !allowed {
        return Err(CustomError::InvalidFunder);
    }
    if amount == 0 {
        return Ok(None);
    }
    Ok(Some(TokenTransfer { from, to: vault, authority: TransferAuthority::Holder(funder), amount }))
}

/// Outcome of a top-up of `vault` by `funder` from its account `from`.
pub open spec fn fund_outcome(
    pool: StakingAccount,
    vault: Pubkey,
    funder: Pubkey,
    from: Pubkey,
    amount: u64,
) -> Result<Option<TokenTransfer>, CustomError> {
    if pool.paused {
        Err(CustomError::PoolPaused)
    } else if !pool.may_fund(funder) {
        Err(CustomError::InvalidFunder)
    } else if amount == 0 {
        Ok(None)
    } else {
        Ok(Some(TokenTransfer { from, to: vault, authority: TransferAuthority::Holder(funder), amount }))
    }
}

/// Tops up the staking vault: the authority or a whitelisted funder spends
/// its own tokens; a zero amount moves nothing.
pub fn fund_staking(pool: &StakingAccount, funder: Pubkey, from: Pubkey, amount: u64) -> (r: Result<
    Option<TokenTransfer>,
    CustomError,
>)
    requires
        pool.wf(),
    ensures
        r == fund_outcome(*pool, pool.staking_vault, funder, from, amount),
{
    top_up(pool, pool.staking_vault, funder, from, amount)
}

/// Tops up the reward vault, under the same rules as `fund_staking`.
pub fn fund(pool: &StakingAccount, funder: Pubkey, from: Pubkey, amount: u64) -> (r: Result<
    Option<TokenTransfer>,
    CustomError,
>)
    requires
        pool.wf(),
    ensures
        r == fund_outcome(*pool, pool.reward_vault, funder, from, amount),
{
    top_up(pool, pool.reward_vault, funder, from, amount)
}

/// The bare vault-to-account primitive: a transfer of `amount` out of the
/// staking vault under the pool's signer. It checks neither the caller nor
/// the vault's balance; callers must put their own authorisation in front.
pub fn withdraw(pool: &StakingAccount, pool_key: Pubkey, to: Pubkey, amount: u64) -> (r:
    TokenTransfer)
    ensures
        r == (TokenTransfer {
            from: pool.staking_vault,
            to,
            authority: TransferAuthority::Pool(PoolSigner { pool: pool_key, nonce: pool.nonce }),
            amount,
        }),
{
    TokenTransfer {
        from: pool.staking_vault,
        to,
        authority: TransferAuthority::Pool(PoolSigner { pool: pool_key, nonce: pool.nonce }),
        amount,
    }
}

} // verus!
