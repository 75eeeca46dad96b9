use vstd::prelude::*;
use crate::state::{CustomError, PoolSigner, Pubkey, StakingAccount, TokenTransfer, TransferAuthority};

verus! {

/// One step of a pool teardown, executed by the host under the pool's signer.
#[derive(Clone, Copy, Debug, PartialEq, Eq, Structural)]
pub enum VaultAction {
    /// Move tokens out of a vault.
    Transfer(TokenTransfer),
    /// Close a token account and send its storage rent to `destination`.
    Close { account: Pubkey, destination: Pubkey, authority: PoolSigner },
}

/// What tearing a pool down names.
pub struct ClosePool {
    pub staking_account: StakingAccount,
    pub pool: Pubkey,
    pub staking_vault_amount: u64,
    pub reward_vault_amount: u64,
    /// Receives what is left in the staking vault.
    pub staking_refundee: Pubkey,
    /// Receives what is left in the reward vault.
    pub reward_refundee: Pubkey,
    /// Receives the vaults' storage rent.
    pub rent_refundee: Pubkey,
}

/// The error that tearing down `ctx` meets, if any.
pub open spec fn close_pool_error(ctx: ClosePool) -> Option<CustomError> {
    if !ctx.staking_account.paused {
        Some(CustomError::PoolNotPaused)
    } else if ctx.staking_account.user_count != 0 {
        Some(CustomError::UsersRemaining)
    } else if ctx.staking_vault_amount != 0 {
        Some(CustomError::StakingVaultNotEmpty)
    } else {
        None
    }
}

/// Drain then close the staking vault, then the same for the reward vault.
pub open spec fn teardown_actions(ctx: ClosePool) -> Seq<VaultAction> {
    let signer = PoolSigner { pool: ctx.pool, nonce: ctx.staking_account.nonce };
    seq![
        VaultAction::Transfer(
            TokenTransfer {
                from: ctx.staking_account.staking_vault,
                to: ctx.staking_refundee,
                authority: TransferAuthority::Pool(signer),
                amount: ctx.staking_vault_amount,
            },
        ),
        VaultAction::Close {
            account: ctx.staking_account.staking_vault,
            destination: ctx.rent_refundee,
            authority: signer,
        },
        VaultAction::Transfer(
            TokenTransfer {
                from: ctx.staking_account.reward_vault,
                to: ctx.reward_refundee,
                authority: TransferAuthority::Pool(signer),
                amount: ctx.reward_vault_amount,
            },
        ),
        VaultAction::Close {
            account: ctx.staking_account.reward_vault,
            destination: ctx.rent_refundee,
            authority: signer,
        },
    ]
}

/// Tears a paused, empty pool down: returns the four steps that the host
/// must commit together with the removal of the pool record, or none at all.
pub fn close_pool(ctx: &ClosePool) -> (r: Result<Vec<VaultAction>, CustomError>)
    ensures
        match close_pool_error(*ctx) {
            Some(e) => r == Err::<Vec<VaultAction>, CustomError>(e),
            None => r is Ok && r->Ok_0@ == teardown_actions(*ctx),
        },
{
    if !ctx.staking_account.paused {
        return Err(CustomError::PoolNotPaused);
    }
    if ctx.staking_account.user_count != 0 {
        return Err(CustomError::UsersRemaining);
    }
    if ctx.staking_vault_amount != 0 {
        return Err(CustomError::StakingVaultNotEmpty);
    }
    let signer = PoolSigner { pool: ctx.pool, nonce: ctx.staking_account.nonce };
    let mut acts: Vec<VaultAction> = Vec::new();
    acts.push(
        VaultAction::Transfer(
            TokenTransfer {
                from: ctx.staking_account.staking_vault,
                to: ctx.staking_refundee,
                authority: TransferAuthority::Pool(signer),
                amount: ctx.staking_vault_amount,
            },
        ),
    );
    acts.push(
        VaultAction::Close {
            account: ctx.staking_account.staking_vault,
            destination: ctx.rent_refundee,
            authority: signer,
        },
    );
    acts.push(
        VaultAction::Transfer(
            TokenTransfer {
                from: ctx.staking_account.reward_vault,
                to: ctx.reward_refundee,
                authority: TransferAuthority::Pool(signer),
                amount: ctx.reward_vault_amount,
            },
        ),
    );
    acts.push(
        VaultAction::Close {
            account: ctx.staking_account.reward_vault,
            destination: ctx.rent_refundee,
            authority: signer,
        },
    );
    assert(acts@ =~= teardown_actions(*ctx));
    Ok(acts)
}

/// Total that `acts` moves out of account `k`.
pub open spec fn outflow(acts: Seq<VaultAction>, k: Pubkey) -> int
    decreases acts.len(),
{
    if acts.len() == 0 {
        0
    } else {
        outflow(acts.drop_last(), k) + match acts.last() {
            VaultAction::Transfer(t) => if t.from == k {
                t.amount as int
            } else {
                0
            },
            VaultAction::Close { .. } => 0,
        }
    }
}

/// Total that `acts` moves into account `k`.
pub open spec fn inflow(acts: Seq<VaultAction>, k: Pubkey) -> int
    decreases acts.len(),
{
    if acts.len() == 0 {
        0
    } else {
        inflow(acts.drop_last(), k) + match acts.last() {
            VaultAction::Transfer(t) => if t.to == k {
                t.amount as int
            } else {
                0
            },
            VaultAction::Close { .. } => 0,
        }
    }
}

/// Whether `acts` closes account `k`, and whether it does so only once `k` has
/// been drained of `amount`.
pub open spec fn closed_after_drain(acts: Seq<VaultAction>, k: Pubkey, amount: int) -> bool {
    exists|i: int|
        0 <= i < acts.len() && (#[trigger] acts[i]) is Close && acts[i]->Close_account == k
            && outflow(acts.subrange(0, i), k) == amount
}

} // verus!
