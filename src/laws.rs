use vstd::prelude::*;
use crate::reward::{accrue_overflows, accrued};
use crate::staking::{stake_outcome, unstake_outcome};
use crate::state::{CustomError, UserStake, LOCKUP_PERIOD, RECOMPUTE_THRESHOLD, SECONDS_PER_YEAR};
use crate::teardown::{close_pool_error, closed_after_drain, inflow, outflow, teardown_actions, ClosePool};

verus! {

/// A request that changes a user's staked balance.
#[derive(Clone, Copy, Debug, PartialEq, Eq, Structural)]
pub enum BalanceOp {
    Stake(u64),
    Unstake(u64),
}

/// The user record after submitting `ops` (each with its time) in order to a
/// pool that is `paused` or not, and the sum of the accepted deposits minus
/// the sum of the accepted withdrawals. A rejected request changes nothing.
pub open spec fn replay(paused: bool, u: UserStake, ops: Seq<(BalanceOp, u64)>) -> (UserStake, int)
    decreases ops.len(),
{
    if ops.len() == 0 {
        (u, 0)
    } else {
        let (prev, net) = replay(paused, u, ops.drop_last());
        let (op, now) = ops.last();
        match op {
            BalanceOp::Stake(a) => match stake_outcome(paused, prev, a, now) {
                Ok(n) => (n, net + a),
                Err(_) => (prev, net),
            },
            BalanceOp::Unstake(a) => match unstake_outcome(prev, a, now) {
                Ok(n) => (n, net - a),
                Err(_) => (prev, net),
            },
        }
    }
}

/// After any sequence of deposits and withdrawals the staked balance is the
/// starting balance plus the accepted deposits minus the accepted
/// withdrawals, and a withdrawal above the balance is refused.
pub proof fn lemma_balance_is_net_of_history(paused: bool, u: UserStake, ops: Seq<(BalanceOp, u64)>)
    ensures
        replay(paused, u, ops).0.balance_staked == u.balance_staked + replay(paused, u, ops).1,
        replay(paused, u, ops).0.balance_staked >= 0,
        forall|a: u64, now: u64|
            a > replay(paused, u, ops).0.balance_staked ==> #[trigger] unstake_outcome(
                replay(paused, u, ops).0,
                a,
                now,
            ) == Err::<UserStake, CustomError>(CustomError::InsufficientFundUnstake),
    decreases ops.len(),
{
    if ops.len() > 0 {
        lemma_balance_is_net_of_history(paused, u, ops.drop_last());
    }
}

/// A withdrawal is refused at every time before the lock-up ends, and a
/// valid one is accepted at the very second it ends.
pub proof fn lemma_lockup_boundary(u: UserStake, amount: u64, now: u64)
    ensures
        now < u.stake_time + LOCKUP_PERIOD ==> unstake_outcome(u, amount, now) is Err,
        now < u.stake_time + LOCKUP_PERIOD && 0 < amount <= u.balance_staked ==> unstake_outcome(
            u,
            amount,
            now,
        ) == Err::<UserStake, CustomError>(CustomError::NotEnoughUnstakePeriod),
        now == u.stake_time + LOCKUP_PERIOD && 0 < amount <= u.balance_staked && !accrue_overflows(
            UserStake { balance_staked: (u.balance_staked - amount) as u64, ..u },
            now,
        ) ==> unstake_outcome(u, amount, now) is Ok,
{
}

/// A later deposit restarts the lock-up: after staking at `t`, a valid
/// withdrawal before `t` plus the lock-up is refused, even where the earlier
/// stake time would have allowed it.
pub proof fn lemma_restake_resets_lockup(
    paused: bool,
    u: UserStake,
    deposit: u64,
    t: u64,
    amount: u64,
    now: u64,
)
    requires
        stake_outcome(paused, u, deposit, t) is Ok,
        now < t + LOCKUP_PERIOD,
    ensures
        stake_outcome(paused, u, deposit, t)->Ok_0.stake_time == t,
        unstake_outcome(stake_outcome(paused, u, deposit, t)->Ok_0, amount, now) is Err,
        0 < amount <= stake_outcome(paused, u, deposit, t)->Ok_0.balance_staked ==> unstake_outcome(
            stake_outcome(paused, u, deposit, t)->Ok_0,
            amount,
            now,
        ) == Err::<UserStake, CustomError>(CustomError::NotEnoughUnstakePeriod),
{
}

/// At or below the threshold the reward pass changes nothing: the update
/// time, the secondary rate and the secondary pending reward stay put. Above
/// it a successful pass moves the update time to now.
pub proof fn lemma_threshold_gates_recompute(u: UserStake, now: u64)
    ensures
        u.balance_staked <= RECOMPUTE_THRESHOLD ==> !accrue_overflows(u, now) && accrued(u, now)
            == u,
        u.balance_staked > RECOMPUTE_THRESHOLD && !accrue_overflows(u, now) ==> accrued(
            u,
            now,
        ).last_update_time == now && accrued(u, now).reward_rate_secondary
            == u.balance_staked / SECONDS_PER_YEAR,
{
}

/// A successful reward pass never moves the update time backwards.
pub proof fn lemma_update_time_monotonic(u: UserStake, now: u64)
    requires
        !accrue_overflows(u, now),
    ensures
        accrued(u, now).last_update_time >= u.last_update_time,
{
}

/// A deposit that leaves the balance at or below the threshold leaves the
/// update time and the secondary track as they were.
pub proof fn lemma_small_stake_keeps_rewards(paused: bool, u: UserStake, amount: u64, now: u64)
    requires
        stake_outcome(paused, u, amount, now) is Ok,
        stake_outcome(paused, u, amount, now)->Ok_0.balance_staked <= RECOMPUTE_THRESHOLD,
    ensures
        stake_outcome(paused, u, amount, now)->Ok_0.last_update_time == u.last_update_time,
        stake_outcome(paused, u, amount, now)->Ok_0.reward_rate_secondary
            == u.reward_rate_secondary,
        stake_outcome(paused, u, amount, now)->Ok_0.pending_reward_secondary
            == u.pending_reward_secondary,
{
}

/// A teardown is refused unless the pool is paused, has no users and an
/// empty staking vault; when it goes ahead each vault is drained of all it
/// holds before it is closed, and the refund accounts receive exactly those
/// residual amounts.
pub proof fn lemma_teardown_drains_vaults(ctx: ClosePool)
    requires
        ctx.staking_account.staking_vault != ctx.staking_account.reward_vault,
    ensures
        close_pool_error(ctx) is None <==> (ctx.staking_account.paused
            && ctx.staking_account.user_count == 0 && ctx.staking_vault_amount == 0),
        close_pool_error(ctx) is None ==> {
            let acts = teardown_actions(ctx);
            &&& closed_after_drain(
                acts,
                ctx.staking_account.staking_vault,
                ctx.staking_vault_amount as int,
            )
            &&& closed_after_drain(
                acts,
                ctx.staking_account.reward_vault,
                ctx.reward_vault_amount as int,
            )
            &&& outflow(acts, ctx.staking_account.staking_vault) == ctx.staking_vault_amount
            &&& outflow(acts, ctx.staking_account.reward_vault) == ctx.reward_vault_amount
            &&& ctx.staking_refundee != ctx.reward_refundee ==> inflow(acts, ctx.staking_refundee)
                == ctx.staking_vault_amount && inflow(acts, ctx.reward_refundee)
                == ctx.reward_vault_amount
            &&& ctx.staking_refundee == ctx.reward_refundee ==> inflow(acts, ctx.staking_refundee)
                == ctx.staking_vault_amount + ctx.reward_vault_amount
        },
{
    let acts = teardown_actions(ctx);
    let sv = ctx.staking_account.staking_vault;
    let rv = ctx.staking_account.reward_vault;
    reveal_with_fuel(outflow, 5);
    reveal_with_fuel(inflow, 5);
    assert(acts.subrange(0, 1) =~= acts.drop_last().drop_last().drop_last());
    assert(acts.subrange(0, 3) =~= acts.drop_last());
    assert(acts.drop_last().drop_last().drop_last().drop_last() =~= Seq::<
        crate::teardown::VaultAction,
    >::empty());
    assert(acts[1] is Close && acts[1]->Close_account == sv && outflow(acts.subrange(0, 1), sv)
        == ctx.staking_vault_amount);
    assert(acts[3] is Close && acts[3]->Close_account == rv && outflow(acts.subrange(0, 3), rv)
        == ctx.reward_vault_amount);
}

} // verus!
