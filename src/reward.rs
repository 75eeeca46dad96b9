use vstd::prelude::*;
use crate::state::{CustomError, UserStake, RECOMPUTE_THRESHOLD, SECONDS_PER_YEAR};

verus! {

/// Whether bringing `u` up to `now` would underflow the elapsed time or
/// overflow the secondary pending reward.
pub open spec fn accrue_overflows(u: UserStake, now: u64) -> bool {
    u.balance_staked > RECOMPUTE_THRESHOLD && (now < u.last_update_time
        || u.pending_reward_secondary + (now - u.last_update_time) * u.reward_rate_secondary
        > u64::MAX)
}

/// `u` brought up to `now`. Above the threshold the secondary track earns the
/// elapsed time at the old rate, the rate is recomputed from the current
/// balance and the update time moves to `now`; otherwise nothing changes.
/// The primary track never accrues.
pub open spec fn accrued(u: UserStake, now: u64) -> UserStake {
    if u.balance_staked > RECOMPUTE_THRESHOLD {
        UserStake {
            pending_reward_secondary: (u.pending_reward_secondary + (now - u.last_update_time)
                * u.reward_rate_secondary) as u64,
            reward_rate_secondary: (u.balance_staked / SECONDS_PER_YEAR) as u64,
            last_update_time: now,
            ..u
        }
    } else {
        u
    }
}

/// Brings the user's rewards up to `now`; on overflow nothing changes.
pub fn accrue(user: &mut UserStake, now: u64) -> (r: Result<(), CustomError>)
    ensures
        r == (if accrue_overflows(*old(user), now) {
            Err::<(), CustomError>(CustomError::MathOverflow)
        } else {
            Ok(())
        }),
        r is Ok ==> *final(user) == accrued(*old(user), now),
        r is Err ==> *final(user) == *old(user),
{
    if user.balance_staked > RECOMPUTE_THRESHOLD {
        if now < user.last_update_time {
            return Err(CustomError::MathOverflow);
        }
        let elapsed: u64 = now - user.last_update_time;
        let earned: u64 = match elapsed.checked_mul(user.reward_rate_secondary) {
            Some(v) => v,
            None => return Err(CustomError::MathOverflow),
        };
        let pending: u64 = match user.pending_reward_secondary.checked_add(earned) {
            Some(v) => v,
            None => return Err(CustomError::MathOverflow),
        };
        user.pending_reward_secondary = pending;
        user.reward_rate_secondary = user.balance_staked / SECONDS_PER_YEAR;
        user.last_update_time = now;
    }
    Ok(())
}

/// The defensive form: an absent record is left absent.
pub fn accrue_if_present(user: &mut Option<UserStake>, now: u64) -> (r: Result<(), CustomError>)
    ensures
        match *old(user) {
            None => r is Ok && *final(user) == *old(user),
            Some(u) => if accrue_overflows(u, now) {
                r == Err::<(), CustomError>(CustomError::MathOverflow) && *final(user) == *old(user)
            } else {
                r is Ok && *final(user) == Some(accrued(u, now))
            },
        },
{
    match user {
        None => Ok(()),
        Some(u) => accrue(u, now),
    }
}

} // verus!
