use vstd::prelude::*;
use crate::state::{CustomError, Pubkey, StakingAccount};

verus! {

/// Whitelists `funder` in the first empty slot. Only the authority may; the
/// authority itself, a funder already present, or a full set is refused.
pub fn authorize_funder(pool: &mut StakingAccount, signer: Pubkey, funder: Pubkey) -> (r: Result<
    (),
    CustomError,
>)
    requires
        old(pool).wf(),
    ensures
        final(pool).wf(),
        signer != old(pool).authority ==> r == Err::<(), CustomError>(CustomError::Unauthorized),
        signer == old(pool).authority && funder == old(pool).authority ==> r == Err::<
            (),
            CustomError,
        >(CustomError::CannotAuthorizePoolAuthority),
        signer == old(pool).authority && funder != old(pool).authority && old(
            pool,
        ).funders@.contains(Some(funder)) ==> r == Err::<(), CustomError>(
            CustomError::FunderAlreadyAuthorized,
        ),
        signer == old(pool).authority && funder != old(pool).authority && !old(
            pool,
        ).funders@.contains(Some(funder)) && !old(pool).funders@.contains(None) ==> r == Err::<
            (),
            CustomError,
        >(CustomError::MaxFunders),
        r is Err ==> *final(pool) == *old(pool),
        signer == old(pool).authority && funder != old(pool).authority && !old(
            pool,
        ).funders@.contains(Some(funder)) && old(pool).funders@.contains(None) ==> {
            &&& r is Ok
            &&& exists|i: int|
                0 <= i < old(pool).funders@.len() && old(pool).funders@[i] is None && (forall|
                    j: int,
                | 0 <= j < i ==> old(pool).funders@[j] is Some) && *final(pool) == (
                StakingAccount { funders: final(pool).funders, ..*old(pool) })
                    && final(pool).funders@ == old(pool).funders@.update(i, Some(funder))
        },
{
    if signer != pool.authority {
        return Err(CustomError::Unauthorized);
    }
    if funder == pool.authority {
        return Err(CustomError::CannotAuthorizePoolAuthority);
    }
    let mut vacant: Option<usize> = None;
    let mut i: usize = 0;
    while i < pool.funders.len()
        invariant
            *pool == *old(pool),
            pool.wf(),
            signer == pool.authority,
            funder != pool.authority,
            i <= pool.funders@.len(),
            forall|j: int| 0 <= j < i ==> #[trigger] pool.funders@[j] != Some(funder),
            match vacant {
                None => forall|j: int| 0 <= j < i ==> (#[trigger] pool.funders@[j]) is Some,
                Some(v) => v < i && pool.funders@[v as int] is None && forall|j: int|
                    0 <= j < v ==> (#[trigger] pool.funders@[j]) is Some,
            },
        decreases pool.funders@.len() - i,
    {
        match pool.funders[i] {
            Some(k) => {
                if k == funder {
                    return Err(CustomError::FunderAlreadyAuthorized);
                }
            },
            None => {
                if vacant.is_none() {
                    vacant = Some(i);
                }
            },
        }
        i = i + 1;
    }
    match vacant {
        None => {
            assert(!pool.funders@.contains(None));
            Err(CustomError::MaxFunders)
        },
        Some(v) => {
            let ghost before = pool.funders@;
            pool.funders.set(v, Some(funder));
            assert forall|a: int, b: int|
                0 <= a < b < pool.funders@.len() && pool.funders@[a] is Some implies #[trigger] pool.funders@[a]
                != #[trigger] pool.funders@[b] by {
                if a != v && b != v {
                    assert(before[a] != before[b]);
                }
            }
            assert(!pool.funders@.contains(Some(pool.authority))) by {
                if pool.funders@.contains(Some(pool.authority)) {
                    let k = choose|k: int|
                        0 <= k < pool.funders@.len() && pool.funders@[k] == Some(pool.authority);
                    assert(before[k] == Some(pool.authority));
                }
            }
            Ok(())
        },
    }
}

/// Removes `funder` from the whitelist, emptying its slot in place. Only the
/// authority may; the authority itself and an absent funder are refused.
pub fn deauthorize_funder(pool: &mut StakingAccount, signer: Pubkey, funder: Pubkey) -> (r: Result<
    (),
    CustomError,
>)
    requires
        old(pool).wf(),
    ensures
        final(pool).wf(),
        signer != old(pool).authority ==> r == Err::<(), CustomError>(CustomError::Unauthorized),
        signer == old(pool).authority && funder == old(pool).authority ==> r == Err::<
            (),
            CustomError,
        >(CustomError::CannotDeauthorizePoolAuthority),
        signer == old(pool).authority && funder != old(pool).authority && !old(
            pool,
        ).funders@.contains(Some(funder)) ==> r == Err::<(), CustomError>(
            CustomError::CannotDeauthorizeMissingAuthority,
        ),
        r is Err ==> *final(pool) == *old(pool),
        signer == old(pool).authority && funder != old(pool).authority && old(
            pool,
        ).funders@.contains(Some(funder)) ==> {
            &&& r is Ok
            &&& *final(pool) == (StakingAccount { funders: final(pool).funders, ..*old(pool) })
            &&& final(pool).funders@ == old(pool).funders@.map_values(
                |s: Option<Pubkey>|
                    if s == Some(funder) {
                        None
                    } else {
                        s
                    },
            )
        },
{
    if signer != pool.authority {
        return Err(CustomError::Unauthorized);
    }
    if funder == pool.authority {
        return Err(CustomError::CannotDeauthorizePoolAuthority);
    }
    let mut i: usize = 0;
    while i < pool.funders.len()
        invariant
            *pool == *old(pool),
            pool.wf(),
            signer == pool.authority,
            funder != pool.authority,
            i <= pool.funders@.len(),
            forall|j: int| 0 <= j < i ==> #[trigger] pool.funders@[j] != Some(funder),
        decreases pool.funders@.len() - i,
    {
        let hit = match pool.funders[i] {
            Some(k) => k == funder,
            None => false,
        };
        if hit {
            let ghost before = pool.funders@;
            pool.funders.set(i, None);
            assert(pool.funders@ =~= before.map_values(
                |s: Option<Pubkey>|
                    if s == Some(funder) {
                        None
                    } else {
                        s
                    },
            )) by {
                assert forall|j: int| 0 <= j < before.len() && j != i implies before[j] != Some(
                    funder,
                ) by {
                    if j > i {
                        assert(before[i as int] != before[j]);
                    }
                }
            }
            assert(!pool.funders@.contains(Some(pool.authority))) by {
                if pool.funders@.contains(Some(pool.authority)) {
                    let k = choose|k: int|
                        0 <= k < pool.funders@.len() && pool.funders@[k] == Some(pool.authority);
                    assert(before[k] == Some(pool.authority));
                }
            }
            return Ok(());
        }
        i = i + 1;
    }
    Err(CustomError::CannotDeauthorizeMissingAuthority)
}

} // verus!
