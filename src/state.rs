use vstd::prelude::*;

verus! {

/// Seconds in one day.
pub const SECONDS_PER_DAY: u64 = 86_400;

/// Lock-up window after the most recent deposit during which unstaking is refused.
pub const LOCKUP_PERIOD: u64 = 30 * SECONDS_PER_DAY;

/// Divisor turning a staked balance into a per-second reward rate.
pub const SECONDS_PER_YEAR: u64 = 365 * SECONDS_PER_DAY;

/// Reward rates are only recomputed for balances strictly above this amount.
pub const RECOMPUTE_THRESHOLD: u64 = 1_100_000_000_000;

/// Number of explicit funder slots in a pool.
pub const MAX_FUNDERS: usize = 5;

/// A 32-byte account identity, held as four 64-bit words.
#[derive(Clone, Copy, Debug, PartialEq, Eq, Structural)]
pub struct Pubkey {
    pub w0: u64,
    pub w1: u64,
    pub w2: u64,
    pub w3: u64,
}

impl Pubkey {
    pub fn new(w0: u64, w1: u64, w2: u64, w3: u64) -> (r: Pubkey)
        ensures
            r == (Pubkey { w0, w1, w2, w3 }),
    {
        Pubkey { w0, w1, w2, w3 }
    }
}

/// Every rejection an operation can return. A rejected operation changes nothing.
#[derive(Clone, Copy, Debug, PartialEq, Eq, Structural)]
pub enum CustomError {
    Unauthorized,
    InvalidVaultOwner,
    VaultHasCloseAuthority,
    PoolPaused,
    PoolNotPaused,
    AmountMustBeGreaterThanZero,
    InsufficientFundUnstake,
    NotEnoughUnstakePeriod,
    MathOverflow,
    CannotAuthorizePoolAuthority,
    FunderAlreadyAuthorized,
    MaxFunders,
    CannotDeauthorizePoolAuthority,
    CannotDeauthorizeMissingAuthority,
    InvalidFunder,
    UserBalanceNonZero,
    PendingRewardsNonZero,
    UsersRemaining,
    StakingVaultNotEmpty,
}

/// The shared record of one staking pool.
#[derive(Clone, Debug)]
pub struct StakingAccount {
    /// May pause, unpause and manage funders; an implicit funder.
    pub authority: Pubkey,
    /// Derivation value that, with the pool's identity, yields the vault signer.
    pub nonce: u8,
    pub paused: bool,
    pub staking_mint: Pubkey,
    pub staking_vault: Pubkey,
    pub reward_mint: Pubkey,
    pub reward_vault: Pubkey,
    /// Number of open user records.
    pub user_count: u64,
    /// Explicitly whitelisted funders; `None` is an empty slot.
    pub funders: Vec<Option<Pubkey>>,
}

impl StakingAccount {
    /// Exactly five slots, no identity twice, and the authority never among them.
    pub open spec fn wf(&self) -> bool {
        &&& self.funders@.len() == MAX_FUNDERS
        &&& forall|i: int, j: int|
            0 <= i < j < self.funders@.len() && self.funders@[i] is Some ==> #[trigger] self.funders@[i]
                != #[trigger] self.funders@[j]
        &&& !self.funders@.contains(Some(self.authority))
    }

    /// Tests `wf`, for records read back from storage.
    pub fn is_well_formed(&self) -> (r: bool)
        ensures
            r == self.wf(),
    {
        if self.funders.len() != MAX_FUNDERS {
            return false;
        }
        let mut i: usize = 0;
        while i < MAX_FUNDERS
            invariant
                self.funders@.len() == MAX_FUNDERS,
                i <= MAX_FUNDERS,
                forall|a: int, b: int|
                    0 <= a < b < MAX_FUNDERS && a < i && self.funders@[a] is Some
                        ==> #[trigger] self.funders@[a] != #[trigger] self.funders@[b],
                forall|a: int| 0 <= a < i ==> #[trigger] self.funders@[a] != Some(self.authority),
            decreases MAX_FUNDERS - i,
        {
            match self.funders[i] {
                Some(k) => {
                    if k == self.authority {
                        return false;
                    }
                    let mut j: usize = i + 1;
                    while j < MAX_FUNDERS
                        invariant
                            self.funders@.len() == MAX_FUNDERS,
                            i < j <= MAX_FUNDERS,
                            self.funders@[i as int] == Some(k),
                            forall|b: int| i < b < j ==> #[trigger] self.funders@[b] != Some(k),
                        decreases MAX_FUNDERS - j,
                    {
                        match self.funders[j] {
                            Some(m) => {
                                if m == k {
                                    return false;
                                }
                            },
                            None => {},
                        }
                        j = j + 1;
                    }
                },
                None => {},
            }
            i = i + 1;
        }
        true
    }

    /// Whether `k` may top up the pool's vaults.
    pub open spec fn may_fund(&self, k: Pubkey) -> bool {
        k == self.authority || self.funders@.contains(Some(k))
    }
}

/// One depositor's record within one pool.
#[derive(Clone, Copy, Debug, PartialEq, Eq, Structural)]
pub struct UserStake {
    pub pool: Pubkey,
    pub owner: Pubkey,
    pub balance_staked: u64,
    pub pending_reward_primary: u64,
    pub pending_reward_secondary: u64,
    pub reward_rate_primary: u64,
    pub reward_rate_secondary: u64,
    pub last_update_time: u64,
    pub stake_time: u64,
    pub nonce: u8,
}

/// The keyless authority over a pool's vaults: a function of the pool's
/// identity and its stored derivation value, with no secret behind it.
#[derive(Clone, Copy, Debug, PartialEq, Eq, Structural)]
pub struct PoolSigner {
    pub pool: Pubkey,
    pub nonce: u8,
}

/// Who authorises a token transfer.
#[derive(Clone, Copy, Debug, PartialEq, Eq, Structural)]
pub enum TransferAuthority {
    /// The pool's derived signer, for movements out of its vaults.
    Pool(PoolSigner),
    /// An account holder spending their own tokens.
    Holder(Pubkey),
}

/// A token movement that the host must carry out.
#[derive(Clone, Copy, Debug, PartialEq, Eq, Structural)]
pub struct TokenTransfer {
    pub from: Pubkey,
    pub to: Pubkey,
    pub authority: TransferAuthority,
    pub amount: u64,
}

/// The signer of a pool's vaults.
pub fn pool_signer(pool: Pubkey, nonce: u8) -> (r: PoolSigner)
    ensures
        r == (PoolSigner { pool, nonce }),
{
    PoolSigner { pool, nonce }
}

} // verus!
