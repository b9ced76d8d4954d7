use vstd::prelude::*;

verus! {

/// The pool-wide ledger: the fee policy fixed at initialization and the
/// aggregate staked total across all participants.
#[derive(Clone, Copy, Debug, PartialEq, Eq, Structural)]
pub struct StakingAccount {
    /// Fee percentage retained by the pool on distribution, 0 to 100.
    pub fee: u64,
    /// Sum of all amounts staked since the last distribution (or since
    /// initialization), maintained by the engine, never derived on read.
    pub total_staked: u64,
}

impl StakingAccount {
    /// A pool ledger is well formed when its fee is a percentage.
    pub open spec fn wf(self) -> bool {
        self.fee <= 100
    }
}

/// A per-participant ledger: that participant's staked amount.
#[derive(Clone, Copy, Debug, PartialEq, Eq, Structural)]
pub struct UserAccount {
    pub staked_amount: u64,
}

impl Default for StakingAccount {
    /// A pool ledger before initialization: no fee policy, nothing staked.
    fn default() -> (r: Self)
        ensures
            r == (StakingAccount { fee: 0u64, total_staked: 0u64 }),
    {
        StakingAccount { fee: 0, total_staked: 0 }
    }
}

impl Default for UserAccount {
    /// A participant ledger is created lazily and starts with nothing staked.
    fn default() -> (r: Self)
        ensures
            r == (UserAccount { staked_amount: 0u64 }),
    {
        UserAccount { staked_amount: 0 }
    }
}

/// A custody record: a token balance together with the identity holding
/// authority over it. The engine inspects only these two fields.
#[derive(Clone, Copy, Debug, PartialEq, Eq, Structural)]
pub struct CustodyRecord {
    pub balance: u64,
    /// The identity whose signature authorizes movements out of this record.
    pub owner: u64,
}

/// Every way an engine operation can fail. Each failure is terminal for the
/// operation: no ledger or custody record is mutated on any of these.
#[derive(Clone, Copy, Debug, PartialEq, Eq, Structural)]
pub enum StakingError {
    /// `initialize` on a pool that already has a ledger.
    AlreadyInitialized,
    /// `initialize` with a fee above 100.
    InvalidFee,
    /// `stake` with a zero amount.
    InvalidAmount,
    /// The signer does not own the source custody record.
    Unauthorized,
    /// The source custody record holds less than the requested amount.
    InsufficientFunds,
    /// A ledger or custody increment would exceed the representable range.
    Overflow,
    /// The pool custody record holds less than the computed reward.
    InsufficientPoolFunds,
}

/// The reward paid out of a pool holding `total` under fee percentage `fee`:
/// the total minus the retained share `floor(total * fee / 100)`.
pub open spec fn reward_of(total: int, fee: int) -> int {
    total - total * fee / 100
}

} // verus!
