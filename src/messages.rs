use vstd::prelude::*;

verus! {

/// An amount of one token.
#[derive(Debug, Clone, PartialEq, Eq)]
pub struct Coin {
    pub denom: String,
    pub amount: u128,
}

impl Coin {
    /// A copy equal to `self`.
    pub fn duplicate(&self) -> (r: Self)
        ensures
            r == *self,
    {
        Coin { denom: self.denom.clone(), amount: self.amount }
    }
}

/// When the host reports the result of an outgoing call back to the module.
#[derive(Debug, Clone, Copy, PartialEq, Eq)]
pub enum NotifyPolicy {
    /// Only a success comes back; a failure aborts the outer call chain.
    OnSuccessOnly,
    /// Success and failure both come back.
    Always,
}

/// A call that a module asks the host to make on its behalf.
#[derive(Debug, Clone, PartialEq, Eq)]
pub enum Message {
    /// Instantiate a child module from `code_id` that holds `name`.
    InstantiateChild { code_id: u64, name: String, label: String },
    /// Lock `coin` of `owner` for `duration` seconds.
    LockTokens { owner: String, duration: u64, coin: Coin },
    /// Begin unlocking the lock `lock_id` of `owner`.
    BeginUnlocking { owner: String, lock_id: u64 },
    /// Join `pool_id` with `token_in`, for at least `min_shares` shares.
    JoinPool { sender: String, pool_id: u64, token_in: Coin, min_shares: u128 },
    /// Exit `pool_id` with `share_in` shares, for at least `min_tokens_out` of `denom_out`.
    ExitPool {
        sender: String,
        pool_id: u64,
        denom_out: String,
        share_in: u128,
        min_tokens_out: u128,
    },
    /// Lock `coin` and delegate it to `validator`.
    LockAndDelegate { sender: String, coin: Coin, validator: String },
    /// Undelegate the lock `lock_id`.
    Undelegate { sender: String, lock_id: u64 },
    /// Unbond the lock `lock_id`.
    UnbondLock { sender: String, lock_id: u64 },
    /// Swap `token_in` through `pool_id` for at least `min_out` of `denom_out`.
    Swap { sender: String, pool_id: u64, denom_out: String, token_in: Coin, min_out: String },
    /// Send `coins` to `to`.
    Send { to: String, coins: Vec<Coin> },
}

/// One outgoing call whose result the module waits for, tagged with the
/// correlation id of its pending entry.
#[derive(Debug, Clone, PartialEq, Eq)]
pub struct Dispatch {
    pub message: Message,
    pub correlation_id: u64,
    pub notify: NotifyPolicy,
}

} // verus!
