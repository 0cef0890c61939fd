use vstd::prelude::*;
use std::collections::HashMap;
use crate::error::ContractError;

verus! {

broadcast use vstd::std_specs::hash::group_hash_axioms;

/// Persisted intent: what to do once the result of one outgoing call arrives.
#[derive(Debug, Clone, PartialEq, Eq)]
pub enum PendingOperation {
    /// A child module is being instantiated to hold `name` for `owner`.
    InstantiateChild { name: String, owner: String },
    /// Tokens of `owner` are being locked.
    Lock { owner: String },
    /// The lock `lock_id` is being unlocked.
    Unlock { lock_id: u64 },
    /// Liquidity of `sender` is being added to `pool_id`; fewer than
    /// `min_shares` pool shares in return are refused.
    AddLiquidity { sender: String, pool_id: u64, min_shares: u128 },
    /// Shares of `sender` in `pool_id` are being exchanged for `denom_out`;
    /// fewer than `min_tokens_out` tokens in return are refused.
    RemoveLiquidity { sender: String, pool_id: u64, denom_out: String, min_tokens_out: u128 },
    /// Tokens of `owner` are being locked and delegated.
    LockAndDelegate { owner: String },
}

/// The pending operations of one module instance, keyed by correlation id,
/// with the next id that `begin_next` hands out.
pub struct ContinuationStore {
    entries: HashMap<u64, PendingOperation>,
    next_id: u64,
}

/// The id that follows `id` when ids are handed out in turn.
pub open spec fn following_id(id: u64) -> u64 {
    if id == u64::MAX {
        0
    } else {
        (id + 1) as u64
    }
}

/// `new` is what `begin(id, op)` on `old` leaves, with result `r`.
pub open spec fn begun(
    old: ContinuationStore,
    new: ContinuationStore,
    id: u64,
    op: PendingOperation,
    r: Result<(), ContractError>,
) -> bool {
    if old@.contains_key(id) {
        r == Err::<(), ContractError>(ContractError::Collision { id }) && new == old
    } else {
        &&& r is Ok
        &&& new@ == old@.insert(id, op)
        &&& new.spec_next_id() == old.spec_next_id()
    }
}

impl View for ContinuationStore {
    type V = Map<u64, PendingOperation>;

    closed spec fn view(&self) -> Map<u64, PendingOperation> {
        self.entries@
    }
}

impl ContinuationStore {
    /// The id that `begin_next` tries next.
    pub closed spec fn spec_next_id(&self) -> u64 {
        self.next_id
    }

    /// An empty store whose first handed-out id is 1.
    pub fn new() -> (r: Self)
        ensures
            r@ == Map::<u64, PendingOperation>::empty(),
            r.spec_next_id() == 1,
    {
        ContinuationStore { entries: HashMap::new(), next_id: 1 }
    }

    /// An empty store whose first handed-out id is `next_id`.
    pub fn with_next_id(next_id: u64) -> (r: Self)
        ensures
            r@ == Map::<u64, PendingOperation>::empty(),
            r.spec_next_id() == next_id,
    {
        ContinuationStore { entries: HashMap::new(), next_id }
    }

    /// The id that `begin_next` tries next.
    pub fn next_id(&self) -> (r: u64)
        ensures
            r == self.spec_next_id(),
    {
        self.next_id
    }

    /// Whether an operation is pending under `id`.
    pub fn contains(&self, id: u64) -> (r: bool)
        ensures
            r == self@.contains_key(id),
    {
        self.entries.contains_key(&id)
    }

    /// The operation pending under `id`, if any.
    pub fn get(&self, id: u64) -> (r: Option<&PendingOperation>)
        ensures
            r matches Some(p) ==> self@.contains_key(id) && self@[id] == *p,
            r is None ==> !self@.contains_key(id),
    {
        self.entries.get(&id)
    }

    /// Records `op` as pending under `id`; refused when `id` is already pending,
    /// and then nothing changes.
    pub fn begin(&mut self, id: u64, op: PendingOperation) -> (r: Result<(), ContractError>)
        ensures
            begun(*old(self), *final(self), id, op, r),
    {
        if self.entries.contains_key(&id) {
            return Err(ContractError::Collision { id });
        }
        self.entries.insert(id, op);
        Ok(())
    }

    /// Records `op` under the next id in turn and returns that id; refused when
    /// that id is still pending, and then nothing changes.
    pub fn begin_next(&mut self, op: PendingOperation) -> (r: Result<u64, ContractError>)
        ensures
            ({
                let id = old(self).spec_next_id();
                &&& old(self)@.contains_key(id) ==> r == Err::<u64, ContractError>(
                    ContractError::Collision { id },
                ) && *final(self) == *old(self)
                &&& !old(self)@.contains_key(id) ==> r == Ok::<u64, ContractError>(id)
                    && final(self)@ == old(self)@.insert(id, op)
                    && final(self).spec_next_id() == following_id(id)
            }),
    {
        let id = self.next_id;
        if self.entries.contains_key(&id) {
            return Err(ContractError::Collision { id });
        }
        self.entries.insert(id, op);
        self.next_id = if id == u64::MAX { 0 } else { id + 1 };
        Ok(id)
    }

    /// Clears the entry under `id`, if there is one.
    pub fn remove(&mut self, id: u64)
        ensures
            final(self)@ == old(self)@.remove(id),
            final(self).spec_next_id() == old(self).spec_next_id(),
    {
        self.entries.remove(&id);
    }
}

} // verus!
