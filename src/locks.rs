use vstd::prelude::*;
use crate::error::ContractError;

verus! {

/// The lock ids that a module holds, in the order the query reports them.
pub struct LockRegistry {
    ids: Vec<u64>,
}

/// The answer to a query for the lock ids.
#[derive(Debug, Clone, PartialEq, Eq)]
pub struct GetLockResponse {
    pub locks: Vec<u64>,
}

/// `s` with its element at `i` replaced by its last element, and shortened by one.
pub open spec fn swap_removed(s: Seq<u64>, i: int) -> Seq<u64> {
    s.update(i, s.last()).drop_last()
}

/// `i` is the first position of `x` in `s`.
pub open spec fn is_first_index(s: Seq<u64>, x: u64, i: int) -> bool {
    &&& 0 <= i < s.len()
    &&& s[i] == x
    &&& forall|j: int| 0 <= j < i ==> s[j] != x
}

/// `s` with the first occurrence of `x` taken out by a swap with the last element.
pub open spec fn without_first(s: Seq<u64>, x: u64) -> Seq<u64> {
    if s.contains(x) {
        swap_removed(s, choose|i: int| is_first_index(s, x, i))
    } else {
        s
    }
}

/// `s` with `x` appended unless it is already there.
pub open spec fn with_added(s: Seq<u64>, x: u64) -> Seq<u64> {
    if s.contains(x) {
        s
    } else {
        s.push(x)
    }
}

proof fn lemma_first_index_unique(s: Seq<u64>, x: u64, i: int)
    requires
        is_first_index(s, x, i),
    ensures
        s.contains(x),
        (choose|k: int| is_first_index(s, x, k)) == i,
{
    let k = choose|k: int| is_first_index(s, x, k);
    assert(is_first_index(s, x, k));
    assert(s[i] == x);
}

impl View for LockRegistry {
    type V = Seq<u64>;

    closed spec fn view(&self) -> Seq<u64> {
        self.ids@
    }
}

impl LockRegistry {
    /// No lock ids.
    pub fn new() -> (r: Self)
        ensures
            r@ == Seq::<u64>::empty(),
    {
        LockRegistry { ids: Vec::new() }
    }

    /// The given lock ids, in the given order.
    pub fn from_ids(ids: Vec<u64>) -> (r: Self)
        ensures
            r@ == ids@,
    {
        LockRegistry { ids }
    }

    /// Whether `id` is held.
    pub fn contains(&self, id: u64) -> (r: bool)
        ensures
            r == self@.contains(id),
    {
        self.position(id).is_some()
    }

    /// The first position of `id`, if it is held.
    fn position(&self, id: u64) -> (r: Option<usize>)
        ensures
            r matches Some(i) ==> is_first_index(self@, id, i as int),
            r is None ==> !self@.contains(id),
    {
        let mut i: usize = 0;
        while i < self.ids.len()
            invariant
                0 <= i <= self.ids@.len(),
                forall|j: int| 0 <= j < i ==> self.ids@[j] != id,
            decreases self.ids@.len() - i,
        {
            if self.ids[i] == id {
                return Some(i);
            }
            i = i + 1;
        }
        None
    }

    /// Holds `id`, once: an id already held is not added again.
    pub fn add(&mut self, id: u64)
        ensures
            final(self)@ == with_added(old(self)@, id),
    {
        if self.position(id).is_none() {
            self.ids.push(id);
        }
    }

    /// Gives up `id`, which must be held: else `NotFound`, and nothing changes.
    /// The last id takes the place of the one given up.
    pub fn remove(&mut self, id: u64) -> (r: Result<(), ContractError>)
        ensures
            !old(self)@.contains(id) ==> r == Err::<(), ContractError>(ContractError::NotFound)
                && *final(self) == *old(self),
            old(self)@.contains(id) ==> r is Ok && final(self)@ == without_first(old(self)@, id),
    {
        match self.position(id) {
            None => Err(ContractError::NotFound),
            Some(i) => {
                proof {
                    lemma_first_index_unique(self@, id, i as int);
                }
                self.ids.swap_remove(i);
                Ok(())
            },
        }
    }

    /// Gives up `id` if it is held; else nothing changes.
    pub fn discard(&mut self, id: u64)
        ensures
            final(self)@ == without_first(old(self)@, id),
    {
        if let Some(i) = self.position(id) {
            proof {
                lemma_first_index_unique(self@, id, i as int);
            }
            self.ids.swap_remove(i);
        }
    }

    /// The lock ids, in order.
    pub fn get_locks(&self) -> (r: GetLockResponse)
        ensures
            r.locks@ == self@,
    {
        GetLockResponse { locks: self.ids.clone() }
    }
}

} // verus!
