use vstd::prelude::*;
use crate::continuation::{ContinuationStore, PendingOperation};
use crate::directory::NameDirectory;
use crate::locks::LockRegistry;

verus! {

/// What a module instance was set up with.
#[derive(Debug, Clone, PartialEq, Eq)]
pub struct ModuleConfig {
    /// The only party allowed to lock, unlock, delegate and withdraw.
    pub owner: String,
    /// The validator that locked tokens are delegated to.
    pub validator: String,
    /// The code that child modules are instantiated from.
    pub child_code_id: u64,
}

/// The persisted state of one module instance, as one invocation sees it.
pub struct ModuleState {
    pub config: ModuleConfig,
    pub pending: ContinuationStore,
    pub locks: LockRegistry,
    pub names: NameDirectory,
}

impl ModuleState {
    /// The name directory keeps its invariant.
    pub open spec fn wf(&self) -> bool {
        self.names.wf()
    }

    /// A fresh instance: nothing pending, no locks, no names.
    pub fn new(config: ModuleConfig) -> (r: Self)
        ensures
            r.wf(),
            r.config == config,
            r.pending@ == Map::<u64, PendingOperation>::empty(),
            r.pending.spec_next_id() == 1,
            r.locks@ == Seq::<u64>::empty(),
            r.names@ == Map::<Seq<char>, (Seq<char>, Seq<char>)>::empty(),
    {
        ModuleState {
            config,
            pending: ContinuationStore::new(),
            locks: LockRegistry::new(),
            names: NameDirectory::new(),
        }
    }
}

} // verus!
