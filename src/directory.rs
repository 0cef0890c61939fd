use vstd::prelude::*;
use crate::error::ContractError;

verus! {

/// What a party registered: a name, and the address of the child module that holds it.
#[derive(Debug, Clone, PartialEq, Eq)]
pub struct Name {
    pub name: String,
    pub contract: String,
}

impl View for Name {
    type V = (Seq<char>, Seq<char>);

    open spec fn view(&self) -> (Seq<char>, Seq<char>) {
        (self.name@, self.contract@)
    }
}

/// The answer to a query for the name that a party registered.
#[derive(Debug, Clone, PartialEq, Eq)]
pub struct YourNameResponse {
    pub name: String,
    pub contract: String,
}

/// The answer to a query to a child module: its name and the party that
/// instantiated it.
#[derive(Debug, Clone, PartialEq, Eq)]
pub struct GetContractResponse {
    pub name: String,
    pub owner: String,
}

/// What a child module created for `name` by `owner` reports of itself.
pub fn contract_info(name: &String, owner: &String) -> (r: GetContractResponse)
    ensures
        r.name == *name,
        r.owner == *owner,
{
    GetContractResponse { name: name.clone(), owner: owner.clone() }
}

/// Registered names, one per owner.
pub struct NameDirectory {
    entries: Vec<(String, Name)>,
    model: Ghost<Map<Seq<char>, (Seq<char>, Seq<char>)>>,
}

impl View for NameDirectory {
    type V = Map<Seq<char>, (Seq<char>, Seq<char>)>;

    closed spec fn view(&self) -> Map<Seq<char>, (Seq<char>, Seq<char>)> {
        self.model@
    }
}

impl NameDirectory {
    /// The entries list each owner of the model once, with its name.
    pub closed spec fn wf(&self) -> bool {
        &&& forall|i: int|
            0 <= i < self.entries@.len() ==> #[trigger] self.model@.contains_key(
                self.entries@[i].0@,
            ) && self.model@[self.entries@[i].0@] == self.entries@[i].1@
        &&& forall|k: Seq<char>|
            #[trigger] self.model@.contains_key(k) ==> exists|i: int|
                0 <= i < self.entries@.len() && #[trigger] self.entries@[i].0@ == k
        &&& forall|i: int, j: int|
            0 <= i < self.entries@.len() && 0 <= j < self.entries@.len() && i != j
                ==> self.entries@[i].0@ != self.entries@[j].0@
    }

    /// No names.
    pub fn new() -> (r: Self)
        ensures
            r.wf(),
            r@ == Map::<Seq<char>, (Seq<char>, Seq<char>)>::empty(),
    {
        NameDirectory { entries: Vec::new(), model: Ghost(Map::empty()) }
    }

    fn find(&self, owner: &String) -> (r: Option<usize>)
        requires
            self.wf(),
        ensures
            r matches Some(i) ==> i < self.entries@.len() && self.entries@[i as int].0@ == owner@,
            r is None ==> !self@.contains_key(owner@),
    {
        let mut i: usize = 0;
        while i < self.entries.len()
            invariant
                self.wf(),
                0 <= i <= self.entries@.len(),
                forall|j: int| 0 <= j < i ==> self.entries@[j].0@ != owner@,
            decreases self.entries@.len() - i,
        {
            if self.entries[i].0 == *owner {
                return Some(i);
            }
            i = i + 1;
        }
        None
    }

    /// The name that `owner` registered, if any.
    pub fn get(&self, owner: &String) -> (r: Option<&Name>)
        requires
            self.wf(),
        ensures
            r matches Some(n) ==> self@.contains_key(owner@) && self@[owner@] == n@,
            r is None ==> !self@.contains_key(owner@),
    {
        match self.find(owner) {
            Some(i) => {
                assert(self.model@.contains_key(self.entries@[i as int].0@));
                Some(&self.entries[i].1)
            },
            None => None,
        }
    }

    /// Registers `name` for `owner`, in place of what `owner` had.
    pub fn save(&mut self, owner: String, name: Name)
        requires
            old(self).wf(),
        ensures
            final(self).wf(),
            final(self)@ == old(self)@.insert(owner@, name@),
    {
        let ghost new_model = self.model@.insert(owner@, name@);
        match self.find(&owner) {
            Some(i) => {
                let ghost old_entries = self.entries@;
                self.entries.set(i, (owner, name));
                self.model = Ghost(new_model);
                assert forall|j: int| 0 <= j < self.entries@.len() && j != i implies self.entries@[j].0@
                    != self.entries@[i as int].0@ by {
                    assert(old_entries[j].0@ != old_entries[i as int].0@);
                }
                assert forall|j: int| 0 <= j < self.entries@.len() implies #[trigger] self.model@.contains_key(
                    self.entries@[j].0@) && self.model@[self.entries@[j].0@] == self.entries@[j].1@ by {
                    if j != i {
                        assert(old_entries[j].0@ != old_entries[i as int].0@);
                    }
                }
                assert forall|k: Seq<char>| #[trigger] self.model@.contains_key(k) implies exists|
                    j: int,
                | 0 <= j < self.entries@.len() && #[trigger] self.entries@[j].0@ == k by {
                    if k != self.entries@[i as int].0@ {
                        let j = choose|j: int|
                            0 <= j < old_entries.len() && #[trigger] old_entries[j].0@ == k;
                        assert(self.entries@[j].0@ == k);
                    }
                }
            },
            None => {
                let ghost old_entries = self.entries@;
                assert forall|j: int| 0 <= j < old_entries.len() implies old_entries[j].0@ != owner@ by {
                    assert(self.model@.contains_key(old_entries[j].0@));
                }
                self.entries.push((owner, name));
                self.model = Ghost(new_model);
                assert forall|k: Seq<char>| #[trigger] self.model@.contains_key(k) implies exists|
                    j: int,
                | 0 <= j < self.entries@.len() && #[trigger] self.entries@[j].0@ == k by {
                    if k != self.entries@[old_entries.len() as int].0@ {
                        let j = choose|j: int|
                            0 <= j < old_entries.len() && #[trigger] old_entries[j].0@ == k;
                        assert(self.entries@[j].0@ == k);
                    }
                }
            },
        }
    }

    /// The name that `owner` registered; `NotFound` when there is none.
    pub fn your_name(&self, owner: &String) -> (r: Result<YourNameResponse, ContractError>)
        requires
            self.wf(),
        ensures
            r matches Ok(resp) ==> self@.contains_key(owner@) && self@[owner@] == (
                resp.name@,
                resp.contract@,
            ),
            r is Err ==> r == Err::<YourNameResponse, ContractError>(ContractError::NotFound)
                && !self@.contains_key(owner@),
    {
        match self.get(owner) {
            Some(n) => Ok(YourNameResponse { name: n.name.clone(), contract: n.contract.clone() }),
            None => Err(ContractError::NotFound),
        }
    }
}

} // verus!
