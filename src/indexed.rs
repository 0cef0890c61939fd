use vstd::prelude::*;
use std::collections::HashMap;
use crate::sorted::{sorted_insert, sorted_remove, strictly_increasing};

verus! {

broadcast use vstd::std_specs::hash::group_hash_axioms;

/// One record of the store: `id` is its primary key, `owner` its secondary key.
#[derive(Debug, Clone, PartialEq, Eq)]
pub struct UserRecord {
    pub id: u64,
    pub owner: String,
    pub amount: u128,
}

impl UserRecord {
    /// A copy equal to `self`.
    pub fn duplicate(&self) -> (r: Self)
        ensures
            r == *self,
    {
        UserRecord { id: self.id, owner: self.owner.clone(), amount: self.amount }
    }
}

/// The primary keys of the records of one owner, ascending.
struct OwnerGroup {
    owner: String,
    ids: Vec<u64>,
}

/// Some group of `index` is `owner`'s and lists `id`.
spec fn indexed(index: Seq<OwnerGroup>, owner: Seq<char>, id: u64) -> bool {
    exists|g: int| 0 <= g < index.len() && #[trigger] index[g].owner@ == owner && index[g].ids@.contains(id)
}

/// No two groups have one owner, and each group lists its ids ascending.
spec fn index_wf(index: Seq<OwnerGroup>) -> bool {
    &&& forall|g: int| 0 <= g < index.len() ==> strictly_increasing(#[trigger] index[g].ids@)
    &&& forall|g: int, h: int|
        0 <= g < index.len() && 0 <= h < index.len() && g != h ==> #[trigger] index[g].owner@
            != #[trigger] index[h].owner@
}

/// Records keyed by id, with an index from owner to the ids of that owner's
/// records, kept consistent on every write.
pub struct IndexedStore {
    table: HashMap<u64, UserRecord>,
    index: Vec<OwnerGroup>,
}

/// `out` lists exactly the records of `m` whose owner is `owner`, by ascending id.
pub open spec fn is_owner_listing(m: Map<u64, UserRecord>, owner: Seq<char>, out: Seq<UserRecord>) -> bool {
    &&& forall|i: int, j: int| 0 <= i < j < out.len() ==> out[i].id < out[j].id
    &&& forall|i: int|
        0 <= i < out.len() ==> m.contains_key(#[trigger] out[i].id) && m[out[i].id] == out[i]
            && out[i].owner@ == owner
    &&& forall|k: u64|
        m.contains_key(k) && #[trigger] m[k].owner@ == owner ==> exists|i: int|
            0 <= i < out.len() && #[trigger] out[i].id == k
}

fn index_find(index: &Vec<OwnerGroup>, owner: &String) -> (r: Option<usize>)
    ensures
        r matches Some(g) ==> g < index@.len() && index@[g as int].owner@ == owner@,
        r is None ==> forall|g: int| 0 <= g < index@.len() ==> index@[g].owner@ != owner@,
{
    let mut g: usize = 0;
    while g < index.len()
        invariant
            g <= index@.len(),
            forall|h: int| 0 <= h < g ==> index@[h].owner@ != owner@,
        decreases index@.len() - g,
    {
        if index[g].owner == *owner {
            return Some(g);
        }
        g = g + 1;
    }
    None
}

/// Lists `id` under `owner`.
fn index_add(index: &mut Vec<OwnerGroup>, owner: &String, id: u64)
    requires
        index_wf(old(index)@),
    ensures
        index_wf(final(index)@),
        forall|o: Seq<char>, k: u64|
            indexed(final(index)@, o, k) <==> (indexed(old(index)@, o, k) || (o == owner@ && k
                == id)),
{
    let ghost old_index = index@;
    match index_find(index, owner) {
        Some(g) => {
            let mut ids = index[g].ids.clone();
            assert(ids@ == old_index[g as int].ids@);
            sorted_insert(&mut ids, id);
            let ghost new_ids = ids@;
            index.set(g, OwnerGroup { owner: owner.clone(), ids });
            assert forall|o: Seq<char>, k: u64|
                indexed(index@, o, k) <==> (indexed(old_index, o, k) || (o == owner@ && k == id)) by {
                if indexed(old_index, o, k) {
                    let h = choose|h: int|
                        0 <= h < old_index.len() && #[trigger] old_index[h].owner@ == o
                            && old_index[h].ids@.contains(k);
                    assert(index@[h].owner@ == o);
                    assert(index@[h].ids@.contains(k));
                }
                if o == owner@ && k == id {
                    assert(index@[g as int].owner@ == o);
                }
                if indexed(index@, o, k) {
                    let h = choose|h: int|
                        0 <= h < index@.len() && #[trigger] index@[h].owner@ == o
                            && index@[h].ids@.contains(k);
                    assert(old_index[h].owner@ == o);
                }
            }
            assert forall|h: int, h2: int|
                0 <= h < index@.len() && 0 <= h2 < index@.len() && h != h2 implies #[trigger] index@[h].owner@
                    != #[trigger] index@[h2].owner@ by {
                assert(old_index[h].owner@ != old_index[h2].owner@);
            }
        },
        None => {
            let mut ids: Vec<u64> = Vec::new();
            ids.push(id);
            index.push(OwnerGroup { owner: owner.clone(), ids });
            let ghost last = old_index.len() as int;
            assert(index@[last].ids@[0] == id);
            assert forall|o: Seq<char>, k: u64|
                indexed(index@, o, k) <==> (indexed(old_index, o, k) || (o == owner@ && k == id)) by {
                if indexed(old_index, o, k) {
                    let h = choose|h: int|
                        0 <= h < old_index.len() && #[trigger] old_index[h].owner@ == o
                            && old_index[h].ids@.contains(k);
                    assert(index@[h].owner@ == o);
                    assert(index@[h].ids@.contains(k));
                }
                if o == owner@ && k == id {
                    assert(index@[last].owner@ == o);
                    assert(index@[last].ids@.contains(k));
                }
                if indexed(index@, o, k) {
                    let h = choose|h: int|
                        0 <= h < index@.len() && #[trigger] index@[h].owner@ == o
                            && index@[h].ids@.contains(k);
                    if h < last {
                        assert(old_index[h].owner@ == o);
                    } else {
                        assert(index@[last].ids@ == seq![id]);
                    }
                }
            }
            assert forall|h: int, h2: int|
                0 <= h < index@.len() && 0 <= h2 < index@.len() && h != h2 implies #[trigger] index@[h].owner@
                    != #[trigger] index@[h2].owner@ by {
                if h < last && h2 < last {
                    assert(old_index[h].owner@ != old_index[h2].owner@);
                }
            }
            assert(strictly_increasing(index@[last].ids@));
        },
    }
}

/// Takes `id` off the list of `owner`.
fn index_remove(index: &mut Vec<OwnerGroup>, owner: &String, id: u64)
    requires
        index_wf(old(index)@),
    ensures
        index_wf(final(index)@),
        forall|o: Seq<char>, k: u64|
            indexed(final(index)@, o, k) <==> (indexed(old(index)@, o, k) && !(o == owner@ && k
                == id)),
{
    let ghost old_index = index@;
    match index_find(index, owner) {
        Some(g) => {
            let mut ids = index[g].ids.clone();
            assert(ids@ == old_index[g as int].ids@);
            sorted_remove(&mut ids, id);
            index.set(g, OwnerGroup { owner: owner.clone(), ids });
            assert forall|o: Seq<char>, k: u64|
                indexed(index@, o, k) <==> (indexed(old_index, o, k) && !(o == owner@ && k == id)) by {
                if indexed(old_index, o, k) && !(o == owner@ && k == id) {
                    let h = choose|h: int|
                        0 <= h < old_index.len() && #[trigger] old_index[h].owner@ == o
                            && old_index[h].ids@.contains(k);
                    assert(index@[h].owner@ == o);
                    assert(index@[h].ids@.contains(k));
                }
                if indexed(index@, o, k) {
                    let h = choose|h: int|
                        0 <= h < index@.len() && #[trigger] index@[h].owner@ == o
                            && index@[h].ids@.contains(k);
                    assert(old_index[h].owner@ == o);
                    if h != g {
                        assert(old_index[h].owner@ != old_index[g as int].owner@);
                    }
                }
            }
            assert forall|h: int, h2: int|
                0 <= h < index@.len() && 0 <= h2 < index@.len() && h != h2 implies #[trigger] index@[h].owner@
                    != #[trigger] index@[h2].owner@ by {
                assert(old_index[h].owner@ != old_index[h2].owner@);
            }
        },
        None => {
            assert forall|o: Seq<char>, k: u64| indexed(index@, o, k) implies !(o == owner@) by {
                let h = choose|h: int|
                    0 <= h < index@.len() && #[trigger] index@[h].owner@ == o
                        && index@[h].ids@.contains(k);
            }
        },
    }
}

impl View for IndexedStore {
    type V = Map<u64, UserRecord>;

    closed spec fn view(&self) -> Map<u64, UserRecord> {
        self.table@
    }
}

impl IndexedStore {
    /// Each record sits under its own id, and the index lists exactly the
    /// pairs of owner and id of the records.
    pub closed spec fn wf(&self) -> bool {
        &&& forall|k: u64| #[trigger] self.table@.contains_key(k) ==> self.table@[k].id == k
        &&& index_wf(self.index@)
        &&& forall|o: Seq<char>, k: u64|
            #[trigger] indexed(self.index@, o, k) <==> (self.table@.contains_key(k)
                && self.table@[k].owner@ == o)
    }

    /// No records.
    pub fn new() -> (r: Self)
        ensures
            r.wf(),
            r@ == Map::<u64, UserRecord>::empty(),
    {
        IndexedStore { table: HashMap::new(), index: Vec::new() }
    }

    /// The record under `id`, if any.
    pub fn get(&self, id: u64) -> (r: Option<UserRecord>)
        requires
            self.wf(),
        ensures
            r matches Some(rec) ==> self@.contains_key(id) && self@[id] == rec,
            r is None ==> !self@.contains_key(id),
    {
        match self.table.get(&id) {
            Some(rec) => Some(rec.duplicate()),
            None => None,
        }
    }

    /// Writes `rec` under its id, in place of what was there, and moves it in
    /// the index when its owner changed.
    pub fn put(&mut self, rec: UserRecord)
        requires
            old(self).wf(),
        ensures
            final(self).wf(),
            final(self)@ == old(self)@.insert(rec.id, rec),
    {
        let ghost old_table = self.table@;
        let ghost old_index = self.index@;
        let id = rec.id;
        match self.table.get(&id) {
            Some(prev) => {
                if prev.owner != rec.owner {
                    let prev_owner = prev.owner.clone();
                    index_remove(&mut self.index, &prev_owner, id);
                }
            },
            None => {},
        }
        let ghost mid_index = self.index@;
        index_add(&mut self.index, &rec.owner, id);
        let ghost new_owner = rec.owner@;
        self.table.insert(id, rec);
        proof {
            assert forall|o: Seq<char>, k: u64|
                #[trigger] indexed(self.index@, o, k) <==> (self.table@.contains_key(k)
                    && self.table@[k].owner@ == o) by {
                if k == id {
                    if old_table.contains_key(id) && old_table[id].owner@ == o && o != new_owner {
                        assert(!indexed(mid_index, o, k));
                    }
                }
                assert(indexed(old_index, o, k) <==> (old_table.contains_key(k) && old_table[k].owner@ == o));
            }
        }
    }

    /// Deletes the record under `id` and its index entry; nothing changes when
    /// there is none.
    pub fn remove(&mut self, id: u64)
        requires
            old(self).wf(),
        ensures
            final(self).wf(),
            final(self)@ == old(self)@.remove(id),
            !old(self)@.contains_key(id) ==> *final(self) == *old(self),
    {
        let ghost old_table = self.table@;
        let ghost old_index = self.index@;
        let owner = match self.table.get(&id) {
            Some(prev) => prev.owner.clone(),
            None => {
                assert(old_table.remove(id) =~= old_table);
                return;
            },
        };
        index_remove(&mut self.index, &owner, id);
        self.table.remove(&id);
        proof {
            assert forall|o: Seq<char>, k: u64|
                #[trigger] indexed(self.index@, o, k) <==> (self.table@.contains_key(k)
                    && self.table@[k].owner@ == o) by {
                assert(indexed(old_index, o, k) <==> (old_table.contains_key(k) && old_table[k].owner@ == o));
            }
        }
    }

    /// The records of `owner`, by ascending id.
    pub fn get_by_owner(&self, owner: &String) -> (r: Vec<UserRecord>)
        requires
            self.wf(),
        ensures
            is_owner_listing(self@, owner@, r@),
    {
        let mut out: Vec<UserRecord> = Vec::new();
        match index_find(&self.index, owner) {
            None => {
                assert forall|k: u64|
                    self@.contains_key(k) && #[trigger] self@[k].owner@ == owner@ implies false by {
                    assert(indexed(self.index@, owner@, k));
                }
            },
            Some(g) => {
                let ids = &self.index[g].ids;
                let ghost gs = ids@;
                assert(strictly_increasing(gs));
                let mut j: usize = 0;
                while j < ids.len()
                    invariant
                        self.wf(),
                        gs == ids@,
                        g < self.index@.len(),
                        gs == self.index@[g as int].ids@,
                        self.index@[g as int].owner@ == owner@,
                        strictly_increasing(gs),
                        j <= gs.len(),
                        out@.len() == j,
                        forall|t: int| 0 <= t < j ==> #[trigger] out@[t].id == gs[t],
                        forall|t: int|
                            0 <= t < j ==> self@.contains_key(#[trigger] out@[t].id)
                                && self@[out@[t].id] == out@[t] && out@[t].owner@ == owner@,
                    decreases gs.len() - j,
                {
                    let id = ids[j];
                    proof {
                        assert(gs.contains(id));
                        assert(indexed(self.index@, owner@, id));
                    }
                    match self.table.get(&id) {
                        Some(rec) => {
                            out.push(rec.duplicate());
                        },
                        None => {
                            assert(false);
                        },
                    }
                    j = j + 1;
                }
                proof {
                    assert forall|k: u64|
                        self@.contains_key(k) && #[trigger] self@[k].owner@ == owner@ implies exists|i: int|
                            0 <= i < out@.len() && #[trigger] out@[i].id == k by {
                        assert(indexed(self.index@, owner@, k));
                        let h = choose|h: int|
                            0 <= h < self.index@.len() && #[trigger] self.index@[h].owner@ == owner@
                                && self.index@[h].ids@.contains(k);
                        if h != g {
                            assert(self.index@[h].owner@ != self.index@[g as int].owner@);
                        }
                        let t = choose|t: int| 0 <= t < gs.len() && gs[t] == k;
                        assert(out@[t].id == k);
                    }
                }
            },
        }
        out
    }
}

} // verus!
