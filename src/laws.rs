use vstd::prelude::*;
use crate::continuation::{begun, ContinuationStore, PendingOperation};
use crate::error::ContractError;
use crate::indexed::{is_owner_listing, UserRecord};
use crate::resolver::{paid_out_in, resolved, Resolution};
use crate::state::ModuleState;

verus! {

/// A record written by `put` is found under its id and listed under its owner.
pub proof fn lemma_put_then_found(m: Map<u64, UserRecord>, rec: UserRecord, out: Seq<UserRecord>)
    requires
        is_owner_listing(m.insert(rec.id, rec), rec.owner@, out),
    ensures
        m.insert(rec.id, rec).contains_key(rec.id),
        m.insert(rec.id, rec)[rec.id] == rec,
        out.contains(rec),
{
    let m2 = m.insert(rec.id, rec);
    assert(m2.contains_key(rec.id) && m2[rec.id].owner@ == rec.owner@);
    let i = choose|i: int| 0 <= i < out.len() && #[trigger] out[i].id == rec.id;
    assert(out[i] == rec);
}

/// A record stays where it is while other ids are written or removed: only
/// writing or removing its own id changes what is found under it.
pub proof fn lemma_other_ids_keep_record(
    m: Map<u64, UserRecord>,
    rec: UserRecord,
    other: UserRecord,
    gone: u64,
)
    requires
        m.contains_key(rec.id),
        m[rec.id] == rec,
        other.id != rec.id,
        gone != rec.id,
    ensures
        m.insert(other.id, other).contains_key(rec.id),
        m.insert(other.id, other)[rec.id] == rec,
        m.remove(gone).contains_key(rec.id),
        m.remove(gone)[rec.id] == rec,
{
}

/// A listing by owner holds each record of that owner exactly once, and no
/// record of anyone else.
pub proof fn lemma_listing_exactly_once(
    m: Map<u64, UserRecord>,
    owner: Seq<char>,
    out: Seq<UserRecord>,
    k: u64,
)
    requires
        is_owner_listing(m, owner, out),
    ensures
        m.contains_key(k) && m[k].owner@ == owner ==> exists|i: int|
            0 <= i < out.len() && out[i] == m[k] && forall|j: int|
                0 <= j < out.len() && out[j].id == k ==> j == i,
        forall|i: int| 0 <= i < out.len() ==> #[trigger] out[i].owner@ == owner,
{
    assert forall|i: int| 0 <= i < out.len() implies #[trigger] out[i].owner@ == owner by {
        assert(m.contains_key(out[i].id));
    }
    if m.contains_key(k) && m[k].owner@ == owner {
        let i = choose|i: int| 0 <= i < out.len() && #[trigger] out[i].id == k;
        assert forall|j: int| 0 <= j < out.len() && out[j].id == k implies j == i by {
            if j < i {
                assert(out[j].id < out[i].id);
            } else if j > i {
                assert(out[i].id < out[j].id);
            }
        }
    }
}

/// A second `begin` under an id that a first one took, before any resolution,
/// fails with `Collision` and leaves the first operation pending.
pub proof fn lemma_second_begin_collides(
    s0: ContinuationStore,
    s1: ContinuationStore,
    s2: ContinuationStore,
    id: u64,
    first: PendingOperation,
    second: PendingOperation,
    r1: Result<(), ContractError>,
    r2: Result<(), ContractError>,
)
    requires
        begun(s0, s1, id, first, r1),
        r1 is Ok,
        begun(s1, s2, id, second, r2),
    ensures
        r2 == Err::<(), ContractError>(ContractError::Collision { id }),
        s2 == s1,
        s2@.contains_key(id),
        s2@[id] == first,
{
}

/// Removing an id twice leaves what removing it once leaves; removing an
/// absent id leaves the records as they were.
pub proof fn lemma_remove_idempotent(m: Map<u64, UserRecord>, id: u64)
    ensures
        m.remove(id).remove(id) == m.remove(id),
        !m.contains_key(id) ==> m.remove(id) == m,
{
    assert(m.remove(id).remove(id) =~= m.remove(id));
    if !m.contains_key(id) {
        assert(m.remove(id) =~= m);
    }
}

/// A liquidity result below the minimum that the pending entry recorded fails
/// with `Threshold`, and the state after is the state before.
pub proof fn lemma_below_minimum_changes_nothing(
    old: ModuleState,
    new: ModuleState,
    id: u64,
    data: Option<Seq<u8>>,
    r: Result<Resolution, ContractError>,
    paid: u128,
)
    requires
        old.pending@.contains_key(id),
        resolved(old, new, id, data, r),
        paid_out_in(old.pending@[id], data) == Some(paid),
        match old.pending@[id] {
            PendingOperation::AddLiquidity { min_shares, .. } => paid < min_shares,
            PendingOperation::RemoveLiquidity { min_tokens_out, .. } => paid < min_tokens_out,
            _ => false,
        },
    ensures
        r matches Err(ContractError::Threshold { got, .. }) && got == paid,
        new == old,
{
}

} // verus!
