use vstd::prelude::*;
use crate::amount::{amount_of, decimal_text, parse_amount, u64_text};
use crate::codec::{
    decode_exit_pool_response, decode_instantiate_response, decode_join_pool_response,
    decode_lock_and_delegate_response, decode_lock_response, decode_unlocking_response,
    delegated_lock_id_of, exited_tokens_of, instantiated_address_of, joined_shares_of,
    locked_id_of, unlocking_success_of,
};
use crate::continuation::PendingOperation;
use crate::directory::Name;
use crate::error::ContractError;
use crate::locks::{with_added, without_first};
use crate::messages::Coin;
use crate::state::ModuleState;

verus! {

broadcast use vstd::string::group_string_axioms;

/// What the host reports of an outgoing call: success, with the bytes the
/// callee answered with, if any, or failure with its reason.
#[derive(Debug, Clone, PartialEq, Eq)]
pub enum ReplyOutcome {
    Success { data: Option<Vec<u8>> },
    Failure { reason: String },
}

/// The effect that a successful resolution committed.
#[derive(Debug, Clone, PartialEq, Eq)]
pub enum Resolution {
    /// `owner` now has `name`, held by the child module at `contract`.
    ChildRegistered { owner: String, name: String, contract: String },
    /// `lock_id` is now held.
    Locked { lock_id: u64 },
    /// `lock_id` was given up.
    Unlocked { lock_id: u64 },
    /// `coin` is to be sent to `to`.
    Transfer { to: String, coin: Coin },
}

/// The reason given when the ledger answers that a lock cannot be unlocked.
pub open spec fn unlock_refused_reason() -> Seq<char> {
    "unlocking was refused"@
}

/// The denomination of the shares of `pool_id`.
pub open spec fn pool_share_denom(pool_id: u64) -> Seq<char> {
    "gamm/pool/"@ + decimal_text(pool_id as nat)
}

/// The characters of an optional string.
pub open spec fn text_of(s: Option<String>) -> Option<Seq<char>> {
    match s {
        Some(t) => Some(t@),
        None => None,
    }
}

/// The entry under `id` is cleared, and the configuration and the rest of the
/// pending entries kept.
pub open spec fn cleared(old: ModuleState, new: ModuleState, id: u64) -> bool {
    &&& new.pending@ == old.pending@.remove(id)
    &&& new.pending.spec_next_id() == old.pending.spec_next_id()
    &&& new.config == old.config
}

/// How a pending child instantiation settles, given the child's address.
pub open spec fn child_settled(
    old: ModuleState,
    new: ModuleState,
    id: u64,
    address: Option<Seq<char>>,
    r: Result<Resolution, ContractError>,
) -> bool {
    match old.pending@[id] {
        PendingOperation::InstantiateChild { name, owner } => match address {
            None => r == Err::<Resolution, ContractError>(ContractError::Decode) && new == old,
            Some(a) => {
                &&& cleared(old, new, id)
                &&& new.locks == old.locks
                &&& new.names@ == old.names@.insert(owner@, (name@, a))
                &&& r matches Ok(Resolution::ChildRegistered { owner: o, name: n, contract: c })
                &&& o == owner && n == name && c@ == a
            },
        },
        _ => false,
    }
}

/// How a pending lock settles, given the new lock id.
pub open spec fn lock_settled(
    old: ModuleState,
    new: ModuleState,
    id: u64,
    lock_id: Option<u64>,
    r: Result<Resolution, ContractError>,
) -> bool {
    match lock_id {
        None => r == Err::<Resolution, ContractError>(ContractError::Decode) && new == old,
        Some(l) => {
            &&& cleared(old, new, id)
            &&& new.names == old.names
            &&& new.locks@ == with_added(old.locks@, l)
            &&& r == Ok::<Resolution, ContractError>(Resolution::Locked { lock_id: l })
        },
    }
}

/// How a pending unlock settles, given whether the ledger began unlocking.
pub open spec fn unlock_settled(
    old: ModuleState,
    new: ModuleState,
    id: u64,
    success: Option<bool>,
    r: Result<Resolution, ContractError>,
) -> bool {
    match old.pending@[id] {
        PendingOperation::Unlock { lock_id } => match success {
            None => r == Err::<Resolution, ContractError>(ContractError::Decode) && new == old,
            Some(false) => new == old && (r matches Err(ContractError::UpstreamFailure { reason })
                && reason@ == unlock_refused_reason()),
            Some(true) => if !old.locks@.contains(lock_id) {
                r == Err::<Resolution, ContractError>(ContractError::NotFound) && new == old
            } else {
                &&& cleared(old, new, id)
                &&& new.names == old.names
                &&& new.locks@ == without_first(old.locks@, lock_id)
                &&& r == Ok::<Resolution, ContractError>(Resolution::Unlocked { lock_id })
            },
        },
        _ => false,
    }
}

/// The recipient, the denomination and the minimum of a pending liquidity
/// operation.
pub open spec fn liquidity_terms(op: PendingOperation) -> (Seq<char>, Seq<char>, u128) {
    match op {
        PendingOperation::AddLiquidity { sender, pool_id, min_shares } => (
            sender@,
            pool_share_denom(pool_id),
            min_shares,
        ),
        PendingOperation::RemoveLiquidity { sender, denom_out, min_tokens_out, .. } => (
            sender@,
            denom_out@,
            min_tokens_out,
        ),
        _ => (Seq::empty(), Seq::empty(), 0),
    }
}

/// How a pending liquidity operation settles, given the amount the pool paid out.
pub open spec fn liquidity_settled(
    old: ModuleState,
    new: ModuleState,
    id: u64,
    amount: Option<u128>,
    r: Result<Resolution, ContractError>,
) -> bool {
    let (to, denom, minimum) = liquidity_terms(old.pending@[id]);
    match amount {
        None => r == Err::<Resolution, ContractError>(ContractError::Decode) && new == old,
        Some(a) => if a < minimum {
            r == Err::<Resolution, ContractError>(ContractError::Threshold { got: a, minimum })
                && new == old
        } else {
            &&& cleared(old, new, id)
            &&& new.names == old.names
            &&& new.locks == old.locks
            &&& r matches Ok(Resolution::Transfer { to: t, coin })
            &&& t@ == to && coin.denom@ == denom && coin.amount == a
        },
    }
}

/// A pending operation that settles into a new lock id.
pub open spec fn is_lock_kind(op: PendingOperation) -> bool {
    op is Lock || op is LockAndDelegate
}

/// A pending operation that settles into a transfer.
pub open spec fn is_liquidity_kind(op: PendingOperation) -> bool {
    op is AddLiquidity || op is RemoveLiquidity
}

/// Settles the child instantiation pending under `id`, given the address that
/// the instantiation answered with (`None` when it could not be read).
pub fn settle_child(st: &mut ModuleState, id: u64, address: Option<String>) -> (r: Result<
    Resolution,
    ContractError,
>)
    requires
        old(st).wf(),
        old(st).pending@.contains_key(id),
        old(st).pending@[id] is InstantiateChild,
    ensures
        final(st).wf(),
        child_settled(*old(st), *final(st), id, text_of(address), r),
{
    let (name, owner) = match st.pending.get(id) {
        Some(PendingOperation::InstantiateChild { name, owner }) => (name.clone(), owner.clone()),
        _ => {
            assert(false);
            return Err(ContractError::Decode);
        },
    };
    match address {
        None => Err(ContractError::Decode),
        Some(contract) => {
            st.names.save(owner.clone(), Name { name: name.clone(), contract: contract.clone() });
            st.pending.remove(id);
            Ok(Resolution::ChildRegistered { owner, name, contract })
        },
    }
}

/// Settles the lock pending under `id`, given the lock id that the ledger
/// answered with (`None` when it could not be read).
pub fn settle_lock(st: &mut ModuleState, id: u64, lock_id: Option<u64>) -> (r: Result<
    Resolution,
    ContractError,
>)
    requires
        old(st).wf(),
        old(st).pending@.contains_key(id),
        is_lock_kind(old(st).pending@[id]),
    ensures
        final(st).wf(),
        lock_settled(*old(st), *final(st), id, lock_id, r),
{
    match lock_id {
        None => Err(ContractError::Decode),
        Some(l) => {
            st.locks.add(l);
            st.pending.remove(id);
            Ok(Resolution::Locked { lock_id: l })
        },
    }
}

/// Settles the unlock pending under `id`, given whether the ledger began
/// unlocking (`None` when its answer could not be read).
pub fn settle_unlock(st: &mut ModuleState, id: u64, success: Option<bool>) -> (r: Result<
    Resolution,
    ContractError,
>)
    requires
        old(st).wf(),
        old(st).pending@.contains_key(id),
        old(st).pending@[id] is Unlock,
    ensures
        final(st).wf(),
        unlock_settled(*old(st), *final(st), id, success, r),
{
    let lock_id = match st.pending.get(id) {
        Some(PendingOperation::Unlock { lock_id }) => *lock_id,
        _ => {
            assert(false);
            return Err(ContractError::Decode);
        },
    };
    match success {
        None => Err(ContractError::Decode),
        Some(false) => Err(ContractError::UpstreamFailure { reason: "unlocking was refused".to_string() }),
        Some(true) => {
            match st.locks.remove(lock_id) {
                Err(e) => Err(e),
                Ok(()) => {
                    st.pending.remove(id);
                    Ok(Resolution::Unlocked { lock_id })
                },
            }
        },
    }
}

fn share_denom(pool_id: u64) -> (r: String)
    ensures
        r@ == pool_share_denom(pool_id),
{
    let mut denom = "gamm/pool/".to_string();
    let digits = u64_text(pool_id);
    denom.append(digits.as_str());
    denom
}

/// Settles the liquidity operation pending under `id`, given the amount that
/// the pool paid out (`None` when its answer could not be read): below the
/// minimum the caller accepted it is refused, else it is sent on.
pub fn settle_liquidity(st: &mut ModuleState, id: u64, amount: Option<u128>) -> (r: Result<
    Resolution,
    ContractError,
>)
    requires
        old(st).wf(),
        old(st).pending@.contains_key(id),
        is_liquidity_kind(old(st).pending@[id]),
    ensures
        final(st).wf(),
        liquidity_settled(*old(st), *final(st), id, amount, r),
{
    let (to, denom, minimum) = match st.pending.get(id) {
        Some(PendingOperation::AddLiquidity { sender, pool_id, min_shares }) => (
            sender.clone(),
            share_denom(*pool_id),
            *min_shares,
        ),
        Some(PendingOperation::RemoveLiquidity { sender, denom_out, min_tokens_out, .. }) => (
            sender.clone(),
            denom_out.clone(),
            *min_tokens_out,
        ),
        _ => {
            assert(false);
            return Err(ContractError::Decode);
        },
    };
    match amount {
        None => Err(ContractError::Decode),
        Some(a) => {
            if a < minimum {
                return Err(ContractError::Threshold { got: a, minimum });
            }
            st.pending.remove(id);
            Ok(Resolution::Transfer { to, coin: Coin { denom, amount: a } })
        },
    }
}

/// The bytes of an optional answer.
pub open spec fn bytes_of(data: Option<Vec<u8>>) -> Option<Seq<u8>> {
    match data {
        Some(d) => Some(d@),
        None => None,
    }
}

/// The child address in an instantiation answer; none without an answer.
pub open spec fn address_in(data: Option<Seq<u8>>) -> Option<Seq<char>> {
    match data {
        Some(d) => instantiated_address_of(d),
        None => None,
    }
}

/// The lock id in the answer to `op`; none without an answer.
pub open spec fn lock_id_in(op: PendingOperation, data: Option<Seq<u8>>) -> Option<u64> {
    match data {
        Some(d) => if op is LockAndDelegate {
            delegated_lock_id_of(d)
        } else {
            locked_id_of(d)
        },
        None => None,
    }
}

/// Whether unlocking began, by the answer; an empty answer counts as success.
pub open spec fn unlocking_in(data: Option<Seq<u8>>) -> Option<bool> {
    match data {
        Some(d) => unlocking_success_of(d),
        None => Some(true),
    }
}

/// The amount paid out in the answer to the liquidity operation `op`; none
/// without an answer, or when it does not decode or is no 128-bit number.
pub open spec fn paid_out_in(op: PendingOperation, data: Option<Seq<u8>>) -> Option<u128> {
    match data {
        Some(d) => {
            let text = if op is AddLiquidity {
                joined_shares_of(d)
            } else {
                exited_tokens_of(d)
            };
            match text {
                Some(t) => amount_of(t),
                None => None,
            }
        },
        None => None,
    }
}

/// How the operation pending under `id` settles on a successful answer `data`,
/// decoded by the kind it recorded.
pub open spec fn resolved(
    old: ModuleState,
    new: ModuleState,
    id: u64,
    data: Option<Seq<u8>>,
    r: Result<Resolution, ContractError>,
) -> bool {
    let op = old.pending@[id];
    match op {
        PendingOperation::InstantiateChild { .. } => child_settled(old, new, id, address_in(data), r),
        PendingOperation::Lock { .. } => lock_settled(old, new, id, lock_id_in(op, data), r),
        PendingOperation::LockAndDelegate { .. } => lock_settled(old, new, id, lock_id_in(op, data), r),
        PendingOperation::Unlock { .. } => unlock_settled(old, new, id, unlocking_in(data), r),
        PendingOperation::AddLiquidity { .. } => liquidity_settled(old, new, id, paid_out_in(op, data), r),
        PendingOperation::RemoveLiquidity { .. } => liquidity_settled(old, new, id, paid_out_in(op, data), r),
    }
}

fn parse_paid_out(text: Option<String>) -> (r: Option<u128>)
    ensures
        r == match text_of(text) {
            Some(t) => amount_of(t),
            None => None::<u128>,
        },
{
    match text {
        Some(t) => parse_amount(&t),
        None => None,
    }
}

/// Receives the result of the outgoing call tagged `id`: loads the pending
/// entry (`NotFound` without one), fails with the upstream reason on a failure,
/// else decodes the answer by the recorded kind and settles the entry. On
/// every error nothing changes.
pub fn resolve(st: &mut ModuleState, id: u64, outcome: &ReplyOutcome) -> (r: Result<
    Resolution,
    ContractError,
>)
    requires
        old(st).wf(),
    ensures
        final(st).wf(),
        !old(st).pending@.contains_key(id) ==> r == Err::<Resolution, ContractError>(
            ContractError::NotFound,
        ) && *final(st) == *old(st),
        old(st).pending@.contains_key(id) ==> match *outcome {
            ReplyOutcome::Failure { reason } => r == Err::<Resolution, ContractError>(
                ContractError::UpstreamFailure { reason },
            ) && *final(st) == *old(st),
            ReplyOutcome::Success { data } => resolved(*old(st), *final(st), id, bytes_of(data), r),
        },
        r is Err ==> *final(st) == *old(st),
{
    let op = match st.pending.get(id) {
        None => {
            return Err(ContractError::NotFound);
        },
        Some(op) => op,
    };
    let data = match outcome {
        ReplyOutcome::Failure { reason } => {
            return Err(ContractError::UpstreamFailure { reason: reason.clone() });
        },
        ReplyOutcome::Success { data } => data,
    };
    match op {
        PendingOperation::InstantiateChild { .. } => {
            let address = match data {
                Some(d) => decode_instantiate_response(d),
                None => None,
            };
            settle_child(st, id, address)
        },
        PendingOperation::Lock { .. } => {
            let lock_id = match data {
                Some(d) => decode_lock_response(d),
                None => None,
            };
            settle_lock(st, id, lock_id)
        },
        PendingOperation::LockAndDelegate { .. } => {
            let lock_id = match data {
                Some(d) => decode_lock_and_delegate_response(d),
                None => None,
            };
            settle_lock(st, id, lock_id)
        },
        PendingOperation::Unlock { .. } => {
            let success = match data {
                Some(d) => decode_unlocking_response(d),
                None => Some(true),
            };
            settle_unlock(st, id, success)
        },
        PendingOperation::AddLiquidity { .. } => {
            let text = match data {
                Some(d) => decode_join_pool_response(d),
                None => None,
            };
            let amount = parse_paid_out(text);
            settle_liquidity(st, id, amount)
        },
        PendingOperation::RemoveLiquidity { .. } => {
            let text = match data {
                Some(d) => decode_exit_pool_response(d),
                None => None,
            };
            let amount = parse_paid_out(text);
            settle_liquidity(st, id, amount)
        },
    }
}

} // verus!
