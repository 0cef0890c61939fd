use vstd::prelude::*;
use crate::amount::{amount_of, parse_amount};
use crate::continuation::{following_id, PendingOperation};
use crate::error::{ContractError, InvalidInput};
use crate::indexed::{IndexedStore, UserRecord};
use crate::locks::without_first;
use crate::messages::{Coin, Dispatch, Message, NotifyPolicy};
use crate::state::ModuleState;

verus! {

/// `new` is `old` with `op` pending under the next correlation id and
/// `message` dispatched under it; when that id is still pending, the result is
/// a `Collision` and nothing changed.
pub open spec fn dispatched(
    old: ModuleState,
    new: ModuleState,
    op: PendingOperation,
    message: Message,
    r: Result<Dispatch, ContractError>,
) -> bool {
    let id = old.pending.spec_next_id();
    if old.pending@.contains_key(id) {
        r == Err::<Dispatch, ContractError>(ContractError::Collision { id }) && new == old
    } else {
        &&& r == Ok::<Dispatch, ContractError>(
            Dispatch { message, correlation_id: id, notify: NotifyPolicy::OnSuccessOnly },
        )
        &&& new.pending@ == old.pending@.insert(id, op)
        &&& new.pending.spec_next_id() == following_id(id)
        &&& new.config == old.config
        &&& new.locks == old.locks
        &&& new.names == old.names
    }
}

/// Registers `op` under the next correlation id and dispatches `message`
/// under it, in one step.
fn begin_dispatch(st: &mut ModuleState, op: PendingOperation, message: Message) -> (r: Result<
    Dispatch,
    ContractError,
>)
    requires
        old(st).wf(),
    ensures
        final(st).wf(),
        dispatched(*old(st), *final(st), op, message, r),
{
    match st.pending.begin_next(op) {
        Ok(id) => Ok(Dispatch { message, correlation_id: id, notify: NotifyPolicy::OnSuccessOnly }),
        Err(e) => Err(e),
    }
}

/// Asks for a child module that holds `name` for `sender`.
pub fn add_name(st: &mut ModuleState, sender: &String, name: &String) -> (r: Result<
    Dispatch,
    ContractError,
>)
    requires
        old(st).wf(),
    ensures
        final(st).wf(),
        dispatched(
            *old(st),
            *final(st),
            (PendingOperation::InstantiateChild { name: *name, owner: *sender }),
            (Message::InstantiateChild {
                code_id: old(st).config.child_code_id,
                name: *name,
                label: *name,
            }),
            r,
        ),
{
    let op = PendingOperation::InstantiateChild { name: name.clone(), owner: sender.clone() };
    let message = Message::InstantiateChild {
        code_id: st.config.child_code_id,
        name: name.clone(),
        label: name.clone(),
    };
    begin_dispatch(st, op, message)
}

/// Asks to lock the first attached coin for `duration` seconds; only the owner
/// may, with at least one coin attached.
pub fn lock(
    st: &mut ModuleState,
    sender: &String,
    contract: &String,
    funds: &Vec<Coin>,
    duration: u64,
) -> (r: Result<Dispatch, ContractError>)
    requires
        old(st).wf(),
    ensures
        final(st).wf(),
        sender@ != old(st).config.owner@ ==> r == Err::<Dispatch, ContractError>(
            ContractError::Unauthorized,
        ) && *final(st) == *old(st),
        sender@ == old(st).config.owner@ && funds@.len() == 0 ==> r == Err::<
            Dispatch,
            ContractError,
        >(ContractError::Validation { input: InvalidInput::Funds }) && *final(st) == *old(st),
        sender@ == old(st).config.owner@ && funds@.len() > 0 ==> dispatched(
            *old(st),
            *final(st),
            (PendingOperation::Lock { owner: *sender }),
            (Message::LockTokens { owner: *contract, duration, coin: funds@[0] }),
            r,
        ),
{
    if *sender != st.config.owner {
        return Err(ContractError::Unauthorized);
    }
    if funds.len() == 0 {
        return Err(ContractError::Validation { input: InvalidInput::Funds });
    }
    let op = PendingOperation::Lock { owner: sender.clone() };
    let message = Message::LockTokens {
        owner: contract.clone(),
        duration,
        coin: funds[0].duplicate(),
    };
    begin_dispatch(st, op, message)
}

/// Asks to begin unlocking `lock_id`; only the owner may.
pub fn unlock(st: &mut ModuleState, sender: &String, contract: &String, lock_id: u64) -> (r:
    Result<Dispatch, ContractError>)
    requires
        old(st).wf(),
    ensures
        final(st).wf(),
        sender@ != old(st).config.owner@ ==> r == Err::<Dispatch, ContractError>(
            ContractError::Unauthorized,
        ) && *final(st) == *old(st),
        sender@ == old(st).config.owner@ ==> dispatched(
            *old(st),
            *final(st),
            (PendingOperation::Unlock { lock_id }),
            (Message::BeginUnlocking { owner: *contract, lock_id }),
            r,
        ),
{
    if *sender != st.config.owner {
        return Err(ContractError::Unauthorized);
    }
    let op = PendingOperation::Unlock { lock_id };
    let message = Message::BeginUnlocking { owner: contract.clone(), lock_id };
    begin_dispatch(st, op, message)
}

/// Asks to lock the first attached coin and delegate it to the configured
/// validator; only the owner may, with at least one coin attached.
pub fn lock_and_delegate(
    st: &mut ModuleState,
    sender: &String,
    contract: &String,
    funds: &Vec<Coin>,
) -> (r: Result<Dispatch, ContractError>)
    requires
        old(st).wf(),
    ensures
        final(st).wf(),
        sender@ != old(st).config.owner@ ==> r == Err::<Dispatch, ContractError>(
            ContractError::Unauthorized,
        ) && *final(st) == *old(st),
        sender@ == old(st).config.owner@ && funds@.len() == 0 ==> r == Err::<
            Dispatch,
            ContractError,
        >(ContractError::Validation { input: InvalidInput::Funds }) && *final(st) == *old(st),
        sender@ == old(st).config.owner@ && funds@.len() > 0 ==> dispatched(
            *old(st),
            *final(st),
            (PendingOperation::LockAndDelegate { owner: *sender }),
            (Message::LockAndDelegate {
                sender: *contract,
                coin: funds@[0],
                validator: old(st).config.validator,
            }),
            r,
        ),
{
    if *sender != st.config.owner {
        return Err(ContractError::Unauthorized);
    }
    if funds.len() == 0 {
        return Err(ContractError::Validation { input: InvalidInput::Funds });
    }
    let op = PendingOperation::LockAndDelegate { owner: sender.clone() };
    let message = Message::LockAndDelegate {
        sender: contract.clone(),
        coin: funds[0].duplicate(),
        validator: st.config.validator.clone(),
    };
    begin_dispatch(st, op, message)
}

/// Asks to add the one attached coin to `pool_id`, for at least `min_shares`
/// shares, which are sent to `sender` once the pool answers.
pub fn add_liquidity(
    st: &mut ModuleState,
    sender: &String,
    contract: &String,
    funds: &Vec<Coin>,
    pool_id: u64,
    min_shares: &String,
) -> (r: Result<Dispatch, ContractError>)
    requires
        old(st).wf(),
    ensures
        final(st).wf(),
        funds@.len() != 1 ==> r == Err::<Dispatch, ContractError>(
            ContractError::Validation { input: InvalidInput::Funds },
        ) && *final(st) == *old(st),
        funds@.len() == 1 && amount_of(min_shares@) is None ==> r == Err::<
            Dispatch,
            ContractError,
        >(ContractError::Validation { input: InvalidInput::Amount }) && *final(st) == *old(st),
        funds@.len() == 1 && amount_of(min_shares@) is Some ==> dispatched(
            *old(st),
            *final(st),
            (PendingOperation::AddLiquidity {
                sender: *sender,
                pool_id,
                min_shares: amount_of(min_shares@).unwrap(),
            }),
            (Message::JoinPool {
                sender: *contract,
                pool_id,
                token_in: funds@[0],
                min_shares: amount_of(min_shares@).unwrap(),
            }),
            r,
        ),
{
    if funds.len() != 1 {
        return Err(ContractError::Validation { input: InvalidInput::Funds });
    }
    let min = match parse_amount(min_shares) {
        Some(m) => m,
        None => {
            return Err(ContractError::Validation { input: InvalidInput::Amount });
        },
    };
    let op = PendingOperation::AddLiquidity { sender: sender.clone(), pool_id, min_shares: min };
    let message = Message::JoinPool {
        sender: contract.clone(),
        pool_id,
        token_in: funds[0].duplicate(),
        min_shares: min,
    };
    begin_dispatch(st, op, message)
}

/// Asks to exchange the pool shares attached, as the one coin, for at least
/// `min_tokens_out` of `denom_out`, which are sent to `sender` once the pool
/// answers.
pub fn remove_liquidity(
    st: &mut ModuleState,
    sender: &String,
    contract: &String,
    funds: &Vec<Coin>,
    pool_id: u64,
    denom_out: &String,
    min_tokens_out: &String,
) -> (r: Result<Dispatch, ContractError>)
    requires
        old(st).wf(),
    ensures
        final(st).wf(),
        funds@.len() != 1 ==> r == Err::<Dispatch, ContractError>(
            ContractError::Validation { input: InvalidInput::Funds },
        ) && *final(st) == *old(st),
        funds@.len() == 1 && amount_of(min_tokens_out@) is None ==> r == Err::<
            Dispatch,
            ContractError,
        >(ContractError::Validation { input: InvalidInput::Amount }) && *final(st) == *old(st),
        funds@.len() == 1 && amount_of(min_tokens_out@) is Some ==> dispatched(
            *old(st),
            *final(st),
            (PendingOperation::RemoveLiquidity {
                sender: *sender,
                pool_id,
                denom_out: *denom_out,
                min_tokens_out: amount_of(min_tokens_out@).unwrap(),
            }),
            (Message::ExitPool {
                sender: *contract,
                pool_id,
                denom_out: *denom_out,
                share_in: funds@[0].amount,
                min_tokens_out: amount_of(min_tokens_out@).unwrap(),
            }),
            r,
        ),
{
    if funds.len() != 1 {
        return Err(ContractError::Validation { input: InvalidInput::Funds });
    }
    let min = match parse_amount(min_tokens_out) {
        Some(m) => m,
        None => {
            return Err(ContractError::Validation { input: InvalidInput::Amount });
        },
    };
    let op = PendingOperation::RemoveLiquidity {
        sender: sender.clone(),
        pool_id,
        denom_out: denom_out.clone(),
        min_tokens_out: min,
    };
    let message = Message::ExitPool {
        sender: contract.clone(),
        pool_id,
        denom_out: denom_out.clone(),
        share_in: funds[0].amount,
        min_tokens_out: min,
    };
    begin_dispatch(st, op, message)
}

/// Undelegates and unbonds `lock_id`, forgetting it; only the owner may. No
/// result is awaited.
pub fn undelegate_and_unbond(st: &mut ModuleState, sender: &String, contract: &String, lock_id: u64) -> (r:
    Result<Vec<Message>, ContractError>)
    requires
        old(st).wf(),
    ensures
        final(st).wf(),
        sender@ != old(st).config.owner@ ==> r == Err::<Vec<Message>, ContractError>(
            ContractError::Unauthorized,
        ) && *final(st) == *old(st),
        sender@ == old(st).config.owner@ ==> (r matches Ok(msgs) && msgs@ == seq![
            Message::Undelegate { sender: *contract, lock_id },
            Message::UnbondLock { sender: *contract, lock_id },
        ]) && final(st).locks@ == without_first(old(st).locks@, lock_id) && final(st).pending
            == old(st).pending && final(st).config == old(st).config && final(st).names
            == old(st).names,
{
    if *sender != st.config.owner {
        return Err(ContractError::Unauthorized);
    }
    st.locks.discard(lock_id);
    let mut msgs: Vec<Message> = Vec::new();
    msgs.push(Message::Undelegate { sender: contract.clone(), lock_id });
    msgs.push(Message::UnbondLock { sender: contract.clone(), lock_id });
    Ok(msgs)
}

/// Sends `amount` of `denom` to `sender`.
pub fn withdraw(sender: &String, amount: &String, denom: &String) -> (r: Result<Message, ContractError>)
    ensures
        amount_of(amount@) is None ==> r == Err::<Message, ContractError>(
            ContractError::Validation { input: InvalidInput::Amount },
        ),
        amount_of(amount@) is Some ==> (r matches Ok(Message::Send { to, coins }) && to == *sender
            && coins@ == seq![Coin { denom: *denom, amount: amount_of(amount@).unwrap() }]),
{
    match parse_amount(amount) {
        Some(a) => {
            let mut coins: Vec<Coin> = Vec::new();
            coins.push(Coin { denom: denom.clone(), amount: a });
            Ok(Message::Send { to: sender.clone(), coins })
        },
        None => Err(ContractError::Validation { input: InvalidInput::Amount }),
    }
}

/// Sends `amount` of `denom` to the owner; only the owner may.
pub fn owner_withdraw(config: &crate::state::ModuleConfig, sender: &String, amount: &String, denom: &String) -> (r:
    Result<Message, ContractError>)
    ensures
        sender@ != config.owner@ ==> r == Err::<Message, ContractError>(
            ContractError::Unauthorized,
        ),
        sender@ == config.owner@ && amount_of(amount@) is None ==> r == Err::<
            Message,
            ContractError,
        >(ContractError::Validation { input: InvalidInput::Amount }),
        sender@ == config.owner@ && amount_of(amount@) is Some ==> (r matches Ok(
            Message::Send { to, coins },
        ) && to == *sender && coins@ == seq![
            Coin { denom: *denom, amount: amount_of(amount@).unwrap() },
        ]),
{
    if *sender != config.owner {
        return Err(ContractError::Unauthorized);
    }
    withdraw(sender, amount, denom)
}

/// Swaps the first attached coin through `pool_id` for at least
/// `amount_out_min` of `denom_out`. No result is awaited.
pub fn swap(
    contract: &String,
    funds: &Vec<Coin>,
    pool_id: u64,
    amount_out_min: &String,
    denom_out: &String,
) -> (r: Result<Message, ContractError>)
    ensures
        funds@.len() == 0 ==> r == Err::<Message, ContractError>(
            ContractError::Validation { input: InvalidInput::Funds },
        ),
        funds@.len() > 0 ==> r == Ok::<Message, ContractError>(
            Message::Swap {
                sender: *contract,
                pool_id,
                denom_out: *denom_out,
                token_in: funds@[0],
                min_out: *amount_out_min,
            },
        ),
{
    if funds.len() == 0 {
        return Err(ContractError::Validation { input: InvalidInput::Funds });
    }
    Ok(
        Message::Swap {
            sender: contract.clone(),
            pool_id,
            denom_out: denom_out.clone(),
            token_in: funds[0].duplicate(),
            min_out: amount_out_min.clone(),
        },
    )
}

/// Writes the record `id` of `sender` with `amount`.
pub fn set(store: &mut IndexedStore, sender: &String, id: u64, amount: u128)
    requires
        old(store).wf(),
    ensures
        final(store).wf(),
        final(store)@ == old(store)@.insert(id, UserRecord { id, owner: *sender, amount }),
{
    store.put(UserRecord { id, owner: sender.clone(), amount });
}

} // verus!
