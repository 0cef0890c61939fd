use cw_continuations::amount::parse_amount;
use cw_continuations::continuation::PendingOperation;
use cw_continuations::directory::{contract_info, YourNameResponse};
use cw_continuations::dispatch::{
    add_liquidity, add_name, lock, lock_and_delegate, owner_withdraw, remove_liquidity, swap,
    undelegate_and_unbond, unlock, withdraw,
};
use cw_continuations::error::{ContractError, InvalidInput};
use cw_continuations::locks::LockRegistry;
use cw_continuations::messages::{Coin, Dispatch, Message, NotifyPolicy};
use cw_continuations::resolver::{resolve, settle_child, ReplyOutcome, Resolution};
use cw_continuations::state::{ModuleConfig, ModuleState};

fn state() -> ModuleState {
    ModuleState::new(ModuleConfig {
        owner: "owner".to_string(),
        validator: "validator".to_string(),
        child_code_id: 1,
    })
}

fn s(x: &str) -> String {
    x.to_string()
}

fn coin(denom: &str, amount: u128) -> Coin {
    Coin { denom: s(denom), amount }
}

fn instantiate_response(address: &str) -> Vec<u8> {
    let mut bytes = vec![0x0a, address.len() as u8];
    bytes.extend_from_slice(address.as_bytes());
    bytes
}

#[test]
fn execute_add_name() {
    let mut st = state();
    let d = add_name(&mut st, &s("anyone"), &s("Test")).unwrap();
    assert_eq!(
        st.pending.get(1),
        Some(&PendingOperation::InstantiateChild { name: s("Test"), owner: s("anyone") })
    );
    assert_eq!(
        d,
        Dispatch {
            message: Message::InstantiateChild { code_id: 1, name: s("Test"), label: s("Test") },
            correlation_id: 1,
            notify: NotifyPolicy::OnSuccessOnly,
        }
    );
}

#[test]
fn proper_initialization() {
    let info = contract_info(&s("HelloWorld"), &s("creator"));
    assert_eq!("HelloWorld", info.name);
    assert_eq!("creator", info.owner);
}

#[test]
fn child_registration_completes_add_name() {
    let mut st = state();
    let d = add_name(&mut st, &s("alice"), &s("Alice")).unwrap();
    let reply = ReplyOutcome::Success { data: Some(instantiate_response("child0")) };
    let out = resolve(&mut st, d.correlation_id, &reply);
    assert_eq!(
        out,
        Ok(Resolution::ChildRegistered { owner: s("alice"), name: s("Alice"), contract: s("child0") })
    );
    assert!(!st.pending.contains(d.correlation_id));
    assert_eq!(
        st.names.your_name(&s("alice")),
        Ok(YourNameResponse { name: s("Alice"), contract: s("child0") })
    );
    assert_eq!(st.names.your_name(&s("bob")), Err(ContractError::NotFound));
}

#[test]
fn child_registration_without_address_is_decode_error() {
    let mut st = state();
    let d = add_name(&mut st, &s("alice"), &s("Alice")).unwrap();
    assert_eq!(settle_child(&mut st, d.correlation_id, None), Err(ContractError::Decode));
    assert!(st.pending.contains(d.correlation_id));
    assert_eq!(
        settle_child(&mut st, d.correlation_id, Some(s("child9"))),
        Ok(Resolution::ChildRegistered { owner: s("alice"), name: s("Alice"), contract: s("child9") })
    );
}

#[test]
fn lock_dispatches_and_registers_continuation() {
    let mut st = state();
    let funds = vec![coin("uosmo", 100)];
    let d = lock(&mut st, &s("owner"), &s("me"), &funds, 60).unwrap();
    assert_eq!(
        d,
        Dispatch {
            message: Message::LockTokens { owner: s("me"), duration: 60, coin: coin("uosmo", 100) },
            correlation_id: 1,
            notify: NotifyPolicy::OnSuccessOnly,
        }
    );
    assert_eq!(st.pending.get(1), Some(&PendingOperation::Lock { owner: s("owner") }));
    assert_eq!(st.pending.next_id(), 2);
}

#[test]
fn lock_checks_authority_then_funds() {
    let mut st = state();
    let funds = vec![coin("uosmo", 100)];
    assert_eq!(lock(&mut st, &s("mallory"), &s("me"), &funds, 60), Err(ContractError::Unauthorized));
    assert_eq!(
        lock(&mut st, &s("owner"), &s("me"), &vec![], 60),
        Err(ContractError::Validation { input: InvalidInput::Funds })
    );
    assert!(!st.pending.contains(1));
}

#[test]
fn unlock_dispatches_begin_unlocking() {
    let mut st = state();
    assert_eq!(unlock(&mut st, &s("bob"), &s("me"), 4), Err(ContractError::Unauthorized));
    let d = unlock(&mut st, &s("owner"), &s("me"), 4).unwrap();
    assert_eq!(d.message, Message::BeginUnlocking { owner: s("me"), lock_id: 4 });
    assert_eq!(st.pending.get(d.correlation_id), Some(&PendingOperation::Unlock { lock_id: 4 }));
}

#[test]
fn lock_and_delegate_uses_configured_validator() {
    let mut st = state();
    let funds = vec![coin("gamm/pool/1", 5)];
    let d = lock_and_delegate(&mut st, &s("owner"), &s("me"), &funds).unwrap();
    assert_eq!(
        d.message,
        Message::LockAndDelegate { sender: s("me"), coin: coin("gamm/pool/1", 5), validator: s("validator") }
    );
    assert_eq!(
        lock_and_delegate(&mut st, &s("owner"), &s("me"), &vec![]),
        Err(ContractError::Validation { input: InvalidInput::Funds })
    );
}

#[test]
fn add_liquidity_takes_exactly_one_coin() {
    let mut st = state();
    let two = vec![coin("a", 1), coin("b", 2)];
    assert_eq!(
        add_liquidity(&mut st, &s("alice"), &s("me"), &two, 7, &s("10")),
        Err(ContractError::Validation { input: InvalidInput::Funds })
    );
    let one = vec![coin("uosmo", 50)];
    assert_eq!(
        add_liquidity(&mut st, &s("alice"), &s("me"), &one, 7, &s("ten")),
        Err(ContractError::Validation { input: InvalidInput::Amount })
    );
    let d = add_liquidity(&mut st, &s("alice"), &s("me"), &one, 7, &s("10")).unwrap();
    assert_eq!(
        d.message,
        Message::JoinPool { sender: s("me"), pool_id: 7, token_in: coin("uosmo", 50), min_shares: 10 }
    );
    assert_eq!(
        st.pending.get(d.correlation_id),
        Some(&PendingOperation::AddLiquidity { sender: s("alice"), pool_id: 7, min_shares: 10 })
    );
}

#[test]
fn remove_liquidity_dispatches_exit() {
    let mut st = state();
    let one = vec![coin("gamm/pool/3", 40)];
    let d = remove_liquidity(&mut st, &s("bob"), &s("me"), &one, 3, &s("uosmo"), &s("+25")).unwrap();
    assert_eq!(
        d.message,
        Message::ExitPool {
            sender: s("me"),
            pool_id: 3,
            denom_out: s("uosmo"),
            share_in: 40,
            min_tokens_out: 25,
        }
    );
    assert_eq!(
        remove_liquidity(&mut st, &s("bob"), &s("me"), &vec![], 3, &s("uosmo"), &s("25")),
        Err(ContractError::Validation { input: InvalidInput::Funds })
    );
}

#[test]
fn undelegate_forgets_lock() {
    let mut st = state();
    st.locks = LockRegistry::from_ids(vec![1, 2, 3]);
    assert_eq!(undelegate_and_unbond(&mut st, &s("eve"), &s("me"), 1), Err(ContractError::Unauthorized));
    let msgs = undelegate_and_unbond(&mut st, &s("owner"), &s("me"), 1).unwrap();
    assert_eq!(
        msgs,
        vec![
            Message::Undelegate { sender: s("me"), lock_id: 1 },
            Message::UnbondLock { sender: s("me"), lock_id: 1 },
        ]
    );
    assert_eq!(st.locks.get_locks().locks, vec![3, 2]);
    undelegate_and_unbond(&mut st, &s("owner"), &s("me"), 9).unwrap();
    assert_eq!(st.locks.get_locks().locks, vec![3, 2]);
}

#[test]
fn withdraw_parses_amount() {
    assert_eq!(
        withdraw(&s("alice"), &s("100"), &s("uosmo")),
        Ok(Message::Send { to: s("alice"), coins: vec![coin("uosmo", 100)] })
    );
    assert_eq!(
        withdraw(&s("alice"), &s("1e3"), &s("uosmo")),
        Err(ContractError::Validation { input: InvalidInput::Amount })
    );
    assert_eq!(
        owner_withdraw(&state().config, &s("alice"), &s("100"), &s("uosmo")),
        Err(ContractError::Unauthorized)
    );
    assert_eq!(
        owner_withdraw(&state().config, &s("owner"), &s("7"), &s("uatom")),
        Ok(Message::Send { to: s("owner"), coins: vec![coin("uatom", 7)] })
    );
}

#[test]
fn parse_amount_reads_decimal_text() {
    assert_eq!(parse_amount(&s("0")), Some(0));
    assert_eq!(parse_amount(&s("+42")), Some(42));
    assert_eq!(parse_amount(&s("340282366920938463463374607431768211455")), Some(u128::MAX));
    assert_eq!(parse_amount(&s("340282366920938463463374607431768211456")), None);
    assert_eq!(parse_amount(&s("")), None);
    assert_eq!(parse_amount(&s("-1")), None);
}

#[test]
fn swap_needs_funds() {
    assert_eq!(
        swap(&s("me"), &vec![], 1, &s("5"), &s("uion")),
        Err(ContractError::Validation { input: InvalidInput::Funds })
    );
    assert_eq!(
        swap(&s("me"), &vec![coin("uosmo", 9)], 1, &s("5"), &s("uion")),
        Ok(Message::Swap {
            sender: s("me"),
            pool_id: 1,
            denom_out: s("uion"),
            token_in: coin("uosmo", 9),
            min_out: s("5"),
        })
    );
}
