use cosmwasm_std::Binary;
use cw_continuations::continuation::{ContinuationStore, PendingOperation};
use cw_continuations::error::ContractError;
use cw_continuations::locks::LockRegistry;
use cw_continuations::resolver::{resolve, settle_liquidity, ReplyOutcome, Resolution};
use cw_continuations::state::{ModuleConfig, ModuleState};
use cw_continuations::messages::Coin;
use osmosis_std::types::osmosis::gamm::v1beta1::{
    MsgExitSwapShareAmountInResponse, MsgJoinSwapExternAmountInResponse,
};
use osmosis_std::types::osmosis::lockup::{MsgBeginUnlockingResponse, MsgLockTokensResponse};
use osmosis_std::types::osmosis::superfluid::MsgLockAndSuperfluidDelegateResponse;

fn state() -> ModuleState {
    ModuleState::new(ModuleConfig {
        owner: "owner".to_string(),
        validator: "validator".to_string(),
        child_code_id: 1,
    })
}

fn success(bytes: Binary) -> ReplyOutcome {
    ReplyOutcome::Success { data: Some(bytes.to_vec()) }
}

#[test]
fn second_begin_collides() {
    let mut store = ContinuationStore::new();
    let first = PendingOperation::Unlock { lock_id: 1 };
    let second = PendingOperation::Unlock { lock_id: 2 };
    assert_eq!(store.begin(4, first.clone()), Ok(()));
    assert_eq!(store.begin(4, second), Err(ContractError::Collision { id: 4 }));
    assert_eq!(store.get(4), Some(&first));
}

#[test]
fn begin_next_hands_out_ids_in_turn() {
    let mut store = ContinuationStore::new();
    assert_eq!(store.begin_next(PendingOperation::Unlock { lock_id: 1 }), Ok(1));
    assert_eq!(store.begin_next(PendingOperation::Unlock { lock_id: 2 }), Ok(2));
    assert_eq!(store.next_id(), 3);
    assert_eq!(store.begin(3, PendingOperation::Unlock { lock_id: 3 }), Ok(()));
    assert_eq!(
        store.begin_next(PendingOperation::Unlock { lock_id: 4 }),
        Err(ContractError::Collision { id: 3 })
    );
    assert_eq!(store.next_id(), 3);
    store.remove(3);
    assert!(!store.contains(3));
}

#[test]
fn resolve_without_begin_is_not_found() {
    let mut st = state();
    st.locks = LockRegistry::from_ids(vec![4]);
    let out = resolve(&mut st, 9, &success(Binary::from(MsgLockTokensResponse { id: 42 })));
    assert_eq!(out, Err(ContractError::NotFound));
    assert_eq!(st.locks.get_locks().locks, vec![4]);
    assert!(!st.pending.contains(9));
    assert_eq!(st.pending.next_id(), 1);
}

#[test]
fn lock_reply_records_lock_id() {
    let mut st = state();
    st.pending.begin(1, PendingOperation::Lock { owner: "owner".to_string() }).unwrap();
    let out = resolve(&mut st, 1, &success(Binary::from(MsgLockTokensResponse { id: 42 })));
    assert_eq!(out, Ok(Resolution::Locked { lock_id: 42 }));
    assert!(st.locks.contains(42));
    assert!(!st.pending.contains(1));
}

#[test]
fn lock_reply_does_not_duplicate_id() {
    let mut st = state();
    st.locks = LockRegistry::from_ids(vec![42]);
    st.pending.begin(1, PendingOperation::Lock { owner: "owner".to_string() }).unwrap();
    resolve(&mut st, 1, &success(Binary::from(MsgLockTokensResponse { id: 42 }))).unwrap();
    assert_eq!(st.locks.get_locks().locks, vec![42]);
}

#[test]
fn lock_and_delegate_reply_records_lock_id() {
    let mut st = state();
    st.pending.begin(2, PendingOperation::LockAndDelegate { owner: "owner".to_string() }).unwrap();
    let reply = success(Binary::from(MsgLockAndSuperfluidDelegateResponse { id: 77 }));
    assert_eq!(resolve(&mut st, 2, &reply), Ok(Resolution::Locked { lock_id: 77 }));
    assert_eq!(st.locks.get_locks().locks, vec![77]);
}

#[test]
fn malformed_reply_is_decode_error_and_keeps_entry() {
    let mut st = state();
    st.pending.begin(1, PendingOperation::Lock { owner: "owner".to_string() }).unwrap();
    let out = resolve(&mut st, 1, &ReplyOutcome::Success { data: Some(vec![0xff]) });
    assert_eq!(out, Err(ContractError::Decode));
    assert!(st.pending.contains(1));
    assert!(st.locks.get_locks().locks.is_empty());
    let out = resolve(&mut st, 1, &ReplyOutcome::Success { data: None });
    assert_eq!(out, Err(ContractError::Decode));
    assert!(st.pending.contains(1));
}

#[test]
fn failure_reply_is_upstream_failure() {
    let mut st = state();
    st.pending.begin(1, PendingOperation::Lock { owner: "owner".to_string() }).unwrap();
    let out = resolve(&mut st, 1, &ReplyOutcome::Failure { reason: "out of gas".to_string() });
    assert_eq!(out, Err(ContractError::UpstreamFailure { reason: "out of gas".to_string() }));
    assert!(st.pending.contains(1));
}

#[test]
fn unlock_reply_swaps_out_lock_id() {
    let mut st = state();
    st.locks = LockRegistry::from_ids(vec![5, 9, 3]);
    st.pending.begin(2, PendingOperation::Unlock { lock_id: 5 }).unwrap();
    let reply = success(Binary::from(MsgBeginUnlockingResponse { success: true, unlocking_lock_id: 5 }));
    assert_eq!(resolve(&mut st, 2, &reply), Ok(Resolution::Unlocked { lock_id: 5 }));
    assert_eq!(st.locks.get_locks().locks, vec![3, 9]);
    assert!(!st.pending.contains(2));
}

#[test]
fn unlock_reply_without_data_counts_as_success() {
    let mut st = state();
    st.locks = LockRegistry::from_ids(vec![5]);
    st.pending.begin(2, PendingOperation::Unlock { lock_id: 5 }).unwrap();
    let out = resolve(&mut st, 2, &ReplyOutcome::Success { data: None });
    assert_eq!(out, Ok(Resolution::Unlocked { lock_id: 5 }));
    assert!(st.locks.get_locks().locks.is_empty());
}

#[test]
fn unlock_refused_keeps_everything() {
    let mut st = state();
    st.locks = LockRegistry::from_ids(vec![5]);
    st.pending.begin(2, PendingOperation::Unlock { lock_id: 5 }).unwrap();
    let reply = success(Binary::from(MsgBeginUnlockingResponse { success: false, unlocking_lock_id: 0 }));
    assert_eq!(
        resolve(&mut st, 2, &reply),
        Err(ContractError::UpstreamFailure { reason: "unlocking was refused".to_string() })
    );
    assert_eq!(st.locks.get_locks().locks, vec![5]);
    assert!(st.pending.contains(2));
}

#[test]
fn unlock_of_unknown_lock_is_not_found() {
    let mut st = state();
    st.locks = LockRegistry::from_ids(vec![6]);
    st.pending.begin(2, PendingOperation::Unlock { lock_id: 5 }).unwrap();
    assert_eq!(resolve(&mut st, 2, &ReplyOutcome::Success { data: None }), Err(ContractError::NotFound));
    assert!(st.pending.contains(2));
    assert_eq!(st.locks.get_locks().locks, vec![6]);
}

#[test]
fn add_liquidity_below_minimum_is_threshold_error() {
    let mut st = state();
    let op = PendingOperation::AddLiquidity { sender: "alice".to_string(), pool_id: 7, min_shares: 10 };
    st.pending.begin(1, op.clone()).unwrap();
    let reply = success(Binary::from(MsgJoinSwapExternAmountInResponse {
        share_out_amount: "5".to_string(),
    }));
    assert_eq!(resolve(&mut st, 1, &reply), Err(ContractError::Threshold { got: 5, minimum: 10 }));
    assert_eq!(st.pending.get(1), Some(&op));
    assert_eq!(st.pending.next_id(), 1);
}

#[test]
fn add_liquidity_sends_pool_shares() {
    let mut st = state();
    let op = PendingOperation::AddLiquidity { sender: "alice".to_string(), pool_id: 7, min_shares: 10 };
    st.pending.begin(1, op).unwrap();
    let reply = success(Binary::from(MsgJoinSwapExternAmountInResponse {
        share_out_amount: "15".to_string(),
    }));
    assert_eq!(
        resolve(&mut st, 1, &reply),
        Ok(Resolution::Transfer {
            to: "alice".to_string(),
            coin: Coin { denom: "gamm/pool/7".to_string(), amount: 15 },
        })
    );
    assert!(!st.pending.contains(1));
}

#[test]
fn add_liquidity_at_minimum_is_accepted() {
    let mut st = state();
    let op = PendingOperation::AddLiquidity { sender: "alice".to_string(), pool_id: 1234, min_shares: 10 };
    st.pending.begin(1, op).unwrap();
    let out = settle_liquidity(&mut st, 1, Some(10));
    assert_eq!(
        out,
        Ok(Resolution::Transfer {
            to: "alice".to_string(),
            coin: Coin { denom: "gamm/pool/1234".to_string(), amount: 10 },
        })
    );
}

#[test]
fn add_liquidity_with_unreadable_amount_is_decode_error() {
    let mut st = state();
    let op = PendingOperation::AddLiquidity { sender: "alice".to_string(), pool_id: 7, min_shares: 0 };
    st.pending.begin(1, op).unwrap();
    let reply = success(Binary::from(MsgJoinSwapExternAmountInResponse {
        share_out_amount: "many".to_string(),
    }));
    assert_eq!(resolve(&mut st, 1, &reply), Err(ContractError::Decode));
    assert!(st.pending.contains(1));
}

#[test]
fn remove_liquidity_sends_tokens_out() {
    let mut st = state();
    let op = PendingOperation::RemoveLiquidity {
        sender: "bob".to_string(),
        pool_id: 3,
        denom_out: "uosmo".to_string(),
        min_tokens_out: 100,
    };
    st.pending.begin(8, op).unwrap();
    let reply = success(Binary::from(MsgExitSwapShareAmountInResponse {
        token_out_amount: "250".to_string(),
    }));
    assert_eq!(
        resolve(&mut st, 8, &reply),
        Ok(Resolution::Transfer {
            to: "bob".to_string(),
            coin: Coin { denom: "uosmo".to_string(), amount: 250 },
        })
    );
    let op = PendingOperation::RemoveLiquidity {
        sender: "bob".to_string(),
        pool_id: 3,
        denom_out: "uosmo".to_string(),
        min_tokens_out: 300,
    };
    st.pending.begin(8, op).unwrap();
    assert_eq!(resolve(&mut st, 8, &reply), Err(ContractError::Threshold { got: 250, minimum: 300 }));
}
