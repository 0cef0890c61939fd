use vstd::prelude::*;
use cosmwasm_std::Binary;
use osmosis_std::types::osmosis::gamm::v1beta1::{
    MsgExitSwapShareAmountInResponse, MsgJoinSwapExternAmountInResponse,
};
use osmosis_std::types::osmosis::lockup::{MsgBeginUnlockingResponse, MsgLockTokensResponse};
use osmosis_std::types::osmosis::superfluid::MsgLockAndSuperfluidDelegateResponse;

verus! {

/// The address of a new child module in the bytes of an instantiation response,
/// if they parse.
pub uninterp spec fn instantiated_address_of(data: Seq<u8>) -> Option<Seq<char>>;

/// The lock id in the bytes of a lock response, if they decode.
pub uninterp spec fn locked_id_of(data: Seq<u8>) -> Option<u64>;

/// The success flag in the bytes of a begin-unlocking response, if they decode.
pub uninterp spec fn unlocking_success_of(data: Seq<u8>) -> Option<bool>;

/// The pool shares, as text, in the bytes of a join-pool response, if they decode.
pub uninterp spec fn joined_shares_of(data: Seq<u8>) -> Option<Seq<char>>;

/// The tokens out, as text, in the bytes of an exit-pool response, if they decode.
pub uninterp spec fn exited_tokens_of(data: Seq<u8>) -> Option<Seq<char>>;

/// The lock id in the bytes of a lock-and-delegate response, if they decode.
pub uninterp spec fn delegated_lock_id_of(data: Seq<u8>) -> Option<u64>;

/// Relies on `cw0::parse_instantiate_response_data`, which reads the
/// contract address field of a protobuf `MsgInstantiateContractResponse`.
#[verifier::external_body]
pub(crate) fn decode_instantiate_response(data: &Vec<u8>) -> (r: Option<String>)
    ensures
        r matches Some(a) ==> instantiated_address_of(data@) == Some(a@),
        r is None ==> instantiated_address_of(data@) is None,
{
    cw0::parse_instantiate_response_data(data.as_slice()).ok().map(|res| res.contract_address)
}

/// Relies on osmosis-std's `TryFrom<Binary>` for `MsgLockTokensResponse`,
/// a protobuf decode.
#[verifier::external_body]
pub(crate) fn decode_lock_response(data: &Vec<u8>) -> (r: Option<u64>)
    ensures
        r == locked_id_of(data@),
{
    MsgLockTokensResponse::try_from(Binary::from(data.clone())).ok().map(|res| res.id)
}

/// Relies on osmosis-std's `TryFrom<Binary>` for `MsgBeginUnlockingResponse`,
/// a protobuf decode.
#[verifier::external_body]
pub(crate) fn decode_unlocking_response(data: &Vec<u8>) -> (r: Option<bool>)
    ensures
        r == unlocking_success_of(data@),
{
    MsgBeginUnlockingResponse::try_from(Binary::from(data.clone())).ok().map(|res| res.success)
}

/// Relies on osmosis-std's `TryFrom<Binary>` for
/// `MsgJoinSwapExternAmountInResponse`, a protobuf decode.
#[verifier::external_body]
pub(crate) fn decode_join_pool_response(data: &Vec<u8>) -> (r: Option<String>)
    ensures
        r matches Some(t) ==> joined_shares_of(data@) == Some(t@),
        r is None ==> joined_shares_of(data@) is None,
{
    MsgJoinSwapExternAmountInResponse::try_from(Binary::from(data.clone())).ok().map(
        |res| res.share_out_amount,
    )
}

/// Relies on osmosis-std's `TryFrom<Binary>` for
/// `MsgExitSwapShareAmountInResponse`, a protobuf decode.
#[verifier::external_body]
pub(crate) fn decode_exit_pool_response(data: &Vec<u8>) -> (r: Option<String>)
    ensures
        r matches Some(t) ==> exited_tokens_of(data@) == Some(t@),
        r is None ==> exited_tokens_of(data@) is None,
{
    MsgExitSwapShareAmountInResponse::try_from(Binary::from(data.clone())).ok().map(
        |res| res.token_out_amount,
    )
}

/// Relies on osmosis-std's `TryFrom<Binary>` for
/// `MsgLockAndSuperfluidDelegateResponse`, a protobuf decode.
#[verifier::external_body]
pub(crate) fn decode_lock_and_delegate_response(data: &Vec<u8>) -> (r: Option<u64>)
    ensures
        r == delegated_lock_id_of(data@),
{
    MsgLockAndSuperfluidDelegateResponse::try_from(Binary::from(data.clone())).ok().map(|res| res.id)
}

} // verus!
