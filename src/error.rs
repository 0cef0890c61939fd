use vstd::prelude::*;

verus! {

/// Every way an entry point of a module can fail. Each aborts the whole
/// invocation: none is caught and retried.
#[derive(Debug, Clone, PartialEq, Eq)]
pub enum ContractError {
    /// Malformed or missing input, such as a wrong number of attached funds.
    Validation { input: InvalidInput },
    /// The caller does not match the recorded authority.
    Unauthorized,
    /// No pending entry or record under the given key.
    NotFound,
    /// The external payload could not be decoded for the recorded kind.
    Decode,
    /// The external result is below the minimum that the caller accepted.
    Threshold { got: u128, minimum: u128 },
    /// A pending entry already exists under the correlation id.
    Collision { id: u64 },
    /// The external call itself failed.
    UpstreamFailure { reason: String },
}

/// Which input a `Validation` error refuses.
#[derive(Debug, Clone, Copy, PartialEq, Eq)]
pub enum InvalidInput {
    /// The funds attached to the request are not what the operation takes.
    Funds,
    /// An amount is not a decimal number that fits in 128 bits.
    Amount,
}

} // verus!
