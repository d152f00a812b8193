//! Why an operation was refused.

use vstd::prelude::*;

verus! {

/// The reasons for which an instruction ends without effect, or a request
/// ends as failed.
#[derive(Clone, Copy, Debug, PartialEq, Eq, Structural)]
pub enum ErrorCode {
    /// The amount is zero.
    InvalidAmount,
    /// The balance does not cover the amount.
    InsufficientBalance,
    /// The authorization gate refused, or the caller does not own the account.
    Unauthorized,
    /// The pool has been deactivated.
    PoolNotActive,
    /// The oracle's signature does not verify.
    InvalidOracleSignature,
    /// A callback was not signed by the configured network authority.
    InvalidMpcSigner,
    /// The network's answer does not have the expected shape.
    InvalidEncryptedResult,
    /// The network reported a fault in the computation itself.
    MpcComputationFailed,
    /// The computation declined the transfer.
    TransferFailed,
    /// A callback names a request that is unknown or no longer pending.
    UnknownOrStaleRequest,
    /// A target of the request already has a pending request, or the request
    /// id is taken.
    RequestInFlight,
}

impl ErrorCode {
    /// The text shown to a caller for this error.
    pub fn message(&self) -> (text: &'static str)
        ensures
            text@ == self.spec_message(),
    {
        match self {
            ErrorCode::InvalidAmount => "Invalid amount. Must be greater than 0.",
            ErrorCode::InsufficientBalance => "Insufficient balance.",
            ErrorCode::Unauthorized => "Unauthorized action.",
            ErrorCode::PoolNotActive => "Pool is not active.",
            ErrorCode::InvalidOracleSignature => "Invalid oracle signature.",
            ErrorCode::InvalidMpcSigner => "Invalid MPC signer. Must be Arcium MPC authority.",
            ErrorCode::InvalidEncryptedResult => "Invalid encrypted result format.",
            ErrorCode::MpcComputationFailed => "MPC computation failed.",
            ErrorCode::TransferFailed => "Transfer failed.",
            ErrorCode::UnknownOrStaleRequest => "Request is unknown or no longer pending.",
            ErrorCode::RequestInFlight => "A request for this account is already pending.",
        }
    }

    /// The text shown to a caller for this error, as a sequence.
    pub open spec fn spec_message(&self) -> Seq<char> {
        match self {
            ErrorCode::InvalidAmount => "Invalid amount. Must be greater than 0."@,
            ErrorCode::InsufficientBalance => "Insufficient balance."@,
            ErrorCode::Unauthorized => "Unauthorized action."@,
            ErrorCode::PoolNotActive => "Pool is not active."@,
            ErrorCode::InvalidOracleSignature => "Invalid oracle signature."@,
            ErrorCode::InvalidMpcSigner => "Invalid MPC signer. Must be Arcium MPC authority."@,
            ErrorCode::InvalidEncryptedResult => "Invalid encrypted result format."@,
            ErrorCode::MpcComputationFailed => "MPC computation failed."@,
            ErrorCode::TransferFailed => "Transfer failed."@,
            ErrorCode::UnknownOrStaleRequest => "Request is unknown or no longer pending."@,
            ErrorCode::RequestInFlight => "A request for this account is already pending."@,
        }
    }
}

} // verus!
