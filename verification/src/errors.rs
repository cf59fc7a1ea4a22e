use vstd::prelude::*;

verus! {

/// Every way a request can fail.  All variants are terminal for the current
/// request: nothing is retried internally and no state survives a failure.
#[derive(Clone, Copy, Debug, PartialEq, Eq, Structural)]
pub enum CustomError {
    /// Fewer distinct trusted signers attested the request than the quorum requires.
    QuorumNotReached,
    /// A verification record was malformed (truncated, or offsets out of bounds).
    InvalidSignature,
    /// The caller is not the registry's administrator.
    Unauthorized,
    /// A quorum of zero, or larger than the signer set, was requested.
    InvalidQuorum,
    /// More signers than the registry can hold.
    TooManySigners,
    /// The requested amount would push cumulative issuance past the cap.
    ExceedsMaxSupply,
    /// The nonce is not strictly greater than the last accepted one.
    InvalidNonce,
    /// Adding the requested amount to the cumulative total would overflow.
    Overflow,
    /// The one-time initial issuance has already happened.
    InitialMintAlreadyDone,
    /// A well-formed verification record attested a payload other than the
    /// canonical payload of this request.
    InvalidMessage,
}

impl CustomError {
    /// A short human-readable description of the error.
    pub fn describe(&self) -> (r: &'static str)
    {
        match self {
            CustomError::QuorumNotReached => "Quorum not reached",
            CustomError::InvalidSignature => "Invalid signature",
            CustomError::Unauthorized => "Unauthorized",
            CustomError::InvalidQuorum => "Invalid quorum setting",
            CustomError::TooManySigners => "Too many signers (max 10)",
            CustomError::ExceedsMaxSupply => "Exceeds maximum supply",
            CustomError::InvalidNonce => "Invalid nonce (must be greater than current)",
            CustomError::Overflow => "Arithmetic overflow",
            CustomError::InitialMintAlreadyDone => "Initial mint already completed",
            CustomError::InvalidMessage => "Invalid message in signature",
        }
    }
}

} // verus!
