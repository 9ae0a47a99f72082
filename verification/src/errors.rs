//! Error taxonomy of the service.
//!
//! Every failure of the core surfaces as one of these variants; the
//! transport layer renders them uniformly as `success = false` plus a
//! descriptive message.

use vstd::prelude::*;

verus! {

/// Why decoding an externally supplied identifier failed.
#[derive(Clone, Copy, Debug, PartialEq, Eq, Structural)]
pub enum DecodeFault {
    /// The hex payload has an odd number of digits.
    OddLength,
    /// A character outside `0-9a-fA-F` appeared in the hex payload.
    InvalidDigit,
    /// The decoded payload does not have the fixed identifier length.
    WrongLength,
}

/// The closed set of failures the service reports.
#[derive(Clone, Copy, Debug, PartialEq, Eq, Structural)]
pub enum ServiceError {
    /// A required role account was never bootstrapped.
    NotInitialized,
    /// A symbolic account name is not recognized.
    UnknownAccount,
    /// An externally encoded identifier is malformed.
    DecodeError(DecodeFault),
    /// A vault that must supply assets holds none.
    EmptyVault,
    /// An account that must supply notes has none pending.
    NoConsumableNotes,
    /// The command queue is full or closed; the submission was rejected.
    TransportUnavailable,
    /// A business-rule threshold check failed.
    ThresholdNotMet,
    /// An underlying ledger call reported an error.
    NetworkFailure,
    /// The worker stopped before replying to an accepted command.
    InternalCommunicationError,
}

impl ServiceError {
    /// The descriptive message shown to external callers.
    pub fn message(&self) -> (r: &'static str)
        ensures
            r@ == self.message_spec(),
    {
        match self {
            ServiceError::NotInitialized => "required role account is not initialized",
            ServiceError::UnknownAccount => "unknown account",
            ServiceError::DecodeError(DecodeFault::OddLength) => {
                "failed to decode hex: odd number of digits"
            },
            ServiceError::DecodeError(DecodeFault::InvalidDigit) => {
                "failed to decode hex: invalid digit"
            },
            ServiceError::DecodeError(DecodeFault::WrongLength) => {
                "failed to deserialize account id: wrong length"
            },
            ServiceError::EmptyVault => "vault is empty",
            ServiceError::NoConsumableNotes => "no consumable notes found",
            ServiceError::TransportUnavailable => "client task unavailable",
            ServiceError::ThresholdNotMet => "threshold not met",
            ServiceError::NetworkFailure => "ledger call failed",
            ServiceError::InternalCommunicationError => "internal communication error",
        }
    }

    /// What `message` returns, variant by variant.
    pub open spec fn message_spec(self) -> Seq<char> {
        match self {
            ServiceError::NotInitialized => "required role account is not initialized"@,
            ServiceError::UnknownAccount => "unknown account"@,
            ServiceError::DecodeError(DecodeFault::OddLength) => {
                "failed to decode hex: odd number of digits"@
            },
            ServiceError::DecodeError(DecodeFault::InvalidDigit) => {
                "failed to decode hex: invalid digit"@
            },
            ServiceError::DecodeError(DecodeFault::WrongLength) => {
                "failed to deserialize account id: wrong length"@
            },
            ServiceError::EmptyVault => "vault is empty"@,
            ServiceError::NoConsumableNotes => "no consumable notes found"@,
            ServiceError::TransportUnavailable => "client task unavailable"@,
            ServiceError::ThresholdNotMet => "threshold not met"@,
            ServiceError::NetworkFailure => "ledger call failed"@,
            ServiceError::InternalCommunicationError => "internal communication error"@,
        }
    }
}

/// Accepts a claimed net worth against a public threshold.
///
/// The accreditation rule of the service: the claim passes exactly when the
/// net worth reaches the threshold.
pub fn check_accreditation_threshold(net_worth: u64, threshold: u64) -> (r: Result<
    (),
    ServiceError,
>)
    ensures
        r is Ok <==> net_worth >= threshold,
        r is Err ==> r == Err::<(), ServiceError>(ServiceError::ThresholdNotMet),
{
    if net_worth >= threshold {
        Ok(())
    } else {
        Err(ServiceError::ThresholdNotMet)
    }
}

} // verus!
