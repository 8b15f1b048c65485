//! The named failure reasons of every operation on the record.
use vstd::prelude::*;

verus! {

/// Why an operation was refused. A refused operation changes nothing.
#[derive(Clone, Copy, Debug, PartialEq, Eq, Structural)]
pub enum PaymentError {
    /// The caller is not the record's current authority, or did not sign.
    Unauthorized,
    /// The declared beneficiary or token destination is not the configured one.
    InvalidBeneficiary,
    /// The record's counter has reached its cap.
    UsageLimitExceeded,
    /// A record already exists where one was to be created.
    AlreadyInitialized,
    /// No record exists where one was to be used.
    NotInitialized,
    /// The paying account did not sign the request.
    MissingSignature,
    /// The transfer backend refused the transfer; its error code is kept.
    TransferFailed { code: u64 },
}

} // verus!
