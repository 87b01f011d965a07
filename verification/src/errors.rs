//! The error taxonomy: every failure a caller can see is one of these
//! classified values, and no operation swallows one into a default.
use vstd::prelude::*;

verus! {

/// Malformed local input, detected before anything is sent anywhere.
#[derive(Debug, Clone, Copy, PartialEq, Eq, Structural)]
pub enum ValidationError {
    /// A method name must not be empty.
    EmptyMethodName,
    /// An identifier must be exactly 32 bytes.
    BadIdentifierLength,
    /// The fee payer must appear in the signer list.
    FeePayerNotASigner,
    /// A signing key blob must be exactly 64 bytes.
    BadKeyLength,
}

/// Why an account query failed when it did not come back as a clean
/// found / not-found answer. Distinct from "definitely absent".
#[derive(Debug, Clone, Copy, PartialEq, Eq, Structural)]
pub enum QueryFailureKind {
    RateLimited,
    Malformed,
    Network,
}

/// How a submission attempt failed once it was actually sent.
#[derive(Debug, Clone, Copy, PartialEq, Eq, Structural)]
pub enum SubmitFailureKind {
    /// The remote ledger rejected the transaction because the account the
    /// transaction would create already exists.
    AlreadyInUse,
    /// The remote ledger rejected the transaction for any other reason.
    Rejected,
    /// The transaction may or may not have reached the ledger.
    Network,
}

/// A transaction submission's classified failure.
#[derive(Debug, Clone, Copy, PartialEq, Eq, Structural)]
pub enum SubmitError {
    /// No freshness token could be obtained; the transaction was never
    /// signed nor submitted, so a retry is safe wholesale.
    FreshnessUnavailable,
    /// The submission itself failed.
    Submission(SubmitFailureKind),
}

/// A failure of the get-or-create reconciliation of a derived account.
#[derive(Debug, Clone, Copy, PartialEq, Eq, Structural)]
pub enum ReconciliationError {
    /// The existence query failed for a reason other than not-found, so
    /// absence was never positively confirmed and no creation was attempted.
    Inconclusive(QueryFailureKind),
    /// Absence was confirmed but the creation submission failed.
    CreationFailed(SubmitError),
}

/// A fixed-layout payload did not match its schema.
#[derive(Debug, Clone, Copy, PartialEq, Eq, Structural)]
pub enum DecodeError {
    /// Fewer bytes than the schema requires.
    Truncated,
    /// A tag byte or trailing content that the schema does not allow.
    Malformed,
}

} // verus!
