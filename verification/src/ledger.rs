//! Plain values exchanged with the remote ledger service. The service
//! itself (network transport, confirmation polling) lives outside this
//! library; callers hand its answers in as these types.
use vstd::prelude::*;

use crate::errors::QueryFailureKind;
use crate::errors::SubmitFailureKind;

verus! {

/// A short-lived value (a recent block reference) that makes a transaction
/// valid for one submission attempt and prevents replay.
#[derive(Debug)]
pub struct FreshnessToken {
    pub bytes: Vec<u8>,
}

/// The opaque receipt the ledger returns for a confirmed transaction.
#[derive(Debug)]
pub struct Signature {
    pub bytes: Vec<u8>,
}

/// The answer to an account-existence query. The not-found / failed
/// distinction is load-bearing: only a positive not-found may trigger
/// creation of a derived account.
#[derive(Debug)]
pub enum QueryOutcome {
    /// The account exists; these are its raw data bytes.
    Found(Vec<u8>),
    /// The ledger answered and the account is definitely absent.
    NotFound,
    /// The query did not produce a definite answer.
    Failed(QueryFailureKind),
}

/// The outcome of one submission attempt, as reported by the ledger.
#[derive(Debug)]
pub enum SubmissionOutcome {
    Confirmed(Signature),
    Failed(SubmitFailureKind),
}

} // verus!
