//! The records that the service sends.

use vstd::prelude::*;

verus! {

/// The body of a refusal: the reason in the service's words.
#[derive(Debug, Clone, PartialEq, Eq)]
pub struct ApiError {
    pub error: String,
}

/// The body that acknowledges a submission.
#[derive(Debug, Clone, PartialEq, Eq)]
pub struct VerificationJobDispatch {
    pub job_id: String,
}

/// A verification job as the service describes it.
///
/// Only `status` and `status_description` decide what the client does; the
/// other fields are carried for display. The two timestamps are seconds as
/// binary64 numbers, held here by their bit patterns.
#[derive(Debug, Clone, PartialEq, Eq)]
pub struct VerificationJob {
    pub job_id: String,
    pub status: u8,
    pub status_description: Option<String>,
    pub class_hash: String,
    pub created_timestamp: Option<u64>,
    pub updated_timestamp: Option<u64>,
    pub address: Option<String>,
    pub contract_file: Option<String>,
    pub name: Option<String>,
    pub version: Option<String>,
    pub license: Option<String>,
}

} // verus!
