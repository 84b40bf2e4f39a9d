//! The failures that a verification run ends in.

use vstd::prelude::*;
use crate::endpoints::ApiEndpoints;
use crate::http::{status_line_of, HttpStatus};
use crate::text::{debug_quoted, debug_text_of, decimal, decimal_text};

verus! {

/// The kinds that failures fall into.
#[derive(Debug, Clone, Copy, PartialEq, Eq, Structural)]
pub enum FailureKind {
    /// The caller named something that does not exist.
    Usage,
    /// The service answered with a status, a body or a job status code
    /// that the protocol does not allow.
    Protocol,
    /// The service does not know the class or the job.
    NotFound,
    /// The service refused the submission.
    BadRequest,
    /// The service reported that the job ended badly.
    JobFailure,
    /// The client gave up waiting for the job to end.
    Timeout,
}

/// A failure of a verification run.
#[derive(Debug, Clone, PartialEq, Eq)]
pub enum ApiFailure {
    /// No network has this name.
    UnknownNetwork { name: String },
    /// The service answered 404.
    NotFound,
    /// The service answered 400 and said why.
    BadRequest { message: String },
    /// The service answered with a status that the request does not expect.
    UnexpectedStatus { endpoint: ApiEndpoints, status: HttpStatus, body: String },
    /// The body does not have the shape that goes with the status.
    UnexpectedBody { status: HttpStatus, body: String },
    /// The job record holds a status code above 4.
    UnknownJobStatus { code: u8 },
    /// The job ended because the sources do not compile.
    CompileFailed { description: Option<String> },
    /// The job ended because the compiled class is not the deployed one.
    VerifyFailed { description: Option<String> },
    /// The job was still running when the retries were used up.
    Timeout,
}

/// The description that a message shows: the service's own, or a fixed
/// text where the service gave none.
pub open spec fn description_or_placeholder(description: Option<String>) -> Seq<char> {
    match description {
        Some(text) => text@,
        None => "unknown failure"@,
    }
}

impl ApiFailure {
    /// The kind of a failure.
    pub open spec fn spec_kind(self) -> FailureKind {
        match self {
            ApiFailure::UnknownNetwork { .. } => FailureKind::Usage,
            ApiFailure::NotFound => FailureKind::NotFound,
            ApiFailure::BadRequest { .. } => FailureKind::BadRequest,
            ApiFailure::UnexpectedStatus { .. } => FailureKind::Protocol,
            ApiFailure::UnexpectedBody { .. } => FailureKind::Protocol,
            ApiFailure::UnknownJobStatus { .. } => FailureKind::Protocol,
            ApiFailure::CompileFailed { .. } => FailureKind::JobFailure,
            ApiFailure::VerifyFailed { .. } => FailureKind::JobFailure,
            ApiFailure::Timeout => FailureKind::Timeout,
        }
    }

    /// The part of a message that is written out from the failure's data:
    /// a name or a text as it stands, a status as `reqwest` displays it, a
    /// job status code as a decimal numeral, a description between quotes
    /// as the standard library's `Debug` writes it.
    pub open spec fn detail_text(self) -> Seq<char> {
        match self {
            ApiFailure::UnknownNetwork { name } => name@,
            ApiFailure::NotFound => Seq::<char>::empty(),
            ApiFailure::BadRequest { message } => message@,
            ApiFailure::UnexpectedStatus { status, .. } => status_line_of(status@),
            ApiFailure::UnexpectedBody { status, .. } => status_line_of(status@),
            ApiFailure::UnknownJobStatus { code } => decimal_text(code as nat),
            ApiFailure::CompileFailed { description } => debug_text_of(
                description_or_placeholder(description),
            ),
            ApiFailure::VerifyFailed { description } => debug_text_of(
                description_or_placeholder(description),
            ),
            ApiFailure::Timeout => Seq::<char>::empty(),
        }
    }

    /// The message of a failure around a given detail.
    pub open spec fn message_around(self, detail: Seq<char>) -> Seq<char> {
        match self {
            ApiFailure::UnknownNetwork { .. } => "Unknown network: "@ + detail,
            ApiFailure::NotFound => "Job not found"@,
            ApiFailure::BadRequest { .. } =>
                "Failed to dispatch verification job with status 400: "@ + detail,
            ApiFailure::UnexpectedStatus { endpoint, body, .. } => match endpoint {
                ApiEndpoints::GetClass =>
                    "Unexpected status code "@ + detail
                        + " when trying to get class hash with error "@ + body@,
                ApiEndpoints::GetJobStatus =>
                    "Unexpected status code: "@ + detail + ", with error message: "@ + body@,
                ApiEndpoints::VerifyClass =>
                    "Failed to dispatch verification job with status "@ + detail + ": "@ + body@,
            },
            ApiFailure::UnexpectedBody { body, .. } =>
                "Unexpected response body with status "@ + detail + ": "@ + body@,
            ApiFailure::UnknownJobStatus { .. } => "Unknown status: "@ + detail,
            ApiFailure::CompileFailed { .. } => "Compilation failed: "@ + detail,
            ApiFailure::VerifyFailed { .. } => "Failed to verify: "@ + detail,
            ApiFailure::Timeout => "Timeout: Verification job took too long to complete"@,
        }
    }

    /// The message of a failure.
    pub open spec fn message_text(self) -> Seq<char> {
        self.message_around(self.detail_text())
    }

    /// The kind that the failure falls into.
    pub fn kind(&self) -> (result: FailureKind)
        ensures
            result == self.spec_kind(),
    {
        match self {
            ApiFailure::UnknownNetwork { .. } => FailureKind::Usage,
            ApiFailure::NotFound => FailureKind::NotFound,
            ApiFailure::BadRequest { .. } => FailureKind::BadRequest,
            ApiFailure::UnexpectedStatus { .. } => FailureKind::Protocol,
            ApiFailure::UnexpectedBody { .. } => FailureKind::Protocol,
            ApiFailure::UnknownJobStatus { .. } => FailureKind::Protocol,
            ApiFailure::CompileFailed { .. } => FailureKind::JobFailure,
            ApiFailure::VerifyFailed { .. } => FailureKind::JobFailure,
            ApiFailure::Timeout => FailureKind::Timeout,
        }
    }

    /// Writes out the part of the message that comes from the failure's
    /// data.
    pub fn detail(&self) -> (result: String)
        ensures
            result@ == self.detail_text(),
    {
        match self {
            ApiFailure::UnknownNetwork { name } => name.clone(),
            ApiFailure::NotFound => String::new(),
            ApiFailure::BadRequest { message } => message.clone(),
            ApiFailure::UnexpectedStatus { status, .. } => status.to_string(),
            ApiFailure::UnexpectedBody { status, .. } => status.to_string(),
            ApiFailure::UnknownJobStatus { code } => decimal(*code),
            ApiFailure::CompileFailed { description } => quoted_description(description),
            ApiFailure::VerifyFailed { description } => quoted_description(description),
            ApiFailure::Timeout => String::new(),
        }
    }

    /// The message of the failure with `detail` in the place of the part
    /// that comes from the failure's data.
    pub fn message_with(&self, detail: &str) -> (result: String)
        ensures
            result@ == self.message_around(detail@),
    {
        match self {
            ApiFailure::UnknownNetwork { .. } => String::from_str("Unknown network: ").concat(detail),
            ApiFailure::NotFound => String::from_str("Job not found"),
            ApiFailure::BadRequest { .. } => {
                String::from_str("Failed to dispatch verification job with status 400: ").concat(
                    detail,
                )
            },
            ApiFailure::UnexpectedStatus { endpoint, body, .. } => match endpoint {
                ApiEndpoints::GetClass => {
                    String::from_str("Unexpected status code ").concat(detail).concat(
                        " when trying to get class hash with error ",
                    ).concat(body.as_str())
                },
                ApiEndpoints::GetJobStatus => {
                    String::from_str("Unexpected status code: ").concat(detail).concat(
                        ", with error message: ",
                    ).concat(body.as_str())
                },
                ApiEndpoints::VerifyClass => {
                    String::from_str("Failed to dispatch verification job with status ").concat(
                        detail,
                    ).concat(": ").concat(body.as_str())
                },
            },
            ApiFailure::UnexpectedBody { body, .. } => {
                String::from_str("Unexpected response body with status ").concat(detail).concat(
                    ": ",
                ).concat(body.as_str())
            },
            ApiFailure::UnknownJobStatus { .. } => String::from_str("Unknown status: ").concat(detail),
            ApiFailure::CompileFailed { .. } => String::from_str("Compilation failed: ").concat(detail),
            ApiFailure::VerifyFailed { .. } => String::from_str("Failed to verify: ").concat(detail),
            ApiFailure::Timeout => {
                String::from_str("Timeout: Verification job took too long to complete")
            },
        }
    }

    /// The message of the failure, as one line of text.
    pub fn message(&self) -> (result: String)
        ensures
            result@ == self.message_text(),
    {
        let detail = self.detail();
        self.message_with(detail.as_str())
    }
}

fn quoted_description(description: &Option<String>) -> (result: String)
    ensures
        result@ == debug_text_of(description_or_placeholder(*description)),
{
    match description {
        Some(text) => debug_quoted(text.as_str()),
        None => debug_quoted("unknown failure"),
    }
}

/// A bad end that the service reported of the job and the client giving up
/// are failures of different kinds.
pub proof fn lemma_job_failure_is_not_timeout(failure: ApiFailure)
    ensures
        failure.spec_kind() == FailureKind::Timeout <==> failure == ApiFailure::Timeout,
        failure.spec_kind() == FailureKind::JobFailure <==> (failure is CompileFailed
            || failure is VerifyFailed),
{
}

} // verus!
