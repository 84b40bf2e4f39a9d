use voyager_verifier::endpoints::ApiEndpoints;
use voyager_verifier::error::{ApiFailure, FailureKind};
use voyager_verifier::http::HttpStatus;
use voyager_verifier::text::decimal;

fn every_failure() -> Vec<ApiFailure> {
    let status = HttpStatus::new(418).unwrap();
    vec![
        ApiFailure::UnknownNetwork { name: "x".to_string() },
        ApiFailure::NotFound,
        ApiFailure::BadRequest { message: "m".to_string() },
        ApiFailure::UnexpectedStatus { endpoint: ApiEndpoints::GetClass, status, body: "b".to_string() },
        ApiFailure::UnexpectedStatus { endpoint: ApiEndpoints::GetJobStatus, status, body: "b".to_string() },
        ApiFailure::UnexpectedStatus { endpoint: ApiEndpoints::VerifyClass, status, body: "b".to_string() },
        ApiFailure::UnexpectedBody { status, body: "b".to_string() },
        ApiFailure::UnknownJobStatus { code: 9 },
        ApiFailure::CompileFailed { description: Some("d".to_string()) },
        ApiFailure::VerifyFailed { description: None },
        ApiFailure::Timeout,
    ]
}

#[test]
fn failure_kinds() {
    let kinds: Vec<FailureKind> = every_failure().iter().map(|failure| failure.kind()).collect();
    assert_eq!(
        kinds,
        vec![
            FailureKind::Usage,
            FailureKind::NotFound,
            FailureKind::BadRequest,
            FailureKind::Protocol,
            FailureKind::Protocol,
            FailureKind::Protocol,
            FailureKind::Protocol,
            FailureKind::Protocol,
            FailureKind::JobFailure,
            FailureKind::JobFailure,
            FailureKind::Timeout,
        ]
    );
}

#[test]
fn failure_messages() {
    let messages: Vec<String> = every_failure().iter().map(|failure| failure.message()).collect();
    assert_eq!(
        messages,
        vec![
            "Unknown network: x",
            "Job not found",
            "Failed to dispatch verification job with status 400: m",
            "Unexpected status code 418 I'm a teapot when trying to get class hash with error b",
            "Unexpected status code: 418 I'm a teapot, with error message: b",
            "Failed to dispatch verification job with status 418 I'm a teapot: b",
            "Unexpected response body with status 418 I'm a teapot: b",
            "Unknown status: 9",
            "Compilation failed: \"d\"",
            "Failed to verify: \"unknown failure\"",
            "Timeout: Verification job took too long to complete",
        ]
    );
}

#[test]
fn failure_message_is_built_around_its_detail() {
    for failure in every_failure() {
        assert_eq!(failure.message(), failure.message_with(&failure.detail()));
    }
}

#[test]
fn failure_details() {
    let details: Vec<String> = every_failure().iter().map(|failure| failure.detail()).collect();
    assert_eq!(
        details,
        vec![
            "x",
            "",
            "m",
            "418 I'm a teapot",
            "418 I'm a teapot",
            "418 I'm a teapot",
            "418 I'm a teapot",
            "9",
            "\"d\"",
            "\"unknown failure\"",
            "",
        ]
    );
}

#[test]
fn failure_message_with_a_given_detail() {
    let status = HttpStatus::new(500).unwrap();
    let failure =
        ApiFailure::UnexpectedStatus { endpoint: ApiEndpoints::VerifyClass, status, body: "b".to_string() };
    assert_eq!(
        failure.message_with("five hundred"),
        "Failed to dispatch verification job with status five hundred: b"
    );
    assert_eq!(ApiFailure::NotFound.message_with("ignored"), "Job not found");
    assert_eq!(
        ApiFailure::Timeout.message_with("ignored"),
        "Timeout: Verification job took too long to complete"
    );
    assert_eq!(
        ApiFailure::CompileFailed { description: None }.message_with("'why'"),
        "Compilation failed: 'why'"
    );
}

#[test]
fn description_is_quoted_and_escaped() {
    let failure = ApiFailure::VerifyFailed { description: Some("line 1\n\t\"quoted\" \\ end".to_string()) };
    assert_eq!(failure.message(), "Failed to verify: \"line 1\\n\\t\\\"quoted\\\" \\\\ end\"");
    let empty = ApiFailure::CompileFailed { description: Some(String::new()) };
    assert_eq!(empty.message(), "Compilation failed: \"\"");
}

#[test]
fn decimal_numerals() {
    assert_eq!(decimal(0), "0");
    assert_eq!(decimal(7), "7");
    assert_eq!(decimal(10), "10");
    assert_eq!(decimal(42), "42");
    assert_eq!(decimal(99), "99");
    assert_eq!(decimal(100), "100");
    assert_eq!(decimal(105), "105");
    assert_eq!(decimal(255), "255");
}

#[test]
fn decimal_numerals_of_every_byte() {
    for n in 0u8..=255 {
        assert_eq!(decimal(n), format!("{}", n));
    }
}
