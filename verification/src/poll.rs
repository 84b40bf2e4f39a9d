//! Following a job until it ends.
//!
//! The service is asked for the job's record again and again. After each
//! answer the client either stops, with the job or with a failure, or
//! waits for a fixed time and asks again.

use vstd::prelude::*;
use crate::endpoints::ApiEndpoints;
use crate::error::ApiFailure;
use crate::http::HttpStatus;
use crate::job::VerificationJob;
use crate::status::VerifyJobStatus;
use crate::text::{lowercase, lowercase_of};

verus! {

/// The time to wait between two queries, in milliseconds.
pub const RETRY_INTERVAL: u64 = 5000;

/// The answer to a status query: the status, the body as text, and the
/// body decoded as a job record where it decodes as one.
#[derive(Debug)]
pub struct StatusResponse {
    pub status: HttpStatus,
    pub body: String,
    pub job: Option<VerificationJob>,
}

/// Where a poller stands: how often it may ask again, whether that limit
/// is in force, and how often it has found the job unfinished.
#[derive(Debug, Clone, Copy, PartialEq, Eq, Structural)]
pub struct PollState {
    pub max_retries: u32,
    pub use_max_retries: bool,
    pub retries: u32,
}

/// What the poller does after an answer.
#[derive(Debug)]
pub enum PollStep {
    /// Wait for `RETRY_INTERVAL`, then ask again from `state`.
    Retry { state: PollState },
    /// The job succeeded.
    Finished { job: VerificationJob },
    /// Stop with a failure.
    Failed { error: ApiFailure },
}

/// How polling over a given run of answers went.
#[derive(Debug)]
pub struct PollReport {
    /// How polling ended, or `None` if the answers ran out first.
    pub outcome: Option<Result<VerificationJob, ApiFailure>>,
    /// How many answers were read.
    pub polls: usize,
    /// How often the poller waited.
    pub sleeps: usize,
}

/// The mathematical counterpart of a `PollReport`.
pub struct PollTrace {
    pub outcome: Option<Result<VerificationJob, ApiFailure>>,
    pub polls: nat,
    pub sleeps: nat,
}

impl PollState {
    /// Whether finding the job unfinished once more uses up the retries.
    pub open spec fn gives_up(self) -> bool {
        self.use_max_retries && self.retries + 1 > self.max_retries
    }

    /// The state after finding the job unfinished once more. The count
    /// stops at the largest number that it can hold.
    pub open spec fn after_retry(self) -> PollState {
        PollState {
            max_retries: self.max_retries,
            use_max_retries: self.use_max_retries,
            retries: if self.retries < u32::MAX {
                (self.retries + 1) as u32
            } else {
                self.retries
            },
        }
    }

    /// A poller that has not asked yet.
    pub fn new(max_retries: u32, use_max_retries: bool) -> (state: PollState)
        ensures
            state == (PollState { max_retries, use_max_retries, retries: 0 }),
    {
        PollState { max_retries, use_max_retries, retries: 0 }
    }
}

/// What the poller does after `response`, given where it stands.
pub open spec fn poll_decision(state: PollState, response: StatusResponse) -> PollStep {
    if response.status@ == 200 {
        match response.job {
            None => PollStep::Failed {
                error: ApiFailure::UnexpectedBody { status: response.status, body: response.body },
            },
            Some(job) => match VerifyJobStatus::of_code(job.status) {
                None => PollStep::Failed { error: ApiFailure::UnknownJobStatus { code: job.status } },
                Some(VerifyJobStatus::Success) => PollStep::Finished { job },
                Some(VerifyJobStatus::Fail) => PollStep::Failed {
                    error: ApiFailure::VerifyFailed { description: job.status_description },
                },
                Some(VerifyJobStatus::CompileFailed) => PollStep::Failed {
                    error: ApiFailure::CompileFailed { description: job.status_description },
                },
                Some(_) => if state.gives_up() {
                    PollStep::Failed { error: ApiFailure::Timeout }
                } else {
                    PollStep::Retry { state: state.after_retry() }
                },
            },
        }
    } else if response.status@ == 404 {
        PollStep::Failed { error: ApiFailure::NotFound }
    } else {
        PollStep::Failed {
            error: ApiFailure::UnexpectedStatus {
                endpoint: ApiEndpoints::GetJobStatus,
                status: response.status,
                body: response.body,
            },
        }
    }
}

/// Whether an answer shows the job still running.
pub open spec fn shows_unfinished(response: StatusResponse) -> bool {
    &&& response.status@ == 200
    &&& response.job matches Some(job)
    &&& VerifyJobStatus::of_code(job.status) matches Some(status)
    &&& !status.is_terminal()
}

/// How polling from `state` goes when the service gives `responses`, one
/// for each query, in this order.
pub open spec fn poll_run(state: PollState, responses: Seq<StatusResponse>) -> PollTrace
    decreases responses.len(),
{
    if responses.len() == 0 {
        PollTrace { outcome: None, polls: 0, sleeps: 0 }
    } else {
        match poll_decision(state, responses[0]) {
            PollStep::Retry { state: next } => {
                let rest = poll_run(next, responses.drop_first());
                PollTrace { outcome: rest.outcome, polls: rest.polls + 1, sleeps: rest.sleeps + 1 }
            },
            PollStep::Finished { job } => PollTrace { outcome: Some(Ok(job)), polls: 1, sleeps: 0 },
            PollStep::Failed { error } => PollTrace { outcome: Some(Err(error)), polls: 1, sleeps: 0 },
        }
    }
}

/// Whether a setting, already in lowercase, switches the retry limit on.
pub fn flag_from_lowercase(lower: &str) -> (result: bool)
    ensures
        result == (lower@ == "true"@),
{
    lower.to_owned() == "true".to_owned()
}

/// Whether the retry limit is in force: only where the setting is made and
/// reads `true`, whatever the case of its letters.
pub fn use_max_retries(setting: &Option<String>) -> (result: bool)
    ensures
        result == (setting matches Some(value) && lowercase_of(value@) == "true"@),
{
    match setting {
        Some(value) => {
            let lower = lowercase(value.as_str());
            flag_from_lowercase(lower.as_str())
        },
        None => false,
    }
}

/// Decides what to do after an answer to a status query.
pub fn poll_step(state: PollState, response: StatusResponse) -> (step: PollStep)
    ensures
        step == poll_decision(state, response),
{
    let code = response.status.code();
    if code == 200 {
        match response.job {
            None => PollStep::Failed {
                error: ApiFailure::UnexpectedBody { status: response.status, body: response.body },
            },
            Some(job) => match VerifyJobStatus::try_from_u8(job.status) {
                None => PollStep::Failed { error: ApiFailure::UnknownJobStatus { code: job.status } },
                Some(VerifyJobStatus::Success) => PollStep::Finished { job },
                Some(VerifyJobStatus::Fail) => PollStep::Failed {
                    error: ApiFailure::VerifyFailed { description: job.status_description },
                },
                Some(VerifyJobStatus::CompileFailed) => PollStep::Failed {
                    error: ApiFailure::CompileFailed { description: job.status_description },
                },
                Some(_) => {
                    if state.use_max_retries && state.retries >= state.max_retries {
                        PollStep::Failed { error: ApiFailure::Timeout }
                    } else {
                        let retries: u32 = if state.retries < u32::MAX {
                            state.retries + 1
                        } else {
                            state.retries
                        };
                        PollStep::Retry {
                            state: PollState {
                                max_retries: state.max_retries,
                                use_max_retries: state.use_max_retries,
                                retries,
                            },
                        }
                    }
                },
            },
        }
    } else if code == 404 {
        PollStep::Failed { error: ApiFailure::NotFound }
    } else {
        PollStep::Failed {
            error: ApiFailure::UnexpectedStatus {
                endpoint: ApiEndpoints::GetJobStatus,
                status: response.status,
                body: response.body,
            },
        }
    }
}

/// Polls from `state` against a given run of answers, the first for the
/// first query, and says how that went. Answers after the one that ends
/// polling are not read.
pub fn poll_responses(state: PollState, responses: Vec<StatusResponse>) -> (report: PollReport)
    ensures
        report.outcome == poll_run(state, responses@).outcome,
        report.polls == poll_run(state, responses@).polls,
        report.sleeps == poll_run(state, responses@).sleeps,
{
    let ghost all = responses@;
    let mut rest = responses;
    let total = rest.len();
    let mut current = state;
    let mut polls: usize = 0;
    while rest.len() > 0
        invariant
            all == responses@,
            all.len() == total,
            polls + rest@.len() == all.len(),
            poll_run(state, all).outcome == poll_run(current, rest@).outcome,
            poll_run(state, all).polls == polls + poll_run(current, rest@).polls,
            poll_run(state, all).sleeps == polls + poll_run(current, rest@).sleeps,
        decreases rest@.len(),
    {
        let ghost before = rest@;
        let response = rest.remove(0);
        assert(rest@ =~= before.drop_first());
        polls += 1;
        match poll_step(current, response) {
            PollStep::Retry { state: next } => {
                current = next;
            },
            PollStep::Finished { job } => {
                return PollReport { outcome: Some(Ok(job)), polls, sleeps: polls - 1 };
            },
            PollStep::Failed { error } => {
                return PollReport { outcome: Some(Err(error)), polls, sleeps: polls - 1 };
            },
        }
    }
    PollReport { outcome: None, polls, sleeps: polls }
}

/// The poller waits exactly when an answer shows the job still running
/// and the retries are not used up; it gives up exactly when such an
/// answer uses them up. No other answer makes it wait or give up.
pub proof fn lemma_waits_only_for_unfinished_job(state: PollState, response: StatusResponse)
    ensures
        poll_decision(state, response) is Retry <==> shows_unfinished(response)
            && !state.gives_up(),
        poll_decision(state, response) == (PollStep::Failed { error: ApiFailure::Timeout })
            <==> shows_unfinished(response) && state.gives_up(),
        poll_decision(state, response) matches PollStep::Retry { state: next } ==> next
            == state.after_retry(),
        !state.use_max_retries ==> !state.gives_up(),
{
}

/// An answer that does not show the job still running ends polling at
/// once: it is the only answer read, and the poller never waits.
pub proof fn lemma_first_answer_may_end_polling(state: PollState, responses: Seq<StatusResponse>)
    requires
        responses.len() > 0,
        !shows_unfinished(responses[0]),
    ensures
        poll_run(state, responses).outcome is Some,
        poll_run(state, responses).polls == 1,
        poll_run(state, responses).sleeps == 0,
{
}

/// The poller waits once after every answer but the one that ends
/// polling, and it reads no more answers than there are.
pub proof fn lemma_one_wait_between_polls(state: PollState, responses: Seq<StatusResponse>)
    ensures
        poll_run(state, responses).polls <= responses.len(),
        poll_run(state, responses).outcome is Some ==> poll_run(state, responses).sleeps + 1
            == poll_run(state, responses).polls,
        poll_run(state, responses).outcome is None ==> poll_run(state, responses).sleeps
            == responses.len() && poll_run(state, responses).polls == responses.len(),
    decreases responses.len(),
{
    if responses.len() > 0 {
        if let PollStep::Retry { state: next } = poll_decision(state, responses[0]) {
            lemma_one_wait_between_polls(next, responses.drop_first());
        }
    }
}

/// Once polling has ended, answers that would have followed change
/// nothing.
pub proof fn lemma_later_answers_are_not_read(
    state: PollState,
    responses: Seq<StatusResponse>,
    more: Seq<StatusResponse>,
)
    requires
        poll_run(state, responses).outcome is Some,
    ensures
        poll_run(state, responses + more) == poll_run(state, responses),
    decreases responses.len(),
{
    let all = responses + more;
    assert(responses.len() > 0);
    assert(all[0] == responses[0]);
    if let PollStep::Retry { state: next } = poll_decision(state, responses[0]) {
        assert(all.drop_first() =~= responses.drop_first() + more);
        lemma_later_answers_are_not_read(next, responses.drop_first(), more);
    }
}

/// With the retry limit in force, polling from a count within the limit
/// reads at most as many answers as retries are left, and one more; given
/// that many answers it ends.
pub proof fn lemma_limit_bounds_polling(state: PollState, responses: Seq<StatusResponse>)
    requires
        state.use_max_retries,
        state.retries <= state.max_retries,
    ensures
        poll_run(state, responses).polls <= state.max_retries - state.retries + 1,
        responses.len() >= state.max_retries - state.retries + 1 ==> poll_run(
            state,
            responses,
        ).outcome is Some,
    decreases responses.len(),
{
    if responses.len() > 0 {
        if let PollStep::Retry { state: next } = poll_decision(state, responses[0]) {
            lemma_limit_bounds_polling(next, responses.drop_first());
        }
    }
}

/// Without the retry limit the poller never gives up: polling ends only
/// with what the service answered.
pub proof fn lemma_no_timeout_without_limit(state: PollState, responses: Seq<StatusResponse>)
    requires
        !state.use_max_retries,
    ensures
        poll_run(state, responses).outcome != Some(
            Err::<VerificationJob, ApiFailure>(ApiFailure::Timeout),
        ),
    decreases responses.len(),
{
    if responses.len() > 0 {
        if let PollStep::Retry { state: next } = poll_decision(state, responses[0]) {
            lemma_no_timeout_without_limit(next, responses.drop_first());
        }
    }
}

} // verus!
