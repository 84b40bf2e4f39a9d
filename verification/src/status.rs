//! The states of a verification job.

use vstd::prelude::*;

verus! {

/// Lifecycle state of a verification job as the service reports it.
#[derive(Debug, Clone, Copy, PartialEq, Eq, Structural)]
pub enum VerifyJobStatus {
    Submitted,
    Compiled,
    CompileFailed,
    Fail,
    Success,
}

impl VerifyJobStatus {
    /// The status that a wire code stands for; codes above 4 stand for none.
    pub open spec fn of_code(code: u8) -> Option<VerifyJobStatus> {
        if code == 0 {
            Some(VerifyJobStatus::Submitted)
        } else if code == 1 {
            Some(VerifyJobStatus::Compiled)
        } else if code == 2 {
            Some(VerifyJobStatus::CompileFailed)
        } else if code == 3 {
            Some(VerifyJobStatus::Fail)
        } else if code == 4 {
            Some(VerifyJobStatus::Success)
        } else {
            None
        }
    }

    /// The wire code of a status.
    pub open spec fn code(self) -> u8 {
        match self {
            VerifyJobStatus::Submitted => 0,
            VerifyJobStatus::Compiled => 1,
            VerifyJobStatus::CompileFailed => 2,
            VerifyJobStatus::Fail => 3,
            VerifyJobStatus::Success => 4,
        }
    }

    /// Whether no further polling follows this status.
    pub open spec fn is_terminal(self) -> bool {
        self is Success || self is Fail || self is CompileFailed
    }

    /// The display name of a status.
    pub open spec fn name(self) -> Seq<char> {
        match self {
            VerifyJobStatus::Submitted => "Submitted"@,
            VerifyJobStatus::Compiled => "Compiled"@,
            VerifyJobStatus::CompileFailed => "CompileFailed"@,
            VerifyJobStatus::Fail => "Fail"@,
            VerifyJobStatus::Success => "Success"@,
        }
    }

    /// Decodes a wire code known to be in range.
    pub fn from_u8(status: u8) -> (result: VerifyJobStatus)
        requires
            status <= 4,
        ensures
            Self::of_code(status) == Some(result),
    {
        match status {
            0 => VerifyJobStatus::Submitted,
            1 => VerifyJobStatus::Compiled,
            2 => VerifyJobStatus::CompileFailed,
            3 => VerifyJobStatus::Fail,
            _ => VerifyJobStatus::Success,
        }
    }

    /// Decodes a wire code, rejecting every code above 4.
    pub fn try_from_u8(status: u8) -> (result: Option<VerifyJobStatus>)
        ensures
            result == Self::of_code(status),
    {
        if status <= 4 {
            Some(Self::from_u8(status))
        } else {
            None
        }
    }

    /// The display name of the status.
    pub fn to_string(&self) -> (result: String)
        ensures
            result@ == self.name(),
    {
        match self {
            VerifyJobStatus::Submitted => "Submitted".to_owned(),
            VerifyJobStatus::Compiled => "Compiled".to_owned(),
            VerifyJobStatus::CompileFailed => "CompileFailed".to_owned(),
            VerifyJobStatus::Fail => "Fail".to_owned(),
            VerifyJobStatus::Success => "Success".to_owned(),
        }
    }
}

/// Decoding inverts encoding: every status is what its own wire code stands
/// for, and a code stands for a status exactly when it is at most 4.
pub proof fn lemma_status_code_roundtrip(status: VerifyJobStatus, code: u8)
    ensures
        VerifyJobStatus::of_code(status.code()) == Some(status),
        VerifyJobStatus::of_code(code) is Some <==> code <= 4,
        VerifyJobStatus::of_code(code) matches Some(s) ==> s.code() == code,
{
}

} // verus!
