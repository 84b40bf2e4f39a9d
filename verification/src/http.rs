//! HTTP status codes as the client reads them.

use vstd::prelude::*;

verus! {

/// The text that `reqwest::StatusCode` displays for a status code: the number,
/// a space, and the canonical reason phrase of the code.
pub uninterp spec fn status_line_of(code: u16) -> Seq<char>;

/// Builds a `reqwest::StatusCode` with `StatusCode::from_u16` and formats it
/// with its `Display` impl.
///
/// Trusted: `from_u16` accepts exactly the codes from 100 to 999, and the
/// text displayed for an accepted code depends on the code alone.
#[verifier::external_body]
pub(crate) fn status_line(code: u16) -> (result: Option<String>)
    ensures
        result is Some <==> 100 <= code < 1000,
        result matches Some(line) ==> line@ == status_line_of(code),
{
    match reqwest::StatusCode::from_u16(code) {
        Ok(status) => Some(status.to_string()),
        Err(_) => None,
    }
}

/// A three-digit HTTP status code.
#[derive(Debug, Clone, Copy, PartialEq, Eq)]
pub struct HttpStatus {
    code: u16,
}

impl View for HttpStatus {
    type V = u16;

    closed spec fn view(&self) -> u16 {
        self.code
    }
}

impl HttpStatus {
    #[verifier::type_invariant]
    spec fn in_range(self) -> bool {
        100 <= self.code < 1000
    }

    /// Whether `code` is a status code at all.
    pub open spec fn valid_code(code: u16) -> bool {
        100 <= code < 1000
    }

    /// The status with the given code, if the code has three digits.
    pub fn new(code: u16) -> (result: Option<HttpStatus>)
        ensures
            result is Some <==> Self::valid_code(code),
            result matches Some(status) ==> status@ == code,
    {
        if 100 <= code && code < 1000 {
            Some(HttpStatus { code })
        } else {
            None
        }
    }

    /// The numeric code.
    pub fn code(&self) -> (result: u16)
        ensures
            result == self@,
            Self::valid_code(result),
    {
        proof {
            use_type_invariant(self);
        }
        self.code
    }

    /// The status as `reqwest` displays it, such as `404 Not Found`.
    pub fn to_string(&self) -> (result: String)
        ensures
            result@ == status_line_of(self@),
    {
        match status_line(self.code()) {
            Some(line) => line,
            None => vstd::pervasive::unreached(),
        }
    }
}

} // verus!
