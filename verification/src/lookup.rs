//! Asking the service whether it knows a class.

use vstd::prelude::*;
use crate::endpoints::ApiEndpoints;
use crate::error::ApiFailure;
use crate::http::HttpStatus;

verus! {

/// What the answer to a class lookup means: 200 says that the class
/// exists, 404 that it does not, and no other status is expected.
pub open spec fn lookup_result(status: HttpStatus, body: String) -> Result<bool, ApiFailure> {
    if status@ == 200 {
        Ok(true)
    } else if status@ == 404 {
        Ok(false)
    } else {
        Err(ApiFailure::UnexpectedStatus { endpoint: ApiEndpoints::GetClass, status, body })
    }
}

/// Reads the answer to a class lookup.
pub fn class_exists(status: HttpStatus, body: String) -> (result: Result<bool, ApiFailure>)
    ensures
        result == lookup_result(status, body),
        result == Ok::<bool, ApiFailure>(true) <==> status@ == 200,
        result == Ok::<bool, ApiFailure>(false) <==> status@ == 404,
        result is Err <==> status@ != 200 && status@ != 404,
{
    let code = status.code();
    if code == 200 {
        Ok(true)
    } else if code == 404 {
        Ok(false)
    } else {
        Err(ApiFailure::UnexpectedStatus { endpoint: ApiEndpoints::GetClass, status, body })
    }
}

} // verus!
