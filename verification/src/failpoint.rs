//! Named fault injection points.
//!
//! A test controller activates a point by its name in the process-wide
//! registry of the `fail` crate. An entrypoint asks the registry first and
//! returns its designated error when the point fires.

use vstd::prelude::*;
use vstd::string::*;
use crate::api_types::{
    ApiError, AptosError, AptosErrorCode, AptosErrorResponse, INTERNAL_SERVER_ERROR,
};
use crate::error::FailPoint;

verus! {

impl FailPoint {
    /// The name under which the point is registered.
    pub open spec fn spec_name(self) -> Seq<char> {
        match self {
            FailPoint::ValidateTransaction => "vm_validator::validate_transaction"@,
            FailPoint::GetAccountSequenceNumber => "vm_validator::get_account_sequence_number"@,
        }
    }

    /// The name under which the point is registered.
    pub fn name(self) -> (name: &'static str)
        ensures
            name@ == self.spec_name(),
    {
        match self {
            FailPoint::ValidateTransaction => "vm_validator::validate_transaction",
            FailPoint::GetAccountSequenceNumber => "vm_validator::get_account_sequence_number",
        }
    }
}

/// Evaluates the fail point `name` with `fail::eval`.
///
/// The result is true if the registry holds a `return` action for the name
/// that triggers on this evaluation. Nothing is claimed of it: it depends on
/// the registry, on the counters of the actions and on chance. Actions other
/// than `return` run inside the call as configured (a `sleep` delays it, a
/// `panic` unwinds from it).
#[verifier::external_body]
pub(crate) fn eval(name: &str) -> (fired: bool) {
    fail::eval(name, |_| ()).is_some()
}

/// The registered name of the fail point `name` of the API: the namespace
/// `api`, two colons and `name`.
pub open spec fn api_point_name(name: Seq<char>) -> Seq<char> {
    "api::"@ + name
}

/// What the error of the API fail point `name` says.
pub open spec fn api_fault_message(name: Seq<char>) -> Seq<char> {
    "unexpected internal error for "@ + name
}

/// The registered name of the fail point `name` of the API.
pub fn api_fail_point_name(name: &str) -> (point: String)
    ensures
        point@ == api_point_name(name@),
{
    String::from_str("api::").concat(name)
}

/// The result of the API fail point `name`: the internal error if a fault is
/// injected, and success if none is.
pub fn api_fault(injected: bool, name: &str) -> (checked: Result<(), ApiError>)
    ensures
        injected ==> (checked matches Err(error) && {
            &&& error.status_code == INTERNAL_SERVER_ERROR
            &&& error.message@ == api_fault_message(name@)
        }),
        !injected ==> checked is Ok,
{
    if injected {
        let message = String::from_str("unexpected internal error for ").concat(name);
        Err(ApiError { status_code: INTERNAL_SERVER_ERROR, message })
    } else {
        Ok(())
    }
}

/// The result of the API fail point `name` as an error response: the
/// unspecified internal error if a fault is injected, and success if none is.
pub fn api_fault_poem(injected: bool, name: &str) -> (checked: Result<(), AptosErrorResponse>)
    ensures
        injected ==> (checked matches Err(response) && {
            &&& response.status_code == INTERNAL_SERVER_ERROR
            &&& response.error.message@ == api_fault_message(name@)
            &&& response.error.error_code == Some(AptosErrorCode::Unspecified)
        }),
        !injected ==> checked is Ok,
{
    if injected {
        let message = String::from_str("unexpected internal error for ").concat(name);
        let error = AptosError::new(message).error_code(AptosErrorCode::Unspecified);
        Err(AptosErrorResponse { status_code: INTERNAL_SERVER_ERROR, error })
    } else {
        Ok(())
    }
}

/// Evaluates the fail point `api::<name>`.
///
/// The call succeeds unless the point fires. Its error then is the internal
/// error that names `name`.
pub fn fail_point(name: &str) -> (checked: Result<(), ApiError>)
    ensures
        checked matches Err(error) ==> {
            &&& error.status_code == INTERNAL_SERVER_ERROR
            &&& error.message@ == api_fault_message(name@)
        },
{
    let point = api_fail_point_name(name);
    let injected = eval(point.as_str());
    api_fault(injected, name)
}

/// Evaluates the fail point `api::<name>` for a handler that answers with an
/// error response.
///
/// The call succeeds unless the point fires. Its error then is the response of
/// an unspecified internal error that names `name`.
pub fn fail_point_poem(name: &str) -> (checked: Result<(), AptosErrorResponse>)
    ensures
        checked matches Err(response) ==> {
            &&& response.status_code == INTERNAL_SERVER_ERROR
            &&& response.error.message@ == api_fault_message(name@)
            &&& response.error.error_code == Some(AptosErrorCode::Unspecified)
        },
{
    let point = api_fail_point_name(name);
    let injected = eval(point.as_str());
    api_fault_poem(injected, name)
}

} // verus!
