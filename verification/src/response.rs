//! Turning HTTP responses into results.

use crate::error::TraceError;
use http::Response;
use vstd::prelude::*;
use vstd::string::*;

verus! {

/// An HTTP response of the `http` crate.
#[verifier::external_type_specification]
#[verifier::external_body]
#[verifier::reject_recursive_types(T)]
pub struct ExResponse<T>(Response<T>);

/// Reads the status of a response with `http::Response::status` and gives
/// its number. Nothing is claimed about the number.
#[verifier::external_body]
fn status_number<T>(response: &Response<T>) -> (code: u16) {
    response.status().as_u16()
}

/// Writes the status of a response as the `http` crate writes it: the number
/// and the reason. Nothing is claimed about the text.
#[verifier::external_body]
fn status_text<T>(response: &Response<T>) -> (text: String) {
    response.status().to_string()
}

/// Whether a status number indicates success: 200 to 299.
pub open spec fn is_success(code: u16) -> bool {
    200 <= code && code < 300
}

/// What the error says of a response whose status, as written, is `status`.
pub open spec fn failure_message(status: Seq<char>) -> Seq<char> {
    "request failed with status "@ + status
}

/// The verdict on a response with the given status number, where `text` is
/// the status as written: success for 200 to 299, and otherwise an error
/// that says `request failed with status` and the status.
pub fn verdict(code: u16, text: String) -> (result: Result<(), TraceError>)
    ensures
        is_success(code) ==> result is Ok,
        !is_success(code) ==> result is Err && result->Err_0 is Other
            && result->Err_0->Other_0@ == failure_message(text@),
{
    if 200 <= code && code < 300 {
        Ok(())
    } else {
        let message = "request failed with status ".to_owned().concat(text.as_str());
        Err(TraceError::Other(message))
    }
}

/// Methods to make working with responses easier.
pub trait ResponseExt: Sized {
    /// Turn a response into an error if the HTTP status does not indicate
    /// success (200 - 299).
    fn error_for_status(self) -> (result: Result<Self, TraceError>)
        ensures
            result is Ok ==> result->Ok_0 == self,
            result is Err ==> result->Err_0 is Other,
    ;
}

impl<T> ResponseExt for Response<T> {
    /// A response whose status is 200 to 299 is handed back as it is. Any
    /// other becomes an error that says `request failed with status` and
    /// the status as the response writes it.
    fn error_for_status(self) -> (result: Result<Self, TraceError>)
        ensures
            result is Err ==> exists|status: Seq<char>|
                result->Err_0->Other_0@ == #[trigger] failure_message(status),
    {
        let code = status_number(&self);
        let text = status_text(&self);
        let ghost status = text@;
        match verdict(code, text) {
            Ok(()) => Ok(self),
            Err(error) => {
                assert(error->Other_0@ == failure_message(status));
                Err(error)
            },
        }
    }
}

} // verus!
