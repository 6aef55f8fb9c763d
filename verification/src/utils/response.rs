//! The envelope that wraps every REST answer.

use vstd::prelude::*;

verus! {

/// Status code carried by every successful envelope.
pub const SUCCESS_CODE: u16 = 200;

/// Uniform answer of the REST surface: a status code, a message for humans,
/// and the payload when there is one.
#[derive(Debug)]
pub struct ApiResponse<T> {
    /// HTTP-like status, e.g. 200 for success, 404 for a missing resource.
    pub code: u16,
    /// Explanation of the outcome.
    pub msg: String,
    /// The payload; absent on failure and on answers that carry nothing.
    pub data: Option<T>,
}

/// Mathematical content of an [`ApiResponse`] whose payload has content `V`.
pub struct ApiResponseView<V> {
    pub code: u16,
    pub msg: Seq<char>,
    pub data: Option<V>,
}

impl<T: View> View for ApiResponse<T> {
    type V = ApiResponseView<T::V>;

    open spec fn view(&self) -> ApiResponseView<T::V> {
        ApiResponseView {
            code: self.code,
            msg: self.msg@,
            data: match self.data {
                Some(d) => Some(d@),
                None => None,
            },
        }
    }
}

/// Content of a successful envelope around `data`.
pub open spec fn success_view<V>(data: Option<V>) -> ApiResponseView<V> {
    ApiResponseView { code: SUCCESS_CODE, msg: "Success"@, data }
}

/// Content of a failed envelope.
pub open spec fn error_view<V>(code: u16, msg: Seq<char>) -> ApiResponseView<V> {
    ApiResponseView { code, msg, data: None }
}

impl<T> ApiResponse<T> {
    /// A successful answer carrying `data`.
    pub fn success(data: T) -> (r: Self)
        ensures
            r.code == SUCCESS_CODE,
            r.msg@ == "Success"@,
            r.data == Some(data),
    {
        ApiResponse { code: SUCCESS_CODE, msg: "Success".to_string(), data: Some(data) }
    }

    /// A successful answer without payload.
    pub fn success_nodata() -> (r: Self)
        ensures
            r.code == SUCCESS_CODE,
            r.msg@ == "Success"@,
            r.data is None,
    {
        ApiResponse { code: SUCCESS_CODE, msg: "Success".to_string(), data: None }
    }

    /// A failed answer: the given code and message, never a payload.
    pub fn error(code: u16, msg: String) -> (r: Self)
        ensures
            r.code == code,
            r.msg == msg,
            r.data is None,
    {
        ApiResponse { code, msg, data: None }
    }
}

/// Payload of answers that have nothing to say beyond their status.
#[derive(Debug, Clone, Copy, PartialEq, Eq, Structural)]
pub struct EmptyResponse {}

impl View for EmptyResponse {
    type V = EmptyResponse;

    open spec fn view(&self) -> EmptyResponse {
        *self
    }
}

/// The one value of [`EmptyResponse`].
pub fn empty() -> (r: EmptyResponse)
    ensures
        r == (EmptyResponse {}),
{
    EmptyResponse {}
}

} // verus!
