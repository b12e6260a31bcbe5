use vstd::prelude::*;

verus! {

/// The error part of a response envelope.
#[derive(Debug, Clone)]
pub struct ApiError {
    pub code: u32,
    pub message: String,
}

/// The tagged success/failure envelope that every exposed operation returns.
#[derive(Debug, Clone)]
pub struct ApiResponse<T> {
    pub success: bool,
    pub data: Option<T>,
    pub error: Option<ApiError>,
}

impl<T> ApiResponse<T> {
    /// A successful envelope carrying `data`.
    pub fn ok(data: T) -> (r: Self)
        ensures
            r.success,
            r.data == Some(data),
            r.error.is_none(),
    {
        ApiResponse { success: true, data: Some(data), error: None }
    }

    /// A failed envelope with the given code and message.
    pub fn err(code: u32, message: String) -> (r: Self)
        ensures
            !r.success,
            r.data.is_none(),
            r.error matches Some(e) && e.code == code && e.message@ == message@,
    {
        ApiResponse { success: false, data: None, error: Some(ApiError { code, message }) }
    }
}

} // verus!

verus! {

/// `r` is a failed envelope with error code `code`.
pub open spec fn is_failure<T>(r: ApiResponse<T>, code: u32) -> bool {
    &&& !r.success
    &&& r.data is None
    &&& r.error matches Some(e) && e.code == code
}

/// `r` is a failed envelope with error code `code` and message `message`.
pub open spec fn is_failure_with<T>(r: ApiResponse<T>, code: u32, message: Seq<char>) -> bool {
    &&& is_failure(r, code)
    &&& r.error->Some_0.message@ == message
}

/// `r` is a successful envelope.
pub open spec fn is_success<T>(r: ApiResponse<T>) -> bool {
    &&& r.success
    &&& r.data is Some
    &&& r.error is None
}

} // verus!
