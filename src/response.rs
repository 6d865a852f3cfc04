//! The envelope in which every endpoint answers.

use vstd::prelude::*;

verus! {

/// A response body: whether the call succeeded, its data, and the error
/// message when it did not.
pub struct ApiResponse<T> {
    pub success: bool,
    pub data: T,
    pub error: Option<String>,
}

impl<T> ApiResponse<T> {
    /// A successful response carrying `data`.
    pub fn success(data: T) -> (r: Self)
        ensures
            r.success,
            r.data == data,
            r.error is None,
    {
        ApiResponse { success: true, data, error: None }
    }

    /// A failed response carrying `message` and `data`.
    pub fn error(message: String, data: T) -> (r: Self)
        ensures
            !r.success,
            r.data == data,
            r.error == Some(message),
    {
        ApiResponse { success: false, data, error: Some(message) }
    }
}

} // verus!
