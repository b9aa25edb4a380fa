//! Request parameters and the response envelope.

use vstd::prelude::*;

verus! {

/// What a caller asks for: a search term and the largest number of
/// products to return.
#[derive(Debug)]
pub struct ScraperQuery {
    pub query: String,
    pub limit: usize,
}

/// What a caller gets back: the data on success, a message on failure.
pub struct ApiResponse<T> {
    pub success: bool,
    pub data: Option<T>,
    pub error: Option<String>,
    pub count: usize,
}

impl<T> ApiResponse<T> {
    /// The response to a request that was served: `data`, and how many
    /// items it holds.
    pub fn success(data: T, count: usize) -> (response: Self)
        ensures
            response.success,
            response.data == Some(data),
            response.error is None,
            response.count == count,
    {
        Self { success: true, data: Some(data), error: None, count }
    }

    /// The response to a request that failed, with the reason.
    pub fn error(error: String) -> (response: Self)
        ensures
            !response.success,
            response.data is None,
            response.error == Some(error),
            response.count == 0,
    {
        Self { success: false, data: None, error: Some(error), count: 0 }
    }
}

} // verus!
