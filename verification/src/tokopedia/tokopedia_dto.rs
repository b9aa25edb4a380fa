//! Request parameters and the response envelope of the Tokopedia endpoint.

use vstd::prelude::*;

verus! {

/// Parameters of a Tokopedia search.
#[derive(Debug)]
pub struct TokopediaQuery {
    /// Search term.
    pub query: String,
    /// Largest number of products to return.
    pub limit: usize,
}

/// Response of the Tokopedia endpoint.
pub struct ApiResponse<T> {
    /// Whether the request was served.
    pub success: bool,
    /// The data, present on success only.
    pub data: Option<T>,
    /// The reason, present on failure only.
    pub error: Option<String>,
    /// Number of items returned.
    pub count: usize,
}

impl<T> ApiResponse<T> {
    /// The response to a request that was served: `data`, and how many
    /// items it holds.
    pub fn success(data: T, count: usize) -> (response: Self)
        ensures
            response.success,
            response.data == Some(data),
            response.error is None,
            response.count == count,
    {
        Self { success: true, data: Some(data), error: None, count }
    }

    /// The response to a request that failed, with the reason.
    pub fn error(error: String) -> (response: Self)
        ensures
            !response.success,
            response.data is None,
            response.error == Some(error),
            response.count == 0,
    {
        Self { success: false, data: None, error: Some(error), count: 0 }
    }
}

} // verus!
