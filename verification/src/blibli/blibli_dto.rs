//! Request parameters and the response envelope of the Blibli endpoint.

use vstd::prelude::*;

verus! {

/// Parameters of a Blibli search.
#[derive(Debug)]
pub struct BlibliQuery {
    /// Search term.
    pub query: String,
    /// Largest number of products to return.
    pub limit: usize,
}

/// Response of the Blibli endpoint. A failure carries no count.
#[derive(Debug)]
pub struct ApiResponse<T> {
    pub success: bool,
    pub data: Option<T>,
    pub error: Option<String>,
    pub count: Option<usize>,
}

impl<T> ApiResponse<T> {
    /// The response to a request that was served: `data`, and how many
    /// items it holds.
    pub fn success(data: T, count: usize) -> (response: Self)
        ensures
            response.success,
            response.data == Some(data),
            response.error is None,
            response.count == Some(count),
    {
        Self { success: true, data: Some(data), error: None, count: Some(count) }
    }

    /// The response to a request that failed, with the reason.
    pub fn error(msg: String) -> (response: Self)
        ensures
            !response.success,
            response.data is None,
            response.error == Some(msg),
            response.count is None,
    {
        Self { success: false, data: None, error: Some(msg), count: None }
    }
}

} // verus!
