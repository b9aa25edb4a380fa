//! The answer to a request.

use vstd::prelude::*;
use vstd::string::StringExecFns;
use crate::scraper::scraper_dto::ApiResponse;
use crate::scraper::scraper_model::Product;

verus! {

/// What a caller is told when scraping failed for the reason `reason`.
pub open spec fn scrape_failure(reason: Seq<char>) -> Seq<char> {
    "Failed to scrape: "@ + reason
}

/// What a caller is told when the service could not be started.
pub open spec fn start_failure(reason: Seq<char>) -> Seq<char> {
    "Failed to initialize scraper: "@ + reason
}

/// The answer to a request: the products with their number, or the reason
/// why there are none.
pub fn respond(outcome: Result<Vec<Product>, String>) -> (response: ApiResponse<Vec<Product>>)
    ensures
        match outcome {
            Ok(products) => response.success && response.data == Some(products)
                && response.error is None && response.count == products@.len(),
            Err(reason) => {
                &&& !response.success
                &&& response.data is None
                &&& response.count == 0
                &&& response.error matches Some(message)
                &&& message@ == scrape_failure(reason@)
            },
        },
{
    match outcome {
        Ok(products) => {
            let count = products.len();
            ApiResponse::success(products, count)
        },
        Err(reason) => {
            let mut message = "Failed to scrape: ".to_owned();
            message.append(reason.as_str());
            ApiResponse::error(message)
        },
    }
}

/// The answer to a request that could not be served because the service
/// did not start.
pub fn respond_unstarted(reason: &str) -> (response: ApiResponse<Vec<Product>>)
    ensures
        !response.success,
        response.data is None,
        response.count == 0,
        response.error matches Some(message) && message@ == start_failure(reason@),
{
    let mut message = "Failed to initialize scraper: ".to_owned();
    message.append(reason);
    ApiResponse::error(message)
}

} // verus!
