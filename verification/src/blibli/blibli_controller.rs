//! The answers of the Blibli endpoint.

use vstd::prelude::*;
use vstd::string::StringExecFns;
use crate::blibli::blibli_dto::ApiResponse;
use crate::blibli::blibli_model::BlibliProduct;

verus! {

/// The status of an answer to a request that was served.
pub const STATUS_OK: u16 = 200;

/// The status of an answer to a request that failed.
pub const STATUS_INTERNAL_SERVER_ERROR: u16 = 500;

/// What a caller is told when scraping failed for the reason `reason`.
pub open spec fn scrape_failure(reason: Seq<char>) -> Seq<char> {
    "Scraping failed: "@ + reason
}

/// What a caller is told when the service could not be started.
pub open spec fn start_failure(reason: Seq<char>) -> Seq<char> {
    "Service initialization failed: "@ + reason
}

/// The answer to a request with its status: the products with their
/// number, or the reason why there are none.
pub fn respond(outcome: Result<Vec<BlibliProduct>, String>) -> (answer: (
    u16,
    ApiResponse<Vec<BlibliProduct>>,
))
    ensures
        match outcome {
            Ok(products) => answer.0 == STATUS_OK && answer.1.success && answer.1.data == Some(
                products,
            ) && answer.1.error is None && answer.1.count == Some(products@.len() as usize),
            Err(reason) => {
                &&& answer.0 == STATUS_INTERNAL_SERVER_ERROR
                &&& !answer.1.success
                &&& answer.1.data is None
                &&& answer.1.count is None
                &&& answer.1.error matches Some(message)
                &&& message@ == scrape_failure(reason@)
            },
        },
{
    match outcome {
        Ok(products) => {
            let count = products.len();
            (STATUS_OK, ApiResponse::success(products, count))
        },
        Err(reason) => {
            let mut message = "Scraping failed: ".to_owned();
            message.append(reason.as_str());
            (STATUS_INTERNAL_SERVER_ERROR, ApiResponse::error(message))
        },
    }
}

/// The answer, with its status, to a request that could not be served
/// because the service did not start.
pub fn respond_unstarted(reason: &str) -> (answer: (u16, ApiResponse<Vec<BlibliProduct>>))
    ensures
        answer.0 == STATUS_INTERNAL_SERVER_ERROR,
        !answer.1.success,
        answer.1.data is None,
        answer.1.count is None,
        answer.1.error matches Some(message) && message@ == start_failure(reason@),
{
    let mut message = "Service initialization failed: ".to_owned();
    message.append(reason);
    (STATUS_INTERNAL_SERVER_ERROR, ApiResponse::error(message))
}

} // verus!
