//! The closed error taxonomy of the library, and the classification of
//! API-level response codes into it.
//!
//! Every failure is surfaced to the caller as one of these kinds; nothing is
//! retried or recovered internally.

use vstd::prelude::*;

verus! {

/// Everything that can go wrong while fetching and decoding news articles.
#[derive(Debug, PartialEq, Eq)]
pub enum NewsAPIError {
    /// Transport-level network or IO failure on the blocking path.
    RequestFailed,
    /// The response body could not be read into a string (blocking path).
    FailedResponseToString,
    /// The response JSON was structurally invalid or missed a required field.
    ArticleParseFail,
    /// The fixed base URL failed to parse (defensive; never expected).
    UrlParsing,
    /// An API-level semantic failure, with a human-readable reason.
    BadRequest(&'static str),
    /// Any transport or decode failure on the async path.
    AsyncRequestFailed,
}

/// The three outcomes an API response can be classified into.
pub enum Classification {
    /// The response reported `status == "ok"`.
    Success,
    /// The server rejected the API key (`code == "apiKeyDisabled"`).
    ApiKeyDisabled,
    /// Any other non-ok response.
    UnknownError,
}

/// How a non-ok response's optional error code is classified.
pub open spec fn spec_classify_code(code: Option<Seq<char>>) -> Classification {
    match code {
        Some(c) => if c == "apiKeyDisabled"@ {
            Classification::ApiKeyDisabled
        } else {
            Classification::UnknownError
        },
        None => Classification::UnknownError,
    }
}

/// How a whole response is classified, from its status and error code alone.
pub open spec fn spec_classify(status: Seq<char>, code: Option<Seq<char>>) -> Classification {
    if status == "ok"@ {
        Classification::Success
    } else {
        spec_classify_code(code)
    }
}

/// Whether `e` is the error value that a classification outcome maps to.
pub open spec fn spec_error_for(e: NewsAPIError, c: Classification) -> bool {
    match c {
        Classification::Success => false,
        Classification::ApiKeyDisabled => e matches NewsAPIError::BadRequest(m)
            && m@ == "Your API key has been disabled"@,
        Classification::UnknownError => e matches NewsAPIError::BadRequest(m)
            && m@ == "Unknown error"@,
    }
}

/// Classification is a pure function of the response's status and code: two
/// error values classified alike — whichever transport produced them — carry
/// the same observable failure, variant and message both.
pub proof fn lemma_classification_deterministic(
    e1: NewsAPIError,
    e2: NewsAPIError,
    c: Classification,
)
    requires
        spec_error_for(e1, c),
        spec_error_for(e2, c),
    ensures
        e1 matches NewsAPIError::BadRequest(m1) ==> (e2 matches NewsAPIError::BadRequest(m2)
            && m1@ == m2@),
{
}

/// Maps the optional `code` field of a non-ok response to its typed error.
///
/// Only `"apiKeyDisabled"` has a specific message; every other code, and an
/// absent code, fall back to the generic "Unknown error" failure.
pub fn map_response_err(code: Option<String>) -> (r: NewsAPIError)
    ensures
        spec_error_for(r, spec_classify_code(code.deep_view())),
{
    if let Some(code) = code {
        if code == String::from_str("apiKeyDisabled") {
            NewsAPIError::BadRequest("Your API key has been disabled")
        } else {
            NewsAPIError::BadRequest("Unknown error")
        }
    } else {
        NewsAPIError::BadRequest("Unknown error")
    }
}

} // verus!
