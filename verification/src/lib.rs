//! A small client library for a news-aggregation HTTP API.
//!
//! The library builds a request URL from structured parameters (endpoint,
//! country), decodes the JSON response body into typed records, and maps
//! API-level error codes into a typed error taxonomy. The network transport
//! itself is left to the caller; all three transport styles (blocking, async,
//! browser) share the URL composition and the response classification that
//! live here.

mod config;
mod decode;
mod error;
mod model;

pub use config::Country;
pub use config::Endpoint;
pub use config::NewsAPI;
pub use config::spec_composed_url;
pub use decode::decode_and_classify;
pub use decode::decode_response;
pub use decode::raw_array_len_of;
pub use decode::raw_field_absent_or_null_of;
pub use decode::raw_item_absent_or_null_of;
pub use decode::raw_item_string_of;
pub use decode::raw_string_field_of;
pub use decode::spec_article_matches;
pub use decode::spec_article_ok;
pub use decode::spec_code_ok;
pub use decode::spec_decode_ok;
pub use decode::spec_response_matches;
pub use model::Article;
pub use model::NewsAPIResponse;
pub use model::build_article;
pub use model::build_response;
pub use model::classify;
pub use error::Classification;
pub use error::NewsAPIError;
pub use error::lemma_classification_deterministic;
pub use error::map_response_err;
pub use error::spec_classify;
pub use error::spec_classify_code;
pub use error::spec_error_for;
