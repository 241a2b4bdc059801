//! Decoding of the JSON response body into the typed records.
//!
//! The JSON mechanics are the work of an outside JSON library, and what it
//! decodes from a given body is a function of the text alone; the
//! uninterpreted functions below name that decode, field by field, and the
//! trusted extractors hand the named raw fields out as plain values. The
//! decoding rules themselves — which fields are required, what a missing or
//! mistyped field means — live in verified code: the walk here and the
//! assembly functions [`crate::build_article`] and [`crate::build_response`]
//! that it feeds, so success and every failure are pinned to the named
//! decode of the body.

use vstd::prelude::*;

use crate::error::NewsAPIError;
use crate::error::spec_classify_code;
use crate::error::spec_error_for;
use crate::model::Article;
use crate::model::NewsAPIResponse;
use crate::model::build_article;
use crate::model::build_response;
use crate::model::classify;

verus! {

/// The string at a top-level key of the decoded body: `Some(s)` exactly when
/// the text is valid JSON whose document holds the string `s` at that key;
/// `None` when the text does not parse, the key is absent, or the value
/// there is not a string.
pub uninterp spec fn raw_string_field_of(text: Seq<char>, key: Seq<char>) -> Option<Seq<char>>;

/// Whether the decoded body holds nothing, or JSON `null`, at a top-level
/// key; `false` when the text does not parse or the value there is of any
/// other kind.
pub uninterp spec fn raw_field_absent_or_null_of(text: Seq<char>, key: Seq<char>) -> bool;

/// The length of the array at a top-level key of the decoded body; absent
/// when the text does not parse or the value there is not an array.
pub uninterp spec fn raw_array_len_of(text: Seq<char>, key: Seq<char>) -> Option<int>;

/// The string at `key` of the `i`-th element of the array at `array_key` of
/// the decoded body; `None` when that element does not exist, holds no such
/// key, or holds something other than a string there.
pub uninterp spec fn raw_item_string_of(
    text: Seq<char>,
    array_key: Seq<char>,
    i: int,
    key: Seq<char>,
) -> Option<Seq<char>>;

/// Whether the `i`-th element of the array at `array_key` of the decoded
/// body holds nothing, or JSON `null`, at `key`; `false` when that element
/// does not exist or the value there is of any other kind.
pub uninterp spec fn raw_item_absent_or_null_of(
    text: Seq<char>,
    array_key: Seq<char>,
    i: int,
    key: Seq<char>,
) -> bool;

/// Relies on `serde_json::from_str::<Value>`, `Value::get` and
/// `Value::as_str`: what they decode depends on the text alone.
#[verifier::external_body]
fn extract_string_field(text: &str, key: &str) -> (r: Option<String>)
    ensures
        r.deep_view() == raw_string_field_of(text@, key@),
{
    let Ok(v) = serde_json::from_str::<serde_json::Value>(text) else { return None };
    let Some(f) = v.get(key) else { return None };
    match f.as_str() {
        Some(s) => Some(s.to_string()),
        None => None,
    }
}

/// Relies on `serde_json::from_str::<Value>`, `Value::get` and
/// `Value::is_null`: what they decode depends on the text alone.
#[verifier::external_body]
fn extract_field_absent_or_null(text: &str, key: &str) -> (r: bool)
    ensures
        r == raw_field_absent_or_null_of(text@, key@),
{
    let Ok(v) = serde_json::from_str::<serde_json::Value>(text) else { return false };
    match v.get(key) {
        None => true,
        Some(f) => f.is_null(),
    }
}

/// Relies on `serde_json::from_str::<Value>`, `Value::get` and
/// `Value::as_array`: what they decode depends on the text alone.
#[verifier::external_body]
fn extract_array_len(text: &str, key: &str) -> (r: Option<usize>)
    ensures
        r is Some <==> raw_array_len_of(text@, key@) is Some,
        r matches Some(n) ==> raw_array_len_of(text@, key@) == Some(n as int),
{
    let Ok(v) = serde_json::from_str::<serde_json::Value>(text) else { return None };
    let Some(f) = v.get(key) else { return None };
    match f.as_array() {
        Some(a) => Some(a.len()),
        None => None,
    }
}

/// Relies on `serde_json::from_str::<Value>`, `Value::get`, `Value::as_array`
/// and `Value::as_str`: what they decode depends on the text alone.
#[verifier::external_body]
fn extract_item_string(text: &str, array_key: &str, i: usize, key: &str) -> (r: Option<String>)
    ensures
        r.deep_view() == raw_item_string_of(text@, array_key@, i as int, key@),
{
    let Ok(v) = serde_json::from_str::<serde_json::Value>(text) else { return None };
    let Some(f) = v.get(array_key) else { return None };
    let Some(arr) = f.as_array() else { return None };
    let Some(item) = arr.get(i) else { return None };
    let Some(field) = item.get(key) else { return None };
    match field.as_str() {
        Some(s) => Some(s.to_string()),
        None => None,
    }
}

/// Relies on `serde_json::from_str::<Value>`, `Value::get`, `Value::as_array`
/// and `Value::is_null`: what they decode depends on the text alone.
#[verifier::external_body]
fn extract_item_absent_or_null(text: &str, array_key: &str, i: usize, key: &str) -> (r: bool)
    ensures
        r == raw_item_absent_or_null_of(text@, array_key@, i as int, key@),
{
    let Ok(v) = serde_json::from_str::<serde_json::Value>(text) else { return false };
    let Some(f) = v.get(array_key) else { return false };
    let Some(arr) = f.as_array() else { return false };
    let Some(item) = arr.get(i) else { return false };
    match item.get(key) {
        None => true,
        Some(field) => field.is_null(),
    }
}

/// The optional `code` field of the body is well-formed: a string, null, or
/// absent.
pub open spec fn spec_code_ok(text: Seq<char>) -> bool {
    raw_string_field_of(text, "code"@) is Some || raw_field_absent_or_null_of(text, "code"@)
}

/// The `i`-th article of the body is complete: string `title` and `url`,
/// and a `description` that is a string, null, or absent.
pub open spec fn spec_article_ok(text: Seq<char>, i: int) -> bool {
    &&& raw_item_string_of(text, "articles"@, i, "title"@) is Some
    &&& raw_item_string_of(text, "articles"@, i, "url"@) is Some
    &&& (raw_item_string_of(text, "articles"@, i, "description"@) is Some
        || raw_item_absent_or_null_of(text, "articles"@, i, "description"@))
}

/// The body decodes to a complete response record: a string `status`, a
/// well-formed optional `code`, and an `articles` array whose every element
/// is a complete article.
pub open spec fn spec_decode_ok(text: Seq<char>) -> bool {
    &&& raw_string_field_of(text, "status"@) is Some
    &&& spec_code_ok(text)
    &&& raw_array_len_of(text, "articles"@) matches Some(n) && (forall|i: int|
        0 <= i < n ==> #[trigger] spec_article_ok(text, i))
}

/// `a` is exactly what the `i`-th article of the body decodes to, a null or
/// absent description becoming an absent value.
pub open spec fn spec_article_matches(text: Seq<char>, i: int, a: Article) -> bool {
    &&& raw_item_string_of(text, "articles"@, i, "title"@) matches Some(t) && a.title@ == t
    &&& raw_item_string_of(text, "articles"@, i, "url"@) matches Some(u) && a.url@ == u
    &&& a.description.deep_view() == raw_item_string_of(text, "articles"@, i, "description"@)
}

/// `resp` is exactly what the body decodes to, field by field and article by
/// article.
pub open spec fn spec_response_matches(text: Seq<char>, resp: NewsAPIResponse) -> bool {
    &&& raw_string_field_of(text, "status"@) matches Some(s) && resp.status@ == s
    &&& resp.code.deep_view() == raw_string_field_of(text, "code"@)
    &&& raw_array_len_of(text, "articles"@) == Some(resp.articles@.len() as int)
    &&& forall|i: int|
        0 <= i < resp.articles@.len() ==> #[trigger] spec_article_matches(
            text,
            i,
            resp.articles@[i],
        )
}

/// Decodes a response body into the typed record.
///
/// The body must be a JSON object with a string `status`, an array
/// `articles` of article objects, and an optional string-or-null `code`.
/// Decoding succeeds exactly when the body is such an object, yields exactly
/// what the body decodes to, and reports anything else — unparsable text, a
/// missing or mistyped field — as the article-parse failure, never a
/// success.
pub fn decode_response(text: &str) -> (r: Result<NewsAPIResponse, NewsAPIError>)
    ensures
        r is Ok <==> spec_decode_ok(text@),
        r matches Ok(resp) ==> spec_response_matches(text@, resp),
        r matches Err(e) ==> e == NewsAPIError::ArticleParseFail,
{
    let count = match extract_array_len(text, "articles") {
        Some(n) => n,
        None => {
            return Err(NewsAPIError::ArticleParseFail);
        },
    };
    let mut articles: Vec<Article> = Vec::new();
    let mut i: usize = 0;
    while i < count
        invariant
            i <= count,
            raw_array_len_of(text@, "articles"@) == Some(count as int),
            articles@.len() == i as nat,
            forall|j: int| 0 <= j < i ==> #[trigger] spec_article_ok(text@, j),
            forall|j: int| 0 <= j < i ==> #[trigger] spec_article_matches(
                text@,
                j,
                articles@[j],
            ),
        decreases count - i,
    {
        let title = extract_item_string(text, "articles", i, "title");
        let url = extract_item_string(text, "articles", i, "url");
        let description = match extract_item_string(text, "articles", i, "description") {
            Some(d) => Some(d),
            None => {
                if extract_item_absent_or_null(text, "articles", i, "description") {
                    None
                } else {
                    proof {
                        assert(!spec_article_ok(text@, i as int));
                    }
                    return Err(NewsAPIError::ArticleParseFail);
                }
            },
        };
        match build_article(title, url, description) {
            Ok(a) => articles.push(a),
            Err(e) => {
                proof {
                    assert(!spec_article_ok(text@, i as int));
                }
                return Err(e);
            },
        }
        i = i + 1;
    }
    let code = match extract_string_field(text, "code") {
        Some(c) => Some(c),
        None => {
            if extract_field_absent_or_null(text, "code") {
                None
            } else {
                return Err(NewsAPIError::ArticleParseFail);
            }
        },
    };
    build_response(extract_string_field(text, "status"), articles, code)
}

/// Decodes a response body and classifies it, as every transport does.
///
/// The one success is a body that decodes to a complete record whose status
/// is `"ok"`, returned exactly as the body decodes; a body that does not
/// decode is the article-parse failure, and a decoded non-ok status is the
/// error its code classifies to.
pub fn decode_and_classify(text: &str) -> (r: Result<NewsAPIResponse, NewsAPIError>)
    ensures
        r is Ok <==> (spec_decode_ok(text@) && raw_string_field_of(text@, "status"@) == Some(
            "ok"@,
        )),
        r matches Ok(resp) ==> resp.status@ == "ok"@ && spec_response_matches(text@, resp),
        !spec_decode_ok(text@) ==> r == Err::<NewsAPIResponse, NewsAPIError>(
            NewsAPIError::ArticleParseFail,
        ),
        r matches Err(e) ==> (spec_decode_ok(text@) ==> spec_error_for(
            e,
            spec_classify_code(raw_string_field_of(text@, "code"@)),
        )),
{
    match decode_response(text) {
        Ok(resp) => classify(resp),
        Err(e) => Err(e),
    }
}

} // verus!
