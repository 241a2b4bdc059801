//! Decoding JSON response bodies: the happy path, and every way a body can
//! be malformed.

use newsapi::NewsAPIError;
use newsapi::decode_and_classify;
use newsapi::decode_response;

#[test]
fn full_response_round_trips_every_field() {
    let text = r#"{
        "status": "ok",
        "articles": [
            {"title": "first", "url": "https://example.com/1", "description": "about the first"},
            {"title": "second", "url": "https://example.com/2", "description": null},
            {"title": "third", "url": "https://example.com/3"}
        ],
        "code": null
    }"#;
    let response = decode_response(text).unwrap();
    let articles = response.articles();
    assert_eq!(articles.len(), 3);
    assert_eq!(articles[0].title(), "first");
    assert_eq!(articles[0].url(), "https://example.com/1");
    assert_eq!(articles[0].description(), Some(&"about the first".to_string()));
    assert_eq!(articles[1].title(), "second");
    assert_eq!(articles[1].description(), None);
    assert_eq!(articles[2].description(), None);
    assert_eq!(response.status, "ok");
    assert_eq!(response.code, None);
}

#[test]
fn ok_response_classifies_as_success() {
    let text = r#"{"status": "ok", "articles": []}"#;
    let response = decode_and_classify(text).unwrap();
    assert_eq!(response.status, "ok");
    assert_eq!(response.articles().len(), 0);
}

#[test]
fn error_response_with_disabled_key_classifies_specifically() {
    let text = r#"{"status": "error", "articles": [], "code": "apiKeyDisabled"}"#;
    let err = decode_and_classify(text).unwrap_err();
    assert_eq!(err, NewsAPIError::BadRequest("Your API key has been disabled"));
}

#[test]
fn error_response_with_other_code_is_generic() {
    let text = r#"{"status": "error", "articles": [], "code": "rateLimited"}"#;
    let err = decode_and_classify(text).unwrap_err();
    assert_eq!(err, NewsAPIError::BadRequest("Unknown error"));
}

#[test]
fn unparsable_text_is_a_decode_failure() {
    let err = decode_response("not json at all").unwrap_err();
    assert_eq!(err, NewsAPIError::ArticleParseFail);
    let err = decode_and_classify("{\"status\": \"ok\"").unwrap_err();
    assert_eq!(err, NewsAPIError::ArticleParseFail);
}

#[test]
fn missing_status_is_a_decode_failure_never_a_success() {
    let text = r#"{"articles": []}"#;
    assert_eq!(decode_response(text).unwrap_err(), NewsAPIError::ArticleParseFail);
    assert!(decode_and_classify(text).is_err());
}

#[test]
fn missing_articles_is_a_decode_failure() {
    let text = r#"{"status": "ok"}"#;
    assert_eq!(decode_response(text).unwrap_err(), NewsAPIError::ArticleParseFail);
}

#[test]
fn article_without_title_or_url_is_a_decode_failure() {
    let no_title = r#"{"status": "ok", "articles": [{"url": "https://example.com"}]}"#;
    assert_eq!(decode_response(no_title).unwrap_err(), NewsAPIError::ArticleParseFail);
    let no_url = r#"{"status": "ok", "articles": [{"title": "t"}]}"#;
    assert_eq!(decode_response(no_url).unwrap_err(), NewsAPIError::ArticleParseFail);
}

#[test]
fn mistyped_fields_are_decode_failures() {
    let status_number = r#"{"status": 7, "articles": []}"#;
    assert_eq!(
        decode_response(status_number).unwrap_err(),
        NewsAPIError::ArticleParseFail
    );
    let articles_object = r#"{"status": "ok", "articles": {}}"#;
    assert_eq!(
        decode_response(articles_object).unwrap_err(),
        NewsAPIError::ArticleParseFail
    );
    let code_number = r#"{"status": "error", "articles": [], "code": 5}"#;
    assert_eq!(
        decode_response(code_number).unwrap_err(),
        NewsAPIError::ArticleParseFail
    );
    let description_number =
        r#"{"status": "ok", "articles": [{"title": "t", "url": "u", "description": 3}]}"#;
    assert_eq!(
        decode_response(description_number).unwrap_err(),
        NewsAPIError::ArticleParseFail
    );
}
