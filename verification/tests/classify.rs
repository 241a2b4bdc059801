//! The pure response mapper: success, the specific key-disabled failure, and
//! the generic fallback.

use newsapi::Article;
use newsapi::NewsAPIError;
use newsapi::NewsAPIResponse;
use newsapi::build_article;
use newsapi::build_response;
use newsapi::classify;
use newsapi::map_response_err;

fn article(title: &str, url: &str, description: Option<&str>) -> Article {
    build_article(
        Some(title.to_string()),
        Some(url.to_string()),
        description.map(|d| d.to_string()),
    )
    .unwrap()
}

#[test]
fn ok_status_is_success_and_articles_are_preserved() {
    let articles = vec![
        article("first", "https://example.com/1", Some("about the first")),
        article("second", "https://example.com/2", None),
    ];
    let response = build_response(Some("ok".to_string()), articles.clone(), None).unwrap();
    let out = classify(response).unwrap();
    assert_eq!(out.articles(), &articles);
    assert_eq!(out.articles()[0].title(), "first");
    assert_eq!(out.articles()[0].url(), "https://example.com/1");
    assert_eq!(
        out.articles()[0].description(),
        Some(&"about the first".to_string())
    );
    assert_eq!(out.articles()[1].description(), None);
}

#[test]
fn api_key_disabled_is_the_specific_failure() {
    let response = NewsAPIResponse {
        status: "error".to_string(),
        articles: Vec::new(),
        code: Some("apiKeyDisabled".to_string()),
    };
    let err = classify(response).unwrap_err();
    assert_eq!(err, NewsAPIError::BadRequest("Your API key has been disabled"));
}

#[test]
fn other_code_is_the_generic_failure() {
    let response = NewsAPIResponse {
        status: "error".to_string(),
        articles: Vec::new(),
        code: Some("somethingElse".to_string()),
    };
    let err = classify(response).unwrap_err();
    assert_eq!(err, NewsAPIError::BadRequest("Unknown error"));
}

#[test]
fn absent_code_is_the_generic_failure() {
    let response = NewsAPIResponse {
        status: "error".to_string(),
        articles: Vec::new(),
        code: None,
    };
    let err = classify(response).unwrap_err();
    assert_eq!(err, NewsAPIError::BadRequest("Unknown error"));
}

#[test]
fn map_response_err_covers_the_code_table() {
    assert_eq!(
        map_response_err(Some("apiKeyDisabled".to_string())),
        NewsAPIError::BadRequest("Your API key has been disabled")
    );
    assert_eq!(
        map_response_err(Some("rateLimited".to_string())),
        NewsAPIError::BadRequest("Unknown error")
    );
    assert_eq!(map_response_err(None), NewsAPIError::BadRequest("Unknown error"));
}

#[test]
fn missing_required_fields_fail_assembly() {
    assert_eq!(
        build_article(None, Some("https://example.com".to_string()), None).unwrap_err(),
        NewsAPIError::ArticleParseFail
    );
    assert_eq!(
        build_article(Some("title".to_string()), None, None).unwrap_err(),
        NewsAPIError::ArticleParseFail
    );
    assert_eq!(
        build_response(None, Vec::new(), None).unwrap_err(),
        NewsAPIError::ArticleParseFail
    );
}
