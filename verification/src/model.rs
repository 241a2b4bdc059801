//! The decoded records of the API response, and the pure response mapper.
//!
//! A response is treated as successful exactly when its `status` field is
//! `"ok"`; otherwise the optional `code` field drives the error
//! classification. Both records are immutable after construction.

use vstd::prelude::*;

use crate::error::Classification;
use crate::error::NewsAPIError;
use crate::error::map_response_err;
use crate::error::spec_classify;
use crate::error::spec_error_for;

verus! {

/// One news article of a successful response.
#[derive(Debug, Clone, PartialEq, Eq)]
pub struct Article {
    pub title: String,
    pub url: String,
    pub description: Option<String>,
}

impl Article {
    /// The article's title.
    pub fn title(&self) -> (r: &str)
        ensures
            r@ == self.title@,
    {
        self.title.as_str()
    }

    /// The article's own URL.
    pub fn url(&self) -> (r: &str)
        ensures
            r@ == self.url@,
    {
        self.url.as_str()
    }

    /// The article's description, absent when the server sent none.
    pub fn description(&self) -> (r: Option<&String>)
        ensures
            r matches Some(d) ==> self.description matches Some(v) && d == v,
            r is Some <==> self.description is Some,
    {
        self.description.as_ref()
    }
}

/// The decoded shape of an API response: a status, the articles, and an
/// error code that the server populates only on failure.
#[derive(Debug, Clone, PartialEq, Eq)]
pub struct NewsAPIResponse {
    pub status: String,
    pub articles: Vec<Article>,
    pub code: Option<String>,
}

impl NewsAPIResponse {
    /// The articles of the response.
    pub fn articles(&self) -> (r: &Vec<Article>)
        ensures
            r == &self.articles,
    {
        &self.articles
    }
}

/// Assembles an article from its decoded fields.
///
/// `title` and `url` are required: the article is built exactly when both are
/// present, and a missing one is a decode failure. The description is
/// optional and carried over as-is.
pub fn build_article(title: Option<String>, url: Option<String>, description: Option<String>)
    -> (r: Result<Article, NewsAPIError>)
    ensures
        r is Ok <==> (title is Some && url is Some),
        r matches Ok(a) ==> title matches Some(t) && a.title == t,
        r matches Ok(a) ==> url matches Some(u) && a.url == u,
        r matches Ok(a) ==> a.description == description,
        r matches Err(e) ==> e == NewsAPIError::ArticleParseFail,
{
    match (title, url) {
        (Some(title), Some(url)) => Ok(Article { title, url, description }),
        _ => Err(NewsAPIError::ArticleParseFail),
    }
}

/// Assembles a response record from its decoded fields.
///
/// `status` is required: the response is built exactly when it is present,
/// and a missing status is a decode failure, never a success. The articles
/// and the optional error code are carried over as-is.
pub fn build_response(status: Option<String>, articles: Vec<Article>, code: Option<String>)
    -> (r: Result<NewsAPIResponse, NewsAPIError>)
    ensures
        r is Ok <==> status is Some,
        r matches Ok(resp) ==> status matches Some(s) && resp.status == s,
        r matches Ok(resp) ==> resp.articles == articles,
        r matches Ok(resp) ==> resp.code == code,
        status is None ==> r == Err::<NewsAPIResponse, NewsAPIError>(NewsAPIError::ArticleParseFail),
{
    match status {
        Some(status) => Ok(NewsAPIResponse { status, articles, code }),
        None => Err(NewsAPIError::ArticleParseFail),
    }
}

/// Classifies a decoded response into a success or a typed error.
///
/// The outcome depends on the `status` and `code` fields alone, so it is the
/// same whichever transport produced the response: a response with
/// `status == "ok"` is returned unchanged, articles included; any other
/// status is mapped to the error its code stands for.
pub fn classify(response: NewsAPIResponse) -> (r: Result<NewsAPIResponse, NewsAPIError>)
    ensures
        r is Ok <==> spec_classify(response.status@, response.code.deep_view())
            is Success,
        r matches Ok(out) ==> out == response,
        r matches Err(e) ==> spec_error_for(
            e,
            spec_classify(response.status@, response.code.deep_view()),
        ),
{
    if response.status == String::from_str("ok") {
        Ok(response)
    } else {
        Err(map_response_err(response.code))
    }
}

} // verus!
