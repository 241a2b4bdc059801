//! The request configuration and the deterministic URL composer.
//!
//! A configuration holds the API key and two closed enumerations, the
//! endpoint and the country. Composing a URL appends the endpoint's wire
//! form to a fixed base URL as a path segment and sets the query string to
//! exactly `country=<country>`; the API key never appears in the URL, it
//! travels in an authorization header added by the transport.

use vstd::prelude::*;

use crate::error::NewsAPIError;

verus! {

/// Logical API resource selector.
#[derive(Debug, Clone, Copy, PartialEq, Eq)]
pub enum Endpoint {
    TopHeadlines,
}

impl Endpoint {
    /// The URL path segment this endpoint stands for.
    pub open spec fn spec_str(&self) -> Seq<char> {
        match self {
            Endpoint::TopHeadlines => "top-headlines"@,
        }
    }

    /// Wire form of the endpoint, used as a URL path segment.
    pub fn to_string(&self) -> (s: String)
        ensures
            s@ == self.spec_str(),
    {
        match self {
            Endpoint::TopHeadlines => String::from_str("top-headlines"),
        }
    }
}

/// Country whose headlines are requested.
#[derive(Debug, Clone, Copy, PartialEq, Eq)]
pub enum Country {
    US,
    FR,
}

impl Country {
    /// The query-parameter value this country stands for.
    pub open spec fn spec_str(&self) -> Seq<char> {
        match self {
            Country::US => "us"@,
            Country::FR => "fr"@,
        }
    }

    /// Wire form of the country, used as the `country` query value.
    pub fn to_string(&self) -> (s: String)
        ensures
            s@ == self.spec_str(),
    {
        match self {
            Country::US => String::from_str("us"),
            Country::FR => String::from_str("fr"),
        }
    }
}

/// The exact URL that a given endpoint and country compose to:
/// `https://newsapi.org/v2/<endpoint>?country=<country>`, with no other
/// query parameters.
pub open spec fn spec_composed_url(e: Endpoint, c: Country) -> Seq<char> {
    "https://newsapi.org/v2"@ + "/"@ + e.spec_str() + "?"@ + "country="@ + c.spec_str()
}

#[verifier::external_type_specification]
#[verifier::external_body]
pub struct ExParseError(url::ParseError);

/// Relies on `url::Url::parse`, `Url::path_segments_mut`,
/// `PathSegmentsMut::push`, `Url::set_query` and `Url::to_string`: parsing
/// the fixed https base `https://newsapi.org/v2` succeeds and keeps its text;
/// pushing a segment adds `/` plus the segment, whose characters (ASCII
/// letters and `-`) the path-segment percent-encoding leaves unchanged; and
/// setting the query appends `?` plus the query, whose characters (ASCII
/// letters and `=`) the query percent-encoding leaves unchanged.
#[verifier::external_body]
fn url_join(base: &str, segment: &str, query: &str) -> (r: Result<String, url::ParseError>)
    requires
        base@ == "https://newsapi.org/v2"@,
        segment@ == "top-headlines"@,
        query@ == "country="@ + "us"@ || query@ == "country="@ + "fr"@,
    ensures
        r is Ok,
        r matches Ok(s) ==> s@ == base@ + "/"@ + segment@ + "?"@ + query@,
{
    let mut url = url::Url::parse(base)?;
    url.path_segments_mut().unwrap().push(segment);
    url.set_query(Some(query));
    Ok(url.to_string())
}

/// A request configuration: API key, endpoint and country.
///
/// Created once with [`NewsAPI::new`], mutated through the fluent setters
/// before each fetch.
#[derive(Debug, Clone, PartialEq, Eq)]
pub struct NewsAPI {
    pub api_key: String,
    pub endpoint: Endpoint,
    pub country: Country,
}

impl NewsAPI {
    /// A fresh configuration: top headlines for the US, with the given key.
    pub fn new(api_key: &str) -> (n: Self)
        ensures
            n.api_key@ == api_key@,
            n.endpoint is TopHeadlines,
            n.country is US,
    {
        Self {
            api_key: String::from_str(api_key),
            endpoint: Endpoint::TopHeadlines,
            country: Country::US,
        }
    }

    /// Selects the endpoint; the key and the country are untouched.
    pub fn endpoint(&mut self, endpoint: Endpoint)
        ensures
            final(self).endpoint == endpoint,
            final(self).api_key == old(self).api_key,
            final(self).country == old(self).country,
    {
        self.endpoint = endpoint;
    }

    /// Selects the country; the key and the endpoint are untouched.
    pub fn country(&mut self, country: Country)
        ensures
            final(self).country == country,
            final(self).api_key == old(self).api_key,
            final(self).endpoint == old(self).endpoint,
    {
        self.country = country;
    }

    /// The API key, for the transport's authorization header.
    pub fn api_key(&self) -> (r: &str)
        ensures
            r@ == self.api_key@,
    {
        self.api_key.as_str()
    }

    /// Composes the request URL for this configuration:
    /// `https://newsapi.org/v2/<endpoint>?country=<country>`.
    ///
    /// The base URL is a fixed constant that always parses, so composition
    /// always succeeds; the error paths exist defensively.
    pub fn prepare_url(&self) -> (r: Result<String, NewsAPIError>)
        ensures
            r matches Ok(u) && u@ == spec_composed_url(self.endpoint, self.country),
    {
        let segment = self.endpoint.to_string();
        let country = self.country.to_string();
        let mut query = String::from_str("country=");
        query.append(country.as_str());
        match url_join("https://newsapi.org/v2", segment.as_str(), query.as_str()) {
            Ok(u) => Ok(u),
            Err(_) => Err(NewsAPIError::UrlParsing),
        }
    }
}

} // verus!
