//! Validation of the configured base URL and the URLs derived from it.

use vstd::prelude::*;

use crate::error::ClientError;
use crate::text::{lemma_trim_end_char_settles, opt_view, trim_end_char, trim_end_matches_char};

verus! {

/// What `url::Url::parse` makes of `raw`: on success the serialization of
/// the parsed URL (`Url::as_str`) and its query (`Url::query`), on failure
/// the parse error.
pub uninterp spec fn url_parse(raw: Seq<char>) -> Result<(Seq<char>, Option<Seq<char>>), url::ParseError>;

/// Parses `raw` with `url::Url::parse` and hands back the parsed URL's
/// serialization and query.
#[verifier::external_body]
fn parse_url(raw: &str) -> (r: Result<(String, Option<String>), url::ParseError>)
    ensures
        match r {
            Ok((serialization, query)) => url_parse(raw@) == Ok::<
                (Seq<char>, Option<Seq<char>>),
                url::ParseError,
            >((serialization@, opt_view(query))),
            Err(e) => url_parse(raw@) == Err::<(Seq<char>, Option<Seq<char>>), url::ParseError>(
                e,
            ),
        },
{
    match url::Url::parse(raw) {
        Ok(url) => Ok((url.as_str().to_string(), url.query().map(String::from))),
        Err(e) => Err(e),
    }
}

/// The outcome of validating `raw` as a base URL: its serialization, or the
/// error that `parse_base_url` gives.
pub open spec fn base_url_outcome(raw: Seq<char>, r: Result<String, ClientError>) -> bool {
    match url_parse(raw) {
        Err(e) => r matches Err(ClientError::InvalidBaseUrl { value, source }) && value@ == raw
            && source == e,
        Ok((serialization, query)) => if query is Some {
            r matches Err(ClientError::BaseUrlCannotContainQuery { value }) && value@ == raw
        } else {
            r matches Ok(s) && s@ == serialization
        },
    }
}

/// Turns what `url::Url::parse` gave for `raw` into the base URL: the
/// serialization of a URL without a query, or the error for a parse
/// failure or for a query.
pub fn base_url_from_parse(
    raw: &str,
    parsed: Result<(String, Option<String>), url::ParseError>,
) -> (r: Result<String, ClientError>)
    ensures
        match parsed {
            Err(e) => r matches Err(ClientError::InvalidBaseUrl { value, source }) && value@
                == raw@ && source == e,
            Ok((serialization, query)) => if query is Some {
                r matches Err(ClientError::BaseUrlCannotContainQuery { value }) && value@ == raw@
            } else {
                r matches Ok(s) && s@ == serialization@
            },
        },
{
    match parsed {
        Err(source) => Err(ClientError::InvalidBaseUrl { value: String::from_str(raw), source }),
        Ok((serialization, query)) => {
            if query.is_some() {
                Err(ClientError::BaseUrlCannotContainQuery { value: String::from_str(raw) })
            } else {
                Ok(serialization)
            }
        },
    }
}

/// Parses a base URL, which must be absolute and carry no query, and
/// returns its serialization.
pub fn parse_base_url(raw: &str) -> (r: Result<String, ClientError>)
    ensures
        base_url_outcome(raw@, r),
{
    base_url_from_parse(raw, parse_url(raw))
}

/// The base URL that requests are built on: the serialization without its
/// trailing slashes.
pub open spec fn request_base(serialization: Seq<char>) -> Seq<char> {
    trim_end_char(serialization, '/')
}

/// Strips the trailing slashes of a base URL's serialization.
pub fn request_base_url(serialization: &str) -> (r: String)
    ensures
        r@ == request_base(serialization@),
{
    trim_end_matches_char(serialization, '/')
}

/// The full URL of an endpoint `path` below a request base.
pub open spec fn endpoint(base: Seq<char>, path: Seq<char>) -> Seq<char> {
    request_base(base) + path
}

/// Joins a request base and an endpoint path, dropping the base's trailing
/// slashes first.
pub fn endpoint_url(base: &str, path: &str) -> (r: String)
    ensures
        r@ == endpoint(base@, path@),
{
    request_base_url(base).concat(path)
}

/// The request base never ends in a slash, so joining it with a path that
/// starts with one gives a single slash, and deriving it again from itself
/// changes nothing.
pub proof fn lemma_request_base_settles(serialization: Seq<char>)
    ensures
        request_base(serialization).len() == 0 || request_base(serialization).last() != '/',
        request_base(request_base(serialization)) == request_base(serialization),
{
    lemma_trim_end_char_settles(serialization, '/');
}

} // verus!
