//! The errors that building a client can end in.

use vstd::prelude::*;

verus! {

/// The parse error of the `url` crate, carried as the source of an invalid
/// base URL; Verus sees its variants.
#[verifier::external_type_specification]
pub struct ExUrlParseError(url::ParseError);

/// The sentence that `url::ParseError`'s `Display` writes for each variant.
pub open spec fn url_error_message(e: url::ParseError) -> Seq<char> {
    match e {
        url::ParseError::EmptyHost => "empty host"@,
        url::ParseError::IdnaError => "invalid international domain name"@,
        url::ParseError::InvalidPort => "invalid port number"@,
        url::ParseError::InvalidIpv4Address => "invalid IPv4 address"@,
        url::ParseError::InvalidIpv6Address => "invalid IPv6 address"@,
        url::ParseError::InvalidDomainCharacter => "invalid domain character"@,
        url::ParseError::RelativeUrlWithoutBase => "relative URL without a base"@,
        url::ParseError::RelativeUrlWithCannotBeABaseBase => "relative URL with a cannot-be-a-base base"@,
        url::ParseError::SetHostOnCannotBeABaseUrl => "a cannot-be-a-base URL doesn\u{2019}t have a host to set"@,
        url::ParseError::Overflow => "URLs more than 4 GB are not supported"@,
        _ => Seq::empty(),
    }
}

/// Writes a `url::ParseError` with its `Display`, whose source writes one
/// fixed sentence per variant.
#[verifier::external_body]
fn url_error_text(e: &url::ParseError) -> (r: String)
    ensures
        r@ == url_error_message(*e),
{
    e.to_string()
}

/// The error that `http` gives for a header value with forbidden bytes.
#[verifier::external_type_specification]
#[verifier::external_body]
pub struct ExInvalidHeaderValue(reqwest::header::InvalidHeaderValue);

/// The error of the `reqwest` crate.
#[verifier::external_type_specification]
#[verifier::external_body]
pub struct ExReqwestError(reqwest::Error);

/// The error of the `serde_json` crate.
#[verifier::external_type_specification]
#[verifier::external_body]
pub struct ExJsonError(serde_json::Error);

/// An I/O error of the standard library.
#[verifier::external_type_specification]
#[verifier::external_body]
pub struct ExIoError(std::io::Error);

/// An owned file system path.
#[verifier::external_type_specification]
#[verifier::external_body]
pub struct ExPathBuf(std::path::PathBuf);

/// Errors returned while constructing a Nowledge Mem client.
#[allow(inconsistent_fields)]
#[derive(Debug)]
pub enum ClientError {
    /// The configured API URL is not a valid absolute URL.
    InvalidBaseUrl { value: String, source: url::ParseError },
    /// Base URLs must not contain query parameters.
    BaseUrlCannotContainQuery { value: String },
    /// The provided API key was empty after trimming and Bearer normalization.
    EmptyApiKey { kind: &'static str },
    /// A header value could not be created from the provided token.
    InvalidHeaderValue { header: &'static str, source: reqwest::header::InvalidHeaderValue },
    /// HTTP client construction failed.
    BuildHttpClient(reqwest::Error),
    /// Reading the shared local client config failed.
    ReadConfig { path: std::path::PathBuf, source: std::io::Error },
    /// Decoding the shared local client config failed.
    DecodeConfig { path: std::path::PathBuf, source: serde_json::Error },
}

/// Why building a client fails, as the specifications classify it.
pub enum BuildFailure {
    /// The base URL does not parse; the parse error.
    BadUrl(url::ParseError),
    /// The base URL carries a query.
    UrlHasQuery,
    /// A key of the named kind is blank once normalized.
    EmptyKey(&'static str),
    /// The named header would carry a forbidden character.
    BadHeader(&'static str),
}

/// Whether `e` is the error that reports `f`, for the base URL `raw`.
pub open spec fn describes(e: ClientError, f: BuildFailure, raw: Seq<char>) -> bool {
    match f {
        BuildFailure::BadUrl(pe) => e matches ClientError::InvalidBaseUrl { value, source }
            && value@ == raw && source == pe,
        BuildFailure::UrlHasQuery => e matches ClientError::BaseUrlCannotContainQuery { value }
            && value@ == raw,
        BuildFailure::EmptyKey(k) => e matches ClientError::EmptyApiKey { kind } && kind == k,
        BuildFailure::BadHeader(h) => e matches ClientError::InvalidHeaderValue { header, .. }
            && header == h,
    }
}

/// Whether the result `r` of a step that yields a string matches the
/// outcome `expected` that the specification gives for it.
pub open spec fn outcome_matches(
    r: Result<String, ClientError>,
    expected: Result<Seq<char>, BuildFailure>,
) -> bool {
    match expected {
        Ok(t) => r matches Ok(v) && v@ == t,
        Err(f) => r matches Err(e) && describes(e, f, Seq::empty()),
    }
}

/// What `format!("{:?}", s)` gives for a string slice `s`: the text in
/// double quotes with its special characters escaped.
pub uninterp spec fn debug_str(s: Seq<char>) -> Seq<char>;

/// Formats `s` with `Debug`, as `format!("{:?}", s)` does.
#[verifier::external_body]
fn debug_text(s: &str) -> (r: String)
    ensures
        r@ == debug_str(s@),
{
    format!("{:?}", s)
}

/// Formats `path` as `Path::display` shows it; nothing is stated of the
/// text, which depends on the platform's path encoding.
#[verifier::external_body]
fn path_text(path: &std::path::PathBuf) -> String {
    path.display().to_string()
}

/// The text of the `Display` impl of `http`'s `InvalidHeaderValue`, which
/// writes one fixed sentence.
#[verifier::external_body]
fn invalid_header_value_text(e: &reqwest::header::InvalidHeaderValue) -> (r: String)
    ensures
        r@ == "failed to parse header value"@,
{
    e.to_string()
}

/// Builds `a + b` as a new string.
fn join2(a: &str, b: &str) -> (r: String)
    ensures
        r@ == a@ + b@,
{
    String::from_str(a).concat(b)
}

/// Builds `a + b + c` as a new string.
fn join3(a: &str, b: &str, c: &str) -> (r: String)
    ensures
        r@ == a@ + b@ + c@,
{
    String::from_str(a).concat(b).concat(c)
}

impl ClientError {
    /// The message of this error, as its `Display` shows it.
    pub fn to_string(&self) -> (r: String)
        ensures
            match self {
                ClientError::BaseUrlCannotContainQuery { value } => r@
                    == "base URL must not contain query parameters: "@ + debug_str(value@),
                ClientError::EmptyApiKey { kind } => r@ == kind@ + " cannot be empty"@,
                ClientError::InvalidHeaderValue { header, .. } => r@ == "invalid "@ + header@
                    + " header value: failed to parse header value"@,
                ClientError::InvalidBaseUrl { value, source } => r@ == "invalid base URL "@
                    + debug_str(value@) + ": "@ + url_error_message(*source),
                ClientError::BuildHttpClient(_) => "build HTTP client: "@.is_prefix_of(r@),
                ClientError::ReadConfig { .. } => "read client config "@.is_prefix_of(r@),
                ClientError::DecodeConfig { .. } => "decode client config "@.is_prefix_of(r@),
            },
    {
        match self {
            ClientError::InvalidBaseUrl { value, source } => {
                let head = join3("invalid base URL ", debug_text(value.as_str()).as_str(), ": ");
                let tail = url_error_text(source);
                join2(head.as_str(), tail.as_str())
            },
            ClientError::BaseUrlCannotContainQuery { value } => {
                join2("base URL must not contain query parameters: ", debug_text(value.as_str()).as_str())
            },
            ClientError::EmptyApiKey { kind } => join2(kind, " cannot be empty"),
            ClientError::InvalidHeaderValue { header, source } => {
                let head = join3("invalid ", header, " header value: ");
                let tail = invalid_header_value_text(source);
                let r = join2(head.as_str(), tail.as_str());
                proof {
                    reveal_strlit(" header value: ");
                    reveal_strlit("failed to parse header value");
                    reveal_strlit(" header value: failed to parse header value");
                    assert(r@ =~= "invalid "@ + header@ + " header value: failed to parse header value"@);
                }
                r
            },
            ClientError::BuildHttpClient(source) => {
                let tail = source.to_string();
                let r = join2("build HTTP client: ", tail.as_str());
                assert(r@.subrange(0, "build HTTP client: "@.len() as int) =~= "build HTTP client: "@);
                r
            },
            ClientError::ReadConfig { path, source } => {
                let head = join3("read client config ", path_text(path).as_str(), ": ");
                let tail = source.to_string();
                let r = join2(head.as_str(), tail.as_str());
                assert(r@.subrange(0, "read client config "@.len() as int) =~= "read client config "@);
                r
            },
            ClientError::DecodeConfig { path, source } => {
                let head = join3("decode client config ", path_text(path).as_str(), ": ");
                let tail = source.to_string();
                let r = join2(head.as_str(), tail.as_str());
                assert(r@.subrange(0, "decode client config "@.len() as int) =~= "decode client config "@);
                r
            },
        }
    }
}

} // verus!
