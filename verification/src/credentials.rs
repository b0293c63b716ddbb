//! Normalization and validation of API keys and bearer tokens.

use vstd::prelude::*;

use crate::error::{describes, outcome_matches, BuildFailure, ClientError};
use crate::text::{
    has_prefix, is_white_space, lemma_trim_all_white_space, lemma_trim_between, lemma_trim_span,
    strip_prefix, trim, trim_text,
};

verus! {

/// The `Authorization` scheme prefix, as written by most clients.
pub open spec fn bearer_scheme() -> Seq<char> {
    seq!['B', 'e', 'a', 'r', 'e', 'r', ' ']
}

/// The `Authorization` scheme prefix in lower case.
pub open spec fn bearer_scheme_lower() -> Seq<char> {
    seq!['b', 'e', 'a', 'r', 'e', 'r', ' ']
}

/// `s` with one leading `"Bearer "` (or, failing that, `"bearer "`) removed.
pub open spec fn strip_bearer_scheme(s: Seq<char>) -> Seq<char> {
    if bearer_scheme().is_prefix_of(s) {
        s.skip(7)
    } else {
        strip_prefix(s, bearer_scheme_lower())
    }
}

/// The token that a configured key or bearer token stands for: trimmed,
/// without its `Bearer ` scheme, and trimmed again.
pub open spec fn normalized_token(s: Seq<char>) -> Seq<char> {
    trim(strip_bearer_scheme(trim(s)))
}

/// Whether `c` may stand in an HTTP header value: a tab, or any character
/// from the space upward except DEL. Characters beyond ASCII encode to
/// UTF-8 bytes of 0x80 and above, all of which are allowed.
pub open spec fn header_char_ok(c: char) -> bool {
    c == '\t' || (c as u32 >= 0x20 && c as u32 != 0x7F)
}

/// Whether `s` is accepted as an HTTP header value.
pub open spec fn header_text_ok(s: Seq<char>) -> bool {
    forall|i: int| 0 <= i < s.len() ==> header_char_ok(#[trigger] s[i])
}

/// The text of the `Authorization` header for a token.
pub open spec fn bearer_header_text(token: Seq<char>) -> Seq<char> {
    bearer_scheme() + token
}

/// The header value that `HeaderValue::from_str` builds from an accepted
/// text: the text's bytes, not marked sensitive.
pub uninterp spec fn header_value(text: Seq<char>) -> reqwest::header::HeaderValue;

/// A header's text and the header value built from exactly that text.
pub type HeaderText = (String, reqwest::header::HeaderValue);

/// Builds an `http` header value from text with `HeaderValue::from_str`
/// and hands it back beside a copy of the text it was built from. The
/// source accepts a string exactly when every byte of it is a tab or lies
/// in 0x20..=0xFF without 0x7F; over the characters of the string that is
/// `header_text_ok`.
#[verifier::external_body]
fn header_value_from_str(text: &str) -> (r: Result<HeaderText, reqwest::header::InvalidHeaderValue>)
    ensures
        r is Ok <==> header_text_ok(text@),
        r matches Ok(p) ==> p.0@ == text@ && p.1 == header_value(text@),
{
    reqwest::header::HeaderValue::from_str(text).map(|value| (text.to_string(), value))
}

/// The HTTP header value type of the `http` crate.
#[verifier::external_type_specification]
#[verifier::external_body]
pub struct ExHeaderValue(reqwest::header::HeaderValue);

/// Normalizes a bearer token or API key: trims it, removes a leading
/// `Bearer ` or `bearer ` scheme, and trims what is left.
pub fn normalize_bearer_token(token: &str) -> (r: String)
    ensures
        r@ == normalized_token(token@),
{
    let trimmed = trim_text(token);
    let n = trimmed.as_str().unicode_len();
    let upper = has_prefix(trimmed.as_str(), "Bearer ");
    let lower = has_prefix(trimmed.as_str(), "bearer ");
    proof {
        reveal_strlit("Bearer ");
        reveal_strlit("bearer ");
        assert("Bearer "@ =~= bearer_scheme());
        assert("bearer "@ =~= bearer_scheme_lower());
    }
    if upper || lower {
        let rest = trimmed.as_str().substring_char(7, n);
        assert(rest@ =~= trimmed@.skip(7));
        trim_text(rest)
    } else {
        trim_text(trimmed.as_str())
    }
}

/// What a configured key turns into: the normalized token, written into
/// `text_of` and, for a header, checked to be a valid header value; or why
/// it is refused.
pub open spec fn key_setting(
    key: Seq<char>,
    kind: &'static str,
    header: Option<&'static str>,
    text_of: spec_fn(Seq<char>) -> Seq<char>,
) -> Result<Seq<char>, BuildFailure> {
    let token = normalized_token(key);
    if token.len() == 0 {
        Err(BuildFailure::EmptyKey(kind))
    } else if header is Some && !header_text_ok(text_of(token)) {
        Err(BuildFailure::BadHeader(header->0))
    } else {
        Ok(text_of(token))
    }
}

/// The token itself.
pub open spec fn as_token(token: Seq<char>) -> Seq<char> {
    token
}

/// Normalizes a key that must not be empty; `kind` names it in the error.
pub fn normalize_required_key(value: &str, kind: &'static str) -> (r: Result<String, ClientError>)
    ensures
        outcome_matches(r, key_setting(value@, kind, None, |t| as_token(t))),
{
    let value = normalize_bearer_token(value);
    if value.as_str().unicode_len() == 0 {
        return Err(ClientError::EmptyApiKey { kind });
    }
    Ok(value)
}

/// Whether the result `r` of building a header matches the outcome
/// `expected` that the specification gives for its text.
pub open spec fn header_outcome_matches(
    r: Result<HeaderText, ClientError>,
    expected: Result<Seq<char>, BuildFailure>,
) -> bool {
    match expected {
        Ok(t) => r matches Ok(v) && v.0@ == t && v.1 == header_value(t),
        Err(f) => r matches Err(e) && describes(e, f, Seq::empty()),
    }
}

/// The `Authorization: Bearer ...` header for a token: its text and the
/// header value that `HeaderValue::from_str` builds from that text.
pub fn bearer_header_value(token: &str) -> (r: Result<HeaderText, ClientError>)
    ensures
        header_outcome_matches(
            r,
            key_setting(token@, "bearer token", Some("Authorization"), |t| bearer_header_text(t)),
        ),
{
    let token = normalize_required_key(token, "bearer token")?;
    let text = String::from_str("Bearer ").concat(token.as_str());
    proof {
        reveal_strlit("Bearer ");
        assert("Bearer "@ =~= bearer_scheme());
    }
    match header_value_from_str(text.as_str()) {
        Ok(header) => Ok(header),
        Err(source) => Err(ClientError::InvalidHeaderValue { header: "Authorization", source }),
    }
}

/// The `X-NMEM-API-Key` header for a key: its text and the header value
/// that `HeaderValue::from_str` builds from that text.
pub fn api_key_header_value(api_key: &str) -> (r: Result<HeaderText, ClientError>)
    ensures
        header_outcome_matches(
            r,
            key_setting(api_key@, "API key", Some("X-NMEM-API-Key"), |t| as_token(t)),
        ),
{
    let api_key = normalize_required_key(api_key, "API key")?;
    match header_value_from_str(api_key.as_str()) {
        Ok(header) => Ok(header),
        Err(source) => Err(ClientError::InvalidHeaderValue { header: "X-NMEM-API-Key", source }),
    }
}

/// A key configured with or without the `Bearer ` scheme stands for the same
/// token, unless the key is blank or itself begins with a scheme prefix.
pub proof fn lemma_bearer_scheme_is_optional(key: Seq<char>)
    requires
        trim(key).len() > 0,
        !bearer_scheme().is_prefix_of(trim(key)),
        !bearer_scheme_lower().is_prefix_of(trim(key)),
    ensures
        normalized_token(bearer_scheme() + key) == normalized_token(key),
{
    let p = bearer_scheme();
    if forall|l: int| 0 <= l < key.len() ==> is_white_space(#[trigger] key[l]) {
        lemma_trim_all_white_space(key);
    }
    let q = choose|q: int| 0 <= q < key.len() && !is_white_space(key[q]);
    lemma_trim_span(key, q);
    let i = crate::text::leading_white_space(key) as int;
    let j = crate::text::kept_before_white_space(key) as int;
    let core = key.subrange(i, j);
    // the key with the scheme in front trims to the scheme and the key's
    // text up to its last non-white-space character
    let s = p + key;
    assert forall|l: int| 7 + j <= l < s.len() implies is_white_space(#[trigger] s[l]) by {
        assert(s[l] == key[l - 7]);
    }
    assert(s[7 + j - 1] == key[j - 1]);
    assert(s[0] == 'B');
    lemma_trim_between(s, 0, 7 + j);
    let u = key.subrange(0, j);
    assert(s.subrange(0, 7 + j) =~= p + u);
    assert(p.is_prefix_of(p + u)) by {
        assert((p + u).subrange(0, 7) =~= p);
    }
    assert((p + u).skip(7) =~= u);
    assert(strip_bearer_scheme(trim(s)) == u);
    assert forall|l: int| 0 <= l < i implies is_white_space(#[trigger] u[l]) by {
        assert(u[l] == key[l]);
    }
    assert(u[i] == key[i]);
    assert(u[j - 1] == key[j - 1]);
    lemma_trim_between(u, i, j);
    assert(u.subrange(i, j) =~= core);
    // the bare key trims to its core, which carries no scheme
    assert(strip_bearer_scheme(trim(key)) == core);
    assert(core[0] == key[i]);
    assert(core[core.len() - 1] == key[j - 1]);
    lemma_trim_between(core, 0, core.len() as int);
    assert(core.subrange(0, core.len() as int) =~= core);
}

proof fn lemma_trim_keeps_non_white_space(s: Seq<char>, q: int)
    requires
        0 <= q < s.len(),
        !is_white_space(s[q]),
    ensures
        trim(s).len() > 0,
        !is_white_space(trim(s)[0]),
        !is_white_space(trim(s).last()),
{
    lemma_trim_span(s, q);
}

/// A key is refused as empty exactly when it is made of white space only;
/// any other key normalizes to a token without white space at either end.
pub proof fn lemma_blank_key_is_all_white_space(key: Seq<char>)
    ensures
        normalized_token(key).len() == 0 <==> forall|i: int|
            0 <= i < key.len() ==> is_white_space(#[trigger] key[i]),
        normalized_token(key).len() > 0 ==> !is_white_space(normalized_token(key)[0])
            && !is_white_space(normalized_token(key).last()),
{
    if forall|i: int| 0 <= i < key.len() ==> is_white_space(#[trigger] key[i]) {
        lemma_trim_all_white_space(key);
        let t = trim(key);
        assert(strip_bearer_scheme(t) =~= t) by {
            assert(!bearer_scheme().is_prefix_of(t));
            assert(!bearer_scheme_lower().is_prefix_of(t));
        }
        assert forall|i: int| 0 <= i < t.len() implies is_white_space(#[trigger] t[i]) by {}
        lemma_trim_all_white_space(t);
    } else {
        let q = choose|q: int| 0 <= q < key.len() && !is_white_space(key[q]);
        lemma_trim_keeps_non_white_space(key, q);
        let t = trim(key);
        let u = strip_bearer_scheme(t);
        if bearer_scheme().is_prefix_of(t) || bearer_scheme_lower().is_prefix_of(t) {
            // the scheme ends in a space, so the trimmed key runs past it
            assert(t[6] == ' ');
            assert(t.len() > 7);
            assert(u =~= t.skip(7));
            assert(u[u.len() - 1] == t.last());
            lemma_trim_keeps_non_white_space(u, u.len() - 1);
        } else {
            assert(u == t);
            lemma_trim_keeps_non_white_space(u, 0);
        }
    }
}

} // verus!
