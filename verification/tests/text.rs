use nowledgemem::base_url::{base_url_from_parse, parse_base_url, request_base_url};
use nowledgemem::credentials::{
    api_key_header_value, bearer_header_value, normalize_bearer_token, normalize_required_key,
};
use nowledgemem::error::ClientError;
use nowledgemem::query::{encode_query_pairs, replace_query_pair, set_query_value};
use nowledgemem::text::{has_prefix, is_white_space_char, trim_end_matches_char, trim_text};

#[test]
fn white_space_matches_std_for_every_char() {
    for v in 0u32..=0x10FFFF {
        if let Some(c) = char::from_u32(v) {
            assert_eq!(is_white_space_char(c), c.is_whitespace(), "code point {v:#x}");
        }
    }
}

#[test]
fn trim_matches_std() {
    let samples = [
        "",
        "   ",
        "  abc ",
        "\t\u{3000}a b\u{2029}\n",
        "\u{85}x\u{a0}",
        "no-space",
        "é ü ",
    ];
    for s in samples {
        assert_eq!(trim_text(s), s.trim());
    }
}

#[test]
fn trim_end_matches_removes_every_trailing_slash() {
    assert_eq!(trim_end_matches_char("http://h/a///", '/'), "http://h/a");
    assert_eq!(trim_end_matches_char("///", '/'), "");
    assert_eq!(trim_end_matches_char("a/b", '/'), "a/b");
    assert_eq!(request_base_url("http://h/"), "http://h");
}

#[test]
fn has_prefix_checks_characters() {
    assert!(has_prefix("Bearer x", "Bearer "));
    assert!(!has_prefix("Beare", "Bearer "));
    assert!(has_prefix("abc", ""));
}

#[test]
fn bearer_token_normalization() {
    assert_eq!(normalize_bearer_token("  Bearer   nmem_x  "), "nmem_x");
    assert_eq!(normalize_bearer_token("bearer nmem_x"), "nmem_x");
    assert_eq!(normalize_bearer_token("BEARER nmem_x"), "BEARER nmem_x");
    assert_eq!(normalize_bearer_token("Bearer"), "Bearer");
    assert_eq!(normalize_bearer_token("Bearer Bearer x"), "Bearer x");
    assert_eq!(normalize_bearer_token("\u{3000}nmem_y\t"), "nmem_y");
    assert_eq!(normalize_bearer_token(""), "");
}

#[test]
fn key_with_and_without_scheme_normalize_alike() {
    for key in ["nmem_abc", "  nmem_abc ", "x y"] {
        let with_scheme = format!("Bearer {key}");
        assert_eq!(normalize_bearer_token(&with_scheme), normalize_bearer_token(key));
    }
}

#[test]
fn required_key_must_not_be_blank() {
    assert_eq!(normalize_required_key(" Bearer k ", "API key").unwrap(), "k");
    assert_eq!(normalize_required_key(" Bearer  ", "API key").unwrap(), "Bearer");
    match normalize_required_key(" \n ", "API key") {
        Err(ClientError::EmptyApiKey { kind }) => assert_eq!(kind, "API key"),
        _ => panic!("a blank key was accepted"),
    }
}

#[test]
fn header_values_are_built_and_checked() {
    assert_eq!(bearer_header_value("tok").unwrap().0, "Bearer tok");
    assert_eq!(bearer_header_value("tok").unwrap().1.to_str().unwrap(), "Bearer tok");
    assert_eq!(api_key_header_value("Bearer tok").unwrap().0, "tok");
    assert_eq!(api_key_header_value("tök").unwrap().0, "tök");
    match api_key_header_value("to\u{7f}k") {
        Err(ClientError::InvalidHeaderValue { header, .. }) => assert_eq!(header, "X-NMEM-API-Key"),
        _ => panic!("a key with DEL was accepted"),
    }
    match bearer_header_value("a\rb") {
        Err(ClientError::InvalidHeaderValue { header, .. }) => assert_eq!(header, "Authorization"),
        _ => panic!("a token with a carriage return was accepted"),
    }
    assert_eq!(bearer_header_value("a\tb").unwrap().0, "Bearer a\tb");
}

#[test]
fn base_url_parsing() {
    assert_eq!(parse_base_url("http://127.0.0.1:14242").unwrap(), "http://127.0.0.1:14242/");
    assert_eq!(parse_base_url("HTTP://Example.COM/a").unwrap(), "http://example.com/a");
    match parse_base_url("http://h/?") {
        Err(ClientError::BaseUrlCannotContainQuery { value }) => assert_eq!(value, "http://h/?"),
        _ => panic!("an empty query was accepted"),
    }
    match parse_base_url("http://[::1") {
        Err(ClientError::InvalidBaseUrl { source, .. }) => {
            assert_eq!(source, url::ParseError::InvalidIpv6Address)
        }
        _ => panic!("a broken address was accepted"),
    }
}

#[test]
fn query_key_replaces_earlier_values() {
    assert_eq!(
        set_query_value(Some("a=1&nmem_api_key=old&b=2"), "nmem_api_key", "new"),
        "a=1&b=2&nmem_api_key=new"
    );
    assert_eq!(set_query_value(None, "nmem_api_key", "v"), "nmem_api_key=v");
    assert_eq!(
        set_query_value(Some("q=a+b"), "nmem_api_key", "a b&c=d"),
        "q=a+b&nmem_api_key=a+b%26c%3Dd"
    );
    let once = set_query_value(Some("x=1"), "k", "v");
    let twice = set_query_value(Some(&once), "k", "v");
    assert_eq!(once, twice);
}

#[test]
fn replace_query_pair_keeps_other_pairs_in_order() {
    let pairs = vec![
        ("k".to_string(), "1".to_string()),
        ("a".to_string(), "2".to_string()),
        ("k".to_string(), "3".to_string()),
        ("b".to_string(), "4".to_string()),
    ];
    let replaced = replace_query_pair(pairs, "k", "9");
    assert_eq!(
        replaced,
        vec![
            ("a".to_string(), "2".to_string()),
            ("b".to_string(), "4".to_string()),
            ("k".to_string(), "9".to_string()),
        ]
    );
    assert_eq!(encode_query_pairs(&replaced), "a=2&b=4&k=9");
    assert_eq!(encode_query_pairs(&Vec::new()), "");
}

#[test]
fn base_url_from_parse_reads_the_parse_result() {
    assert_eq!(
        base_url_from_parse("x", Ok(("http://h/".to_string(), None))).unwrap(),
        "http://h/"
    );
    match base_url_from_parse("x", Ok(("http://h/?q".to_string(), Some("q".to_string())))) {
        Err(ClientError::BaseUrlCannotContainQuery { value }) => assert_eq!(value, "x"),
        _ => panic!("a query was accepted"),
    }
    match base_url_from_parse("x", Err(url::ParseError::EmptyHost)) {
        Err(ClientError::InvalidBaseUrl { value, source }) => {
            assert_eq!(value, "x");
            assert_eq!(source, url::ParseError::EmptyHost);
        }
        _ => panic!("a parse failure was accepted"),
    }
}

#[test]
fn header_values_carry_their_texts() {
    let (text, value) = bearer_header_value("Bearer nmem_header").unwrap();
    assert_eq!(text, "Bearer nmem_header");
    assert_eq!(value, reqwest::header::HeaderValue::from_static("Bearer nmem_header"));
    let (text, value) = api_key_header_value("Bearer nmem_header").unwrap();
    assert_eq!(text, "nmem_header");
    assert_eq!(value, reqwest::header::HeaderValue::from_static("nmem_header"));
}
