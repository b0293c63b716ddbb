use std::time::Duration;

use nowledgemem::client::Client;
use nowledgemem::config::{config_file_contents, Timeout};
use nowledgemem::error::ClientError;

fn default_http_client(timeout: Timeout) -> Result<reqwest::Client, reqwest::Error> {
    let timeout = Duration::from_secs(timeout.secs) + Duration::from_nanos(timeout.nanos as u64);
    reqwest::Client::builder().timeout(timeout).build()
}

#[test]
fn base_url_rejects_query_parameters() {
    let err = match Client::<reqwest::Client>::builder()
        .base_url("http://127.0.0.1:14242?x=1")
        .build(default_http_client)
    {
        Ok(_) => panic!("a base URL with a query was accepted"),
        Err(err) => err,
    };

    assert!(err.to_string().contains("must not contain query"));
}

#[test]
fn builder_sends_api_key_in_both_header_forms_and_query() {
    let client = Client::<reqwest::Client>::builder()
        .base_url("http://127.0.0.1:4010")
        .api_key("Bearer nmem_header")
        .api_key_query("Bearer nmem_query")
        .build(default_http_client)
        .unwrap();
    let state = client.state();
    assert_eq!(state.bearer_token(), Some("Bearer nmem_header"));
    assert_eq!(state.header_api_key(), Some("nmem_header"));
    assert_eq!(state.query_api_key(), Some("nmem_query"));
    assert_eq!(client.base_url(), "http://127.0.0.1:4010/");
    assert_eq!(client.baseurl(), "http://127.0.0.1:4010");
}

#[test]
fn custom_http_client_is_kept_and_default_not_made() {
    let custom = reqwest::Client::builder().build().unwrap();
    let client = Client::<reqwest::Client>::builder()
        .api_key("nmem_custom")
        .http_client(custom)
        .build(|_: Timeout| -> Result<reqwest::Client, reqwest::Error> {
            panic!("the default HTTP client was made although one was given")
        })
        .unwrap();
    assert_eq!(client.state().bearer_token(), Some("Bearer nmem_custom"));
    assert_eq!(client.state().header_api_key(), Some("nmem_custom"));
    assert_eq!(client.state().query_api_key(), None);
}

#[test]
fn new_targets_local_default() {
    let client = Client::<reqwest::Client>::new(default_http_client).unwrap();
    assert_eq!(client.base_url(), "http://127.0.0.1:14242/");
    assert_eq!(client.baseurl(), "http://127.0.0.1:14242");
    assert_eq!(client.state().bearer_token(), None);
    assert_eq!(client.state().header_api_key(), None);
}

#[test]
fn remote_sets_url_and_key() {
    let client = Client::<reqwest::Client>::remote(
        "https://mem.example.com/api/",
        "  bearer nmem_xxxx ",
        default_http_client,
    )
    .unwrap();
    assert_eq!(client.base_url(), "https://mem.example.com/api/");
    assert_eq!(client.baseurl(), "https://mem.example.com/api");
    assert_eq!(client.state().bearer_token(), Some("Bearer nmem_xxxx"));
    assert_eq!(client.state().header_api_key(), Some("nmem_xxxx"));
}

#[test]
fn blank_api_key_is_refused() {
    let err = match Client::<reqwest::Client>::builder()
        .api_key("  \t  ")
        .build(default_http_client)
    {
        Ok(_) => panic!("a blank key was accepted"),
        Err(err) => err,
    };
    assert!(matches!(err, ClientError::EmptyApiKey { kind: "bearer token" }));
    assert_eq!(err.to_string(), "bearer token cannot be empty");
}

#[test]
fn blank_query_key_is_refused() {
    let err = match Client::<reqwest::Client>::builder()
        .api_key_query("\u{3000} ")
        .build(default_http_client)
    {
        Ok(_) => panic!("a blank query key was accepted"),
        Err(err) => err,
    };
    assert!(matches!(err, ClientError::EmptyApiKey { kind: "query API key" }));
}

#[test]
fn control_character_in_key_is_refused() {
    let err = match Client::<reqwest::Client>::builder()
        .api_key("nmem\nkey")
        .build(default_http_client)
    {
        Ok(_) => panic!("a key with a line break was accepted"),
        Err(err) => err,
    };
    assert!(matches!(err, ClientError::InvalidHeaderValue { header: "Authorization", .. }));
    assert_eq!(
        err.to_string(),
        "invalid Authorization header value: failed to parse header value"
    );
}

#[test]
fn invalid_base_url_is_refused() {
    let err = match Client::<reqwest::Client>::builder()
        .base_url("not a url")
        .build(default_http_client)
    {
        Ok(_) => panic!("a relative URL was accepted"),
        Err(err) => err,
    };
    match &err {
        ClientError::InvalidBaseUrl { value, source } => {
            assert_eq!(value, "not a url");
            assert_eq!(*source, url::ParseError::RelativeUrlWithoutBase);
        }
        _ => panic!("unexpected error"),
    }
    assert_eq!(
        err.to_string(),
        "invalid base URL \"not a url\": relative URL without a base"
    );
}

#[test]
fn query_error_message_quotes_value() {
    let err = match Client::<reqwest::Client>::builder()
        .base_url("http://h/?x=1")
        .build(default_http_client)
    {
        Ok(_) => panic!("a base URL with a query was accepted"),
        Err(err) => err,
    };
    assert_eq!(
        err.to_string(),
        "base URL must not contain query parameters: \"http://h/?x=1\""
    );
}

#[test]
fn from_env_overrides_and_ignores_empty_values() {
    let client = Client::<reqwest::Client>::from_env(
        Some("http://10.0.0.2:9000".to_string()),
        Some(String::new()),
        default_http_client,
    )
    .unwrap();
    assert_eq!(client.base_url(), "http://10.0.0.2:9000/");
    assert_eq!(client.state().bearer_token(), None);

    let client =
        Client::<reqwest::Client>::from_env(None, Some("k1".to_string()), default_http_client)
            .unwrap();
    assert_eq!(client.base_url(), "http://127.0.0.1:14242/");
    assert_eq!(client.state().header_api_key(), Some("k1"));
}

#[test]
fn from_config_prefers_environment_over_file() {
    let config = nowledgemem::config::ClientConfig {
        api_url: "http://file.example:1/".to_string(),
        api_key: "file_key".to_string(),
    };
    let client = Client::<reqwest::Client>::from_config(
        Some(config.clone()),
        None,
        Some("env_key".to_string()),
        default_http_client,
    )
    .unwrap();
    assert_eq!(client.base_url(), "http://file.example:1/");
    assert_eq!(client.state().header_api_key(), Some("env_key"));

    let client = Client::<reqwest::Client>::from_config(
        Some(config),
        Some("http://env.example:2".to_string()),
        None,
        default_http_client,
    )
    .unwrap();
    assert_eq!(client.base_url(), "http://env.example:2/");
    assert_eq!(client.state().bearer_token(), Some("Bearer file_key"));

    let client = Client::<reqwest::Client>::from_config(
        Some(nowledgemem::config::ClientConfig::default()),
        None,
        None,
        default_http_client,
    )
    .unwrap();
    assert_eq!(client.base_url(), "http://127.0.0.1:14242/");
    assert_eq!(client.state().bearer_token(), None);
}

#[test]
fn upload_url_joins_base_and_path() {
    let client = Client::<reqwest::Client>::builder()
        .base_url("http://127.0.0.1:4010/prefix//")
        .build(default_http_client)
        .unwrap();
    assert_eq!(client.baseurl(), "http://127.0.0.1:4010/prefix");
    assert_eq!(
        client.upload_url(nowledgemem::multipart::SOURCE_FILE_UPLOAD_PATH),
        "http://127.0.0.1:4010/prefix/sources/ingest/file"
    );
}

#[test]
fn default_http_client_gets_thirty_second_timeout() {
    let client = Client::<reqwest::Client>::new(|timeout: Timeout| {
        assert_eq!(timeout, Timeout { secs: 30, nanos: 0 });
        default_http_client(timeout)
    })
    .unwrap();
    assert!(client.state().bearer_header().is_none());

    let client = Client::<reqwest::Client>::builder()
        .timeout(Timeout { secs: 5, nanos: 250 })
        .api_key("k")
        .build(|timeout: Timeout| {
            assert_eq!(timeout, Timeout { secs: 5, nanos: 250 });
            default_http_client(timeout)
        })
        .unwrap();
    assert_eq!(
        client.state().bearer_header().unwrap().to_str().unwrap(),
        "Bearer k"
    );
    assert_eq!(client.state().api_key_header().unwrap().to_str().unwrap(), "k");
}

#[test]
fn failing_http_client_maker_is_reported() {
    let result = Client::<reqwest::Client>::new(|_: Timeout| {
        Err(reqwest::Client::new().get("not a url").build().unwrap_err())
    });
    match result {
        Err(err) => {
            assert!(matches!(err, ClientError::BuildHttpClient(_)));
            assert!(err.to_string().starts_with("build HTTP client: "));
        }
        Ok(_) => panic!("the maker's failure was lost"),
    }
}

#[test]
fn config_file_contents_skips_missing_and_empty() {
    assert_eq!(config_file_contents(None), None);
    assert_eq!(config_file_contents(Some(Vec::new())), None);
    assert_eq!(config_file_contents(Some(b"{}".to_vec())), Some(b"{}".to_vec()));
}

#[test]
fn request_options_put_credentials_on_requests() {
    let client = Client::<reqwest::Client>::builder()
        .base_url("http://127.0.0.1:4010")
        .api_key("Bearer nmem_header")
        .api_key_query("Bearer nmem_query")
        .build(default_http_client)
        .unwrap();
    let mut request = client
        .http_client()
        .get("http://127.0.0.1:4010/health?nmem_api_key=old&x=1")
        .build()
        .unwrap();
    let (headers, query) = client.state().request_options(request.url().query());
    assert_eq!(headers.len(), 2);
    assert_eq!(headers[0].0, "Authorization");
    assert_eq!(headers[1].0, "X-NMEM-API-Key");
    for (name, value) in headers {
        request.headers_mut().insert(name, value.clone());
    }
    request.url_mut().set_query(Some(&query.unwrap()));
    assert_eq!(request.headers()["authorization"], "Bearer nmem_header");
    assert_eq!(request.headers()["x-nmem-api-key"], "nmem_header");
    assert_eq!(request.url().query(), Some("x=1&nmem_api_key=nmem_query"));

    let plain = Client::<reqwest::Client>::new(default_http_client).unwrap();
    let (headers, query) = plain.state().request_options(Some("a=1"));
    assert!(headers.is_empty());
    assert_eq!(query, None);
}

#[test]
fn url_error_messages_follow_the_parse_error() {
    let err = ClientError::InvalidBaseUrl {
        value: "x".to_string(),
        source: url::ParseError::SetHostOnCannotBeABaseUrl,
    };
    assert_eq!(
        err.to_string(),
        format!("invalid base URL \"x\": {}", url::ParseError::SetHostOnCannotBeABaseUrl)
    );
    let err = ClientError::InvalidBaseUrl {
        value: "y".to_string(),
        source: url::ParseError::InvalidPort,
    };
    assert_eq!(err.to_string(), "invalid base URL \"y\": invalid port number");
}
