//! Defaults and the shared local client configuration.

use vstd::prelude::*;

verus! {

/// Default Nowledge Mem API URL used by local deployments.
pub const DEFAULT_BASE_URL: &'static str = "http://127.0.0.1:14242";

/// Environment variable that overrides the Nowledge Mem API URL.
pub const ENV_API_URL: &'static str = "NMEM_API_URL";

/// Environment variable that provides the Nowledge Mem API key.
pub const ENV_API_KEY: &'static str = "NMEM_API_KEY";

/// Seconds that a request may take with the default HTTP client.
pub const DEFAULT_TIMEOUT_SECS: u64 = 30;

/// A request timeout: whole seconds and the nanoseconds beyond them.
#[derive(Clone, Copy, Debug, PartialEq, Eq, Structural)]
pub struct Timeout {
    /// Whole seconds.
    pub secs: u64,
    /// Nanoseconds beyond the whole seconds.
    pub nanos: u32,
}

/// The timeout of the default HTTP client: 30 seconds.
pub open spec fn default_timeout() -> Timeout {
    Timeout { secs: DEFAULT_TIMEOUT_SECS, nanos: 0 }
}

/// The contents of the shared config file that are decoded, given what
/// reading it gave (`None` where the file does not exist): a missing or
/// empty file stands for no configuration.
pub fn config_file_contents(read: Option<Vec<u8>>) -> (r: Option<Vec<u8>>)
    ensures
        r == (if read is Some && read->0@.len() > 0 {
            read
        } else {
            None
        }),
{
    match read {
        Some(data) => {
            if data.len() > 0 {
                Some(data)
            } else {
                None
            }
        },
        None => None,
    }
}

/// Header that carries the bearer token.
pub const HEADER_AUTHORIZATION: &'static str = "Authorization";

/// Header that carries the API key.
pub const HEADER_NMEM_API_KEY: &'static str = "X-NMEM-API-Key";

/// Query parameter that carries the API key.
pub const QUERY_NMEM_API_KEY: &'static str = "nmem_api_key";

/// Shared local client configuration written by `nmem`.
#[derive(Clone, Debug, Default, PartialEq, Eq)]
pub struct ClientConfig {
    /// Backend API URL, for example `http://127.0.0.1:14242`.
    pub api_url: String,
    /// Remote API key. Empty for local unauthenticated use.
    pub api_key: String,
}

} // verus!
