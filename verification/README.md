# nowledgemem

Client-side rules of the Nowledge Mem REST API SDK, verified with Verus.

- `src/text.rs`: Unicode white space, trimming and prefix checks on strings.
- `src/credentials.rs`: normalization of API keys and bearer tokens, and the
  header texts built from them.
- `src/base_url.rs`: base URL validation (through the `url` crate) and the
  URLs derived from it.
- `src/query.rs`: setting the `nmem_api_key` query parameter on a request URL.
- `src/config.rs`, `src/error.rs`: defaults, the shared config record, errors.
- `src/client.rs`: the client builder, the request options it settles on, the
  client, and the laws that relate them.
- `src/multipart.rs`: upload requests and the multipart forms they become.
- `app/lib.rs`: environment and config file reading, the default `reqwest`
  client, applying request options to outgoing requests, and sending uploads.

Everything under `src/` is verified by Verus; the tests under `tests/` exercise
the library with the real outside crates.
