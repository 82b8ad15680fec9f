# consul-api

A client library for the HashiCorp Consul HTTP API, verified with Verus.

- `src/` is the verified library: the configuration and its defaults, the
  `Authorization` header of a token, building the HTTP client, the method,
  URL and body of every API call, and how status codes and event payloads
  are read. `src/transport.rs` holds the few calls into `reqwest` that
  building a client makes, with the contracts they are trusted to meet; a
  ghost model records the headers and proxies each call configures, so the
  contract of `ClientBuilder::build` states what the built client sends.
  The query parameters of every call are computed and verified in
  `src/query.rs`; `app/` only URL-encodes them.
- `app/` sends the requests the library prepares (asynchronously, with
  `reqwest`), URL-encodes the query parameters, serialises JSON bodies with `serde`, and reads
  the configuration from the environment (`CONSUL_HTTP_TOKEN`,
  `CONSUL_HTTP_ADDR`).
- `tests/` runs the library on concrete values.
