# kiteconnect

A client library for the Zerodha KiteConnect trading API, written in Verus.

## Layout

- `src/` — the verified library.
  - `connect/endpoints.rs` — the API's endpoints: method, path, rate-limit
    category and whether they need a session; path building.
  - `connect/rate_limiter.rs` — per-category rate limiting over clock readings
    that the caller supplies.
  - `connect/config.rs` — retry policy (exponential backoff and the retry
    decision after each attempt), cache settings and the instrument cache.
  - `connect/request.rs`, `connect/api.rs` — an API call as plain values
    (endpoint, path segments, query and form parameters) and the request of
    every call, with its parameters in order and their names unique.
  - `connect/client.rs` — credentials, login URL, session checksum
    (SHA-256, lowercase hex), request URLs and headers.
  - `connect/instruments.rs` — instrument lists read from CSV into rows of
    `(column, value)` pairs, and when the cached list is served.
  - `connect/reply.rs` — error details and session tokens read from reply
    bodies.
  - `model/` — error types and HTTP statuses, response envelopes, user
    models, constants, and the statuses and kinds the trading models read.
- `tests/` — tests of the library on concrete values.
- `app/` — the asynchronous HTTP client (reqwest, tokio) that performs the
  I/O the library plans, serde forms of the library's models, and the models
  whose fields are floating-point prices and amounts.
