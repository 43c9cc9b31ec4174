# alist_client

A client library for the AList v3 HTTP API, written in Verus.

- `src/` is the verified library: the status codes of the JSON envelope and
  the classification of server error messages (`error`), the client's
  configuration and session state and every decision of the request cycle —
  URL construction, the headers of a request, decoding of a response,
  when and how an expired session is refreshed, spacing of requests
  (`client`), the API's data models (`models`), character-level string
  helpers (`text`), and the outside types and calls it relies on, each with
  its contract (`foreign`).
- `app/` is the asynchronous HTTP client built on `reqwest` and `tokio`. It
  sends the requests, waits, and (de)serializes JSON with `serde`, handing the
  outcomes to the library's functions; it also holds the serde forms of the
  models and an error type with `Display`.
- `tests/` exercises the library on concrete values.
