# edenapi

The request-building and response-shaping logic of the Sapling remote API
("EdenAPI") client, and the decisions of the server's suffix query handler,
written in Verus with their contracts proved.

- `src/` is the verified library: URL building with repository-name
  escaping, request configuration, batching of keys over requests with
  optional routing keys, the body that each request carries
  (`src/requests.rs`, `src/plans.rs`), the retry policy, shaping of HTTP
  error bodies and received chunks, interpretation of lookup answers, the
  order of a file upload, and the suffix query handler's steps.
  Calls into the `url`, `itertools` and `serde_json` crates go through small
  trusted wrappers in `src/urls.rs`, `src/batching.rs` and
  `src/responses.rs`.
- `tests/` exercises the library on concrete values.
- `app/` holds the I/O around it: the retry loop that sleeps, reading error
  bodies, logging requests to disk, running file uploads concurrently, and
  handing prepared requests to a transport.
