# bitcoind_client

A client for the JSON-RPC interface of a Bitcoin Core node, written in Verus.

- `src/` is the verified library: the RPC method names (`rpc.rs`), batches of
  calls (`batch.rs`), the request counter and the sending of single requests and
  batches through a caller's transport (`client.rs`), the matching of responses
  to requests (`plan.rs`), the error type (`error.rs`), the cookie-file and
  fee-estimate checks of the HTTP client (`simple_http.rs`), the parameters of
  the node's RPC methods and the decoding of its replies (`node.rs`), and the calls into
  `serde_json` and `jsonrpc` that the client makes (`json.rs`).
- `app/` holds what stays outside the proofs: the HTTP transport and its RPC
  helpers, reading cookie files, floating-point fee rates, and asynchronous
  sending.
- `tests/` runs the library on concrete messages.
