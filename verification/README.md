# dynoxide

Parts of a DynamoDB-compatible server, verified with Verus: what the server
says to a request that it refuses, and how it comes to listen.

- `src/auth.rs` checks the AWS authentication of a request, and answers one
  that lacks a part of it. Signatures are never verified.
- `src/serde_errors.rs` maps the messages of serde_json to DynamoDB's
  `ValidationException` and `SerializationException`.
- `src/net.rs` decides which socket calls make a listener, in which order, and
  what is reported when one fails.
- `src/auth_laws.rs`, `src/serde_laws.rs` and the end of `src/net.rs` prove what
  holds of these as a whole.
- `src/text.rs` searches and cuts text, `src/json.rs` reads and writes JSON with
  serde_json, `src/http.rs` looks into headers and URIs, and `src/error.rs`
  holds the errors.

`app/` is ordinary Rust around the library: it makes the socket calls, turns
answers into HTTP responses and reads request types with serde.
