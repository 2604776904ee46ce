# frontend_server

The request handling of a vector database's HTTP frontend, verified with Verus.

* `src/` decides what is done for each request: which checks are made, what the
  backend is asked for, and what the client is answered. A handler returns a
  `Step`; its caller performs it and hands the outcome back. `src/laws.rs` proves
  what holds of whole exchanges, `src/routes.rs` that no request leads to two
  handlers.
* `app/` is the HTTP server around it: axum reads the requests, a `Backend` does
  the work, and the answers are written as JSON.
* `tests/` plays exchanges on concrete values.

What is trusted: the contracts of `uuid::Uuid::parse_str` and
`uuid::Uuid::new_v4`, in `src/ids.rs`. `uuid::Error` and `serde_json::Value` are
carried unread. Metadata, embeddings, conditions and
responses are type parameters (`src/model.rs`): the server carries them as they
came.
