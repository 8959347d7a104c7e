# openchat_server

The account and authentication rules of the OpenChat HTTP API, verified with Verus.

- `src/` — the verified library: registration validation, the answers to
  storage outcomes, login and token-type decisions, bearer-header parsing,
  the order of the registration flow (`register.rs`), the API error model with
  its HTTP statuses, and the OpenAPI security scheme.
- `app/` — the server around it (axum routes, SQLite through sqlx, the
  OpenAPI document through utoipa), which performs the I/O and asks the
  library what to answer.
- `tests/` — tests of the library on concrete requests.
