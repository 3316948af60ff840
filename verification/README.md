# payment_service

A payment service whose decisions are verified with Verus.

`src/` is the verified library:

- `models` — the payment lifecycle (`pending -> processing -> succeeded | failed`),
  exact decimal amounts, create-request validation and the request hash that
  recognises a retried request.
- `config` and `decimal` — configuration from raw environment values, with
  unsigned decimal parsing as Rust's `str::parse` performs it.
- `errors` — configuration and application errors and the HTTP answer to each.
- `services` — idempotent payment creation and status transitions as state
  machines: each step takes the result of the last database, lock or decoding
  action and names the next one. The proved properties include that a
  transaction inserts at most one payment and only after claiming its
  idempotency key, that a retried request replays the stored response, that a
  different request under a used key is refused, that only lifecycle-allowed
  transitions are written, and that retries and waits are bounded.

`app/` is the process around it: environment, PostgreSQL (sqlx), Redis,
HTTP (axum), JSON (serde) and logging. It performs the actions the library
asks for and hands the results back.
