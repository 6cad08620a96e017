# auth_service

A small authentication and user-management service for a vocabulary app,
written as a Verus-verified library (`src/`) and a thin warp/sqlx program
around it (`app/`).

## Layout

- `src/roles.rs` – roles, case-insensitive role names, logged-in users.
- `src/clock.rs` – clock readings and bounded time arithmetic.
- `src/errors.rs` – the service's error kinds and their display texts.
- `src/password.rs` – scrypt password hashing and verification.
- `src/auth.rs` – bearer-token extraction, authorization, token issuing.
- `src/rejection.rs` – the status code and body of every error reply.
- `src/handlers.rs` – the decisions of each request handler between its
  database calls.
- `src/db.rs` – the database URL and the splitting of the schema script.
- `app/` – the HTTP server: routing, database queries, JSON, JWT decoding.

Run the server from `app/` with a PostgreSQL database on `localhost` and the
signing key in the `JWT_SECRET` environment variable; it listens on
`127.0.0.1:7000` under `/api/users`.
