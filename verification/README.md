# starter_api

A REST API for users, roles and permissions: access and refresh tokens,
role-based authorization where a root account passes every check, password
reset and e-mail verification by one-time tokens, Google and Facebook sign-in,
profile photos, and a seeded permission tree (category, menu, action).

## Layout

- `src/` is the library, written in Verus. It holds the rules of every
  operation as functions from plain values to plain values, each with a
  contract that Verus proves: what a login or a refresh accepts and answers,
  the records that registration, resets and social sign-in store, the claims
  JSON inside a token and its parser, the permission tree, the seed data, the
  configuration defaults, the database URL, the migration script split and the
  answer envelope. Laws across operations are public proof functions (for
  instance `lemma_root_bypass`, `lemma_refresh_single_use`,
  `lemma_access_claims_roundtrip`, `lemma_tree_complete`).
- Calls into outside crates that the rules need (bcrypt, jsonwebtoken, uuid,
  the clock from chrono) sit behind small trusted wrappers whose contracts
  say what the crate's source shows.
- `app/` is the server around the library: configuration from the
  environment, the SQL queries, the HTTP routes and handlers (axum), the SMTP
  transport (lettre), the calls to the sign-in providers (reqwest) and the
  photo files on disk.
- `tests/` runs the library on concrete values, with the outside crates linked.

Instants are micro-seconds since the Unix epoch throughout the library; the
program stores them as RFC 3339 text.
