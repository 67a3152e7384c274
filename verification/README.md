# account_server

The core of an account-book web service, written in Verus: the logic is
proved against contracts, and the HTTP server around it is ordinary Rust.

- `src/` — the verified library:
  - `codec` — hexadecimal, base64 and percent encodings as spec functions,
    decimal formatting and `i32` parsing, with the round-trip lemmas.
  - `keys` — RSA keys as the big-endian numbers they are made of, and what
    makes them a genuine key.
  - `utils` — password hashing (Argon2), RSA, base64, URL encoding and
    digests (MD5, BLAKE3), each outside call behind a small trusted wrapper.
  - `enums` — genders, permission kinds and operation permissions with their
    snake_case names and parsers.
  - `session` — the session cookie, permission checks and session deletion.
  - `error`, `response`, `rest` — errors with their HTTP status and code, and
    the bodies of answers.
  - `dto` — pages, orderings and the translation of filter trees into SQL
    conditions.
  - `routes` — request bodies and the parameters handed to the services,
    the login flow, the upload form protocol and the download header.
  - `migration` — table names, index and key names, trigger SQL and the
    initial seeding data.
  - `settings`, `info` — the settings and the startup banner.
- `tests/` — tests of the library on concrete values.
- `app/` — the server: settings from the `settings` file and the
  environment, key loading, routing, the multipart reader of upload chunks,
  and the serde forms of the library's values.
