# zero2prod

The verified core of a newsletter service with double opt-in subscriptions,
an admin login and idempotent newsletter publishing.

- `src/` is the library, verified with Verus:
  - `domain`: subscription statuses and subscription tokens (parsing and
    random generation).
  - `authentication`: checking a password against the stored Argon2 hash,
    with a fallback hash for unknown users.
  - `idempotency`: the record in which a response is saved under an
    idempotency key, and how it is read back.
  - `routes`: the decisions of each endpoint. Login and the login page are
    plain functions; subscribing, confirming and publishing are state
    machines that name the next database or email step and take its outcome.
  - `utils`: redirects and error answers.
- `app/` is the actix-web layer: extractors, SQL, email and HTTP responses.
  Each handler performs the steps that the library's machines ask for.
- `tests/` runs the library on concrete values.
