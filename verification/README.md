# carbonite

The logic of a newsletter service, verified with Verus: configuration values
(environment selection, Postgres connection strings), validation of a
subscriber's name and e-mail address, the order of the steps that store a new
subscriber and the status each outcome is answered with, subscription tokens,
the confirmation e-mail, and the decisions of the confirmation endpoint.

- `src/` is the verified library (`configuration`, `secret`, `domain`,
  `subscribe`, `flow`, `confirm`, `web`, `text`).
- `app/` is the HTTP service around it (actix-web, sqlx, reqwest, config):
  it performs the I/O that the library's decisions ask for.
- `tests/` runs the library on concrete values.
