# kidney_stones

A small git hosting server. `src/` is the verified library (Verus): the rules the
server applies and the bytes it produces, each with a contract.

- `routes/git.rs`: repository names in URLs (`name` / `name.git`), content types,
  repository paths, the subcommand that answers ref discovery, and the size limit on
  pack request bodies.
- `pkt_line.rs`: the pkt-line preamble of a smart-HTTP ref advertisement.
- `routes/repos.rs`: who owns a new repository and where it is created.
- `web/routes.rs`: values shown on the web pages.
- `app.rs`: Argon2 password hashing for new accounts.
- `models.rs`, `config.rs`, `web/templates.rs`, `http.rs`: the data types.

`app/` holds the server itself (axum handlers, database, git and process calls),
which hands plain values to the library. `tests/` runs the library.
