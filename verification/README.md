# blog

The verified core of a small blog engine.

- `src/` (Verus): pagination rules (`domain::pagination`), listing plans and
  post/category decisions (`application`), the HTML pagination bars of every
  listing page (`controllers::helpers::pagination_logic`, `controller::*`),
  decimal parsing and rendering of page numbers (`parse`, `text`), password
  ciphers (`adapters::crypto`, Argon2 hashes in
  `controllers::authentication`), and the decisions of the HTTP handlers
  (`adapters::http`, `controllers`, `controller`) as plain values
  (`response::Redirect`, `adapters::http::api::ApiErrorReply`).
- `app/` (plain Rust): the repository ports, the application state, and the
  Actix handlers, which read requests and repositories, ask the library for
  each decision, render the Handlebars templates and write responses.
- `tests/`: unit tests of the library.
