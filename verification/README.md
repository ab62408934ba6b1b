# mcp_center

The decisions of the MCP center service, verified with Verus, and the
service around them.

- `src/` — the verified library: the authorization decision for protected
  routes, the JSON answer envelope, the statements the database handlers
  send and what they make of the rows returned, and the steps of the
  registry, settings and login endpoints. Each endpoint that talks to the
  database is a sequence of verified steps; the caller runs the statements
  in between.
- `app/` — the axum routers, handlers and middleware, the sqlx stores and
  the JSON forms of the library's types. It performs the I/O the library's
  steps ask for. It settles only two things itself: an answer whose payload
  cannot be turned into JSON becomes an internal server error, and a listing
  whose page offset overflows an `i64` panics.
- `tests/` — tests of the library on concrete values.
