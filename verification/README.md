# api_server_rust

A URL shortener API (sign-up, sign-in, token-protected URL creation, redirects),
with its logic as a library verified by Verus.

- `src/` — the verified library: the short-hash generator (`hash_generator`), request
  validation (`validation`), password hashing and checking with bcrypt (`password`),
  token claims (`token`), the ticket-server counter (`ticket_counter`), and the decisions
  of each route and of the authentication middleware (`user_routes`, `auth`, `url_routes`),
  each written as a step from what the database, cache or token check answered to the
  next action or the reply.
- `app/` — the HTTP server: actix-web routes and middleware, PostgreSQL and Redis access,
  JWT encoding and decoding, and serde copies of the library's types.
- `tests/` — tests of the library.
