# nimbus_auth

The infrastructure layer of the nimbus authentication service, with its
decisions verified by Verus.

- `src/` is the verified library: the configuration builder and its CORS
  origin parsing, the interpretation of HTTP headers (client type, session,
  bearer token), the shaping of protobuf responses with their session
  headers and cookies, the status and error code each endpoint answers with,
  the middleware plan, the state machine of a database transaction task, and
  the rows users and sessions are stored as.
- `tests/` exercises the library on concrete values.
- `app/` is the unverified shell around it: the axum server, extractors and
  middleware, and the PostgreSQL pool and transaction tasks, which perform
  the actions the library chooses.

The middleware plan places a rate-limiting layer between CORS and
tracing; the server takes the function that applies it as an argument. Where several CORS origins are
configured, the server's CORS layer admits only the last of them.
