# modkit

The parts of a module framework for HTTP services that decide things, written in Verus: each
function says in its contract what it returns, and the contract is proved. A few contracts are
believed, because they speak of code from outside: those of the functions in `auth::routing` that
call the `matchit` crate, that of the one in `api::path` that calls `char::is_alphanumeric`, and
that of `String::push` in `text`.

- `api` - API operations. `operation_builder` builds the description of an operation step by
  step; what is missing shows in its type. `operation_spec` is the description itself, `path`
  converts between path syntaxes, `openapi_registry` is where operations and schemas are
  registered.
- `auth` - who may call a route. `authorizer` matches roles against requirements, `routing` finds
  the route that a path is on (with the `matchit` crate), `ingress` decides what a request has to
  bring, and `setup` builds all of it from the configuration and the known routes.
- `wiring` - when a client is wired to a service, wired anew, kept or removed.
- `protocol` - HTTP methods and status codes as plain values.
- `text` - text as sequences of characters.

`app/` holds what is around the library: `axum` routers, `utoipa` schemas and `tokio` tasks.
