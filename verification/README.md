# crm

Verified core of a small set of gRPC services around a CRM: a user-statistics
service that turns structured queries into SQL, a metadata service that
renders and generates content records, a notification service that routes
messages, and the bearer-token checks of the front service.

- `src/` is the library, checked by Verus: `user_stats` (SQL text),
  `metadata` (content rendering and sample content), `notify` (messages,
  requests and answers), `auth` (users, keys, bearer tokens), `config`
  (configuration shape and source), `text` and `time` (decimal, list and
  quoted text; instants and their RFC 3339 form), `server` (the user service).
- `tests/` runs the library with its outside crates.
- `app/` holds what needs I/O or async: loading the configuration file,
  database queries, the request streams, token signing with serde, and a
  small command-line program.
