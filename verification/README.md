# service_lib

The core of a URL shortener service, written in Verus.

- `src/` is the verified library:
  - `config::env` turns the raw environment variables into the service
    configuration (`load_env`, and `get`, which keeps the first load's
    outcome, a failure too), with a decimal port parser that behaves like
    `str::parse::<u16>`;
  - `config::database` gives the database address, namespace and database;
  - `datetime` holds instants as plain integers, with the calls into `time`
    for the clock, parsing and formatting;
  - `entity` holds the short-url entity and its database record;
  - `router::slug` makes random slugs: `base62(SHA256(long_url + random32))`,
    the 32-byte digest read as one big-endian number, cut to eight
    characters;
  - `router::short_url_service` decides what each route answers: the
    creation route as a state machine over database lookups, the redirect
    and list routes as functions from what was read to the answer;
  - `util::serde` gives the values behind the date-time fields of the JSON
    bodies (`iso8601` with the six-digit years of `time::serde::iso8601`,
    `opt_iso8601` with four-digit ones).
- `app/` is the server: environment and database access, the HTTP routes
  (axum), JSON (serde) and signal handling. It calls the library for every
  decision.
- `tests/` runs the library on concrete values.
