# fastpotify

The backend of a Spotify client, written in Verus.

The library under `src/` decides and never waits. A `Worker` takes one command
at a time and leaves a list of actions; whoever runs it carries the actions out
and hands the results back as commands. What every command makes of the
worker's state is written down in `src/model.rs`, the worker in `src/worker.rs`
is proved to do exactly that, and `src/laws/` states what follows for any run
of commands: a late result cannot undo a sign-out, the two Web API sessions
belong to one account, an engine is connected only for that account and only
where its plan may allow it.

- `src/credentials.rs`, `src/gateway.rs`: leases, sessions and the account
- `src/requests.rs`, `src/exchange.rs`, `src/responses.rs`: one Web API request,
  from its route to its answer
- `src/tasks.rs`: what browser flows, verifications, connections and lookups
  report
- `src/backend.rs`: the interface's side
- `src/text.rs`: text, with the only two calls that leave the crate
- `tests/`: scenarios, run against the compiled library
- `app/`: the tokio runtime around the library, with the file format of the
  playlist cache and the conversion to librespot's credentials
