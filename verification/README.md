# pi_harness

Serves turns of a coding agent that runs as a child process and speaks JSON
lines over its standard streams.

`src/` is the verified library. It decides: which frames of the agent's stream
become which events, when a turn is over, what an interrupt does to it, how the
process is started and when it is restarted. Its contracts are proved by Verus;
`src/laws.rs` states what holds of the library as a whole. The calls into
`serde_json` and into `std` that are taken on trust stand in `src/json.rs` and
`src/text.rs`, each with what is claimed of it.

`app/` holds what the library cannot: processes, threads, streams, the
environment. `tests/` runs the library on concrete values.
