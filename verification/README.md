# gloam_commands

A Discord slash-command framework whose decisions are proved with Verus.

- `src/` is the verified core: the command tree and registry with Discord's
  native hierarchy rules, resolution of submitted command paths, typed option
  extraction, execution policy and per-user cooldowns, concurrency slots, the
  interaction acknowledgement state machine, the command lifecycle with hooks
  and error routing, autocomplete response limits, command synchronization
  requests, and the schema rules that the command macros enforce.
- `tests/` exercises the core on concrete values.
- `app/` is the unverified shell: the Gloamwire Gateway and REST calls, Tokio
  task handling, `tracing` output, and the `syn`/`quote` front end of the
  procedural macros. It converts wire values to the core's plain values and
  performs the actions the core decides.

Tokio's semaphore and mutex and the `regex` crate are called from the core
through small trusted wrappers whose contracts are stated next to them.
