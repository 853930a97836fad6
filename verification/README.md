# run-http

Runs one command and lets it be started, stopped, restarted and asked about over HTTP.

`src/` is a library, verified with Verus, that holds every decision: what the command line
means, how each request is answered, what is logged, when a restart goes ahead, and what the
watcher of the running command does. `app/` performs what the library decides: it owns the
processes, the sockets, the timers and the terminal.

* `src/cli.rs`, `src/clap_items.rs`: the command line, and what is taken from `clap` and
  `clap_markdown` without proof.
* `src/state.rs`, `src/start.rs`, `src/stop.rs`, `src/restart.rs`, `src/monitor.rs`,
  `src/boot.rs`: the state and the steps that change it.
* `src/output.rs`, `src/effects.rs`, `src/text.rs`, `src/routes.rs`: output, effects, texts and
  paths.
* `src/laws.rs`: what holds of the whole, beside the laws that stand with what they speak of.
