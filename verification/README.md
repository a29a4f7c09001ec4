# sampr

Simple asynchronous message passing between actors.

- `src/` is the verified library: the worker's transition table and the
  lifecycle laws proved over it (`worker.rs`), the tasks of an actor's context
  (`task.rs`: spawned futures, relayed streams, the queue of tasks not yet
  polled), the outcome of a request to an actor (`request.rs`), envelopes and
  their one-time contents (`message.rs`), and the error type (`error.rs`).
- `app/` is the tokio runtime around it: channels, the worker task that carries
  out the library's decisions, async handlers, and a small demo.
- `tests/` exercises the library on concrete runs.
