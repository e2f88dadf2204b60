# tokio_context

Cancellation of asynchronous work in tokio: a `Handle` (or a `TaskController`)
cancels every related future, with an optional timeout and, for contexts, optional
chaining to a parent context.

Layout:

- `src/model.rs`: the model of cancellation. A context is the channel its cancel
  receiver listens to, its optional deadline and its optional parent; `completes`
  says when such a context counts as cancelled, given which senders were dropped
  and which instants passed. The `done` futures in `app/` wait on these sources
  and finish as `on_wake` decides.
- `src/lib.rs`: the plain `Context`/`Handle` without chaining, and `timeout_supported`.
- `src/context.rs`: the chainable `Context`, `Handle` and `RefContext`, and the laws
  that relate them (cancel, timeout, parent and child).
- `src/task.rs`: `TaskController` and what a spawned task yields.
- `src/tokio_api.rs`: the tokio types and calls the library relies on, with the
  contracts that Verus takes on trust.
- `app/lib.rs`: the asynchronous `done` futures and `spawn`, which wait on what the
  library names and hand the fired source back to it.
