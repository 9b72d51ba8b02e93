# wasm-rs-async-executor

A single-threaded async executor for WebAssembly, split in two:

- `src/` is the library, each function with its contract and proof.
  `single_threaded::executor` hands out task tokens (wrapping round after the largest), keeps
  the pending tasks (a `BTreeSet` of tokens, seen in token order) and the run queue; `single_threaded::runtime` adds the flags of the run loop and the loop's
  decisions (what to poll next, what follows a poll: end of run, leaving the loop on request,
  waking every pending task when the queue runs dry); `single_threaded::task` holds tasks,
  task handles and joining; `single_threaded::cooperative` holds the decisions of the futures
  that yield to the browser (timer, animation frame, idle callback);
  `single_threaded::laws` states and proves what holds across operations.
- `app/` keeps what the library cannot: the futures themselves, the thread-local executor,
  `spawn`/`block_on`/`run` over real futures, the wakers, and the calls into JavaScript
  (only built for the browser), plus the browser demonstration.

`tests/` drives the library's state machines the way `app/` does, with the futures replaced
by closures that say whether a poll completed.
