# fable_async

The verified core of a runtime for asynchronous workflows and tasks, and the
thin runtime around it.

- `src/` (verified with Verus):
  - `cancellation`: cancellation sources and tokens, kept in a
    `CancellationRegistry` so that a token observes every later request made
    of its source. Cancelling hands back the registered callbacks in
    registration order, once; registering on a cancelled token hands the
    callback back to be run at once; `cancelAfter` starts a new timer
    generation that replaces earlier requests (-1 only withdraws them, below
    -1 is refused), and a timer cancels its source only if it is still the
    latest (generation 0 marks a source never asked, and no timer has it).
    Registering on a cancelled token and the handling of -1 and
    smaller delays follow the documented behaviour of .NET's
    `CancellationTokenSource`; the order in which callbacks are handed out
    (registration order) is this library's own choice.
  - `scope`: the token the computation on the current thread answers to.
  - `outcome`: exceptions, the mapping of raised payloads to exceptions, the
    routing of an outcome to its continuation, and the slot that
    continuation-based computations fill.
  - `schedule`: slicing of sleeps, poll-depth throttling of nested delayed
    computations, and the decisions of starting a computation on the current
    thread.
  - `monitor`: the set of held object monitors.
  - `task`, `thread`: the state machines of tasks and threads.
- `app/`: futures, executors, timers, thread-locals and global registries;
  each decision it takes is a call into the library.
- `tests/`: tests of the library on concrete values.
