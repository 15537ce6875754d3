# fabro-petri

The engine of a platform run that Petri executes, verified with Verus.

- `src/plan.rs` puts a run together from its request: the options it sets on
  the runtime, what is installed in the runtime, the layers of hooks, the
  observers, the call by which the host is entered, and what is wired to the
  coordinator.
- `src/engine.rs` takes a run from its beginning to its result. The state of
  the run says what is to be done next; the caller does it and hands back what
  came of it.
- `src/receipt.rs` is the part of that which writes the interview receipt.
- `src/record.rs` derives the outcome that the run's durable record supports,
  fixes the access with which a record is opened, and refuses a resume of a
  run that never got under way.
- `src/error.rs` and `src/conclusion.rs` say how a run is reported.
- `src/laws.rs` states and proves what holds of every run.
- `app/` does the work against the store, the host, the hooks and the disk.
