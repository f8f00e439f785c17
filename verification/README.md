# task_runner_challenge

A task scheduler: tasks of three kinds (Foo, Bar, Baz) are created for a
time, stored, picked up once their time has come, run, and marked complete.

- `src/` is the verified library, checked by Verus:
  - `task.rs`: task states and their single path NotStarted → Started →
    Complete, task kinds, the names under which both are stored and requested,
    and what running a started task consists of.
  - `task_state.rs`: the rows a task is stored under and read back from, the
    rule for when a task is due, and the selection of due tasks to start.
  - `report.rs`: the lines the tasks print, and the number a Baz task draws.
  - `text.rs`: string comparison.
- `app/` is the program around it: the SQLite store, the HTTP server, the
  runner loop, and the sleeping, fetching and printing that tasks do.
- `tests/` runs the library on concrete values.
