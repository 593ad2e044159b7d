# ohos_rdb_engine

A storage engine for IndexedDB on top of a relational store, written in Verus.

The engine groups the requests of an IndexedDB transaction into one transaction of
the store and answers them only once it is known whether that transaction was
committed: no success is reported for a write that did not become durable, and where
the commit fails the whole batch fails.

- `src/` decides. It holds the requests and their replies, and a machine for
  everything that takes several calls of the store: running a transaction, making a
  call in a transaction of its own, looking something up, reading rows from a cursor,
  and opening the database. A machine says what is to be done next and is told how
  that went. Contracts pin down each step; the `law_` proof functions state what
  holds of whole courses, whatever the store answers.
- `app/` acts. It runs the machines on a platform's store, which it reaches through
  the traits in `app/platform.rs`, and hands the replies to their callbacks.
- `tests/` runs the machines on small stores made up for the purpose.

One thing is taken on trust: what std writes for the `Debug` of a string, in
`src/debug_text.rs`.
