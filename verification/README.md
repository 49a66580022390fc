# quota_layer

A global write quota for [OpenDAL](https://opendal.apache.org) operators. Every
byte that flows through a write is counted against a configured limit; a write
that would exceed it is rejected with a rate-limit error and charged nothing.
A write that fails, or a writer that is aborted, gives its bytes back. The
total is kept by a tracker of your own, so it survives restarts.

- `src/` is the library, verified with Verus. It holds the decisions: each
  operation is cut where it would wait, and a method returns the next step.
  - `state.rs`: one quota; reservations and releases.
  - `writer.rs`: a writer under a quota.
  - `layer.rs`: the layer and the accessor.
  - `error.rs`, `text.rs`: the error for a write over the quota.
  - `model.rs`: what reservations and releases come to, over plain values.
  - `laws.rs`: what is proved of single operations.
  - `ledger.rs`: what is proved of many writers on one quota.
  - `schedule.rs`: what is proved of calls that run at the same time.
- `app/` waits for the lock, the tracker and the inner writer, and implements
  OpenDAL's traits.
- `tests/` runs the library on a tracker and a backend in memory.
