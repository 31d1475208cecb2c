# reclaim

Building blocks for concurrent memory reclamation, verified with Verus.

- `src/marked.rs` — marked pointer words: an aligned address and a tag in
  its `N` low bits, with the laws of composing and decomposing them.
- `src/lib.rs`, `src/imp/` — the pointer types bound to a reclamation
  mechanism (`Owned`, `Protected`, `Shared`, `Unlinked`, `Unprotected`) and
  `Maybe`.
- `src/atomic.rs`, `src/atomic/` — the atomic marked pointer and the
  compare and store arguments (`Comparable`, `Storable`).
- `src/traits.rs`, `src/traits/` — the traits of reclamation mechanisms and
  guards, and `SharedPointer` with its implementations for options.
- `src/fused.rs`, `src/guarded.rs` — guards fused with the values they
  protect.
- `src/leak.rs` — the leaking mechanism and its guard.
- `src/record.rs`, `src/retired.rs`, `src/erased.rs` — record layout, retired
  records and type-erased headers.
- `app/` — allocation, de-allocation and de-referencing of records, which go
  through raw pointers, and the per-thread states of mechanisms.
