# horus

A verified library for HORUS: time-boxed, query-scoped access to encrypted
datasets, paid per answered query from an escrow.

- `src/` is the library, verified with Verus: capability verification,
  revocation, settlement arithmetic (prices, fee floor, budget clamp, refunds),
  listing lifecycle, predicate commitments, the gateway's query path, and the
  placeholder predicate-proof backend. Each public function states its result
  exactly; the protocol's laws (scope lattice, conservation of the escrow
  budget, idempotent refunds, injectivity of the signed and committed byte
  layouts, proof round trip) are proof functions beside the code.
- BLAKE3, Ed25519 and hex encoding are called through small trusted wrappers in
  `src/crypto.rs` and `src/types.rs`; their contracts name what the outside
  crates return.
- `app/` is the command line, and serializable copies of the core types.
- `tests/` runs the library against concrete vectors.
