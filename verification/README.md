# drdotnet

The verified core of a .NET profiling toolkit. The library is written in Verus.
Every function in `src/` is proved against its contract, except the few
`#[verifier::external_body]` wrappers around `dashmap`, `itertools` and `uuid`
calls, whose contracts state what those crates do and are trusted. The
runtime's queries are reached through the `CorProfilerInfo` and
`MetadataImportTrait` traits: each query states that its answer is one the
runtime may give (a relation the implementation may refine), and the name
lookups and profilers are proved over those answers.

- `profiling_api::cil` — the CIL opcode table, little-endian operand layout,
  bounds-checked readers, and `Instruction::from_bytes` / `into_bytes`, with
  proofs that decoding an encoding gives the instruction back, that the
  instruction at the start of a stream is unique, and that an instruction's
  reported length is the length of its encoding.
- `api` — result codes, the records the runtime returns, the query and callback
  traits the runtime side implements, and the name lookups built on them.
- `profilers` — the bookkeeping of the profilers: GC pause windows, per-class
  and per-stack counters kept in a `DashMap`, and session identifiers.

`app/` holds what cannot be verified: reading the clock, opening session
directories, writing reports, logging, the detach timer and the raw stack-walk
callback.
