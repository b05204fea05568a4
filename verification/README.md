# seis

A simulator for the SEIS instruction set: the instruction encoding, a paged
main memory, caches, a memory hierarchy, and pipelined and unpipelined
processors built from five stages (fetch, decode, execute, memory,
writeback). The library under `src/` is verified with Verus.

- `src/instruction_set/` — instructions, their encoding and decoding, and
  their assembly text.
- `src/memory.rs`, `src/pages.rs`, `src/bytes.rs` — the paged main memory.
- `src/cache/` — caches (none, direct-mapped, set-associative) against a
  mathematical model of their contents.
- `src/module/` — the memory hierarchy with a single level of cache.
- `src/pipeline/` — the stages, the register file and its locks, and the two
  processors.
- `app/` — what the library cannot hold: the floating-point unit on `f32`
  and JSON views of processor state.
