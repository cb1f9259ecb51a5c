# dynasmrt (verified)

The runtime half of a dynamic assembler: how relocations are packed,
written into and read back from machine code for aarch64 and RISC-V, the
aarch64 immediate encoders, the register enumerations, and the parts of the
aarch64 assembler's operand description that stand on their own (register
ids and families, modifiers, condition codes, indexing modes). The
executable functions under `src/` are verified with Verus against their
contracts, except the little-endian accessors in `src/bytes.rs`: those are
trusted wrappers around the `byteorder` crate, whose contracts state what
its documentation promises.

The assembler's operand types that are built on its size and jump-type
definitions (`Register`, `RegScalar`, `RegVector`, `RefItem`, `RawArg`,
`RefKind`, `CleanArg`, `FlatArg` and the `JumpType` re-export) are not part
of this crate: the modules that define `Size` and `JumpType` are not
available to it.

- `src/relocations.rs` — the `Relocation` trait, relocation kinds, sizes and
  packed codes, plain little-endian integer relocations.
- `src/aarch64.rs` — aarch64 instruction relocations, the bitmask and
  floating point immediate encoders, registers, handler messages.
- `src/riscv.rs` — RISC-V instruction relocations (including the two-instruction
  `auipc` pairs), registers, handler messages.
- `src/logical.rs`, `src/logical64.rs` — ARM's `DecodeBitMasks` as a
  specification, and the bit-level proofs that the encoders invert it.
- `src/ast.rs` — register ids and families, modifiers, condition codes.
- `src/bytes.rs` — little-endian access through the `byteorder` crate (trusted).
- `src/message.rs` — decimal rendering of the handler messages.
- `app/` — the panicking handlers and the `f32` front end of the floating
  point immediate encoder.

Laws of the library are public proof functions: what reading back a
written value gives (`lemma_write_read`), what a write keeps
(`lemma_write_keeps`), that a relocation made from a size behaves as that
size (`Relocation::lemma_sized`), that a packed aarch64 field never touches
the instruction template (`lemma_field_disjoint`), that canonical bitmask
fields are unique and that the 64-bit encoder of a doubled word answers as
the 32-bit encoder (`lemma_canonical_unique_32`, `lemma_doubled_fields`,
`lemma_doubled_encoding`), and the register laws (`lemma_codes`,
`lemma_eq_symmetric`). The encoders' contracts state soundness and
completeness against the decoders.
