# sart

Runtime support structures of the Sa virtual machine, verified with Verus.

- `src/structures/ffi.rs`: descriptors of foreign calls (registers, value
  types, outputs, clobber profiles) with their widths, type tags, location ids
  and libffi kinds, and the laws that tie them together.
- `src/ctr/`: the instruction table of the bytecode (`parse_instrution`, the
  `INSTRUCTION_*` opcodes), task flags and opcodes.
- `src/code/`: the swappable code store. `lock.rs` holds the lock word
  protocol (reader count, `LOCKED`, `PINNED`) as verified step functions and
  its laws; `mod.rs` holds the store, whose slot is a verified reader/writer
  lock holding a shared `Arc`.
- `app/`: what cannot be verified here: the spinning loops of the store
  (`get`, `set`), raw register unions and task state layouts, libffi type
  construction, and the serde forms of the descriptors.

`app/structures.rs` names the `saffi` crate (the boxed value and instruction
types of the compiled-code table), which is not available from the crate
registry here, so it is not listed in `Cargo.toml` and `app/` does not
type-check for that reason alone.

`CDef::inargs` is a `Vec<MapValue>`: Verus has no specification for cloning a
boxed slice, and `CDef` is `Clone`.
