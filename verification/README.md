# cpu16

A verified emulator core for a small sixteen-bit register machine.

- `src/bits.rs`: bytes and half-words as little-endian bit lists, with the
  laws that splitting and fusing undo each other.
- `src/inst.rs`: instruction decoding (`Inst::decode`) against a bit-field
  specification of the instruction word.
- `src/machine.rs`: the core (`Core`), its mathematical state (`CoreState`),
  the specification of one step (`step`) and the executable step (`exec`).
- `src/laws.rs`: properties across steps: the wired-zero register, halt and
  exception as fixpoints, what memory a step may change, how the program
  counter moves, and that a load gives back what a store wrote.
- `app/`: the interactive console front end and the run loop, which print.

Register arithmetic wraps at sixteen bits, and addresses wrap at the top of
the address space.
