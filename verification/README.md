# ateam_common_packets

Packet definitions for the radio link between the robots and the AI, and for
the robot-internal buses, with their contracts proved by Verus.

- `src/bits.rs`, `src/bitfields.rs`: the flag words. Each flag has a getter,
  a `with_` builder and a `set_` setter, specified bit by bit; the laws of
  single-bit and multi-bit field reads and writes are proved once in `bits.rs`.
- `src/packets/`: the packet structures and tagged unions. Float fields are
  held as their IEEE 754 bit patterns (`float_bits::F32Bits`).
- `src/lib.rs`, `src/radio.rs`: the safety checks on received control packets
  (every float finite).
- `src/decl.rs`, `src/layout.rs`, `src/codegen.rs`, `src/text.rs`: the
  flag-word layout rules (offsets packed from bit 0, widths adding up to the
  base type; a write to one field of a layout reads back and leaves every
  other field unchanged, `layout::lemma_planned_write*`), reading flag-word
  declarations from Rust source with `syn`, and the C header generator.
- `app/`: the header generator program (file I/O), and float and `nalgebra`
  views of the float fields.

## What is not here

Conversions between the C bindings of the packets and their protobuf messages
are not part of this crate. Both sides of those conversions are types generated
at build time, from C headers by bindgen and from `.proto` schemas by micropb,
and neither the generated types nor their sources belong to this crate; the
packets here, their flag words and their safety checks stand without them.
