# RustieGB

A Game Boy emulator core whose logic is verified with Verus.

## Layout

- `src/cpu/` — the register file, the arithmetic unit, two instruction sets with the
  meaning of every instruction stated as a spec function (`semantics.rs` for `CPU`,
  `instructions.rs` for `Cpu`), the disassembler, and laws relating instructions
  (`laws.rs`: push/pop, call/return, interrupt entry and `RETI`, the halt state).
- `src/audio/` — the audio registers NR10 to NR52 with their read and write masks,
  the channels and their length timers, the sweep of channel 1, the volume envelope,
  the audio unit, the state of the pulse, wave and noise channels (`pulse/`, `wave/`,
  `noise/`) driven through the register traits of `registers/`, the frame sequencer and
  the choice of channel update (`frame_sequencer.rs`), and laws on what reads give after
  writes and on the length timers (`laws.rs`).
- `src/cartridge.rs`, `src/cartridge/` — the cartridge header and the MBC1, MBC3 and
  MBC5 bank controllers.
- `src/memory.rs` — a flat 64 KiB address space, with a bootstrap ROM that can be
  mapped over its first 256 bytes and erased again.
- `src/gpu/` — display colours and two LCD controllers: `lcd.rs` (`Gpu`) and `gpu.rs`
  (`GPU`, which counts the window's pixels itself). Each runs the mode state machine
  (OAM search, pixel transfer, horizontal and vertical blank), picks the sprites of a
  line and draws it into a 160 by 144 canvas that the application copies.
- `src/configuration.rs`, `src/debug.rs`, `src/text.rs` — runtime settings, debugging
  tables and text helpers.
- `app/main.rs` — the command line, file reading, printing and the frame loop.
- `tests/` — tests of the library.
