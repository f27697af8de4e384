# tetanes-core, verified

The core of a Nintendo Entertainment System emulator, written in Verus: each function states what
it does in `requires`/`ensures` over mathematical models, and Verus proves the code meets it.

## Layout

- `src/` is the verified library.
  - `apu.rs` - the APU's registers: each `$4000-$4017` write handed to its channel.
  - `apu/` - the audio channels (pulse, triangle, noise, DMC) and the units that clock them:
    timers, dividers, envelopes, sweeps, length and linear counters, the frame counter.
  - `cpu.rs`, `cpu/instr.rs` - the 6502: every addressing mode and operation, each given as a
    spec function from the state before to the state after, and interrupt polling. Its memory
    is reached through the work RAM and PPU register mirrors.
  - `cpu/disasm.rs` - the disassembler and the trace line it prints, proved to read every
    instruction the way executing it does.
  - `cpu/dma.rs` - the DMC sample fetch and the OAM sprite copy, cycle by cycle.
  - `bus.rs` - the CPU address decode and its mirrors, and the bus that routes reads and
    writes to work RAM, the APU and the controllers.
  - `cart.rs` - iNES and NES 2.0 headers, cartridge loading, the game database lookup.
  - `genie.rs` - Game Genie codes, decoded and encoded.
  - `patch.rs` - the patches Game Genie codes and cheats substitute for reads.
  - `debug.rs`, `debug/expr.rs` - PC history, call stack, code map, breakpoints and the
    breakpoint condition language.
  - `fs.rs` - save-file headers, compressed framing and CRC32.
  - `input.rs` - controllers.
- `tests/` runs the library on concrete values.
- `app/` holds what touches the outside world: files, and serde/bincode for stored values.
