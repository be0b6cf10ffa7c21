# pip16

A verified model of the pip16 fantasy console.

- `src/word.rs` — the 16-bit machine word and its wrapping arithmetic.
- `src/memory.rs` — one 64K-word bank, and the Default/PPU/APU banks selected
  by the Bank Control register, with the mirrored RAM/MMIO region.
- `src/mmio.rs` — MMIO register addresses and interrupt bits.
- `src/riscp/` — the RISC-P instruction encoding and CPU, plus a test ROM.
- `src/risc16/` — the RiSC-16 instruction encoding and CPU.
- `src/ppu.rs`, `src/apu.rs` — the co-processors; the PPU hands back the
  sprites to draw.
- `src/vm.rs` — one 60 Hz frame of the whole machine.
- `app/` — the macroquad window that runs the machine and draws its sprites.
