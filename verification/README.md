# kgba

An experimental Game Boy Advance emulator that runs the guest CPU under KVM
(aarch64 Linux), with a small software interpreter as a development fallback.

The emulator's logic is a verified library (`src/`, checked with Verus):

- `gba/` — memory map, cartridge, bus and I/O registers, the PPU registers
  and renderer (modes 0, 3, 4, 5, sprites, windows, blending), and the
  software runner for the sample ROM.
- `kvm/` — the state shared between the vCPU and the host threads (guest
  I/O page, DMA, timers, sound FIFOs, HBlank handshake, raster offsets,
  frame buffers, MMIO exit handling), the BIOS/bootstrap images, the
  per-scanline clock decisions and the KVM ioctl encodings.
- `input.rs`, `report.rs`, `text.rs` — key mapping, frame summaries and
  message text.

`app/` is the program around it: argument handling, the KVM system calls
and memory mappings, the threads and their timing, and the SDL2 window.
It is ordinary Rust and is not verified.
