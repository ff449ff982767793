//! A Game Boy Advance machine model: memory map, PPU registers and
//! renderer, I/O bus, cartridge access, a small software runner, timers and
//! the pure parts of the KVM-backed I/O mirror.

pub mod gba;
pub mod kvm;
pub mod input;
pub mod report;
pub mod text;
