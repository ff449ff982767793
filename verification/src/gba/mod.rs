pub mod bits;
pub mod bus;
pub mod cartridge;
pub mod memory;
pub mod memory_map;
pub mod ppu;
pub mod software;
