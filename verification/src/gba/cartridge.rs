//! A Game Pak ROM image and the little-endian reads the CPU makes from it.
use vstd::prelude::*;

use super::bits::{le16, read_u16 as read_le16};
use super::memory_map::GAME_PAK_ROM_START;

verus! {

#[derive(Debug)]
pub struct Cartridge {
    pub rom: Vec<u8>,
}

/// The halfword at bus address `addr` of the ROM, which starts at
/// `GAME_PAK_ROM_START`: all ones past the end of the image (or below its
/// start, where the offset wraps around).
pub open spec fn spec_rom_u16(rom: Seq<u8>, addr: u32) -> u16 {
    let offset = (addr as int - GAME_PAK_ROM_START as int) % 0x1_0000_0000;
    if offset + 1 >= rom.len() { 0xffff } else { le16(rom, offset) }
}

/// The word at bus address `addr`: two halfword reads, low half first.
pub open spec fn spec_rom_u32(rom: Seq<u8>, addr: u32) -> u32 {
    (spec_rom_u16(rom, addr) as int + 65536 * spec_rom_u16(rom, (addr + 2) as u32) as int) as u32
}

impl Cartridge {
    pub fn from_bytes(rom: Vec<u8>) -> (r: Self)
        ensures
            r.rom@ == rom@,
    {
        Cartridge { rom }
    }

    pub fn rom(&self) -> (r: &[u8])
        ensures
            r@ == self.rom@,
    {
        self.rom.as_slice()
    }

    pub fn read_u16(&self, addr: u32) -> (r: u16)
        ensures
            r == spec_rom_u16(self.rom@, addr),
    {
        let offset = addr.wrapping_sub(GAME_PAK_ROM_START) as usize;
        if offset >= self.rom.len() || self.rom.len() - offset < 2 {
            return 0xffff;
        }
        read_le16(self.rom.as_slice(), offset)
    }

    pub fn read_u32(&self, addr: u32) -> (r: u32)
        requires
            addr + 2 <= u32::MAX,
        ensures
            r == spec_rom_u32(self.rom@, addr),
    {
        let lo = self.read_u16(addr) as u32;
        let hi = self.read_u16(addr + 2) as u32;
        lo + hi * 65536
    }

    /// The Thumb entry point recorded in the word at ROM offset 0x1f4: the
    /// address with bit 0 cleared, when bit 0 (Thumb) is set.
    pub fn entry_thumb_addr(&self) -> (r: Option<u32>)
        ensures
            r == (if spec_rom_u32(self.rom@, (GAME_PAK_ROM_START + 0x1f4) as u32) & 1 != 0 {
                Some(spec_rom_u32(self.rom@, (GAME_PAK_ROM_START + 0x1f4) as u32) & !1u32)
            } else {
                None::<u32>
            }),
    {
        let value = self.read_u32(GAME_PAK_ROM_START + 0x1f4);
        if value & 1 != 0 {
            Some(value & !1)
        } else {
            None
        }
    }
}

} // verus!
