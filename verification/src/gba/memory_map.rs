use vstd::prelude::*;

verus! {

pub const BIOS_START: u32 = 0x0000_0000;
pub const BIOS_SIZE: usize = 0x4000;

pub const EWRAM_START: u32 = 0x0200_0000;
pub const EWRAM_SIZE: usize = 0x40000;

pub const IWRAM_START: u32 = 0x0300_0000;
pub const IWRAM_SIZE: usize = 0x8000;

pub const IO_START: u32 = 0x0400_0000;
pub const IO_SIZE: usize = 0x400;

pub const PALETTE_START: u32 = 0x0500_0000;
pub const PALETTE_SIZE: usize = 0x400;

pub const VRAM_START: u32 = 0x0600_0000;
pub const VRAM_SIZE: usize = 0x18000;

pub const OAM_START: u32 = 0x0700_0000;
pub const OAM_SIZE: usize = 0x400;

pub const GAME_PAK_ROM_START: u32 = 0x0800_0000;

pub const DISPCNT: u32 = 0x0400_0000;
pub const DISPSTAT: u32 = 0x0400_0004;
pub const VCOUNT: u32 = 0x0400_0006;
pub const BG0CNT: u32 = 0x0400_0008;
pub const BG1CNT: u32 = 0x0400_000a;
pub const BG2CNT: u32 = 0x0400_000c;
pub const BG3CNT: u32 = 0x0400_000e;
pub const BG0HOFS: u32 = 0x0400_0010;
pub const BG0VOFS: u32 = 0x0400_0012;
pub const BG1HOFS: u32 = 0x0400_0014;
pub const BG1VOFS: u32 = 0x0400_0016;
pub const BG2HOFS: u32 = 0x0400_0018;
pub const BG2VOFS: u32 = 0x0400_001a;
pub const BG3HOFS: u32 = 0x0400_001c;
pub const BG3VOFS: u32 = 0x0400_001e;
pub const BG2PA: u32 = 0x0400_0020;
pub const BG2PB: u32 = 0x0400_0022;
pub const BG2PC: u32 = 0x0400_0024;
pub const BG2PD: u32 = 0x0400_0026;
pub const BG2X: u32 = 0x0400_0028;
pub const BG2Y: u32 = 0x0400_002c;
pub const WIN0H: u32 = 0x0400_0040;
pub const WIN1H: u32 = 0x0400_0042;
pub const WIN0V: u32 = 0x0400_0044;
pub const WIN1V: u32 = 0x0400_0046;
pub const WININ: u32 = 0x0400_0048;
pub const WINOUT: u32 = 0x0400_004a;
pub const MOSAIC: u32 = 0x0400_004c;
pub const BLDCNT: u32 = 0x0400_0050;
pub const BLDALPHA: u32 = 0x0400_0052;
pub const BLDY: u32 = 0x0400_0054;
pub const SOUNDCNT_H: u32 = 0x0400_0082;
pub const FIFO_A: u32 = 0x0400_00a0;
pub const FIFO_B: u32 = 0x0400_00a4;
pub const DMA0SAD: u32 = 0x0400_00b0;
pub const DMA0DAD: u32 = 0x0400_00b4;
pub const DMA0CNT: u32 = 0x0400_00b8;
pub const DMA1SAD: u32 = 0x0400_00bc;
pub const DMA1DAD: u32 = 0x0400_00c0;
pub const DMA1CNT: u32 = 0x0400_00c4;
pub const DMA2SAD: u32 = 0x0400_00c8;
pub const DMA2DAD: u32 = 0x0400_00cc;
pub const DMA2CNT: u32 = 0x0400_00d0;
pub const DMA3SAD: u32 = 0x0400_00d4;
pub const DMA3DAD: u32 = 0x0400_00d8;
pub const DMA3CNT: u32 = 0x0400_00dc;
pub const KEYINPUT: u32 = 0x0400_0130;
pub const IE: u32 = 0x0400_0200;
pub const IF: u32 = 0x0400_0202;
pub const IME: u32 = 0x0400_0208;

} // verus!
