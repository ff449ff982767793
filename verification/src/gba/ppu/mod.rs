use vstd::prelude::*;

pub mod registers;
pub mod renderer;
pub mod laws;

pub use registers::Ppu;
pub use renderer::{FrameBuffer, bgr555_to_argb8888};

verus! {

pub const WIDTH: usize = 240;
pub const HEIGHT: usize = 160;
pub const VISIBLE_SCANLINES: u16 = 160;
pub const TOTAL_SCANLINES: u16 = 228;

pub const MODE_0: u16 = 0x0000;
pub const MODE_3: u16 = 0x0003;
pub const MODE_4: u16 = 0x0004;
pub const MODE_5: u16 = 0x0005;
pub const DISPCNT_MODE_MASK: u16 = 0x0007;
pub const BACKBUFFER: u16 = 0x0010;
pub const OBJ_1D_MAPPING: u16 = 0x0040;
pub const BG0_ENABLE: u16 = 0x0100;
pub const BG1_ENABLE: u16 = 0x0200;
pub const BG2_ENABLE: u16 = 0x0400;
pub const BG3_ENABLE: u16 = 0x0800;
pub const OBJ_ENABLE: u16 = 0x1000;
pub const WIN0_ENABLE: u16 = 0x2000;
pub const WIN1_ENABLE: u16 = 0x4000;
pub const OBJ_WIN_ENABLE: u16 = 0x8000;

pub const DISPSTAT_VBLANK: u16 = 0x0001;
pub const DISPSTAT_HBLANK: u16 = 0x0002;
pub const DISPSTAT_VCOUNT: u16 = 0x0004;
pub const DISPSTAT_IRQ_WRITABLE_MASK: u16 = 0x0038;
pub const DISPSTAT_VCOUNT_SETTING_MASK: u16 = 0xff00;

} // verus!
