//! The GBA's RAM areas: EWRAM, IWRAM, palette RAM, VRAM and OAM.
use vstd::prelude::*;

use super::bits::{le32, put16, put32, read_u32, write_u16, write_u32};
use super::memory_map::{EWRAM_SIZE, IWRAM_SIZE, OAM_SIZE, PALETTE_SIZE, VRAM_SIZE};

verus! {

#[derive(Debug)]
pub struct GbaMemory {
    pub ewram: Vec<u8>,
    pub iwram: Vec<u8>,
    pub palette: Vec<u8>,
    pub vram: Vec<u8>,
    pub oam: Vec<u8>,
}

impl GbaMemory {
    /// Each area has its hardware size.
    pub open spec fn wf(&self) -> bool {
        &&& self.ewram@.len() == EWRAM_SIZE
        &&& self.iwram@.len() == IWRAM_SIZE
        &&& self.palette@.len() == PALETTE_SIZE
        &&& self.vram@.len() == VRAM_SIZE
        &&& self.oam@.len() == OAM_SIZE
    }

    /// Every byte of every area is zero.
    pub open spec fn is_zeroed(&self) -> bool {
        &&& forall|i: int| 0 <= i < self.ewram@.len() ==> #[trigger] self.ewram@[i] == 0
        &&& forall|i: int| 0 <= i < self.iwram@.len() ==> #[trigger] self.iwram@[i] == 0
        &&& forall|i: int| 0 <= i < self.palette@.len() ==> #[trigger] self.palette@[i] == 0
        &&& forall|i: int| 0 <= i < self.vram@.len() ==> #[trigger] self.vram@[i] == 0
        &&& forall|i: int| 0 <= i < self.oam@.len() ==> #[trigger] self.oam@[i] == 0
    }

    pub fn new() -> (r: Self)
        ensures
            r.wf(),
            r.is_zeroed(),
    {
        GbaMemory {
            ewram: vec![0; EWRAM_SIZE],
            iwram: vec![0; IWRAM_SIZE],
            palette: vec![0; PALETTE_SIZE],
            vram: vec![0; VRAM_SIZE],
            oam: vec![0; OAM_SIZE],
        }
    }

    pub fn ewram(&self) -> (r: &[u8])
        ensures
            r@ == self.ewram@,
    {
        self.ewram.as_slice()
    }

    pub fn ewram_mut(&mut self) -> (r: &mut [u8])
        ensures
            r@ == old(self).ewram@,
            final(r)@ == final(self).ewram@,
            final(self).iwram == old(self).iwram,
            final(self).palette == old(self).palette,
            final(self).vram == old(self).vram,
            final(self).oam == old(self).oam,
    {
        self.ewram.as_mut_slice()
    }

    pub fn iwram(&self) -> (r: &[u8])
        ensures
            r@ == self.iwram@,
    {
        self.iwram.as_slice()
    }

    pub fn iwram_mut(&mut self) -> (r: &mut [u8])
        ensures
            r@ == old(self).iwram@,
            final(r)@ == final(self).iwram@,
            final(self).ewram == old(self).ewram,
            final(self).palette == old(self).palette,
            final(self).vram == old(self).vram,
            final(self).oam == old(self).oam,
    {
        self.iwram.as_mut_slice()
    }

    pub fn palette(&self) -> (r: &[u8])
        ensures
            r@ == self.palette@,
    {
        self.palette.as_slice()
    }

    pub fn vram(&self) -> (r: &[u8])
        ensures
            r@ == self.vram@,
    {
        self.vram.as_slice()
    }

    pub fn vram_mut(&mut self) -> (r: &mut [u8])
        ensures
            r@ == old(self).vram@,
            final(r)@ == final(self).vram@,
            final(self).ewram == old(self).ewram,
            final(self).iwram == old(self).iwram,
            final(self).palette == old(self).palette,
            final(self).oam == old(self).oam,
    {
        self.vram.as_mut_slice()
    }

    pub fn oam(&self) -> (r: &[u8])
        ensures
            r@ == self.oam@,
    {
        self.oam.as_slice()
    }

    pub fn write_vram_halfword(&mut self, byte_offset: usize, value: u16)
        requires
            byte_offset + 1 < old(self).vram@.len(),
        ensures
            final(self).vram@ == put16(old(self).vram@, byte_offset as int, value),
            final(self).ewram == old(self).ewram,
            final(self).iwram == old(self).iwram,
            final(self).palette == old(self).palette,
            final(self).oam == old(self).oam,
    {
        write_u16(&mut self.vram, byte_offset, value);
    }

    pub fn write_palette_halfword(&mut self, byte_offset: usize, value: u16)
        requires
            byte_offset + 1 < old(self).palette@.len(),
        ensures
            final(self).palette@ == put16(old(self).palette@, byte_offset as int, value),
            final(self).ewram == old(self).ewram,
            final(self).iwram == old(self).iwram,
            final(self).vram == old(self).vram,
            final(self).oam == old(self).oam,
    {
        write_u16(&mut self.palette, byte_offset, value);
    }

    pub fn read_ewram_word(&self, byte_offset: usize) -> (r: u32)
        requires
            byte_offset + 3 < self.ewram@.len(),
        ensures
            r == le32(self.ewram@, byte_offset as int),
    {
        read_u32(self.ewram.as_slice(), byte_offset)
    }

    pub fn write_ewram_word(&mut self, byte_offset: usize, value: u32)
        requires
            byte_offset + 3 < old(self).ewram@.len(),
        ensures
            final(self).ewram@ == put32(old(self).ewram@, byte_offset as int, value),
            final(self).iwram == old(self).iwram,
            final(self).palette == old(self).palette,
            final(self).vram == old(self).vram,
            final(self).oam == old(self).oam,
    {
        write_u32(&mut self.ewram, byte_offset, value);
    }

    pub fn read_iwram_word(&self, byte_offset: usize) -> (r: u32)
        requires
            byte_offset + 3 < self.iwram@.len(),
        ensures
            r == le32(self.iwram@, byte_offset as int),
    {
        read_u32(self.iwram.as_slice(), byte_offset)
    }

    pub fn write_iwram_word(&mut self, byte_offset: usize, value: u32)
        requires
            byte_offset + 3 < old(self).iwram@.len(),
        ensures
            final(self).iwram@ == put32(old(self).iwram@, byte_offset as int, value),
            final(self).ewram == old(self).ewram,
            final(self).palette == old(self).palette,
            final(self).vram == old(self).vram,
            final(self).oam == old(self).oam,
    {
        write_u32(&mut self.iwram, byte_offset, value);
    }
}

impl Default for GbaMemory {
    fn default() -> (r: Self)
        ensures
            r.wf(),
            r.is_zeroed(),
    {
        Self::new()
    }
}

} // verus!
