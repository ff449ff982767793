//! The I/O bus seen by the CPU: halfword-granular register reads and writes
//! routed to the PPU, a backing store for the rest of the I/O area, and
//! byte and word accesses built from halfword ones.
use vstd::prelude::*;

use super::bits::{le16, lo8, hi8, put16, lemma_le16_put16, read_u16, write_u16};
use super::memory::GbaMemory;
use super::memory_map::{
    BG0CNT, BG0HOFS, BG0VOFS, BG1CNT, BG1HOFS, BG1VOFS, BG2CNT, BG2HOFS, BG2PA, BG2PB, BG2PC,
    BG2PD, BG2VOFS, BG2X, BG2Y, BG3CNT, BG3HOFS, BG3VOFS, BLDALPHA, BLDCNT, BLDY, DISPCNT,
    DISPSTAT, IO_SIZE, IO_START, KEYINPUT, MOSAIC, VCOUNT, WIN0H, WIN0V, WIN1H, WIN1V, WININ,
    WINOUT,
};
use super::ppu::registers::{spec_dispstat, spec_merge_halfword};
use super::ppu::renderer::{frame_reads_ok, lemma_frame_reads_ok, spec_argb, spec_frame_raw, FRAME_PIXELS};
use super::ppu::{FrameBuffer, Ppu, DISPSTAT_IRQ_WRITABLE_MASK, DISPSTAT_VCOUNT_SETTING_MASK};

verus! {

#[derive(Clone, Copy, Debug, PartialEq, Eq, Structural)]
pub enum AccessSize {
    Byte,
    Halfword,
    Word,
}

#[derive(Debug)]
pub struct Bus {
    pub memory: GbaMemory,
    pub ppu: Ppu,
    pub io: Vec<u8>,
}

/// Last byte of the I/O area.
pub const IO_END: u32 = 0x0400_03ff;

pub open spec fn in_io(addr: u32) -> bool {
    IO_START <= addr <= IO_END
}

/// The I/O backing store when the bus is created: everything zero except
/// KEYINPUT (no key pressed, 0x03ff) and the BG2 matrix diagonal (0x0100).
pub open spec fn spec_initial_io() -> Seq<u8> {
    put16(put16(put16(Seq::new(IO_SIZE as nat, |i: int| 0u8), (KEYINPUT - IO_START) as int, 0x03ff),
        (BG2PA - IO_START) as int, 0x0100), (BG2PD - IO_START) as int, 0x0100)
}

/// What a halfword read at `addr` returns: the PPU register mapped there,
/// all key bits released for KEYINPUT, the backing store elsewhere in the
/// I/O area, and 0 outside it.
pub open spec fn spec_read_halfword(ppu: Ppu, io: Seq<u8>, addr: u32) -> u16 {
    if addr == DISPCNT { ppu.dispcnt }
    else if addr == DISPSTAT { spec_dispstat(ppu.dispstat, ppu.vcount) }
    else if addr == VCOUNT { ppu.vcount }
    else if addr == BG0CNT { ppu.bgcnt@[0] }
    else if addr == BG1CNT { ppu.bgcnt@[1] }
    else if addr == BG2CNT { ppu.bgcnt@[2] }
    else if addr == BG3CNT { ppu.bgcnt@[3] }
    else if addr == BG0HOFS { ppu.bghofs@[0] }
    else if addr == BG1HOFS { ppu.bghofs@[1] }
    else if addr == BG2HOFS { ppu.bghofs@[2] }
    else if addr == BG3HOFS { ppu.bghofs@[3] }
    else if addr == BG0VOFS { ppu.bgvofs@[0] }
    else if addr == BG1VOFS { ppu.bgvofs@[1] }
    else if addr == BG2VOFS { ppu.bgvofs@[2] }
    else if addr == BG3VOFS { ppu.bgvofs@[3] }
    else if addr == BG2PA { ppu.bgpa@[0] }
    else if addr == BG2PB { ppu.bgpb@[0] }
    else if addr == BG2PC { ppu.bgpc@[0] }
    else if addr == BG2PD { ppu.bgpd@[0] }
    else if addr == BG2X { (ppu.bgx@[0] % 65536) as u16 }
    else if addr == BG2X + 2 { (ppu.bgx@[0] / 65536) as u16 }
    else if addr == BG2Y { (ppu.bgy@[0] % 65536) as u16 }
    else if addr == BG2Y + 2 { (ppu.bgy@[0] / 65536) as u16 }
    else if addr == WIN0H { ppu.winh@[0] }
    else if addr == WIN1H { ppu.winh@[1] }
    else if addr == WIN0V { ppu.winv@[0] }
    else if addr == WIN1V { ppu.winv@[1] }
    else if addr == WININ { ppu.winin }
    else if addr == WINOUT { ppu.winout }
    else if addr == MOSAIC { ppu.mosaic }
    else if addr == BLDCNT { ppu.bldcnt }
    else if addr == BLDALPHA { ppu.bldalpha }
    else if addr == BLDY { ppu.bldy }
    else if addr == KEYINPUT { 0x03ff }
    else if in_io(addr) { le16(io, addr - IO_START) }
    else { 0 }
}

/// The PPU after a halfword write of `value` at `addr`: the register mapped
/// there takes the value (through that register's write mask); any other
/// address leaves the PPU unchanged.
pub open spec fn spec_ppu_write(p: Ppu, addr: u32, value: u16) -> Ppu {
    if addr == DISPCNT { Ppu { dispcnt: value, ..p } }
    else if addr == DISPSTAT { Ppu { dispstat: value & (DISPSTAT_IRQ_WRITABLE_MASK | DISPSTAT_VCOUNT_SETTING_MASK), ..p } }
    else if addr == BG0CNT { Ppu { bgcnt: vstd::array::spec_array_update(p.bgcnt, 0, value), ..p } }
    else if addr == BG1CNT { Ppu { bgcnt: vstd::array::spec_array_update(p.bgcnt, 1, value), ..p } }
    else if addr == BG2CNT { Ppu { bgcnt: vstd::array::spec_array_update(p.bgcnt, 2, value), ..p } }
    else if addr == BG3CNT { Ppu { bgcnt: vstd::array::spec_array_update(p.bgcnt, 3, value), ..p } }
    else if addr == BG0HOFS { Ppu { bghofs: vstd::array::spec_array_update(p.bghofs, 0, value & 0x01ff), ..p } }
    else if addr == BG1HOFS { Ppu { bghofs: vstd::array::spec_array_update(p.bghofs, 1, value & 0x01ff), ..p } }
    else if addr == BG2HOFS { Ppu { bghofs: vstd::array::spec_array_update(p.bghofs, 2, value & 0x01ff), ..p } }
    else if addr == BG3HOFS { Ppu { bghofs: vstd::array::spec_array_update(p.bghofs, 3, value & 0x01ff), ..p } }
    else if addr == BG0VOFS { Ppu { bgvofs: vstd::array::spec_array_update(p.bgvofs, 0, value & 0x01ff), ..p } }
    else if addr == BG1VOFS { Ppu { bgvofs: vstd::array::spec_array_update(p.bgvofs, 1, value & 0x01ff), ..p } }
    else if addr == BG2VOFS { Ppu { bgvofs: vstd::array::spec_array_update(p.bgvofs, 2, value & 0x01ff), ..p } }
    else if addr == BG3VOFS { Ppu { bgvofs: vstd::array::spec_array_update(p.bgvofs, 3, value & 0x01ff), ..p } }
    else if addr == BG2PA { Ppu { bgpa: vstd::array::spec_array_update(p.bgpa, 0, value), ..p } }
    else if addr == BG2PB { Ppu { bgpb: vstd::array::spec_array_update(p.bgpb, 0, value), ..p } }
    else if addr == BG2PC { Ppu { bgpc: vstd::array::spec_array_update(p.bgpc, 0, value), ..p } }
    else if addr == BG2PD { Ppu { bgpd: vstd::array::spec_array_update(p.bgpd, 0, value), ..p } }
    else if addr == BG2X {
        Ppu { bgx: vstd::array::spec_array_update(p.bgx, 0, spec_merge_halfword(p.bgx@[0], 0, value) & 0x0fff_ffff), ..p }
    } else if addr == BG2X + 2 {
        Ppu { bgx: vstd::array::spec_array_update(p.bgx, 0, spec_merge_halfword(p.bgx@[0], 1, value) & 0x0fff_ffff), ..p }
    } else if addr == BG2Y {
        Ppu { bgy: vstd::array::spec_array_update(p.bgy, 0, spec_merge_halfword(p.bgy@[0], 0, value) & 0x0fff_ffff), ..p }
    } else if addr == BG2Y + 2 {
        Ppu { bgy: vstd::array::spec_array_update(p.bgy, 0, spec_merge_halfword(p.bgy@[0], 1, value) & 0x0fff_ffff), ..p }
    }
    else if addr == WIN0H { Ppu { winh: vstd::array::spec_array_update(p.winh, 0, value), ..p } }
    else if addr == WIN1H { Ppu { winh: vstd::array::spec_array_update(p.winh, 1, value), ..p } }
    else if addr == WIN0V { Ppu { winv: vstd::array::spec_array_update(p.winv, 0, value), ..p } }
    else if addr == WIN1V { Ppu { winv: vstd::array::spec_array_update(p.winv, 1, value), ..p } }
    else if addr == WININ { Ppu { winin: value & 0x3f3f, ..p } }
    else if addr == WINOUT { Ppu { winout: value & 0x3f3f, ..p } }
    else if addr == MOSAIC { Ppu { mosaic: value, ..p } }
    else if addr == BLDCNT { Ppu { bldcnt: value & 0x3fff, ..p } }
    else if addr == BLDALPHA { Ppu { bldalpha: value & 0x1f1f, ..p } }
    else if addr == BLDY { Ppu { bldy: value & 0x001f, ..p } }
    else { p }
}

/// The I/O backing store after a halfword write: the two bytes at `addr`
/// when it lies in the I/O area.
pub open spec fn spec_io_write(io: Seq<u8>, addr: u32, value: u16) -> Seq<u8> {
    if in_io(addr) { put16(io, addr - IO_START, value) } else { io }
}

/// The even address of the halfword holding byte `addr`.
pub open spec fn spec_align2(addr: u32) -> u32 {
    (addr - addr % 2) as u32
}

/// A byte read: the matching half of the halfword that holds it.
pub open spec fn spec_read_byte(ppu: Ppu, io: Seq<u8>, addr: u32) -> u8 {
    let v = spec_read_halfword(ppu, io, spec_align2(addr));
    if addr % 2 == 0 { lo8(v) } else { hi8(v) }
}

/// The halfword a byte write stores: the byte replaces its half of the
/// halfword currently read there.
pub open spec fn spec_byte_merge(current: u16, addr: u32, value: u8) -> u16 {
    if addr % 2 == 0 {
        ((current as int / 256) * 256 + value as int) as u16
    } else {
        ((current as int % 256) + value as int * 256) as u16
    }
}

/// A halfword access at `addr` stays inside the I/O backing store (only the
/// last byte of the I/O area cannot start one).
pub open spec fn halfword_ok(addr: u32) -> bool {
    addr != IO_END
}

/// The halfword accesses that an access of `size` at `addr` makes are
/// valid, and a word access does not wrap past the top of the address space.
pub open spec fn access_ok(addr: u32, size: AccessSize) -> bool {
    match size {
        AccessSize::Byte => true,
        AccessSize::Halfword => halfword_ok(addr),
        AccessSize::Word => addr + 2 <= u32::MAX && halfword_ok(addr) && halfword_ok((addr + 2) as u32),
    }
}

/// What `read` returns.
pub open spec fn spec_read(ppu: Ppu, io: Seq<u8>, addr: u32, size: AccessSize) -> u32 {
    match size {
        AccessSize::Byte => spec_read_byte(ppu, io, addr) as u32,
        AccessSize::Halfword => spec_read_halfword(ppu, io, addr) as u32,
        AccessSize::Word => (spec_read_halfword(ppu, io, addr) as int
            + 65536 * spec_read_halfword(ppu, io, (addr + 2) as u32) as int) as u32,
    }
}

proof fn lemma_array_update<T, const N: usize>(a: [T; N], b: [T; N], i: int, v: T)
    requires
        0 <= i < N,
        b@ == a@.update(i, v),
    ensures
        b == vstd::array::spec_array_update(a, i, v),
{
    broadcast use vstd::array::group_array_axioms;
    assert(b =~= vstd::array::spec_array_update(a, i, v));
}

impl Bus {
    /// The memory has its hardware sizes, VCOUNT is on the screen's 228
    /// lines, and the I/O store covers the I/O area.
    pub open spec fn wf(&self) -> bool {
        &&& self.memory.wf()
        &&& self.ppu.wf()
        &&& self.io@.len() == IO_SIZE
    }

    pub fn new(memory: GbaMemory) -> (r: Self)
        ensures
            r.memory == memory,
            r.ppu.is_reset(),
            r.ppu.wf(),
            r.io@ == spec_initial_io(),
            memory.wf() ==> r.wf(),
    {
        let mut io: Vec<u8> = vec![0; IO_SIZE];
        assert(io@ =~= Seq::new(IO_SIZE as nat, |i: int| 0u8));
        write_u16(&mut io, (KEYINPUT - IO_START) as usize, 0x03ff);
        write_u16(&mut io, (BG2PA - IO_START) as usize, 0x0100);
        write_u16(&mut io, (BG2PD - IO_START) as usize, 0x0100);
        Bus { memory, ppu: Ppu::new(), io }
    }

    pub fn memory(&self) -> (r: &GbaMemory)
        ensures
            *r == self.memory,
    {
        &self.memory
    }

    pub fn memory_mut(&mut self) -> (r: &mut GbaMemory)
        ensures
            *r == old(self).memory,
            final(self).memory == *final(r),
            final(self).ppu == old(self).ppu,
            final(self).io == old(self).io,
    {
        &mut self.memory
    }

    pub fn ppu(&self) -> (r: &Ppu)
        ensures
            *r == self.ppu,
    {
        &self.ppu
    }

    pub fn ppu_mut(&mut self) -> (r: &mut Ppu)
        ensures
            *r == old(self).ppu,
            final(self).ppu == *final(r),
            final(self).memory == old(self).memory,
            final(self).io == old(self).io,
    {
        &mut self.ppu
    }

    /// Reads a byte, a halfword, or a word (two halfwords, low one first).
    pub fn read(&mut self, addr: u32, size: AccessSize) -> (r: u32)
        requires
            old(self).io@.len() == IO_SIZE,
            access_ok(addr, size),
        ensures
            *final(self) == *old(self),
            r == spec_read(old(self).ppu, old(self).io@, addr, size),
    {
        match size {
            AccessSize::Byte => self.read_byte(addr) as u32,
            AccessSize::Halfword => self.read_halfword(addr) as u32,
            AccessSize::Word => {
                let lo = self.read_halfword(addr) as u32;
                let hi = self.read_halfword(addr + 2) as u32;
                lo + hi * 65536
            },
        }
    }

    /// Writes a byte, a halfword, or a word (two halfwords, low one first).
    pub fn write(&mut self, addr: u32, size: AccessSize, value: u32)
        requires
            old(self).io@.len() == IO_SIZE,
            access_ok(addr, size),
        ensures
            final(self).memory == old(self).memory,
            final(self).io@.len() == IO_SIZE,
            ({
                let (p0, io0) = (old(self).ppu, old(self).io@);
                match size {
                    AccessSize::Byte => {
                        let a = spec_align2(addr);
                        let h = spec_byte_merge(spec_read_halfword(p0, io0, a), addr, (value % 256) as u8);
                        final(self).ppu == spec_ppu_write(p0, a, h) && final(self).io@ == spec_io_write(io0, a, h)
                    },
                    AccessSize::Halfword => {
                        let h = (value % 65536) as u16;
                        final(self).ppu == spec_ppu_write(p0, addr, h) && final(self).io@ == spec_io_write(io0, addr, h)
                    },
                    AccessSize::Word => {
                        let a2 = (addr + 2) as u32;
                        let lo = (value % 65536) as u16;
                        let hi = (value / 65536) as u16;
                        final(self).ppu == spec_ppu_write(spec_ppu_write(p0, addr, lo), a2, hi)
                            && final(self).io@ == spec_io_write(spec_io_write(io0, addr, lo), a2, hi)
                    },
                }
            }),
    {
        match size {
            AccessSize::Byte => self.write_byte(addr, (value % 256) as u8),
            AccessSize::Halfword => self.write_halfword(addr, (value % 65536) as u16),
            AccessSize::Word => {
                self.write_halfword(addr, (value % 65536) as u16);
                self.write_halfword(addr + 2, (value / 65536) as u16);
            },
        }
    }

    /// Renders the current frame from palette RAM, VRAM and OAM.
    pub fn render_frame_argb8888(&self) -> (r: FrameBuffer)
        requires
            self.memory.wf(),
        ensures
            r@.len() == FRAME_PIXELS,
            forall|i: int| 0 <= i < FRAME_PIXELS ==> #[trigger] r@[i]
                == spec_argb(spec_frame_raw(self.ppu, self.memory.palette@, self.memory.vram@, self.memory.oam@, i)),
    {
        proof {
            lemma_frame_reads_ok(self.ppu, self.memory.palette@, self.memory.vram@, self.memory.oam@);
        }
        self.ppu.render_frame(self.memory.palette(), self.memory.vram(), self.memory.oam())
    }

    fn read_byte(&self, addr: u32) -> (r: u8)
        requires
            self.io@.len() == IO_SIZE,
        ensures
            r == spec_read_byte(self.ppu, self.io@, addr),
    {
        let aligned = addr - addr % 2;
        let value = self.read_halfword(aligned);
        if addr % 2 == 0 {
            (value % 256) as u8
        } else {
            (value / 256) as u8
        }
    }

    fn read_halfword(&self, addr: u32) -> (r: u16)
        requires
            self.io@.len() == IO_SIZE,
            halfword_ok(addr),
        ensures
            r == spec_read_halfword(self.ppu, self.io@, addr),
    {
        if addr == DISPCNT { self.ppu.dispcnt() }
        else if addr == DISPSTAT { self.ppu.dispstat() }
        else if addr == VCOUNT { self.ppu.vcount() }
        else if addr == BG0CNT { self.ppu.bgcnt(0) }
        else if addr == BG1CNT { self.ppu.bgcnt(1) }
        else if addr == BG2CNT { self.ppu.bgcnt(2) }
        else if addr == BG3CNT { self.ppu.bgcnt(3) }
        else if addr == BG0HOFS { self.ppu.bghofs(0) }
        else if addr == BG1HOFS { self.ppu.bghofs(1) }
        else if addr == BG2HOFS { self.ppu.bghofs(2) }
        else if addr == BG3HOFS { self.ppu.bghofs(3) }
        else if addr == BG0VOFS { self.ppu.bgvofs(0) }
        else if addr == BG1VOFS { self.ppu.bgvofs(1) }
        else if addr == BG2VOFS { self.ppu.bgvofs(2) }
        else if addr == BG3VOFS { self.ppu.bgvofs(3) }
        else if addr == BG2PA { self.ppu.bgpa(2) }
        else if addr == BG2PB { self.ppu.bgpb(2) }
        else if addr == BG2PC { self.ppu.bgpc(2) }
        else if addr == BG2PD { self.ppu.bgpd(2) }
        else if addr == BG2X { (self.ppu.bgx(2) % 65536) as u16 }
        else if addr == BG2X + 2 { (self.ppu.bgx(2) / 65536) as u16 }
        else if addr == BG2Y { (self.ppu.bgy(2) % 65536) as u16 }
        else if addr == BG2Y + 2 { (self.ppu.bgy(2) / 65536) as u16 }
        else if addr == WIN0H { self.ppu.winh(0) }
        else if addr == WIN1H { self.ppu.winh(1) }
        else if addr == WIN0V { self.ppu.winv(0) }
        else if addr == WIN1V { self.ppu.winv(1) }
        else if addr == WININ { self.ppu.winin() }
        else if addr == WINOUT { self.ppu.winout() }
        else if addr == MOSAIC { self.ppu.mosaic() }
        else if addr == BLDCNT { self.ppu.bldcnt() }
        else if addr == BLDALPHA { self.ppu.bldalpha() }
        else if addr == BLDY { self.ppu.bldy() }
        else if addr == KEYINPUT { 0x03ff }
        else if IO_START <= addr && addr <= IO_END { self.read_io_halfword(addr) }
        else { 0 }
    }

    fn write_byte(&mut self, addr: u32, value: u8)
        requires
            old(self).io@.len() == IO_SIZE,
        ensures
            final(self).memory == old(self).memory,
            final(self).io@.len() == IO_SIZE,
            ({
                let a = spec_align2(addr);
                let h = spec_byte_merge(spec_read_halfword(old(self).ppu, old(self).io@, a), addr, value);
                final(self).ppu == spec_ppu_write(old(self).ppu, a, h)
                    && final(self).io@ == spec_io_write(old(self).io@, a, h)
            }),
    {
        let aligned = addr - addr % 2;
        let current = self.read_halfword(aligned);
        let merged = if addr % 2 == 0 {
            (current / 256) * 256 + value as u16
        } else {
            current % 256 + (value as u16) * 256
        };
        self.write_halfword(aligned, merged);
    }

    fn write_halfword(&mut self, addr: u32, value: u16)
        requires
            old(self).io@.len() == IO_SIZE,
            halfword_ok(addr),
        ensures
            final(self).memory == old(self).memory,
            final(self).ppu == spec_ppu_write(old(self).ppu, addr, value),
            final(self).io@ == spec_io_write(old(self).io@, addr, value),
            final(self).io@.len() == IO_SIZE,
    {
        if IO_START <= addr && addr <= IO_END {
            self.write_io_halfword(addr, value);
        }
        let ghost p0 = self.ppu;
        if addr == DISPCNT { self.ppu.write_dispcnt(value) }
        else if addr == DISPSTAT { self.ppu.write_dispstat(value) }
        else if addr == BG0CNT { self.ppu.write_bgcnt(0, value); proof { lemma_array_update(p0.bgcnt, self.ppu.bgcnt, 0, value); } }
        else if addr == BG1CNT { self.ppu.write_bgcnt(1, value); proof { lemma_array_update(p0.bgcnt, self.ppu.bgcnt, 1, value); } }
        else if addr == BG2CNT { self.ppu.write_bgcnt(2, value); proof { lemma_array_update(p0.bgcnt, self.ppu.bgcnt, 2, value); } }
        else if addr == BG3CNT { self.ppu.write_bgcnt(3, value); proof { lemma_array_update(p0.bgcnt, self.ppu.bgcnt, 3, value); } }
        else if addr == BG0HOFS { self.ppu.write_bghofs(0, value); proof { lemma_array_update(p0.bghofs, self.ppu.bghofs, 0, value & 0x01ff); } }
        else if addr == BG1HOFS { self.ppu.write_bghofs(1, value); proof { lemma_array_update(p0.bghofs, self.ppu.bghofs, 1, value & 0x01ff); } }
        else if addr == BG2HOFS { self.ppu.write_bghofs(2, value); proof { lemma_array_update(p0.bghofs, self.ppu.bghofs, 2, value & 0x01ff); } }
        else if addr == BG3HOFS { self.ppu.write_bghofs(3, value); proof { lemma_array_update(p0.bghofs, self.ppu.bghofs, 3, value & 0x01ff); } }
        else if addr == BG0VOFS { self.ppu.write_bgvofs(0, value); proof { lemma_array_update(p0.bgvofs, self.ppu.bgvofs, 0, value & 0x01ff); } }
        else if addr == BG1VOFS { self.ppu.write_bgvofs(1, value); proof { lemma_array_update(p0.bgvofs, self.ppu.bgvofs, 1, value & 0x01ff); } }
        else if addr == BG2VOFS { self.ppu.write_bgvofs(2, value); proof { lemma_array_update(p0.bgvofs, self.ppu.bgvofs, 2, value & 0x01ff); } }
        else if addr == BG3VOFS { self.ppu.write_bgvofs(3, value); proof { lemma_array_update(p0.bgvofs, self.ppu.bgvofs, 3, value & 0x01ff); } }
        else if addr == BG2PA { self.ppu.write_bgpa(2, value); proof { lemma_array_update(p0.bgpa, self.ppu.bgpa, 0, value); } }
        else if addr == BG2PB { self.ppu.write_bgpb(2, value); proof { lemma_array_update(p0.bgpb, self.ppu.bgpb, 0, value); } }
        else if addr == BG2PC { self.ppu.write_bgpc(2, value); proof { lemma_array_update(p0.bgpc, self.ppu.bgpc, 0, value); } }
        else if addr == BG2PD { self.ppu.write_bgpd(2, value); proof { lemma_array_update(p0.bgpd, self.ppu.bgpd, 0, value); } }
        else if addr == BG2X { self.ppu.write_bgx_halfword(2, 0, value); proof { lemma_array_update(p0.bgx, self.ppu.bgx, 0, spec_merge_halfword(p0.bgx@[0], 0, value) & 0x0fff_ffff); } }
        else if addr == BG2X + 2 { self.ppu.write_bgx_halfword(2, 1, value); proof { lemma_array_update(p0.bgx, self.ppu.bgx, 0, spec_merge_halfword(p0.bgx@[0], 1, value) & 0x0fff_ffff); } }
        else if addr == BG2Y { self.ppu.write_bgy_halfword(2, 0, value); proof { lemma_array_update(p0.bgy, self.ppu.bgy, 0, spec_merge_halfword(p0.bgy@[0], 0, value) & 0x0fff_ffff); } }
        else if addr == BG2Y + 2 { self.ppu.write_bgy_halfword(2, 1, value); proof { lemma_array_update(p0.bgy, self.ppu.bgy, 0, spec_merge_halfword(p0.bgy@[0], 1, value) & 0x0fff_ffff); } }
        else if addr == WIN0H { self.ppu.write_winh(0, value); proof { lemma_array_update(p0.winh, self.ppu.winh, 0, value); } }
        else if addr == WIN1H { self.ppu.write_winh(1, value); proof { lemma_array_update(p0.winh, self.ppu.winh, 1, value); } }
        else if addr == WIN0V { self.ppu.write_winv(0, value); proof { lemma_array_update(p0.winv, self.ppu.winv, 0, value); } }
        else if addr == WIN1V { self.ppu.write_winv(1, value); proof { lemma_array_update(p0.winv, self.ppu.winv, 1, value); } }
        else if addr == WININ { self.ppu.write_winin(value) }
        else if addr == WINOUT { self.ppu.write_winout(value) }
        else if addr == MOSAIC { self.ppu.write_mosaic(value) }
        else if addr == BLDCNT { self.ppu.write_bldcnt(value) }
        else if addr == BLDALPHA { self.ppu.write_bldalpha(value) }
        else if addr == BLDY { self.ppu.write_bldy(value) }
    }

    fn read_io_halfword(&self, addr: u32) -> (r: u16)
        requires
            self.io@.len() == IO_SIZE,
            IO_START <= addr < IO_END,
        ensures
            r == le16(self.io@, addr - IO_START),
    {
        read_u16(self.io.as_slice(), (addr - IO_START) as usize)
    }

    fn write_io_halfword(&mut self, addr: u32, value: u16)
        requires
            old(self).io@.len() == IO_SIZE,
            IO_START <= addr < IO_END,
        ensures
            final(self).io@ == put16(old(self).io@, addr - IO_START, value),
            final(self).memory == old(self).memory,
            final(self).ppu == old(self).ppu,
    {
        write_u16(&mut self.io, (addr - IO_START) as usize, value);
    }
}


/// The bits a halfword register keeps when written: nine for the scroll
/// offsets, twelve for the high half of the BG2 reference point, the
/// documented masks for the window and blend registers, all sixteen
/// elsewhere.
pub open spec fn spec_register_mask(addr: u32) -> u16 {
    if addr == BG0HOFS || addr == BG1HOFS || addr == BG2HOFS || addr == BG3HOFS
        || addr == BG0VOFS || addr == BG1VOFS || addr == BG2VOFS || addr == BG3VOFS {
        0x01ff
    } else if addr == BG2X + 2 || addr == BG2Y + 2 {
        0x0fff
    } else if addr == WININ || addr == WINOUT {
        0x3f3f
    } else if addr == BLDCNT {
        0x3fff
    } else if addr == BLDALPHA {
        0x1f1f
    } else if addr == BLDY {
        0x001f
    } else {
        0xffff
    }
}

/// Addresses of the I/O area whose halfword reads give back what was
/// written: all but DISPSTAT and VCOUNT (which report PPU status), KEYINPUT
/// (which reports the keys), and the last byte of the area.
pub open spec fn readback_address(addr: u32) -> bool {
    &&& in_io(addr)
    &&& halfword_ok(addr)
    &&& addr != DISPSTAT
    &&& addr != VCOUNT
    &&& addr != KEYINPUT
}

proof fn lemma_halfword_masks(cur: u32, v: u16)
    by (bit_vector)
    ensures
        v & 0xffff == v,
        (((cur & 0xffff_0000u32) | (v as u32)) & 0x0fff_ffffu32) % 65536 == v as u32,
        (((cur & 0x0000_ffffu32) | ((v as u32) << 16u32)) & 0x0fff_ffffu32) / 65536 == (v & 0x0fff) as u32,
{
}

/// A halfword written to a read-back address of the I/O area reads back as
/// the value, masked to the bits that the register keeps.
pub proof fn lemma_halfword_write_read(p: Ppu, io: Seq<u8>, addr: u32, value: u16)
    requires
        io.len() == IO_SIZE,
        readback_address(addr),
    ensures
        spec_read_halfword(spec_ppu_write(p, addr, value), spec_io_write(io, addr, value), addr)
            == value & spec_register_mask(addr),
{
    broadcast use vstd::array::group_array_axioms;
    lemma_halfword_masks(p.bgx@[0], value);
    lemma_halfword_masks(p.bgy@[0], value);
    lemma_le16_put16(io, addr - IO_START, value);
}

/// Two byte writes to the two halves of a read-back halfword read back as
/// the halfword they form, masked to the bits the register keeps.
pub proof fn lemma_byte_pair_write_read(p: Ppu, io: Seq<u8>, addr: u32, lo: u8, hi: u8)
    requires
        io.len() == IO_SIZE,
        addr % 2 == 0,
        readback_address(addr),
    ensures
        ({
            let h1 = spec_byte_merge(spec_read_halfword(p, io, addr), addr, lo);
            let p1 = spec_ppu_write(p, addr, h1);
            let io1 = spec_io_write(io, addr, h1);
            let h2 = spec_byte_merge(spec_read_halfword(p1, io1, addr), (addr + 1) as u32, hi);
            spec_read_halfword(spec_ppu_write(p1, addr, h2), spec_io_write(io1, addr, h2), addr)
                == ((lo as int + 256 * hi as int) as u16) & spec_register_mask(addr)
        }),
{
    let h1 = spec_byte_merge(spec_read_halfword(p, io, addr), addr, lo);
    let p1 = spec_ppu_write(p, addr, h1);
    let io1 = spec_io_write(io, addr, h1);
    lemma_halfword_write_read(p, io, addr, h1);
    let r1 = spec_read_halfword(p1, io1, addr);
    let h2 = spec_byte_merge(r1, (addr + 1) as u32, hi);
    assert(io1.len() == IO_SIZE);
    lemma_halfword_write_read(p1, io1, addr, h2);
    lemma_byte_masks(h1, lo, hi, spec_register_mask(addr));
}

proof fn lemma_byte_masks(h1: u16, lo: u8, hi: u8, m: u16)
    requires
        h1 as int == (h1 as int / 256) * 256 + lo as int,
        m == 0x01ff || m == 0x0fff || m == 0x3f3f || m == 0x3fff || m == 0x1f1f || m == 0x001f || m == 0xffff,
    ensures
        ((((h1 & m) as int % 256) + hi as int * 256) as u16) & m == ((lo as int + 256 * hi as int) as u16) & m,
{
    assert(h1 % 256 == lo);
    lemma_low_byte_mask(h1, lo, hi, m);
}

proof fn lemma_low_byte_mask(h1: u16, lo: u8, hi: u8, m: u16)
    by (bit_vector)
    requires
        h1 % 256 == lo as u16,
    ensures
        ((((h1 & m) % 256) + (hi as u16) * 256) as u16) & m == (((lo as u16) + 256 * (hi as u16)) as u16) & m,
{
}

} // verus!
