//! The PPU's register file: what a write stores and what a read returns.
use vstd::prelude::*;

use super::{
    DISPSTAT_HBLANK, DISPSTAT_IRQ_WRITABLE_MASK, DISPSTAT_VBLANK, DISPSTAT_VCOUNT,
    DISPSTAT_VCOUNT_SETTING_MASK, HEIGHT, TOTAL_SCANLINES, VISIBLE_SCANLINES,
};

verus! {

/// Number of entries of one per-scanline offset raster (four backgrounds,
/// one entry per visible line each).
pub const SCANLINE_RASTER_LEN: usize = 640;

/// The PPU's register state.
///
/// `bghofs_scanline` / `bgvofs_scanline` hold, for each background `bg`, an
/// offset per visible line `y` at index `bg * HEIGHT + y`; they replace the
/// plain offset register for that background while the matching `*_valid`
/// flag is set.
#[verifier::ext_equal]
#[derive(Debug)]
pub struct Ppu {
    pub dispcnt: u16,
    pub dispstat: u16,
    pub vcount: u16,
    pub bgcnt: [u16; 4],
    pub bghofs: [u16; 4],
    pub bgvofs: [u16; 4],
    pub bgpa: [u16; 2],
    pub bgpb: [u16; 2],
    pub bgpc: [u16; 2],
    pub bgpd: [u16; 2],
    pub bgx: [u32; 2],
    pub bgy: [u32; 2],
    pub winh: [u16; 2],
    pub winv: [u16; 2],
    pub winin: u16,
    pub winout: u16,
    pub mosaic: u16,
    pub bldcnt: u16,
    pub bldalpha: u16,
    pub bldy: u16,
    pub bghofs_scanline: [u16; 640],
    pub bgvofs_scanline: [u16; 640],
    pub bghofs_scanline_valid: [bool; 4],
    pub bgvofs_scanline_valid: [bool; 4],
}

/// The value DISPSTAT reads as: the stored HBlank, IRQ-enable and
/// VCOUNT-setting bits, plus the VBlank flag (on lines 160..) and the
/// VCOUNT-match flag (when VCOUNT equals the setting in the high byte).
pub open spec fn spec_dispstat(dispstat: u16, vcount: u16) -> u16 {
    let stored = dispstat & (DISPSTAT_HBLANK | DISPSTAT_IRQ_WRITABLE_MASK | DISPSTAT_VCOUNT_SETTING_MASK);
    let with_vblank = if vcount >= VISIBLE_SCANLINES { stored | DISPSTAT_VBLANK } else { stored };
    if vcount == ((dispstat >> 8u16) & 0xffu16) { with_vblank | DISPSTAT_VCOUNT } else { with_vblank }
}

/// Replaces the low (`halfword == 0`) or high half of a 32-bit register.
pub open spec fn spec_merge_halfword(current: u32, halfword: usize, value: u16) -> u32 {
    if halfword == 0 {
        (current & 0xffff_0000u32) | (value as u32)
    } else {
        (current & 0x0000_ffffu32) | ((value as u32) << 16u32)
    }
}

/// The line after `vcount`, wrapping after the last of the 228 lines.
pub open spec fn spec_next_vcount(vcount: u16) -> u16 {
    if vcount + 1 >= TOTAL_SCANLINES { 0 } else { (vcount + 1) as u16 }
}

impl Ppu {
    /// The PPU keeps VCOUNT on one of the 228 lines.
    pub open spec fn wf(&self) -> bool {
        self.vcount < TOTAL_SCANLINES
    }

    /// Every register is cleared except the BG2 affine matrix, which starts as
    /// the identity (`PA == PD == 0x0100`); no per-scanline raster is active.
    pub open spec fn is_reset(&self) -> bool {
        &&& self.dispcnt == 0 && self.dispstat == 0 && self.vcount == 0
        &&& self.bgcnt@ == seq![0u16, 0, 0, 0]
        &&& self.bghofs@ == seq![0u16, 0, 0, 0]
        &&& self.bgvofs@ == seq![0u16, 0, 0, 0]
        &&& self.bgpa@ == seq![0x0100u16, 0x0100]
        &&& self.bgpb@ == seq![0u16, 0]
        &&& self.bgpc@ == seq![0u16, 0]
        &&& self.bgpd@ == seq![0x0100u16, 0x0100]
        &&& self.bgx@ == seq![0u32, 0]
        &&& self.bgy@ == seq![0u32, 0]
        &&& self.winh@ == seq![0u16, 0]
        &&& self.winv@ == seq![0u16, 0]
        &&& self.winin == 0 && self.winout == 0 && self.mosaic == 0
        &&& self.bldcnt == 0 && self.bldalpha == 0 && self.bldy == 0
        &&& forall|i: int| 0 <= i < 640 ==> self.bghofs_scanline@[i] == 0
        &&& forall|i: int| 0 <= i < 640 ==> self.bgvofs_scanline@[i] == 0
        &&& self.bghofs_scanline_valid@ == seq![false, false, false, false]
        &&& self.bgvofs_scanline_valid@ == seq![false, false, false, false]
    }

    /// No per-line raster is active.
    pub open spec fn is_reset_raster(&self) -> bool {
        &&& forall|i: int| 0 <= i < 640 ==> self.bghofs_scanline@[i] == 0
        &&& forall|i: int| 0 <= i < 640 ==> self.bgvofs_scanline@[i] == 0
        &&& self.bghofs_scanline_valid@ == seq![false, false, false, false]
        &&& self.bgvofs_scanline_valid@ == seq![false, false, false, false]
    }

    pub fn new() -> (r: Self)
        ensures
            r.is_reset(),
            r.wf(),
    {
        let r = Ppu {
            dispcnt: 0,
            dispstat: 0,
            vcount: 0,
            bgcnt: [0; 4],
            bghofs: [0; 4],
            bgvofs: [0; 4],
            bgpa: [0x0100; 2],
            bgpb: [0; 2],
            bgpc: [0; 2],
            bgpd: [0x0100; 2],
            bgx: [0; 2],
            bgy: [0; 2],
            winh: [0; 2],
            winv: [0; 2],
            winin: 0,
            winout: 0,
            mosaic: 0,
            bldcnt: 0,
            bldalpha: 0,
            bldy: 0,
            bghofs_scanline: [0; 640],
            bgvofs_scanline: [0; 640],
            bghofs_scanline_valid: [false; 4],
            bgvofs_scanline_valid: [false; 4],
        };
        assert(r.bgcnt@ =~= seq![0u16, 0, 0, 0]);
        assert(r.bghofs@ =~= seq![0u16, 0, 0, 0]);
        assert(r.bgvofs@ =~= seq![0u16, 0, 0, 0]);
        assert(r.bgpa@ =~= seq![0x0100u16, 0x0100]);
        assert(r.bgpb@ =~= seq![0u16, 0]);
        assert(r.bgpc@ =~= seq![0u16, 0]);
        assert(r.bgpd@ =~= seq![0x0100u16, 0x0100]);
        assert(r.bgx@ =~= seq![0u32, 0]);
        assert(r.bgy@ =~= seq![0u32, 0]);
        assert(r.winh@ =~= seq![0u16, 0]);
        assert(r.winv@ =~= seq![0u16, 0]);
        assert(r.bghofs_scanline_valid@ =~= seq![false, false, false, false]);
        assert(r.bgvofs_scanline_valid@ =~= seq![false, false, false, false]);
        r
    }

    pub fn dispcnt(&self) -> (r: u16)
        ensures
            r == self.dispcnt,
    {
        self.dispcnt
    }

    pub fn dispstat(&self) -> (r: u16)
        ensures
            r == spec_dispstat(self.dispstat, self.vcount),
    {
        let mut value = self.dispstat
            & (DISPSTAT_HBLANK | DISPSTAT_IRQ_WRITABLE_MASK | DISPSTAT_VCOUNT_SETTING_MASK);
        if self.vcount >= VISIBLE_SCANLINES {
            value = value | DISPSTAT_VBLANK;
        }
        if self.vcount == ((self.dispstat >> 8) & 0xff) {
            value = value | DISPSTAT_VCOUNT;
        }
        value
    }

    pub fn vcount(&self) -> (r: u16)
        ensures
            r == self.vcount,
    {
        self.vcount
    }

    pub fn set_vcount(&mut self, value: u16)
        ensures
            *final(self) == (Ppu { vcount: value % TOTAL_SCANLINES, ..*old(self) }),
            *final(self) == spec_dispstat_call(*old(self), DispstatCall::SetVcount(value)),
            final(self).wf(),
    {
        self.vcount = value % TOTAL_SCANLINES;
    }

    pub fn write_dispcnt(&mut self, value: u16)
        ensures
            *final(self) == (Ppu { dispcnt: value, ..*old(self) }),
    {
        self.dispcnt = value;
    }

    /// Stores the writable DISPSTAT bits (IRQ enables and VCOUNT setting);
    /// the HBlank flag is cleared.
    pub fn write_dispstat(&mut self, value: u16)
        ensures
            *final(self) == (Ppu {
                dispstat: value & (DISPSTAT_IRQ_WRITABLE_MASK | DISPSTAT_VCOUNT_SETTING_MASK),
                ..*old(self)
            }),
            *final(self) == spec_dispstat_call(*old(self), DispstatCall::WriteDispstat(value)),
    {
        self.dispstat = value & (DISPSTAT_IRQ_WRITABLE_MASK | DISPSTAT_VCOUNT_SETTING_MASK);
    }

    pub fn bgcnt(&self, bg: usize) -> (r: u16)
        requires
            bg < 4,
        ensures
            r == self.bgcnt@[bg as int],
    {
        self.bgcnt[bg]
    }

    pub fn bghofs(&self, bg: usize) -> (r: u16)
        requires
            bg < 4,
        ensures
            r == self.bghofs@[bg as int],
    {
        self.bghofs[bg]
    }

    pub fn bgvofs(&self, bg: usize) -> (r: u16)
        requires
            bg < 4,
        ensures
            r == self.bgvofs@[bg as int],
    {
        self.bgvofs[bg]
    }

    pub fn bgpa(&self, bg: usize) -> (r: u16)
        requires
            2 <= bg < 4,
        ensures
            r == self.bgpa@[bg - 2],
    {
        self.bgpa[bg - 2]
    }

    pub fn bgpb(&self, bg: usize) -> (r: u16)
        requires
            2 <= bg < 4,
        ensures
            r == self.bgpb@[bg - 2],
    {
        self.bgpb[bg - 2]
    }

    pub fn bgpc(&self, bg: usize) -> (r: u16)
        requires
            2 <= bg < 4,
        ensures
            r == self.bgpc@[bg - 2],
    {
        self.bgpc[bg - 2]
    }

    pub fn bgpd(&self, bg: usize) -> (r: u16)
        requires
            2 <= bg < 4,
        ensures
            r == self.bgpd@[bg - 2],
    {
        self.bgpd[bg - 2]
    }

    pub fn bgx(&self, bg: usize) -> (r: u32)
        requires
            2 <= bg < 4,
        ensures
            r == self.bgx@[bg - 2],
    {
        self.bgx[bg - 2]
    }

    pub fn bgy(&self, bg: usize) -> (r: u32)
        requires
            2 <= bg < 4,
        ensures
            r == self.bgy@[bg - 2],
    {
        self.bgy[bg - 2]
    }

    pub fn mosaic(&self) -> (r: u16)
        ensures
            r == self.mosaic,
    {
        self.mosaic
    }

    pub fn bldcnt(&self) -> (r: u16)
        ensures
            r == self.bldcnt,
    {
        self.bldcnt
    }

    pub fn bldalpha(&self) -> (r: u16)
        ensures
            r == self.bldalpha,
    {
        self.bldalpha
    }

    pub fn bldy(&self) -> (r: u16)
        ensures
            r == self.bldy,
    {
        self.bldy
    }

    pub fn winh(&self, window: usize) -> (r: u16)
        requires
            window < 2,
        ensures
            r == self.winh@[window as int],
    {
        self.winh[window]
    }

    pub fn winv(&self, window: usize) -> (r: u16)
        requires
            window < 2,
        ensures
            r == self.winv@[window as int],
    {
        self.winv[window]
    }

    pub fn winin(&self) -> (r: u16)
        ensures
            r == self.winin,
    {
        self.winin
    }

    pub fn winout(&self) -> (r: u16)
        ensures
            r == self.winout,
    {
        self.winout
    }

    pub fn write_bgcnt(&mut self, bg: usize, value: u16)
        requires
            bg < 4,
        ensures
            final(self).bgcnt@ == old(self).bgcnt@.update(bg as int, value),
            *final(self) == (Ppu { bgcnt: final(self).bgcnt, ..*old(self) }),
    {
        self.bgcnt[bg] = value;
    }

    pub fn write_bghofs(&mut self, bg: usize, value: u16)
        requires
            bg < 4,
        ensures
            final(self).bghofs@ == old(self).bghofs@.update(bg as int, value & 0x01ff),
            *final(self) == (Ppu { bghofs: final(self).bghofs, ..*old(self) }),
    {
        self.bghofs[bg] = value & 0x01ff;
    }

    pub fn write_bgvofs(&mut self, bg: usize, value: u16)
        requires
            bg < 4,
        ensures
            final(self).bgvofs@ == old(self).bgvofs@.update(bg as int, value & 0x01ff),
            *final(self) == (Ppu { bgvofs: final(self).bgvofs, ..*old(self) }),
    {
        self.bgvofs[bg] = value & 0x01ff;
    }

    /// Sets the horizontal offset that background `bg` uses on line `y`,
    /// and makes the per-line raster of `bg` take the place of its register.
    pub fn write_bghofs_scanline(&mut self, bg: usize, y: usize, value: u16)
        requires
            bg < 4,
            y < HEIGHT,
        ensures
            final(self).bghofs_scanline@ == old(self).bghofs_scanline@.update(bg * 160 + y, value),
            final(self).bghofs_scanline_valid@ == old(self).bghofs_scanline_valid@.update(bg as int, true),
            *final(self) == (Ppu {
                bghofs_scanline: final(self).bghofs_scanline,
                bghofs_scanline_valid: final(self).bghofs_scanline_valid,
                ..*old(self)
            }),
    {
        self.bghofs_scanline[bg * HEIGHT + y] = value;
        self.bghofs_scanline_valid[bg] = true;
    }

    /// Sets the vertical offset that background `bg` uses on line `y`,
    /// and makes the per-line raster of `bg` take the place of its register.
    pub fn write_bgvofs_scanline(&mut self, bg: usize, y: usize, value: u16)
        requires
            bg < 4,
            y < HEIGHT,
        ensures
            final(self).bgvofs_scanline@ == old(self).bgvofs_scanline@.update(bg * 160 + y, value),
            final(self).bgvofs_scanline_valid@ == old(self).bgvofs_scanline_valid@.update(bg as int, true),
            *final(self) == (Ppu {
                bgvofs_scanline: final(self).bgvofs_scanline,
                bgvofs_scanline_valid: final(self).bgvofs_scanline_valid,
                ..*old(self)
            }),
    {
        self.bgvofs_scanline[bg * HEIGHT + y] = value;
        self.bgvofs_scanline_valid[bg] = true;
    }

    pub fn write_bgpa(&mut self, bg: usize, value: u16)
        requires
            2 <= bg < 4,
        ensures
            final(self).bgpa@ == old(self).bgpa@.update(bg - 2, value),
            *final(self) == (Ppu { bgpa: final(self).bgpa, ..*old(self) }),
    {
        self.bgpa[bg - 2] = value;
    }

    pub fn write_bgpb(&mut self, bg: usize, value: u16)
        requires
            2 <= bg < 4,
        ensures
            final(self).bgpb@ == old(self).bgpb@.update(bg - 2, value),
            *final(self) == (Ppu { bgpb: final(self).bgpb, ..*old(self) }),
    {
        self.bgpb[bg - 2] = value;
    }

    pub fn write_bgpc(&mut self, bg: usize, value: u16)
        requires
            2 <= bg < 4,
        ensures
            final(self).bgpc@ == old(self).bgpc@.update(bg - 2, value),
            *final(self) == (Ppu { bgpc: final(self).bgpc, ..*old(self) }),
    {
        self.bgpc[bg - 2] = value;
    }

    pub fn write_bgpd(&mut self, bg: usize, value: u16)
        requires
            2 <= bg < 4,
        ensures
            final(self).bgpd@ == old(self).bgpd@.update(bg - 2, value),
            *final(self) == (Ppu { bgpd: final(self).bgpd, ..*old(self) }),
    {
        self.bgpd[bg - 2] = value;
    }

    pub fn write_bgx(&mut self, bg: usize, value: u32)
        requires
            2 <= bg < 4,
        ensures
            final(self).bgx@ == old(self).bgx@.update(bg - 2, value & 0x0fff_ffff),
            *final(self) == (Ppu { bgx: final(self).bgx, ..*old(self) }),
    {
        self.bgx[bg - 2] = value & 0x0fff_ffff;
    }

    pub fn write_bgy(&mut self, bg: usize, value: u32)
        requires
            2 <= bg < 4,
        ensures
            final(self).bgy@ == old(self).bgy@.update(bg - 2, value & 0x0fff_ffff),
            *final(self) == (Ppu { bgy: final(self).bgy, ..*old(self) }),
    {
        self.bgy[bg - 2] = value & 0x0fff_ffff;
    }

    /// Writes the low (`halfword == 0`) or high half of the BGnX reference
    /// point; the stored value keeps its 28-bit mask.
    pub fn write_bgx_halfword(&mut self, bg: usize, halfword: usize, value: u16)
        requires
            2 <= bg < 4,
        ensures
            final(self).bgx@ == old(self).bgx@.update(
                bg - 2,
                spec_merge_halfword(old(self).bgx@[bg - 2], halfword, value) & 0x0fff_ffff,
            ),
            *final(self) == (Ppu { bgx: final(self).bgx, ..*old(self) }),
    {
        let index = bg - 2;
        let current = self.bgx[index];
        let merged = if halfword == 0 {
            (current & 0xffff_0000) | (value as u32)
        } else {
            (current & 0x0000_ffff) | ((value as u32) << 16)
        };
        self.write_bgx(bg, merged);
    }

    /// Writes the low (`halfword == 0`) or high half of the BGnY reference
    /// point; the stored value keeps its 28-bit mask.
    pub fn write_bgy_halfword(&mut self, bg: usize, halfword: usize, value: u16)
        requires
            2 <= bg < 4,
        ensures
            final(self).bgy@ == old(self).bgy@.update(
                bg - 2,
                spec_merge_halfword(old(self).bgy@[bg - 2], halfword, value) & 0x0fff_ffff,
            ),
            *final(self) == (Ppu { bgy: final(self).bgy, ..*old(self) }),
    {
        let index = bg - 2;
        let current = self.bgy[index];
        let merged = if halfword == 0 {
            (current & 0xffff_0000) | (value as u32)
        } else {
            (current & 0x0000_ffff) | ((value as u32) << 16)
        };
        self.write_bgy(bg, merged);
    }

    pub fn write_winh(&mut self, window: usize, value: u16)
        requires
            window < 2,
        ensures
            final(self).winh@ == old(self).winh@.update(window as int, value),
            *final(self) == (Ppu { winh: final(self).winh, ..*old(self) }),
    {
        self.winh[window] = value;
    }

    pub fn write_winv(&mut self, window: usize, value: u16)
        requires
            window < 2,
        ensures
            final(self).winv@ == old(self).winv@.update(window as int, value),
            *final(self) == (Ppu { winv: final(self).winv, ..*old(self) }),
    {
        self.winv[window] = value;
    }

    pub fn write_winin(&mut self, value: u16)
        ensures
            *final(self) == (Ppu { winin: value & 0x3f3f, ..*old(self) }),
    {
        self.winin = value & 0x3f3f;
    }

    pub fn write_winout(&mut self, value: u16)
        ensures
            *final(self) == (Ppu { winout: value & 0x3f3f, ..*old(self) }),
    {
        self.winout = value & 0x3f3f;
    }

    pub fn write_mosaic(&mut self, value: u16)
        ensures
            *final(self) == (Ppu { mosaic: value, ..*old(self) }),
    {
        self.mosaic = value;
    }

    pub fn write_bldcnt(&mut self, value: u16)
        ensures
            *final(self) == (Ppu { bldcnt: value & 0x3fff, ..*old(self) }),
    {
        self.bldcnt = value & 0x3fff;
    }

    pub fn write_bldalpha(&mut self, value: u16)
        ensures
            *final(self) == (Ppu { bldalpha: value & 0x1f1f, ..*old(self) }),
    {
        self.bldalpha = value & 0x1f1f;
    }

    pub fn write_bldy(&mut self, value: u16)
        ensures
            *final(self) == (Ppu { bldy: value & 0x001f, ..*old(self) }),
    {
        self.bldy = value & 0x001f;
    }

    /// Moves VCOUNT to the next of the 228 lines.
    pub fn step_scanline(&mut self)
        requires
            old(self).wf(),
        ensures
            *final(self) == (Ppu { vcount: spec_next_vcount(old(self).vcount), ..*old(self) }),
            *final(self) == spec_dispstat_call(*old(self), DispstatCall::StepScanline),
            final(self).wf(),
    {
        self.vcount = self.vcount + 1;
        if self.vcount >= TOTAL_SCANLINES {
            self.vcount = 0;
        }
    }

    /// Sets or clears the HBlank flag of DISPSTAT.
    pub fn set_hblank(&mut self, active: bool)
        ensures
            *final(self) == (Ppu {
                dispstat: if active { old(self).dispstat | DISPSTAT_HBLANK } else { old(self).dispstat & !DISPSTAT_HBLANK },
                ..*old(self)
            }),
            *final(self) == spec_dispstat_call(*old(self), DispstatCall::SetHblank(active)),
    {
        if active {
            self.dispstat = self.dispstat | DISPSTAT_HBLANK;
        } else {
            self.dispstat = self.dispstat & !DISPSTAT_HBLANK;
        }
    }
}

/// A call on the PPU that changes what DISPSTAT reads as. Every other
/// method keeps the `dispstat` and `vcount` fields (their contracts say so).
pub enum DispstatCall {
    WriteDispstat(u16),
    SetHblank(bool),
    SetVcount(u16),
    StepScanline,
}

/// The PPU after one such call, as the method's contract states it.
pub open spec fn spec_dispstat_call(p: Ppu, c: DispstatCall) -> Ppu {
    match c {
        DispstatCall::WriteDispstat(v) => Ppu { dispstat: v & (DISPSTAT_IRQ_WRITABLE_MASK | DISPSTAT_VCOUNT_SETTING_MASK), ..p },
        DispstatCall::SetHblank(a) => Ppu {
            dispstat: if a { p.dispstat | DISPSTAT_HBLANK } else { p.dispstat & !DISPSTAT_HBLANK },
            ..p
        },
        DispstatCall::SetVcount(v) => Ppu { vcount: v % TOTAL_SCANLINES, ..p },
        DispstatCall::StepScanline => Ppu { vcount: spec_next_vcount(p.vcount), ..p },
    }
}

/// The PPU after the calls `cs`, in order.
pub open spec fn spec_dispstat_calls(p: Ppu, cs: Seq<DispstatCall>) -> Ppu
    decreases cs.len(),
{
    if cs.len() == 0 { p } else { spec_dispstat_call(spec_dispstat_calls(p, cs.drop_last()), cs.last()) }
}

/// The value of the most recent `write_dispstat` among `cs`, 0 if none.
pub open spec fn spec_last_dispstat_write(cs: Seq<DispstatCall>) -> u16
    decreases cs.len(),
{
    if cs.len() == 0 {
        0
    } else {
        match cs.last() {
            DispstatCall::WriteDispstat(v) => v,
            _ => spec_last_dispstat_write(cs.drop_last()),
        }
    }
}

/// Whether the most recent of the `write_dispstat` and `set_hblank` calls
/// among `cs` was `set_hblank(true)`.
pub open spec fn spec_hblank_last_set(cs: Seq<DispstatCall>) -> bool
    decreases cs.len(),
{
    if cs.len() == 0 {
        false
    } else {
        match cs.last() {
            DispstatCall::WriteDispstat(_) => false,
            DispstatCall::SetHblank(a) => a,
            _ => spec_hblank_last_set(cs.drop_last()),
        }
    }
}

/// The stored DISPSTAT bits after the calls: the writable bits of the last
/// write, and the HBlank bit.
proof fn lemma_dispstat_stored(p0: Ppu, cs: Seq<DispstatCall>)
    requires
        p0.dispstat == 0,
    ensures
        spec_dispstat_calls(p0, cs).dispstat == (spec_last_dispstat_write(cs) & 0xff38u16)
            | (if spec_hblank_last_set(cs) { 0x0002u16 } else { 0u16 }),
    decreases cs.len(),
{
    if cs.len() == 0 {
        assert((0u16 & 0xff38u16) | 0u16 == 0u16) by (bit_vector);
    } else {
        let rest = cs.drop_last();
        lemma_dispstat_stored(p0, rest);
        let d = spec_dispstat_calls(p0, rest).dispstat;
        let v = spec_last_dispstat_write(rest);
        let h = spec_hblank_last_set(rest);
        match cs.last() {
            DispstatCall::WriteDispstat(w) => {
                assert(w & (0x0038u16 | 0xff00u16) == (w & 0xff38u16) | 0u16) by (bit_vector);
            },
            DispstatCall::SetHblank(a) => {
                let hb: u16 = if h { 0x0002u16 } else { 0u16 };
                assert(d == (v & 0xff38u16) | hb);
                assert(hb == 0 || hb == 2);
                if a {
                    assert(((v & 0xff38u16) | hb) | 0x0002u16 == (v & 0xff38u16) | 0x0002u16) by (bit_vector)
                        requires hb == 0 || hb == 2;
                } else {
                    assert(((v & 0xff38u16) | hb) & !0x0002u16 == (v & 0xff38u16) | 0u16) by (bit_vector)
                        requires hb == 0 || hb == 2;
                }
            },
            _ => {},
        }
    }
}

/// How DISPSTAT reads over the PPU's history: starting from reset, after
/// any sequence of calls, with `V` the value of the latest `write_dispstat`
/// (0 if none), a read of DISPSTAT has the VBlank flag exactly on lines
/// 160 and up, the VCOUNT-match flag exactly when VCOUNT equals the high
/// byte of `V`, the writable bits (IRQ enables and VCOUNT setting) of `V`,
/// bits 6-7 clear, and the HBlank flag exactly when the latest of the
/// `write_dispstat` and `set_hblank` calls was `set_hblank(true)`.
pub proof fn lemma_dispstat_history(p0: Ppu, cs: Seq<DispstatCall>)
    requires
        p0.is_reset(),
    ensures
        ({
            let p = spec_dispstat_calls(p0, cs);
            let r = spec_dispstat(p.dispstat, p.vcount);
            let v = spec_last_dispstat_write(cs);
            &&& (r & 0x0001 != 0) == (p.vcount >= 160)
            &&& (r & 0x0004 != 0) == (p.vcount == v >> 8u16)
            &&& r & 0xff38 == v & 0xff38
            &&& r & 0x00c0 == 0
            &&& (r & 0x0002 != 0) == spec_hblank_last_set(cs)
        }),
{
    lemma_dispstat_stored(p0, cs);
    let p = spec_dispstat_calls(p0, cs);
    let v = spec_last_dispstat_write(cs);
    let hb: u16 = if spec_hblank_last_set(cs) { 0x0002u16 } else { 0u16 };
    lemma_dispstat_read(v, hb, p.vcount);
}

/// A read of DISPSTAT whose stored bits are `v`'s writable bits and the
/// HBlank bit `hb`.
proof fn lemma_dispstat_read(v: u16, hb: u16, vcount: u16)
    requires
        hb == 0 || hb == 2,
    ensures
        ({
            let r = spec_dispstat((v & 0xff38u16) | hb, vcount);
            &&& (r & 0x0001 != 0) == (vcount >= 160)
            &&& (r & 0x0004 != 0) == (vcount == v >> 8u16)
            &&& r & 0xff38 == v & 0xff38
            &&& r & 0x00c0 == 0
            &&& (r & 0x0002 != 0) == (hb == 2)
        }),
{
    let d = (v & 0xff38u16) | hb;
    let stored = d & (0x0002u16 | 0x0038u16 | 0xff00u16);
    let w = if vcount >= 160 { stored | 0x0001u16 } else { stored };
    let r = if vcount == ((d >> 8u16) & 0xffu16) { w | 0x0004u16 } else { w };
    assert(r == spec_dispstat(d, vcount));
    assert((d >> 8u16) & 0xffu16 == v >> 8u16) by (bit_vector)
        requires d == (v & 0xff38u16) | hb, hb == 0 || hb == 2;
    assert({
        &&& (r & 0x0001 != 0) == (vcount >= 160)
        &&& (r & 0x0004 != 0) == (vcount == (d >> 8u16) & 0xffu16)
        &&& r & 0xff38 == v & 0xff38
        &&& r & 0x00c0 == 0
        &&& (r & 0x0002 != 0) == (hb == 2)
    }) by (bit_vector)
        requires
            d == (v & 0xff38u16) | hb,
            hb == 0 || hb == 2,
            stored == d & (0x0002u16 | 0x0038u16 | 0xff00u16),
            w == if vcount >= 160 { stored | 0x0001u16 } else { stored },
            r == if vcount == ((d >> 8u16) & 0xffu16) { w | 0x0004u16 } else { w };
}

impl Default for Ppu {
    fn default() -> (r: Self)
        ensures
            r.is_reset(),
            r.wf(),
    {
        Self::new()
    }
}

} // verus!
