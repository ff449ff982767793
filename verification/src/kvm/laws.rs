//! Properties of the shared I/O state that hold across its operations.
use vstd::prelude::*;

use crate::gba::bits::{le16, lo8, hi8};
use crate::gba::bits::put16;
use crate::gba::memory_map::{DISPSTAT, EWRAM_SIZE, EWRAM_START, IE, IF, IME, IO_START, SOUNDCNT_H, VCOUNT, VRAM_SIZE, VRAM_START};
use crate::gba::ppu::{DISPSTAT_HBLANK, DISPSTAT_VBLANK};
use crate::kvm::shared_memory::{
    fast32, io16, io_access_ok, set_io16, spec_copy_bytes, spec_dispstat_write, spec_enter_hblank,
    spec_fifo_bytes, spec_fifo_push, spec_interrupt_asserted, spec_io_register_write,
    spec_mirror_io_write, spec_poll_hblank_complete, spec_publish_completed_frame,
    spec_push_fifo_byte, spec_run_dma, spec_dma_units, spec_set_vcount, spec_shared_wf, IoRegisterWrite, SharedState,
    AUDIO_FIFO_CAPACITY, DISPSTAT_STATUS_MASK, FAST_CTRL_HBLANK, FAST_HBLANK_KIND_OFFSET,
    IRQ_HBLANK, SOUND_A_RESET, SOUND_B_RESET,
};

verus! {

/// Byte `b` of the I/O page belongs to the halfword register at `reg`.
pub open spec fn in_register(b: int, reg: u32) -> bool {
    reg - IO_START <= b < reg - IO_START + 2
}

proof fn lemma_fifo_bytes_io(s: SharedState, addr: u32, data: Seq<u8>, n: nat)
    ensures
        spec_fifo_bytes(s, addr, data, n) == (SharedState {
            fifo_a: spec_fifo_bytes(s, addr, data, n).fifo_a,
            fifo_b: spec_fifo_bytes(s, addr, data, n).fifo_b,
            ..s
        }),
    decreases n,
{
    if n > 0 {
        lemma_fifo_bytes_io(s, addr, data, (n - 1) as nat);
    }
}

/// The sound side of a write and the interrupt line leave the I/O page as
/// the register updates left it.
proof fn lemma_mirror_io(s: SharedState, addr: u32, len: u32, data: Seq<u8>)
    ensures
        ({
            let old_if = io16(s.io, IF);
            let old_dispstat = io16(s.io, DISPSTAT);
            let io1 = spec_copy_bytes(s.io, addr - IO_START, data, len as int);
            let io2 = match spec_io_register_write(IF, addr, len, data) {
                Some(w) => set_io16(io1, IF, old_if & !w.value),
                None => io1,
            };
            let io3 = match spec_io_register_write(DISPSTAT, addr, len, data) {
                Some(w) => set_io16(io2, DISPSTAT, spec_dispstat_write(old_dispstat, w)),
                None => io2,
            };
            spec_mirror_io_write(s, addr, len, data).io == io3
        }),
{
    let old_if = io16(s.io, IF);
    let old_dispstat = io16(s.io, DISPSTAT);
    let io1 = spec_copy_bytes(s.io, addr - IO_START, data, len as int);
    let io2 = match spec_io_register_write(IF, addr, len, data) {
        Some(w) => set_io16(io1, IF, old_if & !w.value),
        None => io1,
    };
    let io3 = match spec_io_register_write(DISPSTAT, addr, len, data) {
        Some(w) => set_io16(io2, DISPSTAT, spec_dispstat_write(old_dispstat, w)),
        None => io2,
    };
    let s1 = SharedState { io: io3, ..s };
    let s2 = match spec_io_register_write(SOUNDCNT_H, addr, len, data) {
        Some(w) => {
            let a = if w.value & SOUND_A_RESET != 0 { Seq::empty() } else { s1.fifo_a };
            let b = if w.value & SOUND_B_RESET != 0 { Seq::empty() } else { s1.fifo_b };
            SharedState { fifo_a: a, fifo_b: b, ..s1 }
        },
        None => s1,
    };
    lemma_fifo_bytes_io(s2, addr, data, len as nat);
}

proof fn lemma_status_bits(old_dispstat: u16, mask: u16, value: u16)
    by (bit_vector)
    ensures
        ((old_dispstat & 0x0007u16) | (old_dispstat & !mask) | (value & 0xff38u16)) & 0x0007u16 == old_dispstat & 0x0007u16,
{
}

/// A guest write lands in the I/O page byte for byte, except in IF and
/// DISPSTAT: a guest read of any other register gives back what the guest
/// last wrote there.
pub proof fn lemma_io_write_reads_back(s: SharedState, addr: u32, len: u32, data: Seq<u8>, i: int)
    requires
        spec_shared_wf(s),
        io_access_ok(addr, len),
        0 <= i < len,
        !in_register(addr - IO_START + i, IF),
        !in_register(addr - IO_START + i, DISPSTAT),
    ensures
        spec_mirror_io_write(s, addr, len, data).io[addr - IO_START + i] == data[i],
{
    lemma_mirror_io(s, addr, len, data);
}

/// IF bits are acknowledged by writing ones: after a guest write that
/// touches IF, IF holds its old bits less those written as one; otherwise
/// IF is unchanged.
pub proof fn lemma_if_write_acknowledges(s: SharedState, addr: u32, len: u32, data: Seq<u8>)
    requires
        spec_shared_wf(s),
        io_access_ok(addr, len),
    ensures
        io16(spec_mirror_io_write(s, addr, len, data).io, IF) == match spec_io_register_write(IF, addr, len, data) {
            Some(w) => io16(s.io, IF) & !w.value,
            None => io16(s.io, IF),
        },
{
    lemma_mirror_io(s, addr, len, data);
}

/// Guest writes never change DISPSTAT's status bits (VBlank, HBlank,
/// VCOUNT match).
pub proof fn lemma_dispstat_status_kept(s: SharedState, addr: u32, len: u32, data: Seq<u8>)
    requires
        spec_shared_wf(s),
        io_access_ok(addr, len),
    ensures
        io16(spec_mirror_io_write(s, addr, len, data).io, DISPSTAT) & DISPSTAT_STATUS_MASK
            == io16(s.io, DISPSTAT) & DISPSTAT_STATUS_MASK,
{
    lemma_mirror_io(s, addr, len, data);
    match spec_io_register_write(DISPSTAT, addr, len, data) {
        Some(w) => {
            lemma_status_bits(io16(s.io, DISPSTAT), w.mask, w.value);
        },
        None => {},
    }
}

/// After a guest write the CPU interrupt line is raised exactly when IME is
/// on and an interrupt enabled in IE is requested in IF.
pub proof fn lemma_io_write_interrupt_line(s: SharedState, addr: u32, len: u32, data: Seq<u8>)
    ensures
        ({
            let t = spec_mirror_io_write(s, addr, len, data);
            t.irq_asserted == spec_interrupt_asserted(io16(t.io, IE), io16(t.io, IF), io16(t.io, IME))
        }),
{
    lemma_mirror_io(s, addr, len, data);
}

proof fn lemma_vcount_bits(d: u16)
    by (bit_vector)
    ensures
        ((d & !(DISPSTAT_VBLANK | DISPSTAT_HBLANK)) | DISPSTAT_VBLANK) & DISPSTAT_VBLANK != 0,
        ((d & !(DISPSTAT_VBLANK | DISPSTAT_HBLANK)) | DISPSTAT_VBLANK) & DISPSTAT_HBLANK == 0,
        (d & !(DISPSTAT_VBLANK | DISPSTAT_HBLANK)) & DISPSTAT_VBLANK == 0,
        (d & !(DISPSTAT_VBLANK | DISPSTAT_HBLANK)) & DISPSTAT_HBLANK == 0,
        ((d & !(DISPSTAT_VBLANK | DISPSTAT_HBLANK)) | DISPSTAT_VBLANK) & !3u16 == d & !3u16,
        (d & !(DISPSTAT_VBLANK | DISPSTAT_HBLANK)) & !3u16 == d & !3u16,
{
}

/// Moving VCOUNT to line `value` stores it in VCOUNT, sets DISPSTAT's
/// VBlank flag exactly on lines 160 and up, clears the HBlank flag, and
/// keeps DISPSTAT's other bits.
pub proof fn lemma_set_vcount_flags(s: SharedState, value: u16)
    requires
        spec_shared_wf(s),
    ensures
        ({
            let t = spec_set_vcount(s, value);
            let d = io16(t.io, DISPSTAT);
            &&& io16(t.io, VCOUNT) == value
            &&& (d & DISPSTAT_VBLANK != 0) == (value >= 160)
            &&& d & DISPSTAT_HBLANK == 0
            &&& d & !3u16 == io16(s.io, DISPSTAT) & !3u16
        }),
{
    lemma_vcount_bits(io16(s.io, DISPSTAT));
}

proof fn lemma_or_bit(x: u16, b: u16)
    by (bit_vector)
    ensures
        (x | b) & b == b,
{
}

/// A new HBlank request is numbered one past the previous one, latched,
/// raised in IF and announced to the guest in the control block; when none
/// is made the numbering does not move. Either way the HBlank flag is set.
pub proof fn lemma_enter_hblank_numbering(s: SharedState)
    requires
        spec_shared_wf(s),
        s.hblank_requested_seq < u64::MAX,
    ensures
        ({
            let (t, r) = spec_enter_hblank(s);
            &&& io16(t.io, DISPSTAT) & DISPSTAT_HBLANK != 0
            &&& match r {
                Some(seq) => {
                    &&& seq == s.hblank_requested_seq + 1
                    &&& t.hblank_requested_seq == seq && t.hblank_latch_seq == seq
                    &&& io16(t.io, IF) & IRQ_HBLANK != 0
                    &&& fast32(t.fast, FAST_HBLANK_KIND_OFFSET as int) == FAST_CTRL_HBLANK
                    &&& t.irq_asserted
                },
                None => t.hblank_requested_seq == s.hblank_requested_seq,
            }
        }),
{
    lemma_or_bit(io16(s.io, DISPSTAT), DISPSTAT_HBLANK);
    lemma_or_bit(io16(s.io, IF), IRQ_HBLANK);
}

/// A check that reports request `seq` complete leaves it recorded as
/// complete.
pub proof fn lemma_poll_completes(s: SharedState, seq: u64)
    ensures
        spec_poll_hblank_complete(s, seq).1 ==> spec_poll_hblank_complete(s, seq).0.hblank_completed_seq >= seq,
        !spec_poll_hblank_complete(s, seq).1 ==> spec_poll_hblank_complete(s, seq).0 == s,
{
}

/// Publishing swaps the drawing and completed buffers: publishing twice
/// gives both back, two frame numbers later, and the published number is
/// always the current one.
pub proof fn lemma_publish_twice(s: SharedState)
    ensures
        ({
            let t = spec_publish_completed_frame(spec_publish_completed_frame(s));
            &&& t.work == s.work && t.completed == s.completed
            &&& t.frame_seq == s.frame_seq.wrapping_add(1).wrapping_add(1)
            &&& t.completed_frame_seq == t.frame_seq
        }),
{
}

proof fn lemma_fifo_bytes_bounded(s: SharedState, addr: u32, data: Seq<u8>, n: nat)
    requires
        s.fifo_a.len() <= AUDIO_FIFO_CAPACITY,
        s.fifo_b.len() <= AUDIO_FIFO_CAPACITY,
    ensures
        spec_fifo_bytes(s, addr, data, n).fifo_a.len() <= AUDIO_FIFO_CAPACITY,
        spec_fifo_bytes(s, addr, data, n).fifo_b.len() <= AUDIO_FIFO_CAPACITY,
    decreases n,
{
    if n > 0 {
        lemma_fifo_bytes_bounded(s, addr, data, (n - 1) as nat);
    }
}

/// The sound FIFOs never hold more than 32 samples: a push onto a full
/// FIFO drops the oldest, and guest writes keep the bound.
pub proof fn lemma_fifo_bounded(s: SharedState, addr: u32, len: u32, data: Seq<u8>, q: Seq<i8>, sample: i8)
    requires
        s.fifo_a.len() <= AUDIO_FIFO_CAPACITY,
        s.fifo_b.len() <= AUDIO_FIFO_CAPACITY,
        q.len() <= AUDIO_FIFO_CAPACITY,
    ensures
        spec_fifo_push(q, sample).len() <= AUDIO_FIFO_CAPACITY,
        spec_fifo_push(q, sample).last() == sample,
        spec_mirror_io_write(s, addr, len, data).fifo_a.len() <= AUDIO_FIFO_CAPACITY,
        spec_mirror_io_write(s, addr, len, data).fifo_b.len() <= AUDIO_FIFO_CAPACITY,
{
    let s1 = SharedState { io: spec_mirror_io_write(s, addr, len, data).io, ..s };
    let s2 = match spec_io_register_write(SOUNDCNT_H, addr, len, data) {
        Some(w) => {
            let a = if w.value & SOUND_A_RESET != 0 { Seq::empty() } else { s1.fifo_a };
            let b = if w.value & SOUND_B_RESET != 0 { Seq::empty() } else { s1.fifo_b };
            SharedState { fifo_a: a, fifo_b: b, ..s1 }
        },
        None => s1,
    };
    lemma_mirror_io(s, addr, len, data);
    lemma_fifo_bytes_bounded(s2, addr, data, len as nat);
}

proof fn lemma_byte_masks(b0: u16, b1: u16)
    by (bit_vector)
    requires
        b0 < 256,
        b1 < 256,
    ensures
        b0 & !0x00ffu16 == 0,
        ((b1 * 256) as u16) & !0xff00u16 == 0,
        ((b0 + b1 * 256) as u16) & !0xffffu16 == 0,
{
}

/// A register write only carries bytes it wrote: `value` has no bit
/// outside `mask`, which covers the low byte, the high byte, or both.
pub proof fn lemma_register_write_in_mask(register: u32, addr: u32, len: u32, data: Seq<u8>)
    ensures
        match spec_io_register_write(register, addr, len, data) {
            Some(w) => w.value & !w.mask == 0 && (w.mask == 0x00ff || w.mask == 0xff00 || w.mask == 0xffff),
            None => true,
        },
{
    let b0 = if addr <= register < addr + len { data[register - addr] as u16 } else { 0u16 };
    let b1 = if addr <= register + 1 < addr + len { data[register + 1 - addr] as u16 } else { 0u16 };
    lemma_byte_masks(b0, b1);
}

/// `addr` and the byte after it lie in EWRAM.
pub open spec fn ewram_halfword(addr: int) -> bool {
    EWRAM_START <= addr && addr + 1 < EWRAM_START + EWRAM_SIZE
}

/// Lowest and one-past-highest VRAM byte offsets that `n` halfword units
/// written from offset `d`, moving by `step` after each, touch.
pub open spec fn written_range(d: int, n: nat, step: int) -> (int, int) {
    if step >= 0 { (d, d + (n - 1) * step + 2) } else { (d + (n - 1) * step, d + 2) }
}

/// `n` halfword units from EWRAM at `source` (moving by `step` after each
/// unit) into VRAM at `destination` (moving by `dstep`): unit `k` copies
/// the EWRAM halfword at `source + k * step` to VRAM at
/// `destination + k * dstep`, later units overwriting earlier ones; only
/// VRAM changes, and only where the units wrote.
proof fn lemma_units_ewram_to_vram(s: SharedState, source: u32, destination: u32, n: nat, step: int, dstep: int)
    requires
        step == 2 || step == 0 || step == -2,
        dstep == 2 || dstep == 0 || dstep == -2,
        s.vram.len() == VRAM_SIZE,
        n > 0 ==> ewram_halfword(source as int) && ewram_halfword(source + (n - 1) * step),
        n > 0 ==> vram_halfword(destination as int) && vram_halfword(destination + (n - 1) * dstep),
    ensures
        ({
            let r = spec_dma_units(s, source, destination, n, false, step, dstep);
            let d = destination - VRAM_START;
            let e = source - EWRAM_START;
            let (lo, hi) = written_range(d, n, dstep);
            &&& r == (SharedState { vram: r.vram, ..s })
            &&& r.vram.len() == s.vram.len()
            &&& dstep != 0 ==> forall|k: int| 0 <= k < n ==> #[trigger] le16(r.vram, d + k * dstep) == le16(s.ewram, e + k * step)
            &&& dstep == 0 && n > 0 ==> le16(r.vram, d) == le16(s.ewram, e + (n - 1) * step)
            &&& forall|j: int| 0 <= j < s.vram.len() && (n == 0 || !(lo <= j < hi)) ==> #[trigger] r.vram[j] == s.vram[j]
        }),
    decreases n,
{
    if n > 0 {
        let d = destination - VRAM_START;
        let e = source - EWRAM_START;
        let v = le16(s.ewram, e);
        let s1 = SharedState { vram: put16(s.vram, d, v), ..s };
        assert(crate::kvm::shared_memory::spec_dma_unit(s, source, destination, false) == s1);
        let source2 = (source + step) as u32;
        let destination2 = (destination + dstep) as u32;
        if n > 1 {
            assert(source2 + (n - 2) * step == source + (n - 1) * step) by (nonlinear_arith)
                requires source2 == source + step;
            assert(destination2 + (n - 2) * dstep == destination + (n - 1) * dstep) by (nonlinear_arith)
                requires destination2 == destination + dstep;
            assert(ewram_halfword(source2 as int)) by {
                lemma_between(source as int, step, n as int);
            }
            assert(vram_halfword(destination2 as int)) by {
                lemma_between(destination as int, dstep, n as int);
            }
        } else {
            assert(0 <= source + step < 0x1_0000_0000);
            assert(0 <= destination + dstep < 0x1_0000_0000);
        }
        assert(crate::kvm::shared_memory::spec_wrap_add(source, step) == source2);
        assert(crate::kvm::shared_memory::spec_wrap_add(destination, dstep) == destination2);
        lemma_units_ewram_to_vram(s1, source2, destination2, (n - 1) as nat, step, dstep);
        let r = spec_dma_units(s, source, destination, n, false, step, dstep);
        assert(r == spec_dma_units(s1, source2, destination2, (n - 1) as nat, false, step, dstep));
        let d2 = destination2 - VRAM_START;
        let (lo, hi) = written_range(d, n, dstep);
        let (lo2, hi2) = written_range(d2, (n - 1) as nat, dstep);
        assert(n > 1 ==> lo <= lo2 && hi2 <= hi) by (nonlinear_arith)
            requires
                d2 == d + dstep,
                dstep == 2 || dstep == 0 || dstep == -2,
                (lo, hi) == written_range(d, n, dstep),
                (lo2, hi2) == written_range(d2, (n - 1) as nat, dstep);
        assert(n > 0 ==> lo <= d && d + 2 <= hi) by (nonlinear_arith)
            requires
                dstep == 2 || dstep == 0 || dstep == -2,
                (lo, hi) == written_range(d, n, dstep);
        assert(le16(s1.vram, d) == v) by {
            crate::gba::bits::lemma_le16_put16(s.vram, d, v);
        }
        if dstep != 0 {
            assert(n > 1 ==> (d + 2 <= lo2 || hi2 <= d)) by (nonlinear_arith)
                requires
                    d2 == d + dstep,
                    dstep == 2 || dstep == -2,
                    (lo2, hi2) == written_range(d2, (n - 1) as nat, dstep);
            assert forall|k: int| 0 <= k < n implies #[trigger] le16(r.vram, d + k * dstep) == le16(s.ewram, e + k * step) by {
                if k == 0 {
                    assert(r.vram[d] == s1.vram[d]);
                    assert(r.vram[d + 1] == s1.vram[d + 1]);
                } else {
                    assert(source2 - EWRAM_START + (k - 1) * step == e + k * step) by (nonlinear_arith)
                        requires source2 == source + step, e == source - EWRAM_START;
                    assert(d2 + (k - 1) * dstep == d + k * dstep) by (nonlinear_arith)
                        requires d2 == d + dstep;
                    assert(le16(r.vram, d2 + (k - 1) * dstep) == le16(s1.ewram, source2 - EWRAM_START + (k - 1) * step));
                }
            }
        } else {
            if n > 1 {
                assert(source2 - EWRAM_START + ((n - 1) - 1) * step == e + (n - 1) * step) by (nonlinear_arith)
                    requires source2 == source + step, e == source - EWRAM_START;
            } else {
                assert(r.vram[d] == s1.vram[d]);
                assert(r.vram[d + 1] == s1.vram[d + 1]);
            }
        }
    }
}

/// `addr` and the byte after it lie in VRAM.
pub open spec fn vram_halfword(addr: int) -> bool {
    VRAM_START <= addr && addr + 1 < VRAM_START + VRAM_SIZE
}

/// Between the two ends of an evenly stepped run of addresses inside an
/// interval, every address is inside it too (for the first step).
proof fn lemma_between(a: int, step: int, n: int)
    requires
        n > 1,
        step == 2 || step == 0 || step == -2,
    ensures
        (a <= a + step <= a + (n - 1) * step) || (a + (n - 1) * step <= a + step <= a),
{
    assert((a <= a + step <= a + (n - 1) * step) || (a + (n - 1) * step <= a + step <= a)) by (nonlinear_arith)
        requires n > 1, step == 2 || step == 0 || step == -2;
}

/// A 16-bit DMA from EWRAM into VRAM steps its source address by
/// DMAxCNT_H bits 7-8 and its destination by bits 5-6 (each: 0 increments
/// by 2, 1 decrements by 2, 2 keeps it fixed, 3 increments). Unit `k`
/// copies the EWRAM halfword at `source + k * step` to VRAM at
/// `destination + k * dstep`; with a fixed destination the last unit's
/// halfword stays there. Nothing but the VRAM halfwords written changes.
/// So with a fixed source and an incrementing destination every
/// destination halfword receives the value at the initial source.
pub proof fn lemma_dma_ewram_to_vram(s: SharedState, channel: int, source: u32, destination: u32, count: u16, control: u16)
    requires
        s.vram.len() == VRAM_SIZE,
        control & 0x0400 == 0,
        count > 0,
        ({
            let smode = (control >> 7u16) & 0x3;
            let dmode = (control >> 5u16) & 0x3;
            let step: int = if smode == 1 { -2 } else if smode == 2 { 0 } else { 2 };
            let dstep: int = if dmode == 1 { -2 } else if dmode == 2 { 0 } else { 2 };
            &&& ewram_halfword(source as int) && ewram_halfword(source + (count - 1) * step)
            &&& vram_halfword(destination as int) && vram_halfword(destination + (count - 1) * dstep)
        }),
    ensures
        ({
            let smode = (control >> 7u16) & 0x3;
            let dmode = (control >> 5u16) & 0x3;
            let step: int = if smode == 1 { -2 } else if smode == 2 { 0 } else { 2 };
            let dstep: int = if dmode == 1 { -2 } else if dmode == 2 { 0 } else { 2 };
            let r = spec_run_dma(s, channel, source, destination, count, control);
            let d = destination - VRAM_START;
            let e = source - EWRAM_START;
            let (lo, hi) = written_range(d, count as nat, dstep);
            &&& r == (SharedState { vram: r.vram, ..s })
            &&& dstep != 0 ==> forall|k: int| 0 <= k < count ==> #[trigger] le16(r.vram, d + k * dstep) == le16(s.ewram, e + k * step)
            &&& dstep == 0 ==> le16(r.vram, d) == le16(s.ewram, e + (count - 1) * step)
            &&& forall|j: int| 0 <= j < s.vram.len() && !(lo <= j < hi) ==> #[trigger] r.vram[j] == s.vram[j]
        }),
{
    let smode = (control >> 7u16) & 0x3;
    let dmode = (control >> 5u16) & 0x3;
    let step: int = if smode == 1 { -2 } else if smode == 2 { 0 } else { 2 };
    let dstep: int = if dmode == 1 { -2 } else if dmode == 2 { 0 } else { 2 };
    assert(control & crate::kvm::shared_memory::DMA_32BIT == 0);
    lemma_units_ewram_to_vram(s, source, destination, count as nat, step, dstep);
}

} // verus!
