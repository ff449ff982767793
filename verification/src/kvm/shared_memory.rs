//! The decisions of the I/O mirror shared between the vCPU and the host
//! threads: which bytes of a register an MMIO write touches, DMA channel
//! and step decoding, the raster line an HBlank completion updates,
//! interrupt-line state, and the PCM sample queue.
use std::collections::VecDeque;
use vstd::prelude::*;

use crate::gba::bits::{le16, le32, put16, put32, read_u16, read_u32, write_u16, write_u32};
use crate::gba::memory_map::{
    BG0HOFS, BG0VOFS, DISPSTAT, DMA0CNT, EWRAM_SIZE, IE, IF, IME, IO_START, IWRAM_SIZE, KEYINPUT,
    OAM_SIZE, PALETTE_SIZE, VCOUNT, VRAM_SIZE, BG2PA, BG2PD, FIFO_A, FIFO_B, SOUNDCNT_H, DISPCNT,
    DMA0SAD, EWRAM_START, GAME_PAK_ROM_START, IWRAM_START, OAM_START, PALETTE_START, VRAM_START,
};
use crate::gba::memory_map::{
    BG0CNT, BG1CNT, BG1HOFS, BG2CNT, BG2PB, BG2PC, BG2X, BG2Y, BG3CNT, BLDALPHA, BLDCNT, BLDY, MOSAIC,
    WIN0H, WIN0V, WIN1H, WIN1V, WININ, WINOUT,
};
use crate::gba::ppu::renderer::{spec_argb, spec_frame_raw, spec_scanline_pixel, lemma_frame_reads_ok, FRAME_PIXELS};
use crate::gba::ppu::{
    bgr555_to_argb8888, FrameBuffer, Ppu, DISPCNT_MODE_MASK, DISPSTAT_HBLANK, DISPSTAT_VBLANK,
    HEIGHT, MODE_0, OBJ_ENABLE, OBJ_WIN_ENABLE, WIDTH, WIN0_ENABLE, WIN1_ENABLE,
};
use crate::kvm::sys::{
    KvmMmio, KVM_EXIT_EXCEPTION, KVM_EXIT_FAIL_ENTRY, KVM_EXIT_INTERNAL_ERROR, KVM_EXIT_MMIO, KVM_EXIT_SHUTDOWN,
};
use crate::text::{push_decimal, spec_decimal};
use crate::kvm::timers::{spec_advance_all, spec_timers_wf, spec_write_timer_register, Timer, Timers};

verus! {

pub const FAST_MEM_START: u32 = 0x0f00_0000;
pub const FAST_MEM_SIZE: usize = 0x0001_0000;
/// Guest-visible size of the I/O slot (one page).
pub const IO_SLOT_SIZE: usize = 0x1000;
/// Offset in the fast window of the shadow copy of the I/O page.
pub const SHADOW_IO_OFFSET: usize = 0x9000;
/// Offset in the fast window of the HBlank control block.
pub const FAST_CTRL_OFFSET: usize = 0xa000;
pub const AUDIO_PCM_CAPACITY: usize = 16_384;
pub const AUDIO_FIFO_CAPACITY: usize = 32;
pub const AUDIO_FIFO_DMA_THRESHOLD: usize = 16;

pub const DISPSTAT_STATUS_MASK: u16 = 0x0007;
pub const DISPSTAT_WRITABLE_MASK: u16 = 0xff38;
pub const DISPSTAT_VBLANK_IRQ_ENABLE: u16 = 0x0008;
pub const DISPSTAT_HBLANK_IRQ_ENABLE: u16 = 0x0010;
pub const IRQ_VBLANK: u16 = 0x0001;
pub const IRQ_HBLANK: u16 = 0x0002;

/// Number of entries of a per-line offset raster: four backgrounds of 160
/// visible lines, background `bg` line `y` at `bg * 160 + y`.
pub const RASTER_LEN: usize = 640;

/// The part of a 16-bit register that an MMIO access wrote: `mask` has
/// 0xff for each byte written, `value` holds those bytes in place.
#[derive(Clone, Copy, Debug, PartialEq, Eq, Structural)]
pub struct IoRegisterWrite {
    pub mask: u16,
    pub value: u16,
}

/// The access `[addr, addr + len)` includes byte `k` of the register at `register`.
pub open spec fn spec_covers(register: u32, addr: u32, len: u32, k: int) -> bool {
    addr <= register + k < addr + len
}

/// The bytes of the 16-bit register at `register` that an access of `len`
/// bytes of `data` at `addr` writes, or `None` when it writes neither.
pub open spec fn spec_io_register_write(register: u32, addr: u32, len: u32, data: Seq<u8>) -> Option<IoRegisterWrite> {
    let c0 = spec_covers(register, addr, len, 0);
    let c1 = spec_covers(register, addr, len, 1);
    let mask = (if c0 { 0xffint } else { 0 }) + (if c1 { 0xff00int } else { 0 });
    let value = (if c0 { data[register - addr] as int } else { 0 })
        + (if c1 { data[register + 1 - addr] as int * 256 } else { 0 });
    if mask == 0 { None } else { Some(IoRegisterWrite { mask: mask as u16, value: value as u16 }) }
}

/// The bytes a guest access writes to the 16-bit register at `register`
/// (see `spec_io_register_write`).
pub fn io_register_write(register: u32, addr: u32, len: u32, data: &[u8; 8]) -> (r: Option<IoRegisterWrite>)
    requires
        len == 0 || addr + (len - 1) <= u32::MAX,
        len == 0 || register + 2 <= u32::MAX,
        spec_covers(register, addr, len, 0) ==> register - addr < 8,
        spec_covers(register, addr, len, 1) ==> register + 1 - addr < 8,
    ensures
        r == spec_io_register_write(register, addr, len, data@),
{
    let mut mask: u16 = 0;
    let mut value: u16 = 0;
    if addr <= register && register - addr < len {
        let index = (register - addr) as usize;
        assert(index < 8);
        mask = mask + 0xff;
        value = value + data[index] as u16;
    }
    if register < u32::MAX && addr <= register + 1 && register + 1 - addr < len {
        let index = (register + 1 - addr) as usize;
        assert(index < 8);
        mask = mask + 0xff00;
        value = value + data[index] as u16 * 256;
    }
    if mask == 0 {
        None
    } else {
        Some(IoRegisterWrite { mask, value })
    }
}

/// The DMA channel whose control register (DMAxCNT_H) is at `addr`.
pub open spec fn spec_dma_channel_for_cnt_high(addr: u32) -> Option<usize> {
    let base = DMA0CNT + 2;
    if addr < base || addr > base + 36 || (addr - base) % 12 != 0 { None } else { Some(((addr - base) / 12) as usize) }
}

/// The DMA channel whose control register is at `addr`, if any.
pub fn dma_channel_for_cnt_high(addr: u32) -> (r: Option<usize>)
    ensures
        r == spec_dma_channel_for_cnt_high(addr),
        r matches Some(c) ==> c < 4,
{
    if addr < DMA0CNT + 2 || addr > DMA0CNT + 2 + 3 * 12 {
        return None;
    }
    let offset = addr - (DMA0CNT + 2);
    if offset % 12 == 0 {
        Some((offset / 12) as usize)
    } else {
        None
    }
}

/// Address step of a DMA address control setting: 1 decrements, 2 keeps
/// the address fixed, 0 and 3 increment.
pub open spec fn spec_dma_addr_step(mode: u16, unit_size: i32) -> int {
    if mode == 1 { -unit_size } else if mode == 2 { 0 } else { unit_size as int }
}

/// Address step of DMA address control `mode` for units of `unit_size` bytes.
pub fn dma_addr_step(mode: u16, unit_size: i32) -> (r: i32)
    requires
        unit_size > i32::MIN,
    ensures
        r == spec_dma_addr_step(mode, unit_size),
{
    if mode == 1 {
        -unit_size
    } else if mode == 2 {
        0
    } else {
        unit_size
    }
}

/// Offset of guest address `addr` within the fast-path memory window.
pub fn fast_offset(addr: u32) -> (r: usize)
    requires
        addr >= FAST_MEM_START,
    ensures
        r == addr - FAST_MEM_START,
{
    (addr - FAST_MEM_START) as usize
}

/// The visible line whose scroll offsets an HBlank handler run at `vcount`
/// prepares: the next line for lines 0..158, line 0 at the last line (227),
/// none otherwise.
pub open spec fn spec_hblank_target_line(vcount: u16) -> Option<usize> {
    if vcount <= 158 { Some((vcount + 1) as usize) } else if vcount == 227 { Some(0) } else { None }
}

/// The line an HBlank handler run at `vcount` prepares, if any.
pub fn hblank_target_line(vcount: u16) -> (r: Option<usize>)
    ensures
        r == spec_hblank_target_line(vcount),
        r matches Some(line) ==> line < 160,
{
    if vcount <= 158 {
        Some((vcount + 1) as usize)
    } else if vcount == 227 {
        Some(0)
    } else {
        None
    }
}

/// The CPU's interrupt line is raised when the master enable (IME bit 0) is
/// set and some requested interrupt (IF) is enabled (IE).
pub open spec fn spec_interrupt_asserted(ie: u16, iflag: u16, ime: u16) -> bool {
    ime & 1 != 0 && ie & iflag != 0
}

/// Whether the CPU interrupt line is raised for these IE, IF and IME values.
pub fn interrupt_asserted(ie: u16, iflag: u16, ime: u16) -> (r: bool)
    ensures
        r == spec_interrupt_asserted(ie, iflag, ime),
{
    let master_enabled = ime & 1 != 0;
    master_enabled && ie & iflag != 0
}

/// A mixed sample clamped to the 16-bit range.
pub open spec fn spec_clamp_i16(sample: i32) -> i16 {
    if sample < i16::MIN { i16::MIN } else if sample > i16::MAX { i16::MAX } else { sample as i16 }
}

/// Appends a clamped sample to the PCM queue, dropping the oldest sample
/// when the queue is full.
pub fn push_pcm_sample(pcm: &mut VecDeque<i16>, sample: i32)
    ensures
        final(pcm)@ == (if old(pcm)@.len() >= AUDIO_PCM_CAPACITY {
            old(pcm)@.drop_first().push(spec_clamp_i16(sample))
        } else {
            old(pcm)@.push(spec_clamp_i16(sample))
        }),
{
    if pcm.len() >= AUDIO_PCM_CAPACITY {
        pcm.pop_front();
    }
    let clamped: i16 = if sample < i16::MIN as i32 {
        i16::MIN
    } else if sample > i16::MAX as i32 {
        i16::MAX
    } else {
        sample as i16
    };
    pcm.push_back(clamped);
}


/// The DMA sound FIFOs and the mixed PCM output queue.
#[derive(Debug)]
pub struct AudioState {
    pub fifo_a: VecDeque<i8>,
    pub fifo_b: VecDeque<i8>,
    pub pcm: VecDeque<i16>,
}

/// Per-line background scroll offsets of the frame being drawn, and of the
/// last completed one.
#[derive(Debug)]
pub struct BgOffsetRaster {
    pub hofs: Vec<u16>,
    pub completed_hofs: Vec<u16>,
    pub vofs: Vec<u16>,
    pub completed_vofs: Vec<u16>,
}

/// The frame being drawn line by line and the last completed one.
#[derive(Debug)]
pub struct FrameBuffers {
    pub work: Vec<u32>,
    pub completed: Vec<u32>,
    pub seq: u64,
}

/// The CPU interrupt line: its current level, and the level changes not yet
/// handed to the hypervisor, oldest first.
#[derive(Debug)]
pub struct InterruptLine {
    pub asserted: bool,
    pub levels: Vec<bool>,
}

#[derive(Clone, Copy, Debug, Default)]
pub struct VideoPerfSnapshot {
    pub frames: u64,
    pub render_scanline_us: u64,
    pub hblank_wait_us: u64,
    pub hblank_wait_max_us: u64,
    pub hblank_wait_timeouts: u64,
    pub fast_hblank_us: u64,
    pub fast_hblank_count: u64,
    pub fast_hblank_shared_count: u64,
    pub fast_hblank_mmio_count: u64,
    pub kvm_mmio_exits: u64,
    pub kvm_mmio_fast_exit: u64,
    pub kvm_mmio_io_reads: u64,
    pub kvm_mmio_io_writes: u64,
    pub kvm_mmio_io_if: u64,
    pub kvm_mmio_io_ime: u64,
    pub kvm_mmio_io_bg_hofs: u64,
    pub kvm_mmio_io_bg_vofs: u64,
    pub kvm_mmio_io_other: u64,
    pub sdl_present_us: u64,
}

/// The memory and device state shared between the vCPU thread and the host
/// threads: guest RAM, the I/O page and its fast-path shadow, timers,
/// audio, raster offsets, frames, HBlank handshake counters, performance
/// counters and the interrupt line.
#[derive(Debug)]
pub struct KvmSharedMemory {
    pub ewram: Vec<u8>,
    pub iwram: Vec<u8>,
    pub io: Vec<u8>,
    pub palette: Vec<u8>,
    pub vram: Vec<u8>,
    pub oam: Vec<u8>,
    pub fast: Vec<u8>,
    pub rom: Vec<u8>,
    pub timers: Timers,
    pub audio: AudioState,
    pub raster: BgOffsetRaster,
    pub bghofs_scanline_active: [bool; 4],
    pub bgvofs_scanline_active: [bool; 4],
    pub frame_buffers: FrameBuffers,
    pub completed_frame_seq: u64,
    pub hblank_requested_seq: u64,
    pub hblank_completed_seq: u64,
    pub hblank_latch_vcount: u16,
    pub hblank_latch_seq: u64,
    pub hblank_pending_count: u64,
    pub perf: VideoPerfSnapshot,
    pub interrupt_line: InterruptLine,
}

/// The value of a `KvmSharedMemory`.
#[verifier::ext_equal]
pub struct SharedState {
    pub ewram: Seq<u8>,
    pub iwram: Seq<u8>,
    pub io: Seq<u8>,
    pub palette: Seq<u8>,
    pub vram: Seq<u8>,
    pub oam: Seq<u8>,
    pub fast: Seq<u8>,
    pub rom: Seq<u8>,
    pub timers: Seq<Timer>,
    pub fifo_a: Seq<i8>,
    pub fifo_b: Seq<i8>,
    pub pcm: Seq<i16>,
    pub hofs: Seq<u16>,
    pub completed_hofs: Seq<u16>,
    pub vofs: Seq<u16>,
    pub completed_vofs: Seq<u16>,
    pub hofs_active: Seq<bool>,
    pub vofs_active: Seq<bool>,
    pub work: Seq<u32>,
    pub completed: Seq<u32>,
    pub frame_seq: u64,
    pub completed_frame_seq: u64,
    pub hblank_requested_seq: u64,
    pub hblank_completed_seq: u64,
    pub hblank_latch_vcount: u16,
    pub hblank_latch_seq: u64,
    pub hblank_pending_count: u64,
    pub perf: VideoPerfSnapshot,
    pub irq_asserted: bool,
    pub irq_levels: Seq<bool>,
}

/// The halfword of I/O register `addr`.
pub open spec fn io16(io: Seq<u8>, addr: u32) -> u16 {
    le16(io, addr - IO_START)
}

/// The I/O page with register `addr` set to `value`.
pub open spec fn set_io16(io: Seq<u8>, addr: u32, value: u16) -> Seq<u8> {
    put16(io, addr - IO_START, value)
}

/// The interrupt line driven to `asserted`: a level change is handed on
/// only when the level differs from the current one.
pub open spec fn spec_line_set(s: SharedState, asserted: bool) -> SharedState {
    if s.irq_asserted == asserted {
        s
    } else {
        SharedState { irq_asserted: asserted, irq_levels: s.irq_levels.push(asserted), ..s }
    }
}

/// A pulse on the interrupt line: low, then high, whatever the level was.
pub open spec fn spec_line_pulse(s: SharedState) -> SharedState {
    SharedState { irq_asserted: true, irq_levels: s.irq_levels.push(false).push(true), ..s }
}

/// The interrupt line follows IE, IF and IME.
pub open spec fn spec_update_interrupt_line(s: SharedState) -> SharedState {
    spec_line_set(s, spec_interrupt_asserted(io16(s.io, IE), io16(s.io, IF), io16(s.io, IME)))
}

/// Requests `interrupt` in IF and updates the line.
pub open spec fn spec_request_interrupt(s: SharedState, interrupt: u16) -> SharedState {
    spec_update_interrupt_line(SharedState { io: set_io16(s.io, IF, io16(s.io, IF) | interrupt), ..s })
}

/// The raster with line `y` of every background whose per-line offset is
/// not taken over by the HBlank handler loaded from that background's
/// register (`base` is the register of background 0, the others follow
/// every four bytes).
pub open spec fn spec_latch_line(raster: Seq<u16>, active: Seq<bool>, io: Seq<u8>, base: u32, y: int) -> Seq<u16> {
    Seq::new(raster.len(), |i: int| {
        let bg = i / 160;
        if i % 160 == y && !active[bg] { io16(io, (base + 4 * bg) as u32) } else { raster[i] }
    })
}

/// DISPSTAT after VCOUNT moves to `value`: the HBlank flag cleared and the
/// VBlank flag set exactly on lines 160 and up.
pub open spec fn spec_vcount_dispstat(old_dispstat: u16, value: u16) -> u16 {
    let cleared = old_dispstat & !(DISPSTAT_VBLANK | DISPSTAT_HBLANK);
    if value >= 160 { cleared | DISPSTAT_VBLANK } else { cleared }
}

/// The state after VCOUNT moves to line `value`: VCOUNT and DISPSTAT are
/// updated; on line 160 the raster of the frame just drawn becomes the
/// completed one; on a visible line each background's offset register is
/// latched for that line unless the HBlank handler owns it; entering
/// VBlank with its interrupt enabled requests IRQ_VBLANK and, when that
/// interrupt is enabled in IE and IME, pulses the line.
pub open spec fn spec_set_vcount(s: SharedState, value: u16) -> SharedState {
    let old_dispstat = io16(s.io, DISPSTAT);
    let dispstat = spec_vcount_dispstat(old_dispstat, value);
    let io = set_io16(set_io16(s.io, VCOUNT, value), DISPSTAT, dispstat);
    let s1 = SharedState { io, ..s };
    let s2 = if value == 160 {
        SharedState { completed_hofs: s1.hofs, completed_vofs: s1.vofs, ..s1 }
    } else {
        s1
    };
    let s3 = if value < 160 {
        SharedState {
            hofs: spec_latch_line(s2.hofs, s2.hofs_active, s2.io, BG0HOFS, value as int),
            vofs: spec_latch_line(s2.vofs, s2.vofs_active, s2.io, BG0VOFS, value as int),
            ..s2
        }
    } else {
        s2
    };
    if old_dispstat & DISPSTAT_VBLANK == 0 && dispstat & DISPSTAT_VBLANK != 0
        && dispstat & DISPSTAT_VBLANK_IRQ_ENABLE != 0 {
        let s4 = spec_request_interrupt(s3, IRQ_VBLANK);
        if io16(s4.io, IE) & IRQ_VBLANK != 0 && io16(s4.io, IME) & 1 != 0 {
            spec_line_pulse(s4)
        } else {
            s4
        }
    } else {
        s3
    }
}

/// The freshly created state: the given memory areas and ROM, everything
/// else cleared, except the BG2 affine matrix diagonal (PA, PD = 0x0100)
/// in the I/O page.
pub open spec fn spec_initial_shared(
    ewram: Seq<u8>, iwram: Seq<u8>, io: Seq<u8>, palette: Seq<u8>, vram: Seq<u8>, oam: Seq<u8>,
    fast: Seq<u8>, rom: Seq<u8>, s: SharedState,
) -> bool {
    &&& s.ewram == ewram
    &&& s.iwram == iwram
    &&& s.io == set_io16(set_io16(io, BG2PA, 0x0100), BG2PD, 0x0100)
    &&& s.palette == palette
    &&& s.vram == vram
    &&& s.oam == oam
    &&& s.fast == fast
    &&& s.rom == rom
    &&& s.timers.len() == 4
    &&& forall|i: int| 0 <= i < 4 ==> #[trigger] s.timers[i]
        == (Timer { reload: 0, counter: 0, control: 0, accumulated_cycles: 0 })
    &&& s.fifo_a.len() == 0 && s.fifo_b.len() == 0 && s.pcm.len() == 0
    &&& s.hofs == Seq::new(RASTER_LEN as nat, |i: int| 0u16)
    &&& s.completed_hofs == Seq::new(RASTER_LEN as nat, |i: int| 0u16)
    &&& s.vofs == Seq::new(RASTER_LEN as nat, |i: int| 0u16)
    &&& s.completed_vofs == Seq::new(RASTER_LEN as nat, |i: int| 0u16)
    &&& s.hofs_active == seq![false, false, false, false]
    &&& s.vofs_active == seq![false, false, false, false]
    &&& s.work == Seq::new((WIDTH * HEIGHT) as nat, |i: int| 0u32)
    &&& s.completed == Seq::new((WIDTH * HEIGHT) as nat, |i: int| 0u32)
    &&& s.frame_seq == 0 && s.completed_frame_seq == 0
    &&& s.hblank_requested_seq == 0 && s.hblank_completed_seq == 0
    &&& s.hblank_latch_vcount == 0xffff && s.hblank_latch_seq == 0 && s.hblank_pending_count == 0
    &&& s.perf == spec_zero_perf()
    &&& !s.irq_asserted && s.irq_levels.len() == 0
}

pub open spec fn spec_zero_perf() -> VideoPerfSnapshot {
    VideoPerfSnapshot {
        frames: 0, render_scanline_us: 0, hblank_wait_us: 0, hblank_wait_max_us: 0, hblank_wait_timeouts: 0,
        fast_hblank_us: 0, fast_hblank_count: 0, fast_hblank_shared_count: 0, fast_hblank_mmio_count: 0,
        kvm_mmio_exits: 0, kvm_mmio_fast_exit: 0, kvm_mmio_io_reads: 0, kvm_mmio_io_writes: 0,
        kvm_mmio_io_if: 0, kvm_mmio_io_ime: 0, kvm_mmio_io_bg_hofs: 0, kvm_mmio_io_bg_vofs: 0,
        kvm_mmio_io_other: 0, sdl_present_us: 0,
    }
}

/// A sound FIFO after receiving `sample`: the oldest sample is dropped when
/// the FIFO is full.
pub open spec fn spec_fifo_push(q: Seq<i8>, sample: i8) -> Seq<i8> {
    if q.len() >= AUDIO_FIFO_CAPACITY { q.drop_first().push(sample) } else { q.push(sample) }
}

/// `sample` pushed to FIFO A (`fifo == 0`) or B.
pub open spec fn spec_push_fifo_byte(s: SharedState, fifo: int, sample: i8) -> SharedState {
    if fifo == 0 {
        SharedState { fifo_a: spec_fifo_push(s.fifo_a, sample), ..s }
    } else {
        SharedState { fifo_b: spec_fifo_push(s.fifo_b, sample), ..s }
    }
}

/// The FIFO pushes of the first `n` bytes of a write of `data` at `addr`:
/// each byte that lands in FIFO_A or FIFO_B goes to that FIFO.
pub open spec fn spec_fifo_bytes(s: SharedState, addr: u32, data: Seq<u8>, n: nat) -> SharedState
    decreases n,
{
    if n == 0 {
        s
    } else {
        let s1 = spec_fifo_bytes(s, addr, data, (n - 1) as nat);
        let byte_addr = addr + (n - 1);
        if FIFO_A <= byte_addr < FIFO_A + 4 {
            spec_push_fifo_byte(s1, 0, data[n - 1] as i8)
        } else if FIFO_B <= byte_addr < FIFO_B + 4 {
            spec_push_fifo_byte(s1, 1, data[n - 1] as i8)
        } else {
            s1
        }
    }
}

pub const SOUND_A_RIGHT: u16 = 0x0100;
pub const SOUND_A_LEFT: u16 = 0x0200;
pub const SOUND_A_TIMER: u16 = 0x0400;
pub const SOUND_A_RESET: u16 = 0x0800;
pub const SOUND_B_RIGHT: u16 = 0x1000;
pub const SOUND_B_LEFT: u16 = 0x2000;
pub const SOUND_B_TIMER: u16 = 0x4000;
pub const SOUND_B_RESET: u16 = 0x8000;

/// The audio side of an I/O write: a SOUNDCNT_H write with a FIFO reset bit
/// empties that FIFO, then bytes written to FIFO_A or FIFO_B are queued.
pub open spec fn spec_audio_io_write(s: SharedState, addr: u32, len: u32, data: Seq<u8>) -> SharedState {
    let s1 = match spec_io_register_write(SOUNDCNT_H, addr, len, data) {
        Some(w) => {
            let a = if w.value & SOUND_A_RESET != 0 { Seq::empty() } else { s.fifo_a };
            let b = if w.value & SOUND_B_RESET != 0 { Seq::empty() } else { s.fifo_b };
            SharedState { fifo_a: a, fifo_b: b, ..s }
        },
        None => s,
    };
    spec_fifo_bytes(s1, addr, data, len as nat)
}

/// `io` with `len` bytes of `data` stored from byte `offset`.
pub open spec fn spec_copy_bytes(io: Seq<u8>, offset: int, data: Seq<u8>, len: int) -> Seq<u8> {
    Seq::new(io.len(), |i: int| if offset <= i < offset + len { data[i - offset] } else { io[i] })
}

/// DISPSTAT after a write of `w`: the status bits (VBlank, HBlank, VCOUNT
/// match) are kept, unwritten bytes keep their value, written bytes take
/// the writable bits of the new value.
pub open spec fn spec_dispstat_write(old_dispstat: u16, w: IoRegisterWrite) -> u16 {
    (old_dispstat & DISPSTAT_STATUS_MASK) | (old_dispstat & !w.mask) | (w.value & DISPSTAT_WRITABLE_MASK)
}

/// The state after the guest writes `len` bytes of `data` at I/O address
/// `addr`: the bytes land in the I/O page, except that IF bits written as 1
/// are acknowledged (cleared) and DISPSTAT keeps its status bits; audio
/// registers act on the FIFOs; the interrupt line follows.
pub open spec fn spec_mirror_io_write(s: SharedState, addr: u32, len: u32, data: Seq<u8>) -> SharedState {
    let old_if = io16(s.io, IF);
    let old_dispstat = io16(s.io, DISPSTAT);
    let io1 = spec_copy_bytes(s.io, addr - IO_START, data, len as int);
    let io2 = match spec_io_register_write(IF, addr, len, data) {
        Some(w) => set_io16(io1, IF, old_if & !w.value),
        None => io1,
    };
    let io3 = match spec_io_register_write(DISPSTAT, addr, len, data) {
        Some(w) => set_io16(io2, DISPSTAT, spec_dispstat_write(old_dispstat, w)),
        None => io2,
    };
    spec_update_interrupt_line(spec_audio_io_write(SharedState { io: io3, ..s }, addr, len, data))
}

/// An I/O access of `len <= 8` bytes at `addr` inside the I/O page.
pub open spec fn io_access_ok(addr: u32, len: u32) -> bool {
    IO_START <= addr && addr - IO_START + len <= IO_SLOT_SIZE && len <= 8
}

pub const FAST_CTRL_NONE: u32 = 0;
pub const FAST_CTRL_HBLANK: u32 = 1;
pub const FAST_HBLANK_KIND_OFFSET: usize = 0;
pub const FAST_HBLANK_REQUESTED_SEQ_OFFSET: usize = 4;
pub const FAST_HBLANK_COMPLETED_SEQ_OFFSET: usize = 12;
pub const FAST_HBLANK_VCOUNT_OFFSET: usize = 20;
pub const FAST_HBLANK_DIRTY_MASK_OFFSET: usize = 24;
pub const FAST_HBLANK_BG_HOFS_OFFSET: usize = 28;
pub const FAST_HBLANK_BG_VOFS_OFFSET: usize = 36;
pub const FAST_HBLANK_IME_OFFSET: usize = 44;
pub const FAST_HBLANK_IF_ACK_OFFSET: usize = 46;
pub const FAST_HBLANK_DIRTY_BG_HOFS0: u32 = 0x0001;
pub const FAST_HBLANK_DIRTY_BG_VOFS0: u32 = 0x0010;
pub const FAST_HBLANK_DIRTY_IME: u32 = 0x0100;
pub const FAST_HBLANK_DIRTY_IF_ACK: u32 = 0x0200;

/// Fields of the HBlank control block at `FAST_CTRL_OFFSET` of the fast
/// window, and of the shadow I/O page at `SHADOW_IO_OFFSET`.
pub open spec fn fast16(fast: Seq<u8>, offset: int) -> u16 {
    le16(fast, FAST_CTRL_OFFSET + offset)
}

pub open spec fn fast32(fast: Seq<u8>, offset: int) -> u32 {
    le32(fast, FAST_CTRL_OFFSET + offset)
}

pub open spec fn fast64(fast: Seq<u8>, offset: int) -> u64 {
    (fast32(fast, offset) as int + 0x1_0000_0000 * fast32(fast, offset + 4) as int) as u64
}

pub open spec fn set_fast16(fast: Seq<u8>, offset: int, v: u16) -> Seq<u8> {
    put16(fast, FAST_CTRL_OFFSET + offset, v)
}

pub open spec fn set_fast32(fast: Seq<u8>, offset: int, v: u32) -> Seq<u8> {
    put32(fast, FAST_CTRL_OFFSET + offset, v)
}

pub open spec fn set_fast64(fast: Seq<u8>, offset: int, v: u64) -> Seq<u8> {
    set_fast32(set_fast32(fast, offset, (v % 0x1_0000_0000) as u32), offset + 4, (v / 0x1_0000_0000) as u32)
}

pub open spec fn shadow16(fast: Seq<u8>, addr: u32) -> u16 {
    le16(fast, SHADOW_IO_OFFSET + addr - IO_START)
}

pub open spec fn set_shadow16(fast: Seq<u8>, addr: u32, v: u16) -> Seq<u8> {
    put16(fast, SHADOW_IO_OFFSET + addr - IO_START, v)
}

/// The fast window with the I/O page copied over its shadow.
pub open spec fn spec_shadow_copy(fast: Seq<u8>, io: Seq<u8>) -> Seq<u8> {
    Seq::new(fast.len(), |i: int| if SHADOW_IO_OFFSET <= i < SHADOW_IO_OFFSET + io.len() { io[i - SHADOW_IO_OFFSET] } else { fast[i] })
}

/// The control block and shadow page the guest's HBlank handler runs
/// against: a copy of the I/O page with VCOUNT, the HBlank request in IF
/// and the HBlank flag in DISPSTAT, the request's sequence number, a
/// cleared completion and dirty mask, and the HBlank kind set last.
pub open spec fn spec_prepare_fast_hblank(s: SharedState, vcount: u16) -> SharedState {
    let f0 = spec_shadow_copy(s.fast, s.io);
    let f1 = set_fast64(f0, FAST_HBLANK_REQUESTED_SEQ_OFFSET as int, s.hblank_latch_seq);
    let f2 = set_fast64(f1, FAST_HBLANK_COMPLETED_SEQ_OFFSET as int, 0);
    let f3 = set_fast16(f2, FAST_HBLANK_VCOUNT_OFFSET as int, vcount);
    let f4 = set_fast32(f3, FAST_HBLANK_DIRTY_MASK_OFFSET as int, 0);
    let f5 = set_shadow16(f4, VCOUNT, vcount);
    let f6 = set_shadow16(f5, IF, io16(s.io, IF) | IRQ_HBLANK);
    let f7 = set_shadow16(f6, DISPSTAT, io16(s.io, DISPSTAT) | DISPSTAT_HBLANK);
    SharedState { fast: set_fast32(f7, FAST_HBLANK_KIND_OFFSET as int, FAST_CTRL_HBLANK), ..s }
}

/// Result of entering HBlank on the current line: the HBlank flag is set;
/// if it was already set, nothing else happens. Otherwise, when the HBlank
/// interrupt is enabled in DISPSTAT, the display is on and the line is
/// visible (or the last one): if an HBlank interrupt is still pending, the
/// missed request is counted (when IE and IME would take it) and nothing
/// is started; else a new request is numbered, latched, prepared for the
/// guest handler, raised in IF and pulsed on the line, and its number
/// returned.
pub open spec fn spec_enter_hblank(s: SharedState) -> (SharedState, Option<u64>) {
    let old_dispstat = io16(s.io, DISPSTAT);
    let dispstat = old_dispstat | DISPSTAT_HBLANK;
    let s1 = SharedState { io: set_io16(s.io, DISPSTAT, dispstat), ..s };
    let vcount = io16(s1.io, VCOUNT);
    if old_dispstat & DISPSTAT_HBLANK != 0 {
        (s1, None)
    } else if dispstat & DISPSTAT_HBLANK_IRQ_ENABLE == 0 || io16(s1.io, DISPCNT) == 0 || !(vcount < 160 || vcount == 227) {
        (s1, None)
    } else if io16(s1.io, IF) & IRQ_HBLANK != 0 {
        if io16(s1.io, IE) & IRQ_HBLANK != 0 && io16(s1.io, IME) & 1 != 0 {
            (SharedState { hblank_pending_count: s1.hblank_pending_count.wrapping_add(1), ..s1 }, None)
        } else {
            (s1, None)
        }
    } else {
        let seq = (s1.hblank_requested_seq + 1) as u64;
        let s2 = SharedState {
            hblank_pending_count: 0,
            hblank_requested_seq: seq,
            hblank_latch_vcount: vcount,
            hblank_latch_seq: seq,
            ..s1
        };
        (spec_line_pulse(spec_request_interrupt(spec_prepare_fast_hblank(s2, vcount), IRQ_HBLANK)), Some(seq))
    }
}

/// Stores `value` in background `index`'s horizontal (or vertical) offset
/// register and, when the HBlank handler targets a line, in that line of
/// the raster, which the handler then owns.
pub open spec fn spec_offset_update(s: SharedState, vertical: bool, index: int, value: u16, target: Option<usize>) -> SharedState {
    let reg = ((if vertical { BG0VOFS } else { BG0HOFS }) + 4 * index) as u32;
    let s1 = SharedState { io: set_io16(s.io, reg, value), ..s };
    match target {
        Some(line) => if vertical {
            SharedState { vofs: s1.vofs.update(index * 160 + line, value), vofs_active: s1.vofs_active.update(index, true), ..s1 }
        } else {
            SharedState { hofs: s1.hofs.update(index * 160 + line, value), hofs_active: s1.hofs_active.update(index, true), ..s1 }
        },
        None => s1,
    }
}

/// The offsets of backgrounds `0..n` taken back from the shadow I/O page.
pub open spec fn spec_shadow_offsets(s: SharedState, vertical: bool, target: Option<usize>, n: nat) -> SharedState
    decreases n,
{
    if n == 0 {
        s
    } else {
        let s1 = spec_shadow_offsets(s, vertical, target, (n - 1) as nat);
        let index = n - 1;
        let reg = ((if vertical { BG0VOFS } else { BG0HOFS }) + 4 * index) as u32;
        spec_offset_update(s1, vertical, index, shadow16(s1.fast, reg), target)
    }
}

/// The offsets of backgrounds `0..n` that the handler marked dirty, taken
/// from the control block.
pub open spec fn spec_block_offsets(s: SharedState, vertical: bool, dirty: u32, target: Option<usize>, n: nat) -> SharedState
    decreases n,
{
    if n == 0 {
        s
    } else {
        let s1 = spec_block_offsets(s, vertical, dirty, target, (n - 1) as nat);
        let index = n - 1;
        let bit = if vertical { FAST_HBLANK_DIRTY_BG_VOFS0 } else { FAST_HBLANK_DIRTY_BG_HOFS0 };
        let base = if vertical { FAST_HBLANK_BG_VOFS_OFFSET } else { FAST_HBLANK_BG_HOFS_OFFSET };
        if dirty & (bit << (index as u32)) != 0 {
            spec_offset_update(s1, vertical, index, fast16(s1.fast, base + index * 2), target)
        } else {
            s1
        }
    }
}

/// Completion of the HBlank handler through its MMIO exit: the control
/// block is cleared, IF bits the handler acknowledged (plus HBlank) are
/// cleared, IME and the scroll offsets are taken from the shadow page (the
/// offsets also for the target line), the request is complete, and the
/// interrupt line follows.
pub open spec fn spec_finish_fast_hblank(s: SharedState) -> SharedState {
    let f = set_fast32(s.fast, FAST_HBLANK_KIND_OFFSET as int, FAST_CTRL_NONE);
    let ack = shadow16(f, IF) | IRQ_HBLANK;
    let io1 = set_io16(s.io, IF, io16(s.io, IF) & !ack);
    let io2 = set_io16(io1, IME, shadow16(f, IME));
    let target = spec_hblank_target_line(s.hblank_latch_vcount);
    let s1 = SharedState { fast: f, io: io2, ..s };
    let s2 = spec_shadow_offsets(spec_shadow_offsets(s1, false, target, 4), true, target, 4);
    let s3 = SharedState { hblank_completed_seq: s2.hblank_latch_seq, ..s2 };
    let s4 = spec_update_interrupt_line(s3);
    SharedState {
        perf: VideoPerfSnapshot {
            fast_hblank_count: s4.perf.fast_hblank_count.wrapping_add(1),
            fast_hblank_mmio_count: s4.perf.fast_hblank_mmio_count.wrapping_add(1),
            ..s4.perf
        },
        ..s4
    }
}

/// Completion of request `seq` published in the control block: as
/// through the MMIO exit, but only what the dirty mask names is taken over
/// (IF acknowledgement defaulting to HBlank alone).
pub open spec fn spec_finish_fast_hblank_from_shared(s: SharedState, seq: u64) -> SharedState {
    let f = set_fast32(s.fast, FAST_HBLANK_KIND_OFFSET as int, FAST_CTRL_NONE);
    let dirty = fast32(f, FAST_HBLANK_DIRTY_MASK_OFFSET as int);
    let ack = if dirty & FAST_HBLANK_DIRTY_IF_ACK != 0 { fast16(f, FAST_HBLANK_IF_ACK_OFFSET as int) } else { IRQ_HBLANK };
    let io1 = set_io16(s.io, IF, io16(s.io, IF) & !ack);
    let io2 = if dirty & FAST_HBLANK_DIRTY_IME != 0 { set_io16(io1, IME, fast16(f, FAST_HBLANK_IME_OFFSET as int)) } else { io1 };
    let target = spec_hblank_target_line(s.hblank_latch_vcount);
    let s1 = SharedState { fast: f, io: io2, ..s };
    let s2 = spec_block_offsets(spec_block_offsets(s1, false, dirty, target, 4), true, dirty, target, 4);
    let s3 = SharedState { hblank_completed_seq: seq, ..s2 };
    let s4 = spec_update_interrupt_line(s3);
    SharedState {
        perf: VideoPerfSnapshot {
            fast_hblank_count: s4.perf.fast_hblank_count.wrapping_add(1),
            fast_hblank_shared_count: s4.perf.fast_hblank_shared_count.wrapping_add(1),
            ..s4.perf
        },
        ..s4
    }
}

/// One check for completion of request `seq`: complete if it was completed
/// through the MMIO exit, or if the control block reports it, in which case
/// the shared completion is applied first.
pub open spec fn spec_poll_hblank_complete(s: SharedState, seq: u64) -> (SharedState, bool) {
    if s.hblank_completed_seq >= seq {
        (s, true)
    } else if fast64(s.fast, FAST_HBLANK_COMPLETED_SEQ_OFFSET as int) >= seq {
        (spec_finish_fast_hblank_from_shared(s, seq), true)
    } else {
        (s, false)
    }
}

pub const DMA_ENABLE: u16 = 0x8000;
pub const DMA_REPEAT: u16 = 0x0200;
pub const DMA_32BIT: u16 = 0x0400;
pub const DMA_TIMING_MASK: u16 = 0x3000;
pub const DMA_TIMING_SPECIAL: u16 = 0x3000;

/// The guest RAM area (0 EWRAM, 1 IWRAM, 2 palette, 3 VRAM, 4 OAM) and
/// offset that a DMA address falls in, by the areas' hardware sizes.
pub open spec fn spec_dma_region(addr: u32) -> Option<(int, int)> {
    if EWRAM_START <= addr < EWRAM_START + EWRAM_SIZE { Some((0, addr - EWRAM_START)) }
    else if IWRAM_START <= addr < IWRAM_START + IWRAM_SIZE { Some((1, addr - IWRAM_START)) }
    else if PALETTE_START <= addr < PALETTE_START + PALETTE_SIZE { Some((2, addr - PALETTE_START)) }
    else if VRAM_START <= addr < VRAM_START + VRAM_SIZE { Some((3, addr - VRAM_START)) }
    else if OAM_START <= addr < OAM_START + OAM_SIZE { Some((4, addr - OAM_START)) }
    else { None }
}

pub open spec fn region_bytes(s: SharedState, id: int) -> Seq<u8> {
    if id == 0 { s.ewram } else if id == 1 { s.iwram } else if id == 2 { s.palette } else if id == 3 { s.vram } else { s.oam }
}

pub open spec fn with_region(s: SharedState, id: int, bytes: Seq<u8>) -> SharedState {
    if id == 0 { SharedState { ewram: bytes, ..s } }
    else if id == 1 { SharedState { iwram: bytes, ..s } }
    else if id == 2 { SharedState { palette: bytes, ..s } }
    else if id == 3 { SharedState { vram: bytes, ..s } }
    else { SharedState { oam: bytes, ..s } }
}

/// `addr` lies in the ROM as mapped for DMA.
pub open spec fn in_dma_rom(s: SharedState, addr: u32) -> bool {
    GAME_PAK_ROM_START <= addr < GAME_PAK_ROM_START + (s.rom.len() as u32)
}

/// A DMA halfword read: the ROM (all ones past its last full halfword),
/// a guest RAM area, or 0 elsewhere.
pub open spec fn spec_dma_read(s: SharedState, addr: u32) -> u16 {
    if in_dma_rom(s, addr) {
        let offset = addr - GAME_PAK_ROM_START;
        if offset + 1 < s.rom.len() { le16(s.rom, offset) } else { 0xffff }
    } else {
        match spec_dma_region(addr) {
            Some((id, offset)) => le16(region_bytes(s, id), offset),
            None => 0,
        }
    }
}

/// A DMA halfword read the copy cannot complete: the last byte of a RAM
/// area.
pub open spec fn spec_dma_read_faults(s: SharedState, addr: u32) -> bool {
    !in_dma_rom(s, addr) && match spec_dma_region(addr) {
        Some((id, offset)) => offset + 1 >= region_bytes(s, id).len(),
        None => false,
    }
}

/// A DMA halfword write: into a sound FIFO (both bytes, low first), into a
/// guest RAM area, or nowhere.
pub open spec fn spec_dma_write(s: SharedState, addr: u32, value: u16) -> SharedState {
    if FIFO_A <= addr < FIFO_A + 4 {
        spec_push_fifo_byte(spec_push_fifo_byte(s, 0, (value % 256) as u8 as i8), 0, (value / 256) as u8 as i8)
    } else if FIFO_B <= addr < FIFO_B + 4 {
        spec_push_fifo_byte(spec_push_fifo_byte(s, 1, (value % 256) as u8 as i8), 1, (value / 256) as u8 as i8)
    } else {
        match spec_dma_region(addr) {
            Some((id, offset)) => with_region(s, id, put16(region_bytes(s, id), offset, value)),
            None => s,
        }
    }
}

pub open spec fn spec_dma_write_faults(s: SharedState, addr: u32) -> bool {
    !(FIFO_A <= addr < FIFO_A + 4) && !(FIFO_B <= addr < FIFO_B + 4) && match spec_dma_region(addr) {
        Some((id, offset)) => offset + 1 >= region_bytes(s, id).len(),
        None => false,
    }
}

/// `a + d` modulo 2^32.
pub open spec fn spec_wrap_add(a: u32, d: int) -> u32 {
    ((a + d) % 0x1_0000_0000) as u32
}

/// One DMA unit: a halfword, or a word as two halfwords (both read before
/// either is written).
pub open spec fn spec_dma_unit(s: SharedState, source: u32, destination: u32, word: bool) -> SharedState {
    if word {
        let low = spec_dma_read(s, source);
        let high = spec_dma_read(s, spec_wrap_add(source, 2));
        spec_dma_write(spec_dma_write(s, destination, low), spec_wrap_add(destination, 2), high)
    } else {
        spec_dma_write(s, destination, spec_dma_read(s, source))
    }
}

pub open spec fn spec_dma_unit_faults(s: SharedState, source: u32, destination: u32, word: bool) -> bool {
    ||| spec_dma_read_faults(s, source)
    ||| spec_dma_write_faults(s, destination)
    ||| word && (spec_dma_read_faults(s, spec_wrap_add(source, 2)) || spec_dma_write_faults(s, spec_wrap_add(destination, 2)))
}

/// `n` DMA units from `source` to `destination`, the addresses moving by
/// the given steps after each unit.
pub open spec fn spec_dma_units(s: SharedState, source: u32, destination: u32, n: nat, word: bool, source_step: int, destination_step: int) -> SharedState
    decreases n,
{
    if n == 0 {
        s
    } else {
        spec_dma_units(spec_dma_unit(s, source, destination, word), spec_wrap_add(source, source_step),
            spec_wrap_add(destination, destination_step), (n - 1) as nat, word, source_step, destination_step)
    }
}

/// Some unit of such a transfer faults.
pub open spec fn spec_dma_units_fault(s: SharedState, source: u32, destination: u32, n: nat, word: bool, source_step: int, destination_step: int) -> bool
    decreases n,
{
    if n == 0 {
        false
    } else {
        spec_dma_unit_faults(s, source, destination, word) || spec_dma_units_fault(spec_dma_unit(s, source, destination, word),
            spec_wrap_add(source, source_step), spec_wrap_add(destination, destination_step), (n - 1) as nat, word,
            source_step, destination_step)
    }
}

/// The transfer a DMA channel makes: 32-bit units when control bit 10 is
/// set, `count` units (0 meaning 0x10000 on channel 3 and 0x4000 on the
/// others), addresses stepped by the source (bits 7-8) and destination
/// (bits 5-6) address controls.
pub open spec fn spec_run_dma(s: SharedState, channel: int, source: u32, destination: u32, count: u16, control: u16) -> SharedState {
    let unit_size: i32 = if control & DMA_32BIT != 0 { 4 } else { 2 };
    let n: nat = if count == 0 { if channel == 3 { 0x10000 } else { 0x4000 } } else { count as nat };
    spec_dma_units(s, source, destination, n, unit_size == 4,
        spec_dma_addr_step((control >> 7u16) & 0x3, unit_size), spec_dma_addr_step((control >> 5u16) & 0x3, unit_size))
}

pub open spec fn spec_run_dma_faults(s: SharedState, channel: int, source: u32, destination: u32, count: u16, control: u16) -> bool {
    let unit_size: i32 = if control & DMA_32BIT != 0 { 4 } else { 2 };
    let n: nat = if count == 0 { if channel == 3 { 0x10000 } else { 0x4000 } } else { count as nat };
    spec_dma_units_fault(s, source, destination, n, unit_size == 4,
        spec_dma_addr_step((control >> 7u16) & 0x3, unit_size), spec_dma_addr_step((control >> 5u16) & 0x3, unit_size))
}

pub open spec fn io32(io: Seq<u8>, addr: u32) -> u32 {
    (io16(io, addr) as int + 65536 * io16(io, (addr + 2) as u32) as int) as u32
}

/// A write to DMA channel `channel`'s control register starts an immediate
/// transfer when the channel is enabled with immediate timing; afterwards
/// the enable bit is cleared unless the channel repeats.
pub open spec fn spec_immediate_dma(s: SharedState, addr: u32) -> SharedState {
    match spec_dma_channel_for_cnt_high(addr) {
        None => s,
        Some(channel) => {
            let base = (DMA0SAD + channel * 12) as u32;
            let control = io16(s.io, (base + 10) as u32);
            if control & DMA_ENABLE == 0 || control & DMA_TIMING_MASK != 0 {
                s
            } else {
                let s1 = spec_run_dma(s, channel as int, io32(s.io, base), io32(s.io, (base + 4) as u32), io16(s.io, (base + 8) as u32), control);
                if control & DMA_REPEAT == 0 {
                    SharedState { io: set_io16(s1.io, (base + 10) as u32, control & !DMA_ENABLE), ..s1 }
                } else {
                    s1
                }
            }
        },
    }
}

pub open spec fn spec_immediate_dma_faults(s: SharedState, addr: u32) -> bool {
    match spec_dma_channel_for_cnt_high(addr) {
        None => false,
        Some(channel) => {
            let base = (DMA0SAD + channel * 12) as u32;
            let control = io16(s.io, (base + 10) as u32);
            !(control & DMA_ENABLE == 0 || control & DMA_TIMING_MASK != 0)
                && spec_run_dma_faults(s, channel as int, io32(s.io, base), io32(s.io, (base + 4) as u32), io16(s.io, (base + 8) as u32), control)
        },
    }
}

/// The immediate transfers started by a write at `addr`: one check for each
/// halfword register `addr + 2 * j` with `k <= j < m`.
pub open spec fn spec_immediate_dma_for_write(s: SharedState, addr: u32, k: nat, m: nat) -> SharedState
    decreases m - k,
{
    if k >= m { s } else { spec_immediate_dma_for_write(spec_immediate_dma(s, (addr + 2 * k) as u32), addr, k + 1, m) }
}

pub open spec fn spec_immediate_dma_for_write_faults(s: SharedState, addr: u32, k: nat, m: nat) -> bool
    decreases m - k,
{
    if k >= m {
        false
    } else {
        spec_immediate_dma_faults(s, (addr + 2 * k) as u32)
            || spec_immediate_dma_for_write_faults(spec_immediate_dma(s, (addr + 2 * k) as u32), addr, k + 1, m)
    }
}

/// Number of halfword registers a write of `len` bytes checks.
pub open spec fn halfword_count(len: u32) -> nat {
    ((len + 1) / 2) as nat
}

/// The ROM fits the address space above the Game Pak base.
pub open spec fn rom_fits(s: SharedState) -> bool {
    GAME_PAK_ROM_START + (s.rom.len() as u32) <= u32::MAX
}

/// First timer register and last timer halfword register.
pub const TIMER_REGS_START: u32 = 0x0400_0100;
pub const TIMER_REGS_LAST: u32 = 0x0400_010e;

/// Of the `n` halfword registers `r, r + 2, ...`, those that lie among
/// TM0CNT_L..TM3CNT_H are each written to the timers with their value in
/// the I/O page.
pub open spec fn spec_timer_registers(s: SharedState, r: u32, n: nat) -> SharedState
    decreases n,
{
    if n == 0 {
        s
    } else {
        let s1 = if TIMER_REGS_START <= r <= TIMER_REGS_LAST {
            let (ts, io) = spec_write_timer_register(s.timers, s.io, r, io16(s.io, r));
            SharedState { timers: ts, io, ..s }
        } else {
            s
        };
        spec_timer_registers(s1, (r + 2) as u32, (n - 1) as nat)
    }
}

/// The first timer register a guest write of `len` bytes at `addr` may
/// touch, and the number of halfword registers from there: from the even
/// address at or below the later of `addr` and TM0CNT_L, up to the even
/// address at or above the earlier of `addr + len` and the end of the timer
/// registers.
pub open spec fn spec_timer_write_bounds(addr: u32, len: u32) -> (u32, nat) {
    let first = if addr > TIMER_REGS_START { addr } else { TIMER_REGS_START };
    let past = if addr + len < 0x0400_0110 { (addr + len) as int } else { 0x0400_0110int };
    let start = first - first % 2;
    let end = (past + 1) - (past + 1) % 2;
    (start as u32, if end > start { ((end - start) / 2) as nat } else { 0 })
}

/// A FIFO's oldest sample removed, with its value (0 when empty).
pub open spec fn spec_fifo_pop(q: Seq<i8>) -> (Seq<i8>, i8) {
    if q.len() > 0 { (q.drop_first(), q[0]) } else { (q, 0) }
}

/// The timer (0 or 1) that drives sound FIFO `fifo`, from SOUNDCNT_H.
pub open spec fn spec_sound_fifo_timer(s: SharedState, fifo: int) -> int {
    let soundcnt_h = io16(s.io, SOUNDCNT_H);
    if fifo == 0 {
        if soundcnt_h & SOUND_A_TIMER != 0 { 1 } else { 0 }
    } else {
        if soundcnt_h & SOUND_B_TIMER != 0 { 1 } else { 0 }
    }
}

pub open spec fn spec_fifo_len(s: SharedState, fifo: int) -> nat {
    if fifo == 0 { s.fifo_a.len() } else { s.fifo_b.len() }
}

/// `n` words read by DMA from `source` on pushed, byte by byte, to FIFO
/// `fifo`.
pub open spec fn spec_fifo_words(s: SharedState, fifo: int, source: u32, n: nat) -> SharedState
    decreases n,
{
    if n == 0 {
        s
    } else {
        let low = spec_dma_read(s, source);
        let high = spec_dma_read(s, spec_wrap_add(source, 2));
        let s1 = spec_push_fifo_byte(spec_push_fifo_byte(s, fifo, (low % 256) as u8 as i8), fifo, (low / 256) as u8 as i8);
        let s2 = spec_push_fifo_byte(spec_push_fifo_byte(s1, fifo, (high % 256) as u8 as i8), fifo, (high / 256) as u8 as i8);
        spec_fifo_words(s2, fifo, spec_wrap_add(source, 4), (n - 1) as nat)
    }
}

pub open spec fn spec_fifo_words_fault(s: SharedState, fifo: int, source: u32, n: nat) -> bool
    decreases n,
{
    if n == 0 {
        false
    } else {
        let low = spec_dma_read(s, source);
        let high = spec_dma_read(s, spec_wrap_add(source, 2));
        let s1 = spec_push_fifo_byte(spec_push_fifo_byte(s, fifo, (low % 256) as u8 as i8), fifo, (low / 256) as u8 as i8);
        let s2 = spec_push_fifo_byte(spec_push_fifo_byte(s1, fifo, (high % 256) as u8 as i8), fifo, (high / 256) as u8 as i8);
        spec_dma_read_faults(s, source) || spec_dma_read_faults(s, spec_wrap_add(source, 2))
            || spec_fifo_words_fault(s2, fifo, spec_wrap_add(source, 4), (n - 1) as nat)
    }
}

/// The sound FIFO a special-timing 32-bit DMA channel feeds for timer
/// `timer` when that FIFO is at most half full, or `None`.
pub open spec fn spec_fifo_dma_target(s: SharedState, timer: int, channel: int) -> Option<int> {
    let base = (DMA0SAD + channel * 12) as u32;
    let control = io16(s.io, (base + 10) as u32);
    let destination = io32(s.io, (base + 4) as u32);
    if control & DMA_ENABLE == 0 || control & DMA_TIMING_MASK != DMA_TIMING_SPECIAL || control & DMA_32BIT == 0 {
        None
    } else {
        let fifo = if destination == FIFO_A { 0int } else if destination == FIFO_B { 1 } else { -1 };
        if fifo < 0 || spec_sound_fifo_timer(s, fifo) != timer || spec_fifo_len(s, fifo) > AUDIO_FIFO_DMA_THRESHOLD {
            None
        } else {
            Some(fifo)
        }
    }
}

/// A sound DMA channel refilling its FIFO: four words from its source,
/// which then moves past them.
pub open spec fn spec_fifo_dma_channel(s: SharedState, timer: int, channel: int) -> SharedState {
    let base = (DMA0SAD + channel * 12) as u32;
    match spec_fifo_dma_target(s, timer, channel) {
        None => s,
        Some(fifo) => {
            let source = io32(s.io, base);
            let s1 = spec_fifo_words(s, fifo, source, 4);
            let next = spec_wrap_add(source, 16);
            SharedState { io: set_io16(set_io16(s1.io, base, (next % 65536) as u16), (base + 2) as u32, (next / 65536) as u16), ..s1 }
        },
    }
}

pub open spec fn spec_fifo_dma_channel_faults(s: SharedState, timer: int, channel: int) -> bool {
    match spec_fifo_dma_target(s, timer, channel) {
        None => false,
        Some(fifo) => spec_fifo_words_fault(s, fifo, io32(s.io, (DMA0SAD + channel * 12) as u32), 4),
    }
}

/// The PCM queue after a mixed sample: clamped to 16 bits, the oldest
/// sample dropped when the queue is full.
pub open spec fn spec_pcm_push(pcm: Seq<i16>, sample: int) -> Seq<i16> {
    let clamped = if sample < i16::MIN { i16::MIN } else if sample > i16::MAX { i16::MAX } else { sample as i16 };
    if pcm.len() >= AUDIO_PCM_CAPACITY { pcm.drop_first().push(clamped) } else { pcm.push(clamped) }
}

/// A timer overflow: the sound DMA channels driven by that timer refill
/// their FIFOs, then each FIFO driven by it plays its next sample (scaled
/// to 16 bits) on the channels SOUNDCNT_H routes it to, and the left and
/// right mix is queued as PCM.
pub open spec fn spec_on_timer_overflow(s: SharedState, timer: int) -> SharedState {
    let s1 = spec_fifo_dma_channel(spec_fifo_dma_channel(s, timer, 1), timer, 2);
    let soundcnt_h = io16(s1.io, SOUNDCNT_H);
    let (fifo_a, a) = if spec_sound_fifo_timer(s1, 0) == timer { spec_fifo_pop(s1.fifo_a) } else { (s1.fifo_a, 0i8) };
    let (fifo_b, b) = if spec_sound_fifo_timer(s1, 1) == timer { spec_fifo_pop(s1.fifo_b) } else { (s1.fifo_b, 0i8) };
    let a_on = spec_sound_fifo_timer(s1, 0) == timer;
    let b_on = spec_sound_fifo_timer(s1, 1) == timer;
    let left = (if a_on && soundcnt_h & SOUND_A_LEFT != 0 { a * 256 } else { 0 })
        + (if b_on && soundcnt_h & SOUND_B_LEFT != 0 { b * 256 } else { 0 });
    let right = (if a_on && soundcnt_h & SOUND_A_RIGHT != 0 { a * 256 } else { 0 })
        + (if b_on && soundcnt_h & SOUND_B_RIGHT != 0 { b * 256 } else { 0 });
    SharedState { fifo_a, fifo_b, pcm: spec_pcm_push(spec_pcm_push(s1.pcm, left), right), ..s1 }
}

pub open spec fn spec_on_timer_overflow_faults(s: SharedState, timer: int) -> bool {
    spec_fifo_dma_channel_faults(s, timer, 1) || spec_fifo_dma_channel_faults(spec_fifo_dma_channel(s, timer, 1), timer, 2)
}

/// `n` overflows of timer `timer`.
pub open spec fn spec_overflows(s: SharedState, timer: int, n: nat) -> SharedState
    decreases n,
{
    if n == 0 { s } else { spec_overflows(spec_on_timer_overflow(s, timer), timer, (n - 1) as nat) }
}

pub open spec fn spec_overflows_fault(s: SharedState, timer: int, n: nat) -> bool
    decreases n,
{
    if n == 0 {
        false
    } else {
        spec_on_timer_overflow_faults(s, timer) || spec_overflows_fault(spec_on_timer_overflow(s, timer), timer, (n - 1) as nat)
    }
}

/// The first of `n > 0` overflows, and the rest.
proof fn lemma_overflows_unfold(s: SharedState, timer: int, n: nat)
    requires
        n > 0,
    ensures
        spec_overflows(s, timer, n) == spec_overflows(spec_on_timer_overflow(s, timer), timer, (n - 1) as nat),
        spec_overflows_fault(s, timer, n) == (spec_on_timer_overflow_faults(s, timer)
            || spec_overflows_fault(spec_on_timer_overflow(s, timer), timer, (n - 1) as nat)),
{
}

/// The timers advanced by `cycles` CPU cycles, then the overflows of
/// timers 0 to 3 handled in that order.
pub open spec fn spec_advance_timers(s: SharedState, cycles: u32) -> SharedState {
    let (ts, n, io) = spec_advance_all(s.timers, s.io, cycles);
    let s0 = SharedState { timers: ts, io, ..s };
    let s1 = spec_overflows(s0, 0, n[0] as nat);
    let s2 = spec_overflows(s1, 1, n[1] as nat);
    let s3 = spec_overflows(s2, 2, n[2] as nat);
    spec_overflows(s3, 3, n[3] as nat)
}

pub open spec fn spec_advance_timers_faults(s: SharedState, cycles: u32) -> bool {
    let (ts, n, io) = spec_advance_all(s.timers, s.io, cycles);
    let s0 = SharedState { timers: ts, io, ..s };
    let s1 = spec_overflows(s0, 0, n[0] as nat);
    let s2 = spec_overflows(s1, 1, n[1] as nat);
    let s3 = spec_overflows(s2, 2, n[2] as nat);
    spec_overflows_fault(s0, 0, n[0] as nat) || spec_overflows_fault(s1, 1, n[1] as nat)
        || spec_overflows_fault(s2, 2, n[2] as nat) || spec_overflows_fault(s3, 3, n[3] as nat)
}

/// Cycles of one scanline.
pub const SCANLINE_CYCLES: u32 = 1232;

/// The PPU register file as read from the I/O page (through each
/// register's write mask), with BG3's affine registers and every per-line
/// raster left as after a reset.
pub open spec fn spec_ppu_registers(p: Ppu, io: Seq<u8>) -> bool {
    &&& p.dispcnt == io16(io, DISPCNT) && p.dispstat == 0 && p.vcount == 0
    &&& p.bgcnt@ == seq![io16(io, BG0CNT), io16(io, BG1CNT), io16(io, BG2CNT), io16(io, BG3CNT)]
    &&& p.bghofs@ == Seq::new(4, |bg: int| io16(io, (BG0HOFS + 4 * bg) as u32) & 0x01ff)
    &&& p.bgvofs@ == Seq::new(4, |bg: int| io16(io, (BG0VOFS + 4 * bg) as u32) & 0x01ff)
    &&& p.bgpa@ == seq![io16(io, BG2PA), 0x0100u16]
    &&& p.bgpb@ == seq![io16(io, BG2PB), 0u16]
    &&& p.bgpc@ == seq![io16(io, BG2PC), 0u16]
    &&& p.bgpd@ == seq![io16(io, BG2PD), 0x0100u16]
    &&& p.bgx@ == seq![io32(io, BG2X) & 0x0fff_ffff, 0u32]
    &&& p.bgy@ == seq![io32(io, BG2Y) & 0x0fff_ffff, 0u32]
    &&& p.winh@ == seq![io16(io, WIN0H), io16(io, WIN1H)]
    &&& p.winv@ == seq![io16(io, WIN0V), io16(io, WIN1V)]
    &&& p.winin == io16(io, WININ) & 0x3f3f && p.winout == io16(io, WINOUT) & 0x3f3f
    &&& p.mosaic == io16(io, MOSAIC)
    &&& p.bldcnt == io16(io, BLDCNT) & 0x3fff && p.bldalpha == io16(io, BLDALPHA) & 0x1f1f
    &&& p.bldy == io16(io, BLDY) & 0x001f
}

/// A raster holding, for each background `active` marks, lines
/// `first..last` of `values`, and zero elsewhere.
pub open spec fn spec_raster_lines(active: Seq<bool>, values: Seq<u16>, first: int, last: int) -> Seq<u16> {
    Seq::new(RASTER_LEN as nat, |i: int| if active[i / 160] && first <= i % 160 < last { values[i] } else { 0u16 })
}

/// The raster of `spec_raster_lines` filled for backgrounds below `bg`,
/// and for background `bg` up to line `y`.
pub open spec fn spec_partial_raster(active: Seq<bool>, values: Seq<u16>, first: int, last: int, bg: int, y: int) -> Seq<u16> {
    Seq::new(RASTER_LEN as nat, |i: int|
        if (i / 160 < bg && active[i / 160] && first <= i % 160 < last) || (i / 160 == bg && active[bg] && first <= i % 160 < y) {
            values[i]
        } else {
            0u16
        })
}

/// The per-line rasters of a PPU: for each background whose offsets the
/// HBlank handler owns, lines `first..last` come from `hofs` / `vofs` and
/// the background is marked valid; everything else is zero.
pub open spec fn spec_ppu_raster(p: Ppu, s: SharedState, hofs: Seq<u16>, vofs: Seq<u16>, first: int, last: int) -> bool {
    &&& p.bghofs_scanline@ == spec_raster_lines(s.hofs_active, hofs, first, last)
    &&& p.bgvofs_scanline@ == spec_raster_lines(s.vofs_active, vofs, first, last)
    &&& p.bghofs_scanline_valid@ == s.hofs_active
    &&& p.bgvofs_scanline_valid@ == s.vofs_active
}

/// The PPU a whole frame is drawn with: the registers, and for owned
/// backgrounds every line of the completed raster.
pub open spec fn spec_frame_ppu(p: Ppu, s: SharedState) -> bool {
    spec_ppu_registers(p, s.io) && spec_ppu_raster(p, s, s.completed_hofs, s.completed_vofs, 0, 160)
}

/// The PPU line `y` is drawn with: the registers, and for owned
/// backgrounds that line of the current raster.
pub open spec fn spec_line_ppu(p: Ppu, s: SharedState, y: int) -> bool {
    spec_ppu_registers(p, s.io) && spec_ppu_raster(p, s, s.hofs, s.vofs, y, y + 1)
}

/// An object whose attributes would need the full-frame renderer: shown
/// (affine, or not disabled), normal mode, 16 colours.
pub open spec fn spec_obj_renderable(oam: Seq<u8>, i: int) -> bool {
    let attr0 = le16(oam, 8 * i);
    !(attr0 & 0x0100 == 0 && attr0 & 0x0200 != 0) && (attr0 >> 10u16) & 0x3 == 0 && attr0 & 0x2000 == 0
}

/// The line renderer can draw the frame: mode 0 without windows, without
/// renderable objects when objects are on, without blending, and without
/// mosaic on any enabled background.
pub open spec fn spec_supports_scanline_renderer(s: SharedState) -> bool {
    let dispcnt = io16(s.io, DISPCNT);
    &&& dispcnt & DISPCNT_MODE_MASK == MODE_0
    &&& dispcnt & (WIN0_ENABLE | WIN1_ENABLE | OBJ_WIN_ENABLE) == 0
    &&& !(dispcnt & OBJ_ENABLE != 0 && exists|i: int| 0 <= i < 128 && #[trigger] spec_obj_renderable(s.oam, i))
    &&& io16(s.io, BLDCNT) == 0
    &&& forall|bg: int| 0 <= bg < 4 ==> !(dispcnt & spec_bg_enable(bg) != 0
        && #[trigger] io16(s.io, (BG0CNT + 2 * bg) as u32) & 0x40 != 0)
}

/// DISPCNT's enable bit of background `bg`.
pub open spec fn spec_bg_enable(bg: int) -> u16 {
    if bg == 0 { 0x0100 } else if bg == 1 { 0x0200 } else if bg == 2 { 0x0400 } else { 0x0800 }
}

/// Frames must be drawn line by line: the guest takes HBlank interrupts
/// (enabled in DISPSTAT, IE and IME), or its HBlank handler owns some
/// background offsets.
pub open spec fn spec_needs_scanline_renderer(s: SharedState) -> bool {
    ||| (io16(s.io, DISPSTAT) & DISPSTAT_HBLANK_IRQ_ENABLE != 0 && io16(s.io, IE) & IRQ_HBLANK != 0 && io16(s.io, IME) & 1 != 0)
    ||| exists|bg: int| 0 <= bg < 4 && #[trigger] s.hofs_active[bg]
    ||| exists|bg: int| 0 <= bg < 4 && #[trigger] s.vofs_active[bg]
}

/// The frame just drawn becomes the completed one (the previous completed
/// buffer is reused for drawing) under the next frame number.
pub open spec fn spec_publish_completed_frame(s: SharedState) -> SharedState {
    let seq = s.frame_seq.wrapping_add(1);
    SharedState {
        work: s.completed,
        completed: s.work,
        frame_seq: seq,
        completed_frame_seq: seq,
        perf: VideoPerfSnapshot { frames: s.perf.frames.wrapping_add(1), ..s.perf },
        ..s
    }
}

/// `s1` is `s0` with line `y` of the frame being drawn rendered (nothing
/// changes for a line past the screen): the line's pixels come from the
/// line renderer with the PPU of `spec_line_ppu`, converted to ARGB.
pub open spec fn spec_line_rendered(s0: SharedState, s1: SharedState, y: int) -> bool {
    if y >= HEIGHT {
        s1 == s0
    } else {
        &&& s1 == (SharedState { work: s1.work, ..s0 })
        &&& s1.work.len() == s0.work.len()
        &&& exists|p: Ppu| #[trigger] spec_line_ppu(p, s0, y)
            && forall|i: int| 0 <= i < WIDTH * HEIGHT ==> #[trigger] s1.work[i]
                == (if y * WIDTH <= i < (y + 1) * WIDTH {
                    spec_argb(spec_scanline_pixel(p, s0.palette, s0.vram, i - y * WIDTH, y))
                } else {
                    s0.work[i]
                })
    }
}

/// A copy of the completed frame and its number.
#[derive(Debug)]
pub struct FrameSnapshot {
    pub seq: u64,
    pub pixels: FrameBuffer,
}

/// Counters after a vCPU MMIO exit at `addr`: every exit counts; a fast
/// exit counts as such; an access in the I/O area counts as a read or a
/// write and by register (IF, IME, BG scroll offsets, other).
pub open spec fn spec_record_kvm_mmio_exit(p: VideoPerfSnapshot, addr: u32, is_write: bool, is_fast_exit: bool) -> VideoPerfSnapshot {
    let p1 = VideoPerfSnapshot { kvm_mmio_exits: p.kvm_mmio_exits.wrapping_add(1), ..p };
    if is_fast_exit {
        VideoPerfSnapshot { kvm_mmio_fast_exit: p1.kvm_mmio_fast_exit.wrapping_add(1), ..p1 }
    } else if !(IO_START <= addr < IO_START + 0x400) {
        p1
    } else {
        let p2 = if is_write {
            VideoPerfSnapshot { kvm_mmio_io_writes: p1.kvm_mmio_io_writes.wrapping_add(1), ..p1 }
        } else {
            VideoPerfSnapshot { kvm_mmio_io_reads: p1.kvm_mmio_io_reads.wrapping_add(1), ..p1 }
        };
        if addr == IF {
            VideoPerfSnapshot { kvm_mmio_io_if: p2.kvm_mmio_io_if.wrapping_add(1), ..p2 }
        } else if addr == IME {
            VideoPerfSnapshot { kvm_mmio_io_ime: p2.kvm_mmio_io_ime.wrapping_add(1), ..p2 }
        } else if addr == BG0HOFS || addr == BG0HOFS + 4 || addr == BG0HOFS + 8 || addr == BG0HOFS + 12 {
            VideoPerfSnapshot { kvm_mmio_io_bg_hofs: p2.kvm_mmio_io_bg_hofs.wrapping_add(1), ..p2 }
        } else if addr == BG0VOFS || addr == BG0VOFS + 4 || addr == BG0VOFS + 8 || addr == BG0VOFS + 12 {
            VideoPerfSnapshot { kvm_mmio_io_bg_vofs: p2.kvm_mmio_io_bg_vofs.wrapping_add(1), ..p2 }
        } else {
            VideoPerfSnapshot { kvm_mmio_io_other: p2.kvm_mmio_io_other.wrapping_add(1), ..p2 }
        }
    }
}

/// Counters after an HBlank wait of `wait_us` microseconds.
pub open spec fn spec_record_hblank_wait(p: VideoPerfSnapshot, wait_us: u64, timeout: bool) -> VideoPerfSnapshot {
    VideoPerfSnapshot {
        hblank_wait_us: p.hblank_wait_us.wrapping_add(wait_us),
        hblank_wait_max_us: if wait_us > p.hblank_wait_max_us { wait_us } else { p.hblank_wait_max_us },
        hblank_wait_timeouts: if timeout { p.hblank_wait_timeouts.wrapping_add(1) } else { p.hblank_wait_timeouts },
        ..p
    }
}

/// The smallest of `s` (0 for an empty sequence).
pub open spec fn spec_min_u16(s: Seq<u16>) -> u16
    decreases s.len(),
{
    if s.len() == 0 {
        0
    } else if s.len() == 1 {
        s[0]
    } else {
        let m = spec_min_u16(s.drop_last());
        if s.last() < m { s.last() } else { m }
    }
}

/// The largest of `s` (0 for an empty sequence).
pub open spec fn spec_max_u16(s: Seq<u16>) -> u16
    decreases s.len(),
{
    if s.len() == 0 {
        0
    } else if s.len() == 1 {
        s[0]
    } else {
        let m = spec_max_u16(s.drop_last());
        if s.last() > m { s.last() } else { m }
    }
}

/// The sum of `s` modulo 2^32.
pub open spec fn spec_checksum(s: Seq<u16>) -> u32
    decreases s.len(),
{
    if s.len() == 0 { 0 } else { spec_checksum(s.drop_last()).wrapping_add(s.last() as u32) }
}

/// Number of nonzero halfwords among the first `n` of `bytes` from `base`.
pub open spec fn spec_count_nonzero(bytes: Seq<u8>, base: int, n: nat) -> nat
    decreases n,
{
    if n == 0 { 0 } else { spec_count_nonzero(bytes, base, (n - 1) as nat) + if le16(bytes, base + 2 * (n - 1)) != 0 { 1nat } else { 0 } }
}

/// A summary of the video state for diagnostics.
#[derive(Clone, Copy, Debug)]
pub struct KvmVideoDebugState {
    pub dispcnt: u16,
    pub bg0cnt: u16,
    pub bg1cnt: u16,
    pub bg2cnt: u16,
    pub bg0hofs: u16,
    pub bg1hofs: u16,
    pub keyinput: u16,
    pub irq_waitflags: u16,
    pub mosaic: u16,
    pub dma3cnt: u16,
    pub vram0: u16,
    pub bg0_map_nonzero: usize,
    pub bg0_text_1: u16,
    pub bg0_text_2: u16,
    pub cycle_digit_10: u16,
    pub cycle_digit_1: u16,
    pub cx_digit_10: u16,
    pub cx_digit_1: u16,
    pub bg1_raster_min: u16,
    pub bg1_raster_max: u16,
    pub bg1_raster_sample: u16,
    pub bg1_raster_checksum: u32,
}

/// Screen block of the diagnostic text layer, and the map entry of its
/// column `x`, row `y`.
pub const DEBUG_SCREEN_BLOCK: usize = 29;

pub open spec fn debug_map_entry(vram: Seq<u8>, x: int, y: int) -> u16 {
    le16(vram, 29 * 0x800 + (x + y * 32) * 2)
}

/// The diagnostic summary: a few registers, the IRQ wait flags in IWRAM,
/// the first VRAM halfword, the text layer's nonzero map entries and a few
/// of its cells, and BG1's completed horizontal raster (range, line 80,
/// checksum).
pub open spec fn spec_debug_video_state(s: SharedState, d: KvmVideoDebugState) -> bool {
    let bg1 = s.completed_hofs.subrange(160, 320);
    &&& d.dispcnt == io16(s.io, DISPCNT) && d.bg0cnt == io16(s.io, BG0CNT) && d.bg1cnt == io16(s.io, BG1CNT)
    &&& d.bg2cnt == io16(s.io, BG2CNT) && d.bg0hofs == io16(s.io, BG0HOFS) && d.bg1hofs == io16(s.io, BG1HOFS)
    &&& d.keyinput == io16(s.io, KEYINPUT) && d.irq_waitflags == le16(s.iwram, 0x7ff8)
    &&& d.mosaic == io16(s.io, MOSAIC) && d.dma3cnt == io16(s.io, (DMA0SAD + 3 * 12 + 10) as u32)
    &&& d.vram0 == le16(s.vram, 0)
    &&& d.bg0_map_nonzero == spec_count_nonzero(s.vram, 29 * 0x800int, 0x400)
    &&& d.bg0_text_1 == debug_map_entry(s.vram, 1, 1) && d.bg0_text_2 == debug_map_entry(s.vram, 1, 2)
    &&& d.cycle_digit_10 == debug_map_entry(s.vram, 11, 1) && d.cycle_digit_1 == debug_map_entry(s.vram, 12, 1)
    &&& d.cx_digit_10 == debug_map_entry(s.vram, 11, 2) && d.cx_digit_1 == debug_map_entry(s.vram, 12, 2)
    &&& d.bg1_raster_min == spec_min_u16(bg1) && d.bg1_raster_max == spec_max_u16(bg1)
    &&& d.bg1_raster_sample == s.completed_hofs[240int]
    &&& d.bg1_raster_checksum == spec_checksum(bg1)
}

impl KvmSharedMemory {
    pub open spec fn state(&self) -> SharedState {
        SharedState {
            ewram: self.ewram@,
            iwram: self.iwram@,
            io: self.io@,
            palette: self.palette@,
            vram: self.vram@,
            oam: self.oam@,
            fast: self.fast@,
            rom: self.rom@,
            timers: self.timers.timers@,
            fifo_a: self.audio.fifo_a@,
            fifo_b: self.audio.fifo_b@,
            pcm: self.audio.pcm@,
            hofs: self.raster.hofs@,
            completed_hofs: self.raster.completed_hofs@,
            vofs: self.raster.vofs@,
            completed_vofs: self.raster.completed_vofs@,
            hofs_active: self.bghofs_scanline_active@,
            vofs_active: self.bgvofs_scanline_active@,
            work: self.frame_buffers.work@,
            completed: self.frame_buffers.completed@,
            frame_seq: self.frame_buffers.seq,
            completed_frame_seq: self.completed_frame_seq,
            hblank_requested_seq: self.hblank_requested_seq,
            hblank_completed_seq: self.hblank_completed_seq,
            hblank_latch_vcount: self.hblank_latch_vcount,
            hblank_latch_seq: self.hblank_latch_seq,
            hblank_pending_count: self.hblank_pending_count,
            perf: self.perf,
            irq_asserted: self.interrupt_line.asserted,
            irq_levels: self.interrupt_line.levels@,
        }
    }

    /// Every area has the size the guest sees, the rasters cover four
    /// backgrounds of visible lines, the frames cover the screen, and the
    /// timers are consistent.
    pub open spec fn wf(&self) -> bool {
        spec_shared_wf(self.state())
    }

    pub fn read_io_u16(&self, addr: u32) -> (r: u16)
        requires
            IO_START <= addr,
            addr - IO_START + 1 < self.io@.len(),
        ensures
            r == io16(self.io@, addr),
    {
        read_u16(self.io.as_slice(), (addr - IO_START) as usize)
    }

    pub fn write_io_u16(&mut self, addr: u32, value: u16)
        requires
            IO_START <= addr,
            addr - IO_START + 1 < old(self).io@.len(),
        ensures
            final(self).state() == (SharedState { io: set_io16(old(self).io@, addr, value), ..old(self).state() }),
    {
        write_u16(&mut self.io, (addr - IO_START) as usize, value);
    }

    fn line_set(&mut self, asserted: bool)
        ensures
            final(self).state() == spec_line_set(old(self).state(), asserted),
    {
        if self.interrupt_line.asserted == asserted {
            return;
        }
        self.interrupt_line.asserted = asserted;
        self.interrupt_line.levels.push(asserted);
    }

    fn line_pulse(&mut self)
        ensures
            final(self).state() == spec_line_pulse(old(self).state()),
    {
        self.interrupt_line.asserted = true;
        self.interrupt_line.levels.push(false);
        self.interrupt_line.levels.push(true);
    }

    /// Hands over the pending interrupt-line level changes, oldest first.
    pub fn take_irq_levels(&mut self) -> (r: Vec<bool>)
        ensures
            r@ == old(self).interrupt_line.levels@,
            final(self).state() == (SharedState { irq_levels: Seq::empty(), ..old(self).state() }),
    {
        let mut levels: Vec<bool> = Vec::new();
        std::mem::swap(&mut levels, &mut self.interrupt_line.levels);
        levels
    }

    fn update_interrupt_line(&mut self)
        requires
            spec_shared_wf(old(self).state()),
        ensures
            final(self).state() == spec_update_interrupt_line(old(self).state()),
    {
        let enabled = self.read_io_u16(IE);
        let requested = self.read_io_u16(IF);
        let ime = self.read_io_u16(IME);
        let asserted = interrupt_asserted(enabled, requested, ime);
        self.line_set(asserted);
    }

    fn request_interrupt(&mut self, interrupt: u16)
        requires
            spec_shared_wf(old(self).state()),
        ensures
            final(self).state() == spec_request_interrupt(old(self).state(), interrupt),
    {
        let requested = self.read_io_u16(IF);
        self.write_io_u16(IF, requested | interrupt);
        self.update_interrupt_line();
    }

    /// A shared state over the given guest memory areas and ROM, with the
    /// BG2 affine matrix set to the identity.
    pub fn new(
        ewram: Vec<u8>,
        iwram: Vec<u8>,
        io: Vec<u8>,
        palette: Vec<u8>,
        vram: Vec<u8>,
        oam: Vec<u8>,
        fast: Vec<u8>,
        rom: &[u8],
    ) -> (r: Self)
        requires
            ewram@.len() == EWRAM_SIZE,
            iwram@.len() == IWRAM_SIZE,
            io@.len() == IO_SLOT_SIZE,
            palette@.len() >= PALETTE_SIZE,
            vram@.len() == VRAM_SIZE,
            oam@.len() >= OAM_SIZE,
            fast@.len() == FAST_MEM_SIZE,
        ensures
            r.wf(),
            spec_initial_shared(ewram@, iwram@, io@, palette@, vram@, oam@, fast@, rom@, r.state()),
    {
        let mut shared = KvmSharedMemory {
            ewram,
            iwram,
            io,
            palette,
            vram,
            oam,
            fast,
            rom: vstd::slice::slice_to_vec(rom),
            timers: Timers::new(),
            audio: AudioState {
                fifo_a: VecDeque::with_capacity(AUDIO_FIFO_CAPACITY),
                fifo_b: VecDeque::with_capacity(AUDIO_FIFO_CAPACITY),
                pcm: VecDeque::with_capacity(AUDIO_PCM_CAPACITY),
            },
            raster: BgOffsetRaster {
                hofs: vec![0u16; RASTER_LEN],
                completed_hofs: vec![0u16; RASTER_LEN],
                vofs: vec![0u16; RASTER_LEN],
                completed_vofs: vec![0u16; RASTER_LEN],
            },
            bghofs_scanline_active: [false; 4],
            bgvofs_scanline_active: [false; 4],
            frame_buffers: FrameBuffers {
                work: vec![0u32; WIDTH * HEIGHT],
                completed: vec![0u32; WIDTH * HEIGHT],
                seq: 0,
            },
            completed_frame_seq: 0,
            hblank_requested_seq: 0,
            hblank_completed_seq: 0,
            hblank_latch_vcount: 0xffff,
            hblank_latch_seq: 0,
            hblank_pending_count: 0,
            perf: VideoPerfSnapshot {
                frames: 0, render_scanline_us: 0, hblank_wait_us: 0, hblank_wait_max_us: 0,
                hblank_wait_timeouts: 0, fast_hblank_us: 0, fast_hblank_count: 0,
                fast_hblank_shared_count: 0, fast_hblank_mmio_count: 0, kvm_mmio_exits: 0,
                kvm_mmio_fast_exit: 0, kvm_mmio_io_reads: 0, kvm_mmio_io_writes: 0, kvm_mmio_io_if: 0,
                kvm_mmio_io_ime: 0, kvm_mmio_io_bg_hofs: 0, kvm_mmio_io_bg_vofs: 0,
                kvm_mmio_io_other: 0, sdl_present_us: 0,
            },
            interrupt_line: InterruptLine { asserted: false, levels: Vec::new() },
        };
        proof {
            assert(shared.raster.hofs@ =~= Seq::new(RASTER_LEN as nat, |i: int| 0u16));
            assert(shared.raster.completed_hofs@ =~= Seq::new(RASTER_LEN as nat, |i: int| 0u16));
            assert(shared.raster.vofs@ =~= Seq::new(RASTER_LEN as nat, |i: int| 0u16));
            assert(shared.raster.completed_vofs@ =~= Seq::new(RASTER_LEN as nat, |i: int| 0u16));
            assert(shared.bghofs_scanline_active@ =~= seq![false, false, false, false]);
            assert(shared.bgvofs_scanline_active@ =~= seq![false, false, false, false]);
            assert(shared.frame_buffers.work@ =~= Seq::new((WIDTH * HEIGHT) as nat, |i: int| 0u32));
            assert(shared.frame_buffers.completed@ =~= Seq::new((WIDTH * HEIGHT) as nat, |i: int| 0u32));
        }
        shared.write_io_u16(BG2PA, 0x0100);
        shared.write_io_u16(BG2PD, 0x0100);
        shared
    }

    /// Stores the key state in KEYINPUT.
    pub fn set_keyinput(&mut self, value: u16)
        requires
            old(self).wf(),
        ensures
            final(self).wf(),
            final(self).state() == (SharedState { io: set_io16(old(self).io@, KEYINPUT, value), ..old(self).state() }),
    {
        self.write_io_u16(KEYINPUT, value);
    }

    /// An HBlank interrupt is requested in IF.
    pub fn hblank_irq_pending(&self) -> (r: bool)
        requires
            self.wf(),
        ensures
            r == (io16(self.io@, IF) & IRQ_HBLANK != 0),
    {
        self.read_io_u16(IF) & IRQ_HBLANK != 0
    }

    /// Answers a guest read of `len` bytes at `addr`: the bytes of the I/O
    /// page, zero-padded to eight.
    pub fn copy_io_read(&self, addr: u32, len: u32, data: &mut [u8; 8])
        requires
            self.wf(),
            io_access_ok(addr, len),
        ensures
            forall|i: int| 0 <= i < 8 ==> #[trigger] final(data)@[i]
                == (if i < len { self.io@[addr - IO_START + i] } else { 0u8 }),
    {
        let offset = (addr - IO_START) as usize;
        let mut i: usize = 0;
        while i < 8
            invariant
                i <= 8,
                self.wf(),
                io_access_ok(addr, len),
                offset == addr - IO_START,
                forall|j: int| 0 <= j < i ==> #[trigger] data@[j]
                    == (if j < len { self.io@[offset + j] } else { 0u8 }),
            decreases 8 - i,
        {
            if (i as u32) < len {
                data[i] = self.io[offset + i];
            } else {
                data[i] = 0;
            }
            i += 1;
        }
    }

    fn push_fifo_byte(&mut self, fifo: usize, sample: i8)
        ensures
            final(self).state() == spec_push_fifo_byte(old(self).state(), fifo as int, sample),
    {
        if fifo == 0 {
            if self.audio.fifo_a.len() >= AUDIO_FIFO_CAPACITY {
                self.audio.fifo_a.pop_front();
            }
            self.audio.fifo_a.push_back(sample);
        } else {
            if self.audio.fifo_b.len() >= AUDIO_FIFO_CAPACITY {
                self.audio.fifo_b.pop_front();
            }
            self.audio.fifo_b.push_back(sample);
        }
    }

    fn handle_audio_io_write(&mut self, addr: u32, len: u32, data: &[u8; 8])
        requires
            io_access_ok(addr, len),
        ensures
            final(self).state() == spec_audio_io_write(old(self).state(), addr, len, data@),
            final(self).state() == (SharedState {
                fifo_a: final(self).audio.fifo_a@,
                fifo_b: final(self).audio.fifo_b@,
                ..old(self).state()
            }),
    {
        let ghost s0 = self.state();
        if let Some(write) = io_register_write(SOUNDCNT_H, addr, len, data) {
            if write.value & SOUND_A_RESET != 0 {
                self.audio.fifo_a.clear();
            }
            if write.value & SOUND_B_RESET != 0 {
                self.audio.fifo_b.clear();
            }
        }
        let ghost s1 = self.state();
        let mut i: u32 = 0;
        while i < len
            invariant
                i <= len,
                io_access_ok(addr, len),
                self.state() == spec_fifo_bytes(s1, addr, data@, i as nat),
                self.state() == (SharedState { fifo_a: self.audio.fifo_a@, fifo_b: self.audio.fifo_b@, ..s0 }),
            decreases len - i,
        {
            let byte_addr = addr + i;
            if FIFO_A <= byte_addr && byte_addr < FIFO_A + 4 {
                self.push_fifo_byte(0, data[i as usize] as i8);
            } else if FIFO_B <= byte_addr && byte_addr < FIFO_B + 4 {
                self.push_fifo_byte(1, data[i as usize] as i8);
            }
            i += 1;
        }
    }

    /// Mirrors a guest write of `len` bytes of `data` at I/O address `addr`
    /// (see `spec_mirror_io_write`).
    pub fn mirror_io_write(&mut self, addr: u32, len: u32, data: &[u8; 8])
        requires
            old(self).wf(),
            io_access_ok(addr, len),
        ensures
            final(self).wf(),
            final(self).state() == spec_mirror_io_write(old(self).state(), addr, len, data@),
    {
        let old_if = self.read_io_u16(IF);
        let old_dispstat = self.read_io_u16(DISPSTAT);
        let if_write = io_register_write(IF, addr, len, data);
        let dispstat_write = io_register_write(DISPSTAT, addr, len, data);
        let offset = (addr - IO_START) as usize;
        let ghost io0 = self.io@;
        let ghost s0 = self.state();
        let mut i: usize = 0;
        while i < len as usize
            invariant
                i <= len,
                spec_shared_wf(s0),
                s0.io == io0,
                self.state() == (SharedState { io: self.io@, ..s0 }),
                io_access_ok(addr, len),
                offset == addr - IO_START,
                self.io@.len() == io0.len(),
                forall|j: int| 0 <= j < io0.len() ==> #[trigger] self.io@[j]
                    == (if offset <= j < offset + i { data@[j - offset] } else { io0[j] }),
            decreases len - i,
        {
            self.io.set(offset + i, data[i]);
            i += 1;
        }
        proof {
            assert(self.io@ =~= spec_copy_bytes(io0, offset as int, data@, len as int));
        }
        if let Some(write) = if_write {
            self.write_io_u16(IF, old_if & !write.value);
        }
        if let Some(write) = dispstat_write {
            let writable = write.value & DISPSTAT_WRITABLE_MASK;
            let preserved = old_dispstat & !write.mask;
            let status = old_dispstat & DISPSTAT_STATUS_MASK;
            self.write_io_u16(DISPSTAT, status | preserved | writable);
        }
        self.handle_audio_io_write(addr, len, data);
        self.update_interrupt_line();
    }

    pub fn read_fast_hblank_u16(&self, offset: usize) -> (r: u16)
        requires
            spec_shared_wf(self.state()),
            offset <= 46,
        ensures
            r == fast16(self.fast@, offset as int),
    {
        read_u16(self.fast.as_slice(), FAST_CTRL_OFFSET + offset)
    }

    pub fn read_fast_hblank_u32(&self, offset: usize) -> (r: u32)
        requires
            spec_shared_wf(self.state()),
            offset <= 44,
        ensures
            r == fast32(self.fast@, offset as int),
    {
        read_u32(self.fast.as_slice(), FAST_CTRL_OFFSET + offset)
    }

    pub fn read_fast_hblank_u64(&self, offset: usize) -> (r: u64)
        requires
            spec_shared_wf(self.state()),
            offset <= 40,
        ensures
            r == fast64(self.fast@, offset as int),
    {
        let low = self.read_fast_hblank_u32(offset) as u64;
        let high = self.read_fast_hblank_u32(offset + 4) as u64;
        low + high * 0x1_0000_0000
    }

    pub fn write_fast_hblank_u16(&mut self, offset: usize, value: u16)
        requires
            spec_shared_wf(old(self).state()),
            offset <= 46,
        ensures
            final(self).state() == (SharedState { fast: set_fast16(old(self).fast@, offset as int, value), ..old(self).state() }),
    {
        write_u16(&mut self.fast, FAST_CTRL_OFFSET + offset, value);
    }

    pub fn write_fast_hblank_u32(&mut self, offset: usize, value: u32)
        requires
            spec_shared_wf(old(self).state()),
            offset <= 44,
        ensures
            final(self).state() == (SharedState { fast: set_fast32(old(self).fast@, offset as int, value), ..old(self).state() }),
    {
        write_u32(&mut self.fast, FAST_CTRL_OFFSET + offset, value);
    }

    pub fn write_fast_hblank_u64(&mut self, offset: usize, value: u64)
        requires
            spec_shared_wf(old(self).state()),
            offset <= 40,
        ensures
            final(self).state() == (SharedState { fast: set_fast64(old(self).fast@, offset as int, value), ..old(self).state() }),
    {
        self.write_fast_hblank_u32(offset, (value % 0x1_0000_0000) as u32);
        self.write_fast_hblank_u32(offset + 4, (value / 0x1_0000_0000) as u32);
    }

    pub fn read_shadow_io_u16(&self, addr: u32) -> (r: u16)
        requires
            spec_shared_wf(self.state()),
            IO_START <= addr,
            addr - IO_START + 1 < IO_SLOT_SIZE,
        ensures
            r == shadow16(self.fast@, addr),
    {
        read_u16(self.fast.as_slice(), SHADOW_IO_OFFSET + (addr - IO_START) as usize)
    }

    pub fn write_shadow_io_u16(&mut self, addr: u32, value: u16)
        requires
            spec_shared_wf(old(self).state()),
            IO_START <= addr,
            addr - IO_START + 1 < IO_SLOT_SIZE,
        ensures
            final(self).state() == (SharedState { fast: set_shadow16(old(self).fast@, addr, value), ..old(self).state() }),
    {
        write_u16(&mut self.fast, SHADOW_IO_OFFSET + (addr - IO_START) as usize, value);
    }

    fn prepare_fast_hblank(&mut self, vcount: u16)
        requires
            spec_shared_wf(old(self).state()),
        ensures
            final(self).state() == spec_prepare_fast_hblank(old(self).state(), vcount),
    {
        let ghost f0 = self.fast@;
        let ghost s0 = self.state();
        let mut i: usize = 0;
        while i < IO_SLOT_SIZE
            invariant
                i <= IO_SLOT_SIZE,
                spec_shared_wf(s0),
                s0.fast == f0,
                self.state() == (SharedState { fast: self.fast@, ..s0 }),
                self.fast@.len() == FAST_MEM_SIZE,
                self.io@.len() == IO_SLOT_SIZE,
                f0.len() == FAST_MEM_SIZE,
                forall|j: int| 0 <= j < FAST_MEM_SIZE ==> #[trigger] self.fast@[j]
                    == (if SHADOW_IO_OFFSET <= j < SHADOW_IO_OFFSET + i { self.io@[j - SHADOW_IO_OFFSET] } else { f0[j] }),
            decreases IO_SLOT_SIZE - i,
        {
            let byte = self.io[i];
            self.fast.set(SHADOW_IO_OFFSET + i, byte);
            i += 1;
        }
        proof {
            assert(self.fast@ =~= spec_shadow_copy(f0, self.io@));
        }
        let seq = self.hblank_latch_seq;
        self.write_fast_hblank_u64(FAST_HBLANK_REQUESTED_SEQ_OFFSET, seq);
        self.write_fast_hblank_u64(FAST_HBLANK_COMPLETED_SEQ_OFFSET, 0);
        self.write_fast_hblank_u16(FAST_HBLANK_VCOUNT_OFFSET, vcount);
        self.write_fast_hblank_u32(FAST_HBLANK_DIRTY_MASK_OFFSET, 0);
        self.write_shadow_io_u16(VCOUNT, vcount);
        let requested = self.read_io_u16(IF) | IRQ_HBLANK;
        self.write_shadow_io_u16(IF, requested);
        let status = self.read_io_u16(DISPSTAT) | DISPSTAT_HBLANK;
        self.write_shadow_io_u16(DISPSTAT, status);
        self.write_fast_hblank_u32(FAST_HBLANK_KIND_OFFSET, FAST_CTRL_HBLANK);
    }

    /// Enters HBlank on the current line (see `spec_enter_hblank`); returns
    /// the number of the request handed to the guest, if any.
    pub fn enter_hblank(&mut self) -> (r: Option<u64>)
        requires
            old(self).wf(),
            old(self).hblank_requested_seq < u64::MAX,
        ensures
            final(self).wf(),
            (final(self).state(), r) == spec_enter_hblank(old(self).state()),
    {
        let old_dispstat = self.read_io_u16(DISPSTAT);
        let dispstat = old_dispstat | DISPSTAT_HBLANK;
        self.write_io_u16(DISPSTAT, dispstat);
        if old_dispstat & DISPSTAT_HBLANK != 0 {
            return None;
        }
        let vcount = self.read_io_u16(VCOUNT);
        if dispstat & DISPSTAT_HBLANK_IRQ_ENABLE == 0 || self.read_io_u16(DISPCNT) == 0
            || !(vcount < 160 || vcount == 227) {
            return None;
        }
        if self.read_io_u16(IF) & IRQ_HBLANK != 0 {
            if self.read_io_u16(IE) & IRQ_HBLANK != 0 && self.read_io_u16(IME) & 1 != 0 {
                self.hblank_pending_count = self.hblank_pending_count.wrapping_add(1);
            }
            return None;
        }
        self.hblank_pending_count = 0;
        self.hblank_requested_seq = self.hblank_requested_seq + 1;
        let seq = self.hblank_requested_seq;
        self.hblank_latch_vcount = vcount;
        self.hblank_latch_seq = seq;
        self.prepare_fast_hblank(vcount);
        self.request_interrupt(IRQ_HBLANK);
        self.line_pulse();
        Some(seq)
    }

    fn apply_offset(&mut self, vertical: bool, index: usize, value: u16, target: Option<usize>)
        requires
            spec_shared_wf(old(self).state()),
            index < 4,
            target matches Some(line) ==> line < 160,
        ensures
            spec_shared_wf(final(self).state()),
            final(self).state() == spec_offset_update(old(self).state(), vertical, index as int, value, target),
    {
        if vertical {
            self.write_io_u16(BG0VOFS + 4 * index as u32, value);
            if let Some(line) = target {
                self.raster.vofs.set(index * 160 + line, value);
                self.bgvofs_scanline_active[index] = true;
            }
        } else {
            self.write_io_u16(BG0HOFS + 4 * index as u32, value);
            if let Some(line) = target {
                self.raster.hofs.set(index * 160 + line, value);
                self.bghofs_scanline_active[index] = true;
            }
        }
    }

    /// Completes the current HBlank request through the handler's MMIO exit
    /// (see `spec_finish_fast_hblank`).
    pub fn finish_fast_hblank(&mut self)
        requires
            old(self).wf(),
        ensures
            final(self).wf(),
            final(self).state() == spec_finish_fast_hblank(old(self).state()),
    {
        self.write_fast_hblank_u32(FAST_HBLANK_KIND_OFFSET, FAST_CTRL_NONE);
        let ack = self.read_shadow_io_u16(IF) | IRQ_HBLANK;
        let requested = self.read_io_u16(IF) & !ack;
        self.write_io_u16(IF, requested);
        let ime = self.read_shadow_io_u16(IME);
        self.write_io_u16(IME, ime);
        let target = hblank_target_line(self.hblank_latch_vcount);
        let ghost s1 = self.state();
        let mut index: usize = 0;
        while index < 4
            invariant
                index <= 4,
                spec_shared_wf(self.state()),
                target == spec_hblank_target_line(s1.hblank_latch_vcount),
                target matches Some(line) ==> line < 160,
                self.state() == spec_shadow_offsets(s1, false, target, index as nat),
            decreases 4 - index,
        {
            let value = self.read_shadow_io_u16(BG0HOFS + 4 * index as u32);
            self.apply_offset(false, index, value, target);
            index += 1;
        }
        let ghost s2 = self.state();
        let mut index: usize = 0;
        while index < 4
            invariant
                index <= 4,
                spec_shared_wf(self.state()),
                target == spec_hblank_target_line(s1.hblank_latch_vcount),
                target matches Some(line) ==> line < 160,
                self.state() == spec_shadow_offsets(s2, true, target, index as nat),
            decreases 4 - index,
        {
            let value = self.read_shadow_io_u16(BG0VOFS + 4 * index as u32);
            self.apply_offset(true, index, value, target);
            index += 1;
        }
        self.hblank_completed_seq = self.hblank_latch_seq;
        self.update_interrupt_line();
        self.perf.fast_hblank_count = self.perf.fast_hblank_count.wrapping_add(1);
        self.perf.fast_hblank_mmio_count = self.perf.fast_hblank_mmio_count.wrapping_add(1);
    }

    /// Applies completion `seq` published in the control block (see
    /// `spec_finish_fast_hblank_from_shared`).
    pub fn finish_fast_hblank_from_shared(&mut self, seq: u64)
        requires
            old(self).wf(),
        ensures
            final(self).wf(),
            final(self).state() == spec_finish_fast_hblank_from_shared(old(self).state(), seq),
    {
        self.write_fast_hblank_u32(FAST_HBLANK_KIND_OFFSET, FAST_CTRL_NONE);
        let dirty_mask = self.read_fast_hblank_u32(FAST_HBLANK_DIRTY_MASK_OFFSET);
        let ack = if dirty_mask & FAST_HBLANK_DIRTY_IF_ACK != 0 {
            self.read_fast_hblank_u16(FAST_HBLANK_IF_ACK_OFFSET)
        } else {
            IRQ_HBLANK
        };
        let requested = self.read_io_u16(IF) & !ack;
        self.write_io_u16(IF, requested);
        if dirty_mask & FAST_HBLANK_DIRTY_IME != 0 {
            let ime = self.read_fast_hblank_u16(FAST_HBLANK_IME_OFFSET);
            self.write_io_u16(IME, ime);
        }
        let target = hblank_target_line(self.hblank_latch_vcount);
        let ghost s1 = self.state();
        let mut index: usize = 0;
        while index < 4
            invariant
                index <= 4,
                spec_shared_wf(self.state()),
                target == spec_hblank_target_line(s1.hblank_latch_vcount),
                target matches Some(line) ==> line < 160,
                self.state() == spec_block_offsets(s1, false, dirty_mask, target, index as nat),
            decreases 4 - index,
        {
            if dirty_mask & (FAST_HBLANK_DIRTY_BG_HOFS0 << index as u32) != 0 {
                let value = self.read_fast_hblank_u16(FAST_HBLANK_BG_HOFS_OFFSET + index * 2);
                self.apply_offset(false, index, value, target);
            }
            index += 1;
        }
        let ghost s2 = self.state();
        let mut index: usize = 0;
        while index < 4
            invariant
                index <= 4,
                spec_shared_wf(self.state()),
                target == spec_hblank_target_line(s1.hblank_latch_vcount),
                target matches Some(line) ==> line < 160,
                self.state() == spec_block_offsets(s2, true, dirty_mask, target, index as nat),
            decreases 4 - index,
        {
            if dirty_mask & (FAST_HBLANK_DIRTY_BG_VOFS0 << index as u32) != 0 {
                let value = self.read_fast_hblank_u16(FAST_HBLANK_BG_VOFS_OFFSET + index * 2);
                self.apply_offset(true, index, value, target);
            }
            index += 1;
        }
        self.hblank_completed_seq = seq;
        self.update_interrupt_line();
        self.perf.fast_hblank_count = self.perf.fast_hblank_count.wrapping_add(1);
        self.perf.fast_hblank_shared_count = self.perf.fast_hblank_shared_count.wrapping_add(1);
    }

    /// One check for completion of request `seq` (see
    /// `spec_poll_hblank_complete`); the waiting itself is the caller's.
    pub fn poll_hblank_complete(&mut self, seq: u64) -> (r: bool)
        requires
            old(self).wf(),
        ensures
            final(self).wf(),
            (final(self).state(), r) == spec_poll_hblank_complete(old(self).state(), seq),
    {
        if self.hblank_completed_seq >= seq {
            return true;
        }
        let shared_completed_seq = self.read_fast_hblank_u64(FAST_HBLANK_COMPLETED_SEQ_OFFSET);
        if shared_completed_seq >= seq {
            self.finish_fast_hblank_from_shared(seq);
            return true;
        }
        false
    }

    pub fn read_io_u32(&self, addr: u32) -> (r: u32)
        requires
            spec_shared_wf(self.state()),
            IO_START <= addr,
            addr - IO_START + 3 < IO_SLOT_SIZE,
        ensures
            r == io32(self.io@, addr),
    {
        let low = self.read_io_u16(addr) as u32;
        let high = self.read_io_u16(addr + 2) as u32;
        low + high * 65536
    }

    fn dma_read_halfword(&self, addr: u32) -> (r: u16)
        requires
            spec_shared_wf(self.state()),
            rom_fits(self.state()),
            !spec_dma_read_faults(self.state(), addr),
        ensures
            r == spec_dma_read(self.state(), addr),
    {
        let rom_len = self.rom.len() as u32;
        if GAME_PAK_ROM_START <= addr && addr < GAME_PAK_ROM_START + rom_len {
            let offset = (addr - GAME_PAK_ROM_START) as usize;
            if offset < self.rom.len() && self.rom.len() - offset > 1 {
                return read_u16(self.rom.as_slice(), offset);
            }
            return 0xffff;
        }
        match dma_memory_region(self, addr) {
            Some((memory, offset)) => read_u16(memory, offset),
            None => 0,
        }
    }

    /// Whether a DMA halfword read at `addr` cannot complete.
    fn dma_read_faults(&self, addr: u32) -> (r: bool)
        requires
            spec_shared_wf(self.state()),
            rom_fits(self.state()),
        ensures
            r == spec_dma_read_faults(self.state(), addr),
    {
        let rom_len = self.rom.len() as u32;
        if GAME_PAK_ROM_START <= addr && addr < GAME_PAK_ROM_START + rom_len {
            return false;
        }
        match dma_memory_region(self, addr) {
            Some((memory, offset)) => offset >= memory.len() || memory.len() - offset <= 1,
            None => false,
        }
    }

    fn dma_write_halfword(&mut self, addr: u32, value: u16)
        requires
            spec_shared_wf(old(self).state()),
            !spec_dma_write_faults(old(self).state(), addr),
        ensures
            spec_shared_wf(final(self).state()),
            final(self).state() == spec_dma_write(old(self).state(), addr, value),
    {
        if FIFO_A <= addr && addr < FIFO_A + 4 {
            self.push_fifo_byte(0, (value % 256) as u8 as i8);
            self.push_fifo_byte(0, (value / 256) as u8 as i8);
            return;
        }
        if FIFO_B <= addr && addr < FIFO_B + 4 {
            self.push_fifo_byte(1, (value % 256) as u8 as i8);
            self.push_fifo_byte(1, (value / 256) as u8 as i8);
            return;
        }
        if EWRAM_START <= addr && addr < EWRAM_START + EWRAM_SIZE as u32 {
            write_u16(&mut self.ewram, (addr - EWRAM_START) as usize, value);
        } else if IWRAM_START <= addr && addr < IWRAM_START + IWRAM_SIZE as u32 {
            write_u16(&mut self.iwram, (addr - IWRAM_START) as usize, value);
        } else if PALETTE_START <= addr && addr < PALETTE_START + PALETTE_SIZE as u32 {
            write_u16(&mut self.palette, (addr - PALETTE_START) as usize, value);
        } else if VRAM_START <= addr && addr < VRAM_START + VRAM_SIZE as u32 {
            write_u16(&mut self.vram, (addr - VRAM_START) as usize, value);
        } else if OAM_START <= addr && addr < OAM_START + OAM_SIZE as u32 {
            write_u16(&mut self.oam, (addr - OAM_START) as usize, value);
        }
    }

    /// Runs a DMA transfer (see `spec_run_dma`).
    #[verifier::spinoff_prover]
    #[verifier::rlimit(40)]
    fn run_dma(&mut self, channel: usize, source: u32, destination: u32, count: u16, control: u16)
        requires
            spec_shared_wf(old(self).state()),
            rom_fits(old(self).state()),
            !spec_run_dma_faults(old(self).state(), channel as int, source, destination, count, control),
        ensures
            spec_shared_wf(final(self).state()),
            rom_fits(final(self).state()),
            final(self).state() == spec_run_dma(old(self).state(), channel as int, source, destination, count, control),
    {
        let unit_size: i32 = if control & DMA_32BIT != 0 { 4 } else { 2 };
        let count: u32 = if count == 0 {
            if channel == 3 { 0x10000 } else { 0x4000 }
        } else {
            count as u32
        };
        let source_step = dma_addr_step((control >> 7) & 0x3, unit_size);
        let destination_step = dma_addr_step((control >> 5) & 0x3, unit_size);
        let word = unit_size == 4;
        let ghost target = spec_dma_units(self.state(), source, destination, count as nat, word, source_step as int, destination_step as int);
        let mut source = source;
        let mut destination = destination;
        let mut k: u32 = 0;
        while k < count
            invariant
                k <= count,
                spec_shared_wf(self.state()),
                rom_fits(self.state()),
                -4 <= source_step <= 4,
                -4 <= destination_step <= 4,
                spec_dma_units(self.state(), source, destination, (count - k) as nat, word, source_step as int, destination_step as int) == target,
                !spec_dma_units_fault(self.state(), source, destination, (count - k) as nat, word, source_step as int, destination_step as int),
            decreases count - k,
        {
            if word {
                let low = self.dma_read_halfword(source);
                let high = self.dma_read_halfword(source.wrapping_add(2));
                self.dma_write_halfword(destination, low);
                self.dma_write_halfword(destination.wrapping_add(2), high);
            } else {
                let value = self.dma_read_halfword(source);
                self.dma_write_halfword(destination, value);
            }
            source = wrapping_add_signed(source, source_step);
            destination = wrapping_add_signed(destination, destination_step);
            k += 1;
        }
    }

    fn run_immediate_dma_if_enabled(&mut self, addr: u32)
        requires
            spec_shared_wf(old(self).state()),
            rom_fits(old(self).state()),
            !spec_immediate_dma_faults(old(self).state(), addr),
        ensures
            spec_shared_wf(final(self).state()),
            rom_fits(final(self).state()),
            final(self).state() == spec_immediate_dma(old(self).state(), addr),
    {
        let channel = match dma_channel_for_cnt_high(addr) {
            Some(channel) => channel,
            None => return,
        };
        let base = DMA0SAD + channel as u32 * 12;
        let control = self.read_io_u16(base + 10);
        if control & DMA_ENABLE == 0 || control & DMA_TIMING_MASK != 0 {
            return;
        }
        let source = self.read_io_u32(base);
        let destination = self.read_io_u32(base + 4);
        let count = self.read_io_u16(base + 8);
        self.run_dma(channel, source, destination, count, control);
        if control & DMA_REPEAT == 0 {
            self.write_io_u16(base + 10, control & !DMA_ENABLE);
        }
    }

    /// Starts the immediate DMA transfers that a guest write of `len` bytes
    /// at I/O address `addr` enables.
    pub fn run_immediate_dma_for_io_write(&mut self, addr: u32, len: u32)
        requires
            old(self).wf(),
            rom_fits(old(self).state()),
            io_access_ok(addr, len),
            !spec_immediate_dma_for_write_faults(old(self).state(), addr, 0, halfword_count(len)),
        ensures
            final(self).wf(),
            final(self).state() == spec_immediate_dma_for_write(old(self).state(), addr, 0, halfword_count(len)),
    {
        let ghost target = spec_immediate_dma_for_write(self.state(), addr, 0, halfword_count(len));
        let m: u32 = (len + 1) / 2;
        let mut k: u32 = 0;
        while k < m
            invariant
                io_access_ok(addr, len),
                m == halfword_count(len),
                k <= m,
                spec_shared_wf(self.state()),
                rom_fits(self.state()),
                spec_immediate_dma_for_write(self.state(), addr, k as nat, m as nat) == target,
                !spec_immediate_dma_for_write_faults(self.state(), addr, k as nat, m as nat),
            decreases m - k,
        {
            self.run_immediate_dma_if_enabled(addr + 2 * k);
            k += 1;
        }
    }

    /// Passes the timer registers a guest write of `len` bytes at `addr`
    /// touched on to the timers.
    pub fn write_timer_registers_from_io(&mut self, addr: u32, len: u32)
        requires
            old(self).wf(),
            io_access_ok(addr, len),
        ensures
            final(self).wf(),
            ({
                let (start, count) = spec_timer_write_bounds(addr, len);
                final(self).state() == spec_timer_registers(old(self).state(), start, count)
            }),
    {
        let first = if addr > TIMER_REGS_START { addr } else { TIMER_REGS_START };
        let past = if addr + len < 0x0400_0110 { addr + len } else { 0x0400_0110 };
        let start = first & !1u32;
        let end = (past + 1) & !1u32;
        proof {
            lemma_clear_bit0(first);
            lemma_clear_bit0((past + 1) as u32);
        }
        let count: u32 = if end > start { (end - start) / 2 } else { 0 };
        proof {
            if end > start {
                vstd::arithmetic::div_mod::lemma_fundamental_div_mod((end - start) as int, 2);
            }
        }
        let ghost target = spec_timer_registers(self.state(), start, count as nat);
        let mut register = start;
        let mut k: u32 = 0;
        while k < count
            invariant
                k <= count,
                count <= 0x10,
                start >= 0x0400_00ff,
                count == 0 || start + 2 * count <= 0x0400_0112,
                register == start + 2 * k,
                spec_shared_wf(self.state()),
                spec_timer_registers(self.state(), register, (count - k) as nat) == target,
            decreases count - k,
        {
            if TIMER_REGS_START <= register && register <= TIMER_REGS_LAST {
                let value = self.read_io_u16(register);
                self.timers.write_register(register, value, &mut self.io);
            }
            register = register + 2;
            k += 1;
        }
    }

    fn sound_fifo_timer(&self, fifo: usize) -> (r: usize)
        requires
            spec_shared_wf(self.state()),
        ensures
            r == spec_sound_fifo_timer(self.state(), fifo as int),
    {
        let soundcnt_h = self.read_io_u16(SOUNDCNT_H);
        if fifo == 0 {
            if soundcnt_h & SOUND_A_TIMER != 0 { 1 } else { 0 }
        } else {
            if soundcnt_h & SOUND_B_TIMER != 0 { 1 } else { 0 }
        }
    }

    fn sound_fifo_len(&self, fifo: usize) -> (r: usize)
        ensures
            r == spec_fifo_len(self.state(), fifo as int),
    {
        if fifo == 0 { self.audio.fifo_a.len() } else { self.audio.fifo_b.len() }
    }

    fn push_fifo_word(&mut self, fifo: usize, low: u16, high: u16)
        ensures
            final(self).state() == spec_push_fifo_byte(spec_push_fifo_byte(spec_push_fifo_byte(spec_push_fifo_byte(
                old(self).state(), fifo as int, (low % 256) as u8 as i8), fifo as int, (low / 256) as u8 as i8),
                fifo as int, (high % 256) as u8 as i8), fifo as int, (high / 256) as u8 as i8),
    {
        self.push_fifo_byte(fifo, (low % 256) as u8 as i8);
        self.push_fifo_byte(fifo, (low / 256) as u8 as i8);
        self.push_fifo_byte(fifo, (high % 256) as u8 as i8);
        self.push_fifo_byte(fifo, (high / 256) as u8 as i8);
    }

    #[verifier::spinoff_prover]
    #[verifier::rlimit(40)]
    /// Runs the sound DMA of `channel` for `timer`; stops and returns
    /// `false` at a read the copy cannot complete.
    fn run_fifo_dma_channel(&mut self, timer: usize, channel: usize) -> (ok: bool)
        requires
            spec_shared_wf(old(self).state()),
            rom_fits(old(self).state()),
            channel == 1 || channel == 2,
        ensures
            spec_shared_wf(final(self).state()),
            rom_fits(final(self).state()),
            ok == !spec_fifo_dma_channel_faults(old(self).state(), timer as int, channel as int),
            ok ==> final(self).state() == spec_fifo_dma_channel(old(self).state(), timer as int, channel as int),
    {
        let base = DMA0SAD + channel as u32 * 12;
        let control = self.read_io_u16(base + 10);
        if control & DMA_ENABLE == 0 || control & DMA_TIMING_MASK != DMA_TIMING_SPECIAL || control & DMA_32BIT == 0 {
            return true;
        }
        let destination = self.read_io_u32(base + 4);
        let fifo: usize = if destination == FIFO_A {
            0
        } else if destination == FIFO_B {
            1
        } else {
            return true;
        };
        if self.sound_fifo_timer(fifo) != timer {
            return true;
        }
        if self.sound_fifo_len(fifo) > AUDIO_FIFO_DMA_THRESHOLD {
            return true;
        }
        let source0 = self.read_io_u32(base);
        let ghost target = spec_fifo_words(self.state(), fifo as int, source0, 4);
        let ghost faults = spec_fifo_words_fault(self.state(), fifo as int, source0, 4);
        assert(faults == spec_fifo_dma_channel_faults(old(self).state(), timer as int, channel as int));
        let mut source = source0;
        let mut k: u32 = 0;
        while k < 4
            invariant
                k <= 4,
                spec_shared_wf(self.state()),
                rom_fits(self.state()),
                source == spec_wrap_add(source0, 4 * k),
                spec_fifo_words(self.state(), fifo as int, source, (4 - k) as nat) == target,
                spec_fifo_words_fault(self.state(), fifo as int, source, (4 - k) as nat) == faults,
                faults == spec_fifo_dma_channel_faults(old(self).state(), timer as int, channel as int),
            decreases 4 - k,
        {
            if self.dma_read_faults(source) || self.dma_read_faults(source.wrapping_add(2)) {
                assert(spec_fifo_words_fault(self.state(), fifo as int, source, (4 - k) as nat));
                return false;
            }
            let low = self.dma_read_halfword(source);
            let high = self.dma_read_halfword(source.wrapping_add(2));
            self.push_fifo_word(fifo, low, high);
            proof {
                assert(spec_wrap_add(spec_wrap_add(source0, 4 * k), 4) == spec_wrap_add(source0, 4 * (k + 1))) by {
                    lemma_wrap_add_twice(source0, 4 * k, 4);
                }
            }
            source = source.wrapping_add(4);
            k += 1;
        }
        self.write_io_u16(base, (source % 65536) as u16);
        self.write_io_u16(base + 2, (source / 65536) as u16);
        true
    }

    /// One overflow of `timer`; stops and returns `false` at a sound DMA
    /// read that cannot complete.
    fn on_timer_overflow(&mut self, timer: usize) -> (ok: bool)
        requires
            spec_shared_wf(old(self).state()),
            rom_fits(old(self).state()),
        ensures
            spec_shared_wf(final(self).state()),
            rom_fits(final(self).state()),
            ok == !spec_on_timer_overflow_faults(old(self).state(), timer as int),
            ok ==> final(self).state() == spec_on_timer_overflow(old(self).state(), timer as int),
    {
        if !self.run_fifo_dma_channel(timer, 1) {
            return false;
        }
        if !self.run_fifo_dma_channel(timer, 2) {
            return false;
        }
        let soundcnt_h = self.read_io_u16(SOUNDCNT_H);
        let mut left: i32 = 0;
        let mut right: i32 = 0;
        if self.sound_fifo_timer(0) == timer {
            let sample = match self.audio.fifo_a.pop_front() {
                Some(v) => v as i32 * 256,
                None => 0,
            };
            if soundcnt_h & SOUND_A_LEFT != 0 {
                left = left + sample;
            }
            if soundcnt_h & SOUND_A_RIGHT != 0 {
                right = right + sample;
            }
        }
        if self.sound_fifo_timer(1) == timer {
            let sample = match self.audio.fifo_b.pop_front() {
                Some(v) => v as i32 * 256,
                None => 0,
            };
            if soundcnt_h & SOUND_B_LEFT != 0 {
                left = left + sample;
            }
            if soundcnt_h & SOUND_B_RIGHT != 0 {
                right = right + sample;
            }
        }
        push_pcm_sample(&mut self.audio.pcm, left);
        push_pcm_sample(&mut self.audio.pcm, right);
        true
    }

    /// Advances the timers by `cycles` CPU cycles and handles their
    /// overflows (see `spec_advance_timers`).
    pub fn advance_timers(&mut self, cycles: u32)
        requires
            old(self).wf(),
            rom_fits(old(self).state()),
            !spec_advance_timers_faults(old(self).state(), cycles),
        ensures
            final(self).wf(),
            final(self).state() == spec_advance_timers(old(self).state(), cycles),
    {
        self.try_advance_timers(cycles);
    }

    /// `count` overflows of `timer`; stops and returns `false` at a sound
    /// DMA read that cannot complete.
    fn run_overflows(&mut self, timer: usize, count: u32) -> (ok: bool)
        requires
            spec_shared_wf(old(self).state()),
            rom_fits(old(self).state()),
        ensures
            spec_shared_wf(final(self).state()),
            rom_fits(final(self).state()),
            ok == !spec_overflows_fault(old(self).state(), timer as int, count as nat),
            ok ==> final(self).state() == spec_overflows(old(self).state(), timer as int, count as nat),
    {
        let ghost start = self.state();
        let ghost faults = spec_overflows_fault(start, timer as int, count as nat);
        let mut k: u32 = 0;
        while k < count
            invariant
                k <= count,
                spec_shared_wf(self.state()),
                rom_fits(self.state()),
                start == old(self).state(),
                faults == spec_overflows_fault(start, timer as int, count as nat),
                spec_overflows(self.state(), timer as int, (count - k) as nat) == spec_overflows(start, timer as int, count as nat),
                spec_overflows_fault(self.state(), timer as int, (count - k) as nat) == faults,
            decreases count - k,
        {
            proof {
                lemma_overflows_unfold(self.state(), timer as int, (count - k) as nat);
            }
            if !self.on_timer_overflow(timer) {
                return false;
            }
            k += 1;
        }
        true
    }

    /// As `advance_timers`, for every state: returns `false`, and stops,
    /// when a sound DMA started by an overflow reads past the end of a guest
    /// RAM area (`spec_advance_timers_faults`).
    pub fn try_advance_timers(&mut self, cycles: u32) -> (ok: bool)
        requires
            old(self).wf(),
            rom_fits(old(self).state()),
        ensures
            final(self).wf(),
            ok == !spec_advance_timers_faults(old(self).state(), cycles),
            ok ==> final(self).state() == spec_advance_timers(old(self).state(), cycles),
    {
        let overflows = self.timers.advance(cycles, &mut self.io);
        let ghost s0 = self.state();
        let mut timer: usize = 0;
        while timer < 4
            invariant
                timer <= 4,
                spec_shared_wf(self.state()),
                rom_fits(self.state()),
                overflows@.len() == 4,
                ({
                    let n = overflows@;
                    let s1 = spec_overflows(s0, 0, n[0] as nat);
                    let s2 = spec_overflows(s1, 1, n[1] as nat);
                    let s3 = spec_overflows(s2, 2, n[2] as nat);
                    let s4 = spec_overflows(s3, 3, n[3] as nat);
                    let cur = if timer == 0 { s0 } else if timer == 1 { s1 } else if timer == 2 { s2 } else if timer == 3 { s3 } else { s4 };
                    &&& self.state() == cur
                    &&& !(timer > 0 && spec_overflows_fault(s0, 0, n[0] as nat))
                    &&& !(timer > 1 && spec_overflows_fault(s1, 1, n[1] as nat))
                    &&& !(timer > 2 && spec_overflows_fault(s2, 2, n[2] as nat))
                    &&& !(timer > 3 && spec_overflows_fault(s3, 3, n[3] as nat))
                }),
                ({
                    let (ts, n, io) = spec_advance_all(old(self).timers.timers@, old(self).io@, cycles);
                    &&& s0 == SharedState { timers: ts, io, ..old(self).state() }
                    &&& overflows@ == n
                }),
            decreases 4 - timer,
        {
            let count = overflows[timer];
            if !self.run_overflows(timer, count) {
                return false;
            }
            timer += 1;
        }
        true
    }

    /// One scanline's worth of timer time.
    pub fn tick_scanline(&mut self)
        requires
            old(self).wf(),
            rom_fits(old(self).state()),
            !spec_advance_timers_faults(old(self).state(), SCANLINE_CYCLES),
        ensures
            final(self).wf(),
            final(self).state() == spec_advance_timers(old(self).state(), SCANLINE_CYCLES),
    {
        self.advance_timers(SCANLINE_CYCLES);
    }

    /// Fills `out` with queued PCM samples, oldest first, and silence once
    /// the queue is empty.
    pub fn fill_audio_samples(&mut self, out: &mut [i16])
        ensures
            ({
                let pcm = old(self).audio.pcm@;
                let taken = if pcm.len() < old(out)@.len() { pcm.len() } else { old(out)@.len() };
                &&& final(out)@.len() == old(out)@.len()
                &&& forall|i: int| 0 <= i < old(out)@.len() ==> #[trigger] final(out)@[i] == (if i < pcm.len() { pcm[i] } else { 0i16 })
                &&& final(self).state() == (SharedState { pcm: pcm.skip(taken as int), ..old(self).state() })
            }),
    {
        let ghost pcm0 = self.audio.pcm@;
        let ghost s0 = self.state();
        let mut i: usize = 0;
        while i < out.len()
            invariant
                i <= out@.len(),
                out@.len() == old(out)@.len(),
                self.state() == (SharedState { pcm: self.audio.pcm@, ..s0 }),
                self.audio.pcm@ == pcm0.skip(if (i as int) < pcm0.len() { i as int } else { pcm0.len() as int }),
                forall|j: int| 0 <= j < i ==> #[trigger] out@[j] == (if j < pcm0.len() { pcm0[j] } else { 0i16 }),
            decreases out@.len() - i,
        {
            let sample = match self.audio.pcm.pop_front() {
                Some(v) => v,
                None => 0,
            };
            out[i] = sample;
            i += 1;
        }
    }

    fn ppu_from_registers(&self) -> (r: Ppu)
        requires
            spec_shared_wf(self.state()),
        ensures
            spec_ppu_registers(r, self.io@),
            r.is_reset_raster(),
    {
        let mut ppu = Ppu::new();
        ppu.write_dispcnt(self.read_io_u16(DISPCNT));
        ppu.write_bgcnt(0, self.read_io_u16(BG0CNT));
        ppu.write_bgcnt(1, self.read_io_u16(BG1CNT));
        ppu.write_bgcnt(2, self.read_io_u16(BG2CNT));
        ppu.write_bgcnt(3, self.read_io_u16(BG3CNT));
        ppu.write_bghofs(0, self.read_io_u16(BG0HOFS));
        ppu.write_bghofs(1, self.read_io_u16(BG0HOFS + 4));
        ppu.write_bghofs(2, self.read_io_u16(BG0HOFS + 8));
        ppu.write_bghofs(3, self.read_io_u16(BG0HOFS + 12));
        ppu.write_bgvofs(0, self.read_io_u16(BG0VOFS));
        ppu.write_bgvofs(1, self.read_io_u16(BG0VOFS + 4));
        ppu.write_bgvofs(2, self.read_io_u16(BG0VOFS + 8));
        ppu.write_bgvofs(3, self.read_io_u16(BG0VOFS + 12));
        ppu.write_bgpa(2, self.read_io_u16(BG2PA));
        ppu.write_bgpb(2, self.read_io_u16(BG2PB));
        ppu.write_bgpc(2, self.read_io_u16(BG2PC));
        ppu.write_bgpd(2, self.read_io_u16(BG2PD));
        ppu.write_bgx(2, self.read_io_u32(BG2X));
        ppu.write_bgy(2, self.read_io_u32(BG2Y));
        ppu.write_winh(0, self.read_io_u16(WIN0H));
        ppu.write_winh(1, self.read_io_u16(WIN1H));
        ppu.write_winv(0, self.read_io_u16(WIN0V));
        ppu.write_winv(1, self.read_io_u16(WIN1V));
        ppu.write_winin(self.read_io_u16(WININ));
        ppu.write_winout(self.read_io_u16(WINOUT));
        ppu.write_mosaic(self.read_io_u16(MOSAIC));
        ppu.write_bldcnt(self.read_io_u16(BLDCNT));
        ppu.write_bldalpha(self.read_io_u16(BLDALPHA));
        ppu.write_bldy(self.read_io_u16(BLDY));
        proof {
            assert(ppu.bghofs@ =~= Seq::new(4, |bg: int| io16(self.io@, (BG0HOFS + 4 * bg) as u32) & 0x01ff));
            assert(ppu.bgvofs@ =~= Seq::new(4, |bg: int| io16(self.io@, (BG0VOFS + 4 * bg) as u32) & 0x01ff));
            let io = self.io@;
            assert(ppu.bgcnt@ =~= seq![io16(io, BG0CNT), io16(io, BG1CNT), io16(io, BG2CNT), io16(io, BG3CNT)]);
            assert(ppu.bgpa@ =~= seq![io16(io, BG2PA), 0x0100u16]);
            assert(ppu.bgpb@ =~= seq![io16(io, BG2PB), 0u16]);
            assert(ppu.bgpc@ =~= seq![io16(io, BG2PC), 0u16]);
            assert(ppu.bgpd@ =~= seq![io16(io, BG2PD), 0x0100u16]);
            assert(ppu.bgx@ =~= seq![io32(io, BG2X) & 0x0fff_ffff, 0u32]);
            assert(ppu.bgy@ =~= seq![io32(io, BG2Y) & 0x0fff_ffff, 0u32]);
            assert(ppu.winh@ =~= seq![io16(io, WIN0H), io16(io, WIN1H)]);
            assert(ppu.winv@ =~= seq![io16(io, WIN0V), io16(io, WIN1V)]);
        }
        ppu
    }

    /// Puts lines `first..last` of the owned backgrounds' rasters into `ppu`.
    fn load_rasters(&self, ppu: &mut Ppu, hofs: &Vec<u16>, vofs: &Vec<u16>, first: usize, last: usize)
        requires
            spec_shared_wf(self.state()),
            hofs@.len() == RASTER_LEN,
            vofs@.len() == RASTER_LEN,
            first < last <= HEIGHT,
            old(ppu).is_reset_raster(),
        ensures
            spec_ppu_raster(*final(ppu), self.state(), hofs@, vofs@, first as int, last as int),
            *final(ppu) == (Ppu {
                bghofs_scanline: final(ppu).bghofs_scanline,
                bgvofs_scanline: final(ppu).bgvofs_scanline,
                bghofs_scanline_valid: final(ppu).bghofs_scanline_valid,
                bgvofs_scanline_valid: final(ppu).bgvofs_scanline_valid,
                ..*old(ppu)
            }),
    {
        let ghost p0 = *ppu;
        let ghost hact = self.bghofs_scanline_active@;
        let ghost vact = self.bgvofs_scanline_active@;
        proof {
            assert(ppu.bghofs_scanline@ =~= spec_partial_raster(hact, hofs@, first as int, last as int, 0, first as int));
            assert(ppu.bgvofs_scanline@ =~= spec_partial_raster(vact, vofs@, first as int, last as int, 0, first as int));
            assert(ppu.bghofs_scanline_valid@ =~= Seq::new(4, |b: int| b < 0 && hact[b]));
            assert(ppu.bgvofs_scanline_valid@ =~= Seq::new(4, |b: int| b < 0 && vact[b]));
        }
        let mut bg: usize = 0;
        while bg < 4
            invariant
                bg <= 4,
                first < last <= HEIGHT,
                hofs@.len() == RASTER_LEN,
                vofs@.len() == RASTER_LEN,
                hact == self.bghofs_scanline_active@,
                vact == self.bgvofs_scanline_active@,
                hact.len() == 4,
                vact.len() == 4,
                ppu.bghofs_scanline@ == spec_partial_raster(hact, hofs@, first as int, last as int, bg as int, first as int),
                ppu.bgvofs_scanline@ == spec_partial_raster(vact, vofs@, first as int, last as int, bg as int, first as int),
                ppu.bghofs_scanline_valid@ == Seq::new(4, |b: int| b < bg && hact[b]),
                ppu.bgvofs_scanline_valid@ == Seq::new(4, |b: int| b < bg && vact[b]),
                *ppu == (Ppu {
                    bghofs_scanline: ppu.bghofs_scanline,
                    bgvofs_scanline: ppu.bgvofs_scanline,
                    bghofs_scanline_valid: ppu.bghofs_scanline_valid,
                    bgvofs_scanline_valid: ppu.bgvofs_scanline_valid,
                    ..p0
                }),
            decreases 4 - bg,
        {
            if self.bghofs_scanline_active[bg] {
                let ghost before = *ppu;
                let mut y = first;
                while y < last
                    invariant
                        bg < 4,
                        first <= y <= last <= HEIGHT,
                        hofs@.len() == RASTER_LEN,
                        hact.len() == 4,
                        hact[bg as int],
                        ppu.bghofs_scanline@ == spec_partial_raster(hact, hofs@, first as int, last as int, bg as int, y as int),
                        ppu.bghofs_scanline_valid@ == (if y > first { before.bghofs_scanline_valid@.update(bg as int, true) } else { before.bghofs_scanline_valid@ }),
                        before.bghofs_scanline_valid@.len() == 4,
                        *ppu == (Ppu { bghofs_scanline: ppu.bghofs_scanline, bghofs_scanline_valid: ppu.bghofs_scanline_valid, ..before }),
                    decreases last - y,
                {
                    ppu.write_bghofs_scanline(bg, y, hofs[bg * 160 + y]);
                    proof {
                        assert(ppu.bghofs_scanline@ =~= spec_partial_raster(hact, hofs@, first as int, last as int, bg as int, y + 1));
                    }
                    y += 1;
                }
            }
            proof {
                assert(ppu.bghofs_scanline@ =~= spec_partial_raster(hact, hofs@, first as int, last as int, bg + 1, first as int));
                assert(ppu.bghofs_scanline_valid@ =~= Seq::new(4, |b: int| b < bg + 1 && hact[b]));
            }
            if self.bgvofs_scanline_active[bg] {
                let ghost before = *ppu;
                let mut y = first;
                while y < last
                    invariant
                        bg < 4,
                        first <= y <= last <= HEIGHT,
                        vofs@.len() == RASTER_LEN,
                        vact.len() == 4,
                        vact[bg as int],
                        ppu.bgvofs_scanline@ == spec_partial_raster(vact, vofs@, first as int, last as int, bg as int, y as int),
                        ppu.bgvofs_scanline_valid@ == (if y > first { before.bgvofs_scanline_valid@.update(bg as int, true) } else { before.bgvofs_scanline_valid@ }),
                        before.bgvofs_scanline_valid@.len() == 4,
                        *ppu == (Ppu { bgvofs_scanline: ppu.bgvofs_scanline, bgvofs_scanline_valid: ppu.bgvofs_scanline_valid, ..before }),
                    decreases last - y,
                {
                    ppu.write_bgvofs_scanline(bg, y, vofs[bg * 160 + y]);
                    proof {
                        assert(ppu.bgvofs_scanline@ =~= spec_partial_raster(vact, vofs@, first as int, last as int, bg as int, y + 1));
                    }
                    y += 1;
                }
            }
            proof {
                assert(ppu.bgvofs_scanline@ =~= spec_partial_raster(vact, vofs@, first as int, last as int, bg + 1, first as int));
                assert(ppu.bgvofs_scanline_valid@ =~= Seq::new(4, |b: int| b < bg + 1 && vact[b]));
            }
            bg += 1;
        }
        proof {
            assert(ppu.bghofs_scanline@ =~= spec_raster_lines(hact, hofs@, first as int, last as int));
            assert(ppu.bgvofs_scanline@ =~= spec_raster_lines(vact, vofs@, first as int, last as int));
            assert(ppu.bghofs_scanline_valid@ =~= hact);
            assert(ppu.bgvofs_scanline_valid@ =~= vact);
        }
    }

    /// Draws the whole frame from the registers, the completed raster and
    /// the first palette and OAM bytes.
    pub fn render_frame(&self) -> (r: FrameBuffer)
        requires
            self.wf(),
        ensures
            r@.len() == FRAME_PIXELS,
            exists|p: Ppu| #[trigger] spec_frame_ppu(p, self.state())
                && forall|i: int| 0 <= i < FRAME_PIXELS ==> #[trigger] r@[i] == spec_argb(spec_frame_raw(p,
                    self.palette@.subrange(0, PALETTE_SIZE as int), self.vram@, self.oam@.subrange(0, OAM_SIZE as int), i)),
    {
        let mut ppu = self.ppu_from_registers();
        self.load_rasters(&mut ppu, &self.raster.completed_hofs, &self.raster.completed_vofs, 0, HEIGHT);
        let palette = vstd::slice::slice_subrange(self.palette.as_slice(), 0, PALETTE_SIZE);
        let oam = vstd::slice::slice_subrange(self.oam.as_slice(), 0, OAM_SIZE);
        proof {
            lemma_frame_reads_ok(ppu, palette@, self.vram@, oam@);
            assert(spec_frame_ppu(ppu, self.state()));
        }
        ppu.render_frame(palette, self.vram.as_slice(), oam)
    }

    /// Draws line `y` of the frame being built from the registers and that
    /// line of the current raster; other lines keep their pixels.
    pub fn render_scanline(&mut self, y: usize)
        requires
            old(self).wf(),
        ensures
            final(self).wf(),
            spec_line_rendered(old(self).state(), final(self).state(), y as int),
    {
        if y >= HEIGHT {
            return;
        }
        let mut ppu = self.ppu_from_registers();
        self.load_rasters(&mut ppu, &self.raster.hofs, &self.raster.vofs, y, y + 1);
        let mut line: Vec<u16> = vec![0u16; WIDTH];
        ppu.render_mode0_scanline(y, self.palette.as_slice(), self.vram.as_slice(), &mut line);
        let ghost work0 = self.frame_buffers.work@;
        let ghost s0 = self.state();
        let start = y * WIDTH;
        let mut x: usize = 0;
        while x < WIDTH
            invariant
                x <= WIDTH,
                y < HEIGHT,
                start == y * WIDTH,
                line@.len() == WIDTH,
                work0.len() == WIDTH * HEIGHT,
                self.frame_buffers.work@.len() == WIDTH * HEIGHT,
                self.state() == (SharedState { work: self.frame_buffers.work@, ..s0 }),
                forall|i: int| 0 <= i < WIDTH * HEIGHT ==> #[trigger] self.frame_buffers.work@[i]
                    == (if start <= i < start + x { spec_argb(line@[i - start]) } else { work0[i] }),
            decreases WIDTH - x,
        {
            let pixel = bgr555_to_argb8888(line[x]);
            self.frame_buffers.work.set(start + x, pixel);
            x += 1;
        }
        proof {
            assert(spec_line_ppu(ppu, s0, y as int));
        }
    }

    /// Publishes the frame drawn so far as the completed frame.
    pub fn publish_completed_frame(&mut self)
        requires
            old(self).wf(),
        ensures
            final(self).wf(),
            final(self).state() == spec_publish_completed_frame(old(self).state()),
    {
        std::mem::swap(&mut self.frame_buffers.work, &mut self.frame_buffers.completed);
        self.frame_buffers.seq = self.frame_buffers.seq.wrapping_add(1);
        self.completed_frame_seq = self.frame_buffers.seq;
        self.perf.frames = self.perf.frames.wrapping_add(1);
    }

    /// A copy of the completed frame with its number.
    pub fn latest_frame_snapshot(&self) -> (r: FrameSnapshot)
        ensures
            r.seq == self.frame_buffers.seq,
            r.pixels@ == self.frame_buffers.completed@,
    {
        let pixels = vstd::slice::slice_to_vec(self.frame_buffers.completed.as_slice());
        FrameSnapshot { seq: self.frame_buffers.seq, pixels }
    }

    /// Number of the last completed frame.
    pub fn completed_frame_seq(&self) -> (r: u64)
        ensures
            r == self.completed_frame_seq,
    {
        self.completed_frame_seq
    }

    fn has_renderable_obj(&self) -> (r: bool)
        requires
            spec_shared_wf(self.state()),
        ensures
            r == exists|i: int| 0 <= i < 128 && #[trigger] spec_obj_renderable(self.oam@, i),
    {
        let mut i: usize = 0;
        while i < 128
            invariant
                i <= 128,
                self.oam@.len() >= OAM_SIZE,
                forall|j: int| 0 <= j < i ==> !#[trigger] spec_obj_renderable(self.oam@, j),
            decreases 128 - i,
        {
            let attr0 = read_u16(self.oam.as_slice(), 8 * i);
            let affine = attr0 & 0x0100 != 0;
            let shown = !(!affine && attr0 & 0x0200 != 0);
            if shown && (attr0 >> 10) & 0x3 == 0 && attr0 & 0x2000 == 0 {
                assert(spec_obj_renderable(self.oam@, i as int));
                return true;
            }
            i += 1;
        }
        false
    }

    /// Whether the line renderer can draw the current frame (see
    /// `spec_supports_scanline_renderer`).
    pub fn supports_scanline_renderer(&self) -> (r: bool)
        requires
            self.wf(),
        ensures
            r == spec_supports_scanline_renderer(self.state()),
    {
        let dispcnt = self.read_io_u16(DISPCNT);
        if dispcnt & DISPCNT_MODE_MASK != MODE_0 {
            return false;
        }
        if dispcnt & (WIN0_ENABLE | WIN1_ENABLE | OBJ_WIN_ENABLE) != 0 {
            return false;
        }
        if dispcnt & OBJ_ENABLE != 0 && self.has_renderable_obj() {
            return false;
        }
        if self.read_io_u16(BLDCNT) != 0 {
            return false;
        }
        let mut bg: usize = 0;
        while bg < 4
            invariant
                bg <= 4,
                spec_shared_wf(self.state()),
                dispcnt == io16(self.io@, DISPCNT),
                forall|b: int| 0 <= b < bg ==> !(dispcnt & spec_bg_enable(b) != 0
                    && #[trigger] io16(self.io@, (BG0CNT + 2 * b) as u32) & 0x40 != 0),
            decreases 4 - bg,
        {
            let enable: u16 = if bg == 0 { 0x0100 } else if bg == 1 { 0x0200 } else if bg == 2 { 0x0400 } else { 0x0800 };
            if dispcnt & enable != 0 && self.read_io_u16(BG0CNT + 2 * bg as u32) & 0x40 != 0 {
                assert(io16(self.io@, (BG0CNT + 2 * bg) as u32) & 0x40 != 0);
                return false;
            }
            bg += 1;
        }
        true
    }

    /// Whether frames must be drawn line by line (see
    /// `spec_needs_scanline_renderer`).
    pub fn needs_scanline_renderer(&self) -> (r: bool)
        requires
            self.wf(),
        ensures
            r == spec_needs_scanline_renderer(self.state()),
    {
        if self.read_io_u16(DISPSTAT) & DISPSTAT_HBLANK_IRQ_ENABLE != 0 && self.read_io_u16(IE) & IRQ_HBLANK != 0
            && self.read_io_u16(IME) & 1 != 0 {
            return true;
        }
        let mut bg: usize = 0;
        while bg < 4
            invariant
                bg <= 4,
                forall|b: int| 0 <= b < bg ==> !self.bghofs_scanline_active@[b] && !self.bgvofs_scanline_active@[b],
            decreases 4 - bg,
        {
            if self.bghofs_scanline_active[bg] || self.bgvofs_scanline_active[bg] {
                assert(self.state().hofs_active[bg as int] || self.state().vofs_active[bg as int]);
                return true;
            }
            bg += 1;
        }
        false
    }

    /// Counts a vCPU MMIO exit (see `spec_record_kvm_mmio_exit`).
    pub fn record_kvm_mmio_exit(&mut self, addr: u32, is_write: bool, is_fast_exit: bool)
        ensures
            final(self).state() == (SharedState {
                perf: spec_record_kvm_mmio_exit(old(self).perf, addr, is_write, is_fast_exit),
                ..old(self).state()
            }),
    {
        self.perf.kvm_mmio_exits = self.perf.kvm_mmio_exits.wrapping_add(1);
        if is_fast_exit {
            self.perf.kvm_mmio_fast_exit = self.perf.kvm_mmio_fast_exit.wrapping_add(1);
            return;
        }
        if !(IO_START <= addr && addr < IO_START + 0x400) {
            return;
        }
        if is_write {
            self.perf.kvm_mmio_io_writes = self.perf.kvm_mmio_io_writes.wrapping_add(1);
        } else {
            self.perf.kvm_mmio_io_reads = self.perf.kvm_mmio_io_reads.wrapping_add(1);
        }
        if addr == IF {
            self.perf.kvm_mmio_io_if = self.perf.kvm_mmio_io_if.wrapping_add(1);
        } else if addr == IME {
            self.perf.kvm_mmio_io_ime = self.perf.kvm_mmio_io_ime.wrapping_add(1);
        } else if addr == BG0HOFS || addr == BG0HOFS + 4 || addr == BG0HOFS + 8 || addr == BG0HOFS + 12 {
            self.perf.kvm_mmio_io_bg_hofs = self.perf.kvm_mmio_io_bg_hofs.wrapping_add(1);
        } else if addr == BG0VOFS || addr == BG0VOFS + 4 || addr == BG0VOFS + 8 || addr == BG0VOFS + 12 {
            self.perf.kvm_mmio_io_bg_vofs = self.perf.kvm_mmio_io_bg_vofs.wrapping_add(1);
        } else {
            self.perf.kvm_mmio_io_other = self.perf.kvm_mmio_io_other.wrapping_add(1);
        }
    }

    /// Adds the time (in microseconds) one frame took to present.
    pub fn record_sdl_present(&mut self, micros: u64)
        ensures
            final(self).state() == (SharedState {
                perf: VideoPerfSnapshot { sdl_present_us: old(self).perf.sdl_present_us.wrapping_add(micros), ..old(self).perf },
                ..old(self).state()
            }),
    {
        self.perf.sdl_present_us = self.perf.sdl_present_us.wrapping_add(micros);
    }

    /// Adds the time (in microseconds) one line took to draw.
    pub fn record_render_scanline(&mut self, micros: u64)
        ensures
            final(self).state() == (SharedState {
                perf: VideoPerfSnapshot { render_scanline_us: old(self).perf.render_scanline_us.wrapping_add(micros), ..old(self).perf },
                ..old(self).state()
            }),
    {
        self.perf.render_scanline_us = self.perf.render_scanline_us.wrapping_add(micros);
    }

    /// Adds the time (in microseconds) one HBlank completion took.
    pub fn record_fast_hblank(&mut self, micros: u64)
        ensures
            final(self).state() == (SharedState {
                perf: VideoPerfSnapshot { fast_hblank_us: old(self).perf.fast_hblank_us.wrapping_add(micros), ..old(self).perf },
                ..old(self).state()
            }),
    {
        self.perf.fast_hblank_us = self.perf.fast_hblank_us.wrapping_add(micros);
    }

    /// Counts a wait for HBlank completion of `wait_us` microseconds.
    pub fn record_hblank_wait(&mut self, wait_us: u64, timeout: bool)
        ensures
            final(self).state() == (SharedState {
                perf: spec_record_hblank_wait(old(self).perf, wait_us, timeout),
                ..old(self).state()
            }),
    {
        self.perf.hblank_wait_us = self.perf.hblank_wait_us.wrapping_add(wait_us);
        if wait_us > self.perf.hblank_wait_max_us {
            self.perf.hblank_wait_max_us = wait_us;
        }
        if timeout {
            self.perf.hblank_wait_timeouts = self.perf.hblank_wait_timeouts.wrapping_add(1);
        }
    }

    /// Hands over the performance counters and restarts them from zero.
    pub fn take_video_perf_snapshot(&mut self) -> (r: VideoPerfSnapshot)
        ensures
            r == old(self).perf,
            final(self).state() == (SharedState { perf: spec_zero_perf(), ..old(self).state() }),
    {
        let snapshot = self.perf;
        self.perf = VideoPerfSnapshot {
            frames: 0, render_scanline_us: 0, hblank_wait_us: 0, hblank_wait_max_us: 0,
            hblank_wait_timeouts: 0, fast_hblank_us: 0, fast_hblank_count: 0,
            fast_hblank_shared_count: 0, fast_hblank_mmio_count: 0, kvm_mmio_exits: 0,
            kvm_mmio_fast_exit: 0, kvm_mmio_io_reads: 0, kvm_mmio_io_writes: 0, kvm_mmio_io_if: 0,
            kvm_mmio_io_ime: 0, kvm_mmio_io_bg_hofs: 0, kvm_mmio_io_bg_vofs: 0,
            kvm_mmio_io_other: 0, sdl_present_us: 0,
        };
        snapshot
    }

    fn read_vram_u16(&self, offset: usize) -> (r: u16)
        requires
            spec_shared_wf(self.state()),
            offset + 1 < VRAM_SIZE,
        ensures
            r == le16(self.vram@, offset as int),
    {
        read_u16(self.vram.as_slice(), offset)
    }

    fn count_bg_map_nonzero(&self, screen_block: usize) -> (r: usize)
        requires
            spec_shared_wf(self.state()),
            screen_block < 32,
        ensures
            r == spec_count_nonzero(self.vram@, screen_block * 0x800, 0x400),
    {
        let base = screen_block * 0x800;
        let mut count: usize = 0;
        let mut k: usize = 0;
        while k < 0x400
            invariant
                k <= 0x400,
                base == screen_block * 0x800,
                screen_block < 32,
                self.vram@.len() == VRAM_SIZE,
                count == spec_count_nonzero(self.vram@, base as int, k as nat),
                count <= k,
            decreases 0x400 - k,
        {
            if read_u16(self.vram.as_slice(), base + 2 * k) != 0 {
                count += 1;
            }
            k += 1;
        }
        count
    }

    /// The diagnostic summary of the video state (see
    /// `spec_debug_video_state`).
    pub fn debug_video_state(&self) -> (r: KvmVideoDebugState)
        requires
            self.wf(),
        ensures
            spec_debug_video_state(self.state(), r),
    {
        let ghost bg1 = self.raster.completed_hofs@.subrange(160, 320);
        let mut min: u16 = self.raster.completed_hofs[160];
        let mut max: u16 = self.raster.completed_hofs[160];
        let mut checksum: u32 = 0;
        let mut k: usize = 0;
        while k < 160
            invariant
                k <= 160,
                self.raster.completed_hofs@.len() == RASTER_LEN,
                bg1 == self.raster.completed_hofs@.subrange(160, 320),
                k > 0 ==> min == spec_min_u16(bg1.subrange(0, k as int)),
                k > 0 ==> max == spec_max_u16(bg1.subrange(0, k as int)),
                k == 0 ==> min == bg1[0] && max == bg1[0],
                checksum == spec_checksum(bg1.subrange(0, k as int)),
            decreases 160 - k,
        {
            let value = self.raster.completed_hofs[160 + k];
            proof {
                let next = bg1.subrange(0, k + 1);
                assert(next.drop_last() =~= bg1.subrange(0, k as int));
                assert(next.last() == value);
            }
            if k > 0 {
                if value < min {
                    min = value;
                }
                if value > max {
                    max = value;
                }
            }
            checksum = checksum.wrapping_add(value as u32);
            k += 1;
        }
        proof {
            assert(bg1.subrange(0, 160) =~= bg1);
        }
        KvmVideoDebugState {
            dispcnt: self.read_io_u16(DISPCNT),
            bg0cnt: self.read_io_u16(BG0CNT),
            bg1cnt: self.read_io_u16(BG1CNT),
            bg2cnt: self.read_io_u16(BG2CNT),
            bg0hofs: self.read_io_u16(BG0HOFS),
            bg1hofs: self.read_io_u16(BG1HOFS),
            keyinput: self.read_io_u16(KEYINPUT),
            irq_waitflags: read_u16(self.iwram.as_slice(), 0x7ff8),
            mosaic: self.read_io_u16(MOSAIC),
            dma3cnt: self.read_io_u16(DMA0SAD + 3 * 12 + 10),
            vram0: self.read_vram_u16(0),
            bg0_map_nonzero: self.count_bg_map_nonzero(DEBUG_SCREEN_BLOCK),
            bg0_text_1: self.read_vram_u16(29 * 0x800 + (1 + 1 * 32) * 2),
            bg0_text_2: self.read_vram_u16(29 * 0x800 + (1 + 2 * 32) * 2),
            cycle_digit_10: self.read_vram_u16(29 * 0x800 + (11 + 1 * 32) * 2),
            cycle_digit_1: self.read_vram_u16(29 * 0x800 + (12 + 1 * 32) * 2),
            cx_digit_10: self.read_vram_u16(29 * 0x800 + (11 + 2 * 32) * 2),
            cx_digit_1: self.read_vram_u16(29 * 0x800 + (12 + 2 * 32) * 2),
            bg1_raster_min: min,
            bg1_raster_max: max,
            bg1_raster_sample: self.raster.completed_hofs[160 + 80],
            bg1_raster_checksum: checksum,
        }
    }

    /// Moves VCOUNT to line `value` (see `spec_set_vcount`).
    pub fn set_vcount(&mut self, value: u16)
        requires
            old(self).wf(),
        ensures
            final(self).wf(),
            final(self).state() == spec_set_vcount(old(self).state(), value),
    {
        let old_dispstat = self.read_io_u16(DISPSTAT);
        self.write_io_u16(VCOUNT, value);
        let dispstat = if value >= 160 {
            (old_dispstat & !(DISPSTAT_VBLANK | DISPSTAT_HBLANK)) | DISPSTAT_VBLANK
        } else {
            old_dispstat & !(DISPSTAT_VBLANK | DISPSTAT_HBLANK)
        };
        self.write_io_u16(DISPSTAT, dispstat);
        if value == 160 {
            self.raster.completed_hofs = self.raster.hofs.clone();
            self.raster.completed_vofs = self.raster.vofs.clone();
            proof {
                assert(self.raster.completed_hofs@ =~= self.raster.hofs@);
                assert(self.raster.completed_vofs@ =~= self.raster.vofs@);
            }
        }
        if (value as usize) < HEIGHT {
            latch_line(&mut self.raster.hofs, &self.bghofs_scanline_active, &self.io, BG0HOFS, value as usize);
            latch_line(&mut self.raster.vofs, &self.bgvofs_scanline_active, &self.io, BG0VOFS, value as usize);
        }
        if old_dispstat & DISPSTAT_VBLANK == 0 && dispstat & DISPSTAT_VBLANK != 0
            && dispstat & DISPSTAT_VBLANK_IRQ_ENABLE != 0 {
            self.request_interrupt(IRQ_VBLANK);
            if self.read_io_u16(IE) & IRQ_VBLANK != 0 && self.read_io_u16(IME) & 1 != 0 {
                self.line_pulse();
            }
        }
    }
}

/// Sizes: the guest areas as mapped, the rasters and frames as drawn.
pub open spec fn spec_shared_wf(s: SharedState) -> bool {
    &&& s.ewram.len() == EWRAM_SIZE
    &&& s.iwram.len() == IWRAM_SIZE
    &&& s.io.len() == IO_SLOT_SIZE
    &&& s.palette.len() >= PALETTE_SIZE
    &&& s.vram.len() == VRAM_SIZE
    &&& s.oam.len() >= OAM_SIZE
    &&& s.fast.len() == FAST_MEM_SIZE
    &&& s.hofs.len() == RASTER_LEN
    &&& s.completed_hofs.len() == RASTER_LEN
    &&& s.vofs.len() == RASTER_LEN
    &&& s.completed_vofs.len() == RASTER_LEN
    &&& s.hofs_active.len() == 4
    &&& s.vofs_active.len() == 4
    &&& s.work.len() == WIDTH * HEIGHT
    &&& s.completed.len() == WIDTH * HEIGHT
    &&& spec_timers_wf(s.timers)
}

proof fn lemma_clear_bit0(x: u32)
    by (bit_vector)
    ensures
        x & !1u32 == x - x % 2,
{
}

proof fn lemma_wrap_add_twice(a: u32, d: int, e: int)
    requires
        d >= 0,
        e >= 0,
    ensures
        spec_wrap_add(spec_wrap_add(a, d), e) == spec_wrap_add(a, d + e),
{
    vstd::arithmetic::div_mod::lemma_add_mod_noop(a + d, e, 0x1_0000_0000);
    vstd::arithmetic::div_mod::lemma_mod_twice(e, 0x1_0000_0000);
}

/// `a` moved by `d` modulo 2^32.
fn wrapping_add_signed(a: u32, d: i32) -> (r: u32)
    ensures
        r == spec_wrap_add(a, d as int),
{
    if d >= 0 {
        a.wrapping_add(d as u32)
    } else {
        a.wrapping_sub((0 - d as i64) as u32)
    }
}

/// The guest RAM area a DMA address falls in, and the offset in it.
fn dma_memory_region(shared: &KvmSharedMemory, addr: u32) -> (r: Option<(&[u8], usize)>)
    ensures
        match spec_dma_region(addr) {
            Some((id, offset)) => r matches Some((memory, o)) && memory@ == region_bytes(shared.state(), id) && o == offset,
            None => r is None,
        },
{
    if EWRAM_START <= addr && addr < EWRAM_START + EWRAM_SIZE as u32 {
        Some((shared.ewram.as_slice(), (addr - EWRAM_START) as usize))
    } else if IWRAM_START <= addr && addr < IWRAM_START + IWRAM_SIZE as u32 {
        Some((shared.iwram.as_slice(), (addr - IWRAM_START) as usize))
    } else if PALETTE_START <= addr && addr < PALETTE_START + PALETTE_SIZE as u32 {
        Some((shared.palette.as_slice(), (addr - PALETTE_START) as usize))
    } else if VRAM_START <= addr && addr < VRAM_START + VRAM_SIZE as u32 {
        Some((shared.vram.as_slice(), (addr - VRAM_START) as usize))
    } else if OAM_START <= addr && addr < OAM_START + OAM_SIZE as u32 {
        Some((shared.oam.as_slice(), (addr - OAM_START) as usize))
    } else {
        None
    }
}

/// The state after the guest's MMIO write of `len` bytes of `data` at I/O
/// address `addr`: the write mirrored into the I/O page, then the timer
/// registers it touched passed on to the timers.
pub open spec fn spec_io_write(s: SharedState, addr: u32, len: u32, data: Seq<u8>) -> SharedState {
    let (start, count) = spec_timer_write_bounds(addr, len);
    spec_timer_registers(spec_mirror_io_write(s, addr, len, data), start, count)
}

/// How an MMIO exit is served (`m0` the exit record as the vCPU left it,
/// `m1` as handed back): a write in the I/O area is mirrored and passed on
/// to the timers; a read there is answered from the I/O page, zero-padded;
/// a read anywhere else reads zero; a write anywhere else is dropped.
pub open spec fn spec_mmio_served(s0: SharedState, m0: KvmMmio, s1: SharedState, m1: KvmMmio) -> bool {
    let addr = m0.phys_addr as u32;
    let in_io = IO_START <= m0.phys_addr < IO_START + 0x400;
    &&& m1.phys_addr == m0.phys_addr && m1.len == m0.len && m1.is_write == m0.is_write
    &&& if in_io && m0.is_write != 0 {
        s1 == spec_io_write(s0, addr, m0.len, m0.data@) && m1.data == m0.data
    } else if in_io {
        &&& s1 == s0
        &&& forall|i: int| 0 <= i < 8 ==> #[trigger] m1.data@[i] == (if i < m0.len { s0.io[addr - IO_START + i] } else { 0u8 })
    } else {
        s1 == s0 && m1.data@ == (if m0.is_write == 0 { seq![0u8; 8] } else { m0.data@ })
    }
}

/// The exits that stop the vCPU for good.
pub open spec fn spec_fatal_exit(exit_reason: u32) -> bool {
    exit_reason == KVM_EXIT_EXCEPTION || exit_reason == KVM_EXIT_FAIL_ENTRY || exit_reason == KVM_EXIT_INTERNAL_ERROR
        || exit_reason == KVM_EXIT_SHUTDOWN
}

/// Handles one vCPU exit: MMIO is served, a fatal exit ends the run with
/// `KVM stopped with exit reason {n}`, any other exit is ignored.
pub fn handle_exit(shared: &mut KvmSharedMemory, exit_reason: u32, mmio: &mut KvmMmio) -> (r: Result<(), String>)
    requires
        old(shared).wf(),
        old(mmio).len <= 8,
    ensures
        final(shared).wf(),
        exit_reason == KVM_EXIT_MMIO ==> r is Ok && spec_mmio_served(old(shared).state(), *old(mmio), final(shared).state(), *final(mmio)),
        exit_reason != KVM_EXIT_MMIO ==> final(shared).state() == old(shared).state() && *final(mmio) == *old(mmio),
        spec_fatal_exit(exit_reason) ==> r is Err && r->Err_0@ == "KVM stopped with exit reason "@ + spec_decimal(exit_reason as nat),
        exit_reason != KVM_EXIT_MMIO && !spec_fatal_exit(exit_reason) ==> r is Ok,
{
    if exit_reason == KVM_EXIT_MMIO {
        handle_mmio(shared, mmio);
        Ok(())
    } else if exit_reason == KVM_EXIT_EXCEPTION || exit_reason == KVM_EXIT_FAIL_ENTRY
        || exit_reason == KVM_EXIT_INTERNAL_ERROR || exit_reason == KVM_EXIT_SHUTDOWN {
        let mut message = String::new();
        message.append("KVM stopped with exit reason ");
        push_decimal(&mut message, exit_reason);
        Err(message)
    } else {
        Ok(())
    }
}

/// Serves a vCPU MMIO exit: a write in the I/O area is mirrored and passed
/// on to the timers, a read there is answered from the I/O page; a read
/// anywhere else reads zero, a write anywhere else is dropped.
pub fn handle_mmio(shared: &mut KvmSharedMemory, mmio: &mut KvmMmio)
    requires
        old(shared).wf(),
        old(mmio).len <= 8,
    ensures
        final(shared).wf(),
        spec_mmio_served(old(shared).state(), *old(mmio), final(shared).state(), *final(mmio)),
{
    if mmio.phys_addr >= IO_START as u64 && mmio.phys_addr < (IO_START + 0x400) as u64 {
        let addr = mmio.phys_addr as u32;
        if mmio.is_write != 0 {
            shared.mirror_io_write(addr, mmio.len, &mmio.data);
            shared.write_timer_registers_from_io(addr, mmio.len);
        } else {
            let len = mmio.len;
            shared.copy_io_read(addr, len, &mut mmio.data);
        }
    } else if mmio.is_write == 0 {
        mmio.data = [0u8; 8];
        proof {
            assert(mmio.data@ =~= seq![0u8; 8]);
        }
    }
}

/// Latches line `y` of `raster` from the offset registers (see
/// `spec_latch_line`).
fn latch_line(raster: &mut Vec<u16>, active: &[bool; 4], io: &Vec<u8>, base: u32, y: usize)
    requires
        old(raster)@.len() == RASTER_LEN,
        io@.len() == IO_SLOT_SIZE,
        base == BG0HOFS || base == BG0VOFS,
        y < HEIGHT,
    ensures
        final(raster)@ == spec_latch_line(old(raster)@, active@, io@, base, y as int),
{
    let ghost r0 = raster@;
    let mut bg: usize = 0;
    while bg < 4
        invariant
            bg <= 4,
            raster@.len() == RASTER_LEN,
            io@.len() == IO_SLOT_SIZE,
            base == BG0HOFS || base == BG0VOFS,
            y < HEIGHT,
            r0.len() == RASTER_LEN,
            forall|i: int| 0 <= i < RASTER_LEN ==> #[trigger] raster@[i] == (if i / 160 < bg {
                spec_latch_line(r0, active@, io@, base, y as int)[i]
            } else {
                r0[i]
            }),
        decreases 4 - bg,
    {
        if !active[bg] {
            let value = read_u16(io.as_slice(), (base + 4 * bg as u32 - IO_START) as usize);
            raster.set(bg * 160 + y, value);
        }
        bg += 1;
    }
    assert(raster@ =~= spec_latch_line(r0, active@, io@, base, y as int));
}

} // verus!
