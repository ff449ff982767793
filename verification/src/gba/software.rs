//! A minimal software CPU for development: the handful of ARM and Thumb
//! instructions that the sample ROM executes, with memory effects routed
//! through the I/O bus.
use vstd::prelude::*;

use super::bits::put16;
use super::bus::{spec_io_write, spec_ppu_write, AccessSize, Bus};
use super::cartridge::{spec_rom_u16, spec_rom_u32, Cartridge};
use super::memory_map::{
    DISPCNT, EWRAM_START, GAME_PAK_ROM_START, IO_START, IWRAM_START, VCOUNT, VRAM_SIZE, VRAM_START,
};
use super::ppu::Ppu;
use crate::text::{push_hex, spec_hex};

verus! {

pub const DEFAULT_MAX_INSTRUCTIONS: usize = 200_000;

/// Address at or past which the sample ROM has drawn its first frame.
pub const FRAME_READY_PC: u32 = 0x0800_025e;

#[derive(Debug)]
pub struct SoftwareRunner {
    pub regs: [u32; 16],
    pub thumb: bool,
    pub instructions: usize,
    pub vcount_reads: u32,
}

#[derive(Clone, Copy, Debug, PartialEq, Eq, Structural)]
pub enum RunResult {
    FrameReady,
    InstructionLimit { pc: u32 },
}

/// The text of an "unsupported instruction" error: `unsupported {kind} op
/// 0x{op}` with `digits` hex digits of `op`, followed by ` at 0x{pc}` (eight
/// digits) when the pc is given.
pub open spec fn spec_unsupported_message(kind: Seq<char>, op: u32, digits: nat, pc: Option<u32>) -> Seq<char> {
    let head = "unsupported "@ + kind + " op 0x"@ + spec_hex(op as nat, digits);
    match pc {
        Some(pc) => head + " at 0x"@ + spec_hex(pc as nat, 8),
        None => head,
    }
}

fn unsupported_message(kind: &str, op: u32, digits: u32, pc: Option<u32>) -> (r: String)
    ensures
        r@ == spec_unsupported_message(kind@, op, digits as nat, pc),
{
    let mut s = String::new();
    s.append("unsupported ");
    s.append(kind);
    s.append(" op 0x");
    push_hex(&mut s, op, digits);
    if let Some(pc) = pc {
        s.append(" at 0x");
        push_hex(&mut s, pc, 8);
    }
    s
}

/// The error of an instruction the runner cannot complete at `pc`.
pub open spec fn spec_fault_message(pc: u32) -> Seq<char> {
    "cannot complete the instruction at 0x"@ + spec_hex(pc as nat, 8)
}

fn fault_message(pc: u32) -> (r: String)
    ensures
        r@ == spec_fault_message(pc),
{
    let mut s = String::from_str("cannot complete the instruction at 0x");
    push_hex(&mut s, pc, 8);
    s
}

/// The state the runner reads and changes: its registers and mode, the
/// number of VCOUNT reads so far, and the PPU, I/O store and VRAM of the bus.
#[verifier::ext_equal]
pub struct MachineView {
    pub regs: Seq<u32>,
    pub thumb: bool,
    pub vcount_reads: int,
    pub ppu: Ppu,
    pub io: Seq<u8>,
    pub vram: Seq<u8>,
}

pub open spec fn spec_view(r: SoftwareRunner, b: Bus) -> MachineView {
    MachineView { regs: r.regs@, thumb: r.thumb, vcount_reads: r.vcount_reads as int, ppu: b.ppu, io: b.io@, vram: b.memory.vram@ }
}

/// The bus memory other than VRAM is the same in `a` and `b`.
pub open spec fn same_memory_but_vram(a: Bus, b: Bus) -> bool {
    &&& a.memory.ewram == b.memory.ewram
    &&& a.memory.iwram == b.memory.iwram
    &&& a.memory.palette == b.memory.palette
    &&& a.memory.oam == b.memory.oam
}

pub open spec fn with_reg(m: MachineView, r: int, v: u32) -> MachineView {
    MachineView { regs: m.regs.update(r, v), ..m }
}

/// Flags of a comparison `lhs - rhs`, kept in r14: bit 30 (Z) when the
/// difference is zero, bit 29 (C) when there is no borrow.
pub open spec fn spec_flags(lhs: u32, rhs: u32) -> u32 {
    (if lhs.wrapping_sub(rhs) == 0 { 0x4000_0000u32 } else { 0u32 }) | (if lhs >= rhs { 0x2000_0000u32 } else { 0u32 })
}

pub open spec fn spec_z(m: MachineView) -> bool {
    m.regs[14] & 0x4000_0000 != 0
}

pub open spec fn spec_c(m: MachineView) -> bool {
    m.regs[14] & 0x2000_0000 != 0
}

/// `BX`: bit 0 of the target selects Thumb state, the rest is the new pc.
pub open spec fn spec_branch_exchange(m: MachineView, value: u32) -> MachineView {
    MachineView { thumb: value & 1 != 0, regs: m.regs.update(15, value & !1u32), ..m }
}

/// A halfword load: reading VCOUNT counts the read and makes the PPU report
/// line 0 for the first two reads and line 160 (VBlank) afterwards; other
/// addresses read as 0.
pub open spec fn spec_load_u16(m: MachineView, addr: u32) -> (MachineView, u16) {
    if addr == VCOUNT {
        let reads = m.vcount_reads + 1;
        let line: u16 = if reads < 3 { 0 } else { 160 };
        (MachineView { vcount_reads: reads, ppu: Ppu { vcount: line, ..m.ppu }, ..m }, line)
    } else {
        (m, 0)
    }
}

/// A halfword store: to DISPCNT through the bus, to VRAM directly; other
/// addresses are ignored.
pub open spec fn spec_store_u16(m: MachineView, addr: u32, value: u16) -> MachineView {
    if addr == DISPCNT {
        MachineView { ppu: spec_ppu_write(m.ppu, addr, value), io: spec_io_write(m.io, addr, value), ..m }
    } else if VRAM_START <= addr < VRAM_START + VRAM_SIZE {
        MachineView { vram: put16(m.vram, addr - VRAM_START, value), ..m }
    } else {
        m
    }
}

/// A word store: a word write through the bus in the I/O area; other
/// addresses (EWRAM and IWRAM among them) are ignored.
pub open spec fn spec_store_u32(m: MachineView, addr: u32, value: u32) -> MachineView {
    if IO_START <= addr < IO_START + 0x400 {
        let lo = (value % 65536) as u16;
        let hi = (value / 65536) as u16;
        let a2 = (addr + 2) as u32;
        MachineView {
            ppu: spec_ppu_write(spec_ppu_write(m.ppu, addr, lo), a2, hi),
            io: spec_io_write(spec_io_write(m.io, addr, lo), a2, hi),
            ..m
        }
    } else {
        m
    }
}

/// A halfword store that would run past the end of VRAM.
pub open spec fn spec_store_u16_faults(addr: u32) -> bool {
    addr == VRAM_START + VRAM_SIZE - 1
}

/// A word store whose second halfword would start at the last byte of the
/// I/O area (or whose first one would).
pub open spec fn spec_store_u32_faults(addr: u32) -> bool {
    addr == 0x0400_03ff || addr == 0x0400_03fd
}

pub open spec fn spec_sext8(v: u32) -> u32 {
    if v & 0x80 != 0 { v | 0xffff_ff00 } else { v }
}

pub open spec fn spec_sext11(v: u32) -> u32 {
    if v & 0x400 != 0 { v | 0xffff_f800 } else { v }
}

pub open spec fn spec_sext24(v: u32) -> u32 {
    if v & 0x0080_0000 != 0 { v | 0xff00_0000 } else { v }
}

/// Number of set bits among the low `n` bits of `x`.
pub open spec fn spec_popcount(x: u16, n: nat) -> nat
    decreases n,
{
    if n == 0 { 0 } else { spec_popcount(x / 2, (n - 1) as nat) + (x % 2) as nat }
}

pub open spec fn spec_thumb_alu(m: MachineView, op: u16) -> (MachineView, bool) {
    let rd = (op & 0x7) as int;
    let rs = ((op >> 3u16) & 0x7) as int;
    let kind = (op >> 6u16) & 0xf;
    if kind == 0x8 || kind == 0xa {
        (with_reg(m, 14, spec_flags(m.regs[rd], m.regs[rs])), true)
    } else if kind == 0xe {
        (with_reg(m, rd, m.regs[rd] & !m.regs[rs]), true)
    } else {
        (m, false)
    }
}

pub open spec fn spec_thumb_high(m: MachineView, op: u16) -> MachineView {
    let rd = (op & 0x7) as int + ((op >> 7u16) & 1) as int * 8;
    let rs = ((op >> 3u16) & 0x7) as int + ((op >> 6u16) & 1) as int * 8;
    let kind = (op >> 8u16) & 0x3;
    if kind == 0 {
        with_reg(m, rd, m.regs[rd].wrapping_add(m.regs[rs]))
    } else if kind == 2 {
        with_reg(m, rd, m.regs[rs])
    } else if kind == 3 {
        spec_branch_exchange(m, m.regs[rs])
    } else {
        m
    }
}

/// Whether a conditional branch with condition `cond` is taken: EQ, NE, HI
/// and LS are decided from the flags, every other condition is not taken.
pub open spec fn spec_cond_taken(m: MachineView, cond: u16) -> bool {
    if cond == 0x0 { spec_z(m) }
    else if cond == 0x1 { !spec_z(m) }
    else if cond == 0x8 { spec_c(m) && !spec_z(m) }
    else if cond == 0x9 { !spec_c(m) || spec_z(m) }
    else { false }
}

/// One Thumb instruction at pc (which first moves past it); `false` for an
/// unsupported instruction.
#[verifier::opaque]
pub open spec fn spec_thumb_step(m0: MachineView, rom: Seq<u8>) -> (MachineView, bool) {
    let pc = m0.regs[15];
    let op = spec_rom_u16(rom, pc);
    let m = with_reg(m0, 15, pc.wrapping_add(2));
    let rd8 = ((op >> 8u16) & 0x7) as int;
    let rd = (op & 0x7) as int;
    let r3 = ((op >> 3u16) & 0x7) as int;
    let r6 = ((op >> 6u16) & 0x7) as int;
    let imm5 = ((op >> 6u16) & 0x1f) as u32;
    let imm8 = (op & 0xff) as u32;
    if op == 0x46c0 {
        (m, true)
    } else if op & 0xf800 == 0x2000 {
        (with_reg(m, rd8, imm8), true)
    } else if op & 0xf800 == 0x4800 {
        let addr = (((pc + 4) as u32) & !3u32).wrapping_add((imm8 * 4) as u32);
        (with_reg(m, rd8, spec_rom_u32(rom, addr)), true)
    } else if op & 0xf800 == 0x0000 {
        (with_reg(m, rd, m.regs[r3] << imm5), true)
    } else if op & 0xf800 == 0x0800 {
        (with_reg(m, rd, m.regs[r3] >> imm5), true)
    } else if op & 0xfe00 == 0x1800 {
        (with_reg(m, rd, m.regs[r3].wrapping_add(m.regs[r6])), true)
    } else if op & 0xfe00 == 0x1a00 {
        (with_reg(m, rd, m.regs[r3].wrapping_sub(m.regs[r6])), true)
    } else if op & 0xf800 == 0x3000 {
        (with_reg(m, rd8, m.regs[rd8].wrapping_add(imm8)), true)
    } else if op & 0xf800 == 0x3800 {
        (with_reg(m, rd8, m.regs[rd8].wrapping_sub(imm8)), true)
    } else if op & 0xf800 == 0x2800 {
        (with_reg(m, 14, spec_flags(m.regs[rd8], imm8)), true)
    } else if op & 0xf800 == 0x8000 {
        let addr = m.regs[r3].wrapping_add((imm5 * 2) as u32);
        (spec_store_u16(m, addr, m.regs[rd] as u16), true)
    } else if op & 0xfe00 == 0x5200 {
        let addr = m.regs[r3].wrapping_add(m.regs[r6]);
        (spec_store_u16(m, addr, m.regs[rd] as u16), true)
    } else if op & 0xf800 == 0x8800 {
        let addr = m.regs[r3].wrapping_add((imm5 * 2) as u32);
        let (m2, v) = spec_load_u16(m, addr);
        (with_reg(m2, rd, v as u32), true)
    } else if op & 0xfc00 == 0x4000 {
        spec_thumb_alu(m, op)
    } else if op & 0xfc00 == 0x4400 {
        (spec_thumb_high(m, op), true)
    } else if op & 0xff00 == 0xb500 {
        let count = spec_popcount(op & 0xff, 8) + (if op & 0x0100 != 0 { 1nat } else { 0 });
        (with_reg(m, 13, m.regs[13].wrapping_sub((count * 4) as u32)), true)
    } else if op & 0xf000 == 0xd000 {
        if spec_cond_taken(m, (op >> 8u16) & 0xf) {
            (with_reg(m, 15, m.regs[15].wrapping_add(spec_sext8(imm8) << 1u32)), true)
        } else {
            (m, true)
        }
    } else if op & 0xf800 == 0xe000 {
        (with_reg(m, 15, m.regs[15].wrapping_add(spec_sext11((op & 0x07ff) as u32) << 1u32)), true)
    } else {
        (m, false)
    }
}

/// Thumb instructions the runner cannot complete: a PC-relative load whose
/// address computation overflows, a right shift by 32, a VCOUNT read count
/// that overflows, or a faulting store.
#[verifier::opaque]
pub open spec fn spec_thumb_faults(m0: MachineView, rom: Seq<u8>) -> bool {
    let pc = m0.regs[15];
    let op = spec_rom_u16(rom, pc);
    let r3 = ((op >> 3u16) & 0x7) as int;
    let r6 = ((op >> 6u16) & 0x7) as int;
    let imm5 = ((op >> 6u16) & 0x1f) as u32;
    let imm8 = (op & 0xff) as u32;
    if op == 0x46c0 || op & 0xf800 == 0x2000 {
        false
    } else if op & 0xf800 == 0x4800 {
        pc + 4 > u32::MAX || (((pc + 4) as u32) & !3u32).wrapping_add((imm8 * 4) as u32) + 2 > u32::MAX
    } else if op & 0xf800 == 0x0000 {
        false
    } else if op & 0xf800 == 0x0800 {
        imm5 == 0
    } else if op & 0xfe00 == 0x1800 || op & 0xfe00 == 0x1a00 || op & 0xf800 == 0x3000 || op & 0xf800 == 0x3800
        || op & 0xf800 == 0x2800 {
        false
    } else if op & 0xf800 == 0x8000 {
        spec_store_u16_faults(m0.regs[r3].wrapping_add((imm5 * 2) as u32))
    } else if op & 0xfe00 == 0x5200 {
        spec_store_u16_faults(m0.regs[r3].wrapping_add(m0.regs[r6]))
    } else if op & 0xf800 == 0x8800 {
        m0.regs[r3].wrapping_add((imm5 * 2) as u32) == VCOUNT && m0.vcount_reads + 1 > u32::MAX
    } else {
        false
    }
}

/// The error of an unsupported Thumb instruction at pc.
pub open spec fn spec_thumb_error(m: MachineView, rom: Seq<u8>) -> Seq<char> {
    let pc = m.regs[15];
    let op = spec_rom_u16(rom, pc);
    if op & 0xfc00 == 0x4000 {
        spec_unsupported_message("Thumb ALU"@, op as u32, 4, None)
    } else {
        spec_unsupported_message("Thumb"@, op as u32, 4, Some(pc))
    }
}

/// One ARM instruction at pc (which first moves past it); `false` for an
/// unsupported instruction.
#[verifier::opaque]
pub open spec fn spec_arm_step(m0: MachineView, rom: Seq<u8>) -> (MachineView, bool) {
    let pc = m0.regs[15];
    let op = spec_rom_u32(rom, pc);
    let m = with_reg(m0, 15, pc.wrapping_add(4));
    if op & 0x0f00_0000 == 0x0a00_0000 {
        (with_reg(m, 15, pc.wrapping_add(8).wrapping_add(spec_sext24(op & 0x00ff_ffff) << 2u32)), true)
    } else if op == 0xe3a0_0301 {
        (with_reg(m, 0, 0x0400_0000), true)
    } else if op == 0xe580_0208 {
        (spec_store_u32(m, m.regs[0].wrapping_add(0x208), m.regs[0]), true)
    } else if op == 0xe3a0_0012 {
        (with_reg(m, 0, 0x12), true)
    } else if op == 0xe3a0_001f {
        (with_reg(m, 0, 0x1f), true)
    } else if op == 0xe129_f000 {
        (m, true)
    } else if op == 0xe59f_d0ac || op == 0xe59f_d0a4 {
        (with_reg(m, 13, spec_rom_u32(rom, (pc + 8 + (op & 0xfff)) as u32)), true)
    } else if op == 0xe28f_0001 {
        (with_reg(m, 0, (pc + 8 + 1) as u32), true)
    } else if op == 0xe12f_ff10 {
        (spec_branch_exchange(m, m.regs[0]), true)
    } else {
        (m, false)
    }
}

/// ARM instructions the runner cannot complete: a fetch or literal load
/// whose address computation overflows, or a faulting store.
#[verifier::opaque]
pub open spec fn spec_arm_faults(m0: MachineView, rom: Seq<u8>) -> bool {
    let pc = m0.regs[15];
    if pc + 2 > u32::MAX {
        true
    } else {
        let op = spec_rom_u32(rom, pc);
        if op & 0x0f00_0000 == 0x0a00_0000 {
            false
        } else if op == 0xe580_0208 {
            spec_store_u32_faults(m0.regs[0].wrapping_add(0x208))
        } else if op == 0xe59f_d0ac || op == 0xe59f_d0a4 {
            pc + 8 + (op & 0xfff) + 2 > u32::MAX
        } else if op == 0xe28f_0001 {
            pc + 8 + 1 > u32::MAX
        } else {
            false
        }
    }
}

/// The error of an unsupported ARM instruction at pc.
pub open spec fn spec_arm_error(m: MachineView, rom: Seq<u8>) -> Seq<char> {
    spec_unsupported_message("ARM"@, spec_rom_u32(rom, m.regs[15]), 8, Some(m.regs[15]))
}

pub open spec fn spec_step(m: MachineView, rom: Seq<u8>) -> (MachineView, bool) {
    if m.thumb { spec_thumb_step(m, rom) } else { spec_arm_step(m, rom) }
}

pub open spec fn spec_step_faults(m: MachineView, rom: Seq<u8>) -> bool {
    if m.thumb { spec_thumb_faults(m, rom) } else { spec_arm_faults(m, rom) }
}

pub open spec fn spec_step_error(m: MachineView, rom: Seq<u8>) -> Seq<char> {
    if m.thumb { spec_thumb_error(m, rom) } else { spec_arm_error(m, rom) }
}

/// How a run ended.
pub enum RunEnd {
    Frame,
    Limit,
    Error(Seq<char>),
    Fault,
}

/// Up to `fuel` steps from `m` (with `count` instructions executed so far):
/// the final state, instruction count, and how the run ended. A run stops
/// at an unsupported instruction, at one it cannot complete, or once more
/// than 100 instructions have run and pc has reached `FRAME_READY_PC`.
pub open spec fn spec_run(m: MachineView, count: int, rom: Seq<u8>, fuel: nat) -> (MachineView, int, RunEnd)
    decreases fuel,
{
    if fuel == 0 {
        (m, count, RunEnd::Limit)
    } else if spec_step_faults(m, rom) {
        (m, count + 1, RunEnd::Fault)
    } else {
        let (m2, ok) = spec_step(m, rom);
        let n = count + 1;
        if !ok {
            (m2, n, RunEnd::Error(spec_step_error(m, rom)))
        } else if n > 100 && m2.regs[15] >= FRAME_READY_PC {
            (m2, n, RunEnd::Frame)
        } else {
            spec_run(m2, n, rom, (fuel - 1) as nat)
        }
    }
}

/// A run ends with a frame only once more than 100 instructions have run
/// and pc has reached `FRAME_READY_PC`; a run never executes more
/// instructions than its fuel.
pub proof fn lemma_frame_only_past_mark(m: MachineView, count: int, rom: Seq<u8>, fuel: nat)
    ensures
        ({
            let (m2, n, end) = spec_run(m, count, rom, fuel);
            &&& count <= n <= count + fuel
            &&& end is Frame ==> n > 100 && m2.regs[15] >= FRAME_READY_PC
        }),
    decreases fuel,
{
    if fuel > 0 && !spec_step_faults(m, rom) {
        let (m2, ok) = spec_step(m, rom);
        if ok && !(count + 1 > 100 && m2.regs[15] >= FRAME_READY_PC) {
            lemma_frame_only_past_mark(m2, count + 1, rom, (fuel - 1) as nat);
        }
    }
}

/// The register file a runner starts with: all zero but the stack pointer
/// (r13, near the top of IWRAM) and pc.
pub open spec fn spec_initial_regs(pc: u32) -> Seq<u32> {
    Seq::new(16, |i: int| if i == 13 { (IWRAM_START + 0x7f00) as u32 } else if i == 15 { pc } else { 0u32 })
}

/// The word at ROM offset 0x1f4, whose bit 0 marks a Thumb entry point.
pub open spec fn spec_entry_word(rom: Seq<u8>) -> u32 {
    spec_rom_u32(rom, (GAME_PAK_ROM_START + 0x1f4) as u32)
}

/// One step of `spec_run` with fuel left, in a run that does not fault.
proof fn lemma_run_unfold(m: MachineView, count: int, rom: Seq<u8>, fuel: nat)
    requires
        fuel > 0,
        !spec_step_faults(m, rom),
    ensures
        ({
            let (m2, ok) = spec_step(m, rom);
            spec_run(m, count, rom, fuel) == if !ok {
                (m2, count + 1, RunEnd::Error(spec_step_error(m, rom)))
            } else if count + 1 > 100 && m2.regs[15] >= FRAME_READY_PC {
                (m2, count + 1, RunEnd::Frame)
            } else {
                spec_run(m2, count + 1, rom, (fuel - 1) as nat)
            }
        }),
{
}

proof fn lemma_thumb_fields(op: u16)
    by (bit_vector)
    ensures
        op & 0x7 < 8,
        (op >> 3u16) & 0x7 < 8,
        (op >> 6u16) & 0x7 < 8,
        (op >> 8u16) & 0x7 < 8,
        (op >> 6u16) & 0x1f < 32,
        (op >> 7u16) & 1 < 2,
        (op >> 6u16) & 1 < 2,
{
}

impl SoftwareRunner {
    /// A runner at the ROM's entry point: the Thumb address recorded at ROM
    /// offset 0x1f4 when its bit 0 is set, else ARM code at the start of ROM.
    pub fn new_for_rom(cartridge: &Cartridge) -> (r: Self)
        ensures
            r.thumb == (spec_entry_word(cartridge.rom@) & 1 != 0),
            r.regs@ == spec_initial_regs(
                if r.thumb { spec_entry_word(cartridge.rom@) & !1u32 } else { GAME_PAK_ROM_START },
            ),
            r.instructions == 0,
            r.vcount_reads == 0,
    {
        let mut regs = [0u32; 16];
        regs[13] = IWRAM_START + 0x7f00;
        let (pc, thumb) = match cartridge.entry_thumb_addr() {
            Some(main) => (main, true),
            None => (GAME_PAK_ROM_START, false),
        };
        regs[15] = pc;
        let r = SoftwareRunner { regs, thumb, instructions: 0, vcount_reads: 0 };
        assert(r.regs@ =~= spec_initial_regs(pc));
        r
    }

    /// Runs until the sample ROM has drawn its first frame, or for at most
    /// `DEFAULT_MAX_INSTRUCTIONS` instructions, or up to an unsupported
    /// instruction, whose error it returns.
    pub fn run_until_frame(&mut self, cartridge: &Cartridge, bus: &mut Bus) -> (r: Result<RunResult, String>)
        requires
            old(bus).wf(),
            old(self).instructions + DEFAULT_MAX_INSTRUCTIONS <= usize::MAX,
            !(spec_run(spec_view(*old(self), *old(bus)), old(self).instructions as int, cartridge.rom@,
                DEFAULT_MAX_INSTRUCTIONS as nat).2 is Fault),
        ensures
            final(bus).wf(),
            same_memory_but_vram(*final(bus), *old(bus)),
            ({
                let (m, n, end) = spec_run(spec_view(*old(self), *old(bus)), old(self).instructions as int,
                    cartridge.rom@, DEFAULT_MAX_INSTRUCTIONS as nat);
                &&& spec_view(*final(self), *final(bus)) == m
                &&& final(self).instructions == n
                &&& match end {
                    RunEnd::Frame => r == Ok::<RunResult, String>(RunResult::FrameReady),
                    RunEnd::Limit => r == Ok::<RunResult, String>(RunResult::InstructionLimit { pc: m.regs[15] }),
                    RunEnd::Error(e) => r is Err && r->Err_0@ == e,
                    RunEnd::Fault => false,
                }
            }),
    {
        self.run_until_frame_checked(cartridge, bus)
    }

    /// As `run_until_frame`, for every state: an instruction the runner
    /// cannot complete (see `spec_step_faults`) ends the run, counted but
    /// not executed, with `cannot complete the instruction at 0x{pc}`.
    pub fn run_until_frame_checked(&mut self, cartridge: &Cartridge, bus: &mut Bus) -> (r: Result<RunResult, String>)
        requires
            old(bus).wf(),
            old(self).instructions + DEFAULT_MAX_INSTRUCTIONS <= usize::MAX,
        ensures
            final(bus).wf(),
            same_memory_but_vram(*final(bus), *old(bus)),
            ({
                let (m, n, end) = spec_run(spec_view(*old(self), *old(bus)), old(self).instructions as int,
                    cartridge.rom@, DEFAULT_MAX_INSTRUCTIONS as nat);
                &&& spec_view(*final(self), *final(bus)) == m
                &&& final(self).instructions == n
                &&& match end {
                    RunEnd::Frame => r == Ok::<RunResult, String>(RunResult::FrameReady),
                    RunEnd::Limit => r == Ok::<RunResult, String>(RunResult::InstructionLimit { pc: m.regs[15] }),
                    RunEnd::Error(e) => r is Err && r->Err_0@ == e,
                    RunEnd::Fault => r is Err && r->Err_0@ == spec_fault_message(m.regs[15]),
                }
            }),
    {
        let ghost m0 = spec_view(*self, *bus);
        let ghost c0 = self.instructions as int;
        let ghost b0 = *bus;
        let ghost rom = cartridge.rom@;
        let mut k: usize = 0;
        while k < DEFAULT_MAX_INSTRUCTIONS
            invariant
                bus.wf(),
                same_memory_but_vram(*bus, b0),
                k <= DEFAULT_MAX_INSTRUCTIONS,
                self.instructions == c0 + k,
                c0 + DEFAULT_MAX_INSTRUCTIONS <= usize::MAX,
                rom == cartridge.rom@,
                b0 == *old(bus),
                m0 == spec_view(*old(self), *old(bus)),
                c0 == old(self).instructions,
                spec_run(spec_view(*self, *bus), self.instructions as int, rom, (DEFAULT_MAX_INSTRUCTIONS - k) as nat)
                    == spec_run(m0, c0, rom, DEFAULT_MAX_INSTRUCTIONS as nat),
            decreases DEFAULT_MAX_INSTRUCTIONS - k,
        {
            if self.step_faults(cartridge, bus) {
                let pc = self.regs[15];
                self.instructions += 1;
                return Err(fault_message(pc));
            }
            proof {
                lemma_run_unfold(spec_view(*self, *bus), self.instructions as int, rom, (DEFAULT_MAX_INSTRUCTIONS - k) as nat);
            }
            self.instructions += 1;
            let outcome = self.step(cartridge, bus);
            if let Err(e) = outcome {
                return Err(e);
            }
            if self.instructions > 100 && self.regs[15] >= FRAME_READY_PC {
                return Ok(RunResult::FrameReady);
            }
            k += 1;
        }
        Ok(RunResult::InstructionLimit { pc: self.regs[15] })
    }

    /// Whether the next instruction is one the runner cannot complete.
    fn step_faults(&self, cartridge: &Cartridge, bus: &Bus) -> (r: bool)
        ensures
            r == spec_step_faults(spec_view(*self, *bus), cartridge.rom@),
    {
        if self.thumb {
            self.thumb_faults(cartridge, bus)
        } else {
            self.arm_faults(cartridge, bus)
        }
    }

    fn thumb_faults(&self, cartridge: &Cartridge, bus: &Bus) -> (r: bool)
        ensures
            r == spec_thumb_faults(spec_view(*self, *bus), cartridge.rom@),
    {
        proof {
            reveal(spec_thumb_faults);
        }
        let pc = self.regs[15];
        let op = cartridge.read_u16(pc);
        proof {
            lemma_thumb_fields(op);
        }
        let r3 = ((op >> 3) & 0x7) as usize;
        let r6 = ((op >> 6) & 0x7) as usize;
        let imm5 = ((op >> 6) & 0x1f) as u32;
        let imm8 = (op & 0xff) as u32;
        if op == 0x46c0 || op & 0xf800 == 0x2000 {
            false
        } else if op & 0xf800 == 0x4800 {
            if pc > u32::MAX - 4 {
                true
            } else {
                let addr = ((pc + 4) & !3u32).wrapping_add(imm8 * 4);
                addr > u32::MAX - 2
            }
        } else if op & 0xf800 == 0x0000 {
            false
        } else if op & 0xf800 == 0x0800 {
            imm5 == 0
        } else if op & 0xfe00 == 0x1800 || op & 0xfe00 == 0x1a00 || op & 0xf800 == 0x3000 || op & 0xf800 == 0x3800
            || op & 0xf800 == 0x2800 {
            false
        } else if op & 0xf800 == 0x8000 {
            self.regs[r3].wrapping_add(imm5 * 2) == VRAM_START + VRAM_SIZE as u32 - 1
        } else if op & 0xfe00 == 0x5200 {
            self.regs[r3].wrapping_add(self.regs[r6]) == VRAM_START + VRAM_SIZE as u32 - 1
        } else if op & 0xf800 == 0x8800 {
            self.regs[r3].wrapping_add(imm5 * 2) == VCOUNT && self.vcount_reads == u32::MAX
        } else {
            false
        }
    }

    fn arm_faults(&self, cartridge: &Cartridge, bus: &Bus) -> (r: bool)
        ensures
            r == spec_arm_faults(spec_view(*self, *bus), cartridge.rom@),
    {
        proof {
            reveal(spec_arm_faults);
        }
        let pc = self.regs[15];
        if pc > u32::MAX - 2 {
            return true;
        }
        let op = cartridge.read_u32(pc);
        if op & 0x0f00_0000 == 0x0a00_0000 {
            false
        } else if op == 0xe580_0208 {
            let addr = self.regs[0].wrapping_add(0x208);
            addr == 0x0400_03ff || addr == 0x0400_03fd
        } else if op == 0xe59f_d0ac || op == 0xe59f_d0a4 {
            pc as u64 + 8 + (op & 0xfff) as u64 + 2 > u32::MAX as u64
        } else if op == 0xe28f_0001 {
            pc as u64 + 8 + 1 > u32::MAX as u64
        } else {
            false
        }
    }

    /// Executes one instruction in the current state.
    fn step(&mut self, cartridge: &Cartridge, bus: &mut Bus) -> (r: Result<(), String>)
        requires
            old(bus).wf(),
            !spec_step_faults(spec_view(*old(self), *old(bus)), cartridge.rom@),
        ensures
            final(bus).wf(),
            same_memory_but_vram(*final(bus), *old(bus)),
            final(self).instructions == old(self).instructions,
            ({
                let (m, ok) = spec_step(spec_view(*old(self), *old(bus)), cartridge.rom@);
                &&& spec_view(*final(self), *final(bus)) == m
                &&& match r {
                    Ok(_) => ok,
                    Err(e) => !ok && e@ == spec_step_error(spec_view(*old(self), *old(bus)), cartridge.rom@),
                }
            }),
    {
        if self.thumb {
            self.step_thumb(cartridge, bus)
        } else {
            self.step_arm(cartridge, bus)
        }
    }

    fn step_arm(&mut self, cartridge: &Cartridge, bus: &mut Bus) -> (r: Result<(), String>)
        requires
            old(bus).wf(),
            !spec_arm_faults(spec_view(*old(self), *old(bus)), cartridge.rom@),
        ensures
            final(bus).wf(),
            same_memory_but_vram(*final(bus), *old(bus)),
            final(self).instructions == old(self).instructions,
            ({
                let (m, ok) = spec_arm_step(spec_view(*old(self), *old(bus)), cartridge.rom@);
                &&& spec_view(*final(self), *final(bus)) == m
                &&& match r {
                    Ok(_) => ok,
                    Err(e) => !ok && e@ == spec_arm_error(spec_view(*old(self), *old(bus)), cartridge.rom@),
                }
            }),
    {
        proof {
            reveal(spec_arm_step);
            reveal(spec_arm_faults);
        }
        let pc = self.regs[15];
        let op = cartridge.read_u32(pc);
        self.regs[15] = pc.wrapping_add(4);

        if (op & 0x0f00_0000) == 0x0a00_0000 {
            let mut offset = op & 0x00ff_ffff;
            if offset & 0x0080_0000 != 0 {
                offset = offset | 0xff00_0000;
            }
            self.regs[15] = pc.wrapping_add(8).wrapping_add(offset << 2u32);
            return Ok(());
        }

        match op {
            0xe3a0_0301 => self.regs[0] = 0x0400_0000,
            0xe580_0208 => {
                let base = self.regs[0];
                self.write_u32(base.wrapping_add(0x208), base, bus);
            },
            0xe3a0_0012 => self.regs[0] = 0x12,
            0xe3a0_001f => self.regs[0] = 0x1f,
            0xe129_f000 => {},
            0xe59f_d0ac | 0xe59f_d0a4 => self.regs[13] = cartridge.read_u32(pc + 8 + (op & 0xfff)),
            0xe28f_0001 => self.regs[0] = pc + 8 + 1,
            0xe12f_ff10 => {
                let target = self.regs[0];
                self.branch_exchange(target);
            },
            _ => return Err(unsupported_message("ARM", op, 8, Some(pc))),
        }
        Ok(())
    }

    fn step_thumb(&mut self, cartridge: &Cartridge, bus: &mut Bus) -> (r: Result<(), String>)
        requires
            old(bus).wf(),
            !spec_thumb_faults(spec_view(*old(self), *old(bus)), cartridge.rom@),
        ensures
            final(bus).wf(),
            same_memory_but_vram(*final(bus), *old(bus)),
            final(self).instructions == old(self).instructions,
            ({
                let (m, ok) = spec_thumb_step(spec_view(*old(self), *old(bus)), cartridge.rom@);
                &&& spec_view(*final(self), *final(bus)) == m
                &&& match r {
                    Ok(_) => ok,
                    Err(e) => !ok && e@ == spec_thumb_error(spec_view(*old(self), *old(bus)), cartridge.rom@),
                }
            }),
    {
        proof {
            reveal(spec_thumb_step);
            reveal(spec_thumb_faults);
        }
        let pc = self.regs[15];
        let op = cartridge.read_u16(pc);
        self.regs[15] = pc.wrapping_add(2);
        proof {
            lemma_thumb_fields(op);
        }

        match op {
            0x46c0 => {},
            op if (op & 0xf800) == 0x2000 => {
                let rd = ((op >> 8) & 0x7) as usize;
                self.regs[rd] = (op & 0xff) as u32;
            },
            op if (op & 0xf800) == 0x4800 => {
                let rd = ((op >> 8) & 0x7) as usize;
                let imm = ((op & 0xff) as u32) * 4;
                let addr = ((pc + 4) & !3u32).wrapping_add(imm);
                self.regs[rd] = cartridge.read_u32(addr);
            },
            op if (op & 0xf800) == 0x0000 => {
                let rd = (op & 0x7) as usize;
                let rm = ((op >> 3) & 0x7) as usize;
                let imm = ((op >> 6) & 0x1f) as u32;
                self.regs[rd] = self.regs[rm] << imm;
            },
            op if (op & 0xf800) == 0x0800 => {
                let rd = (op & 0x7) as usize;
                let rm = ((op >> 3) & 0x7) as usize;
                let imm = ((op >> 6) & 0x1f) as u32;
                let imm = if imm == 0 { 32 } else { imm };
                self.regs[rd] = self.regs[rm] >> imm;
            },
            op if (op & 0xfe00) == 0x1800 => {
                let rd = (op & 0x7) as usize;
                let rn = ((op >> 3) & 0x7) as usize;
                let rm = ((op >> 6) & 0x7) as usize;
                self.regs[rd] = self.regs[rn].wrapping_add(self.regs[rm]);
            },
            op if (op & 0xfe00) == 0x1a00 => {
                let rd = (op & 0x7) as usize;
                let rn = ((op >> 3) & 0x7) as usize;
                let rm = ((op >> 6) & 0x7) as usize;
                self.regs[rd] = self.regs[rn].wrapping_sub(self.regs[rm]);
            },
            op if (op & 0xf800) == 0x3000 => {
                let rd = ((op >> 8) & 0x7) as usize;
                self.regs[rd] = self.regs[rd].wrapping_add((op & 0xff) as u32);
            },
            op if (op & 0xf800) == 0x3800 => {
                let rd = ((op >> 8) & 0x7) as usize;
                self.regs[rd] = self.regs[rd].wrapping_sub((op & 0xff) as u32);
            },
            op if (op & 0xf800) == 0x2800 => {
                let rn = ((op >> 8) & 0x7) as usize;
                let lhs = self.regs[rn];
                self.set_flags(lhs, (op & 0xff) as u32);
            },
            op if (op & 0xf800) == 0x8000 => {
                let rb = ((op >> 3) & 0x7) as usize;
                let rd = (op & 0x7) as usize;
                let addr = self.regs[rb].wrapping_add((((op >> 6) & 0x1f) as u32) * 2);
                let value = self.regs[rd] as u16;
                self.write_u16(addr, value, bus);
            },
            op if (op & 0xfe00) == 0x5200 => {
                let ro = ((op >> 6) & 0x7) as usize;
                let rb = ((op >> 3) & 0x7) as usize;
                let rd = (op & 0x7) as usize;
                let addr = self.regs[rb].wrapping_add(self.regs[ro]);
                let value = self.regs[rd] as u16;
                self.write_u16(addr, value, bus);
            },
            op if (op & 0xf800) == 0x8800 => {
                let rb = ((op >> 3) & 0x7) as usize;
                let rd = (op & 0x7) as usize;
                let addr = self.regs[rb].wrapping_add((((op >> 6) & 0x1f) as u32) * 2);
                let value = self.read_u16(addr, bus);
                self.regs[rd] = value as u32;
            },
            op if (op & 0xfc00) == 0x4000 => {
                if let Err(e) = self.step_alu(op) {
                    return Err(e);
                }
            },
            op if (op & 0xfc00) == 0x4400 => self.step_high_register(op),
            op if (op & 0xff00) == 0xb500 => self.push(op),
            op if (op & 0xf000) == 0xd000 => self.conditional_branch(op),
            op if (op & 0xf800) == 0xe000 => {
                let mut offset = (op & 0x07ff) as u32;
                if offset & 0x400 != 0 {
                    offset = offset | 0xffff_f800;
                }
                self.regs[15] = self.regs[15].wrapping_add(offset << 1u32);
            },
            _ => return Err(unsupported_message("Thumb", op as u32, 4, Some(pc))),
        }
        Ok(())
    }

    fn step_alu(&mut self, op: u16) -> (r: Result<(), String>)
        ensures
            final(self).instructions == old(self).instructions,
            final(self).vcount_reads == old(self).vcount_reads,
            final(self).thumb == old(self).thumb,
            ({
                let m0 = MachineView { regs: old(self).regs@, thumb: old(self).thumb, vcount_reads: 0, ppu: arbitrary(), io: Seq::empty(), vram: Seq::empty() };
                let (m, ok) = spec_thumb_alu(m0, op);
                &&& final(self).regs@ == m.regs
                &&& match r {
                    Ok(_) => ok,
                    Err(e) => !ok && e@ == spec_unsupported_message("Thumb ALU"@, op as u32, 4, None),
                }
            }),
    {
        proof {
            lemma_thumb_fields(op);
        }
        let rd = (op & 0x7) as usize;
        let rs = ((op >> 3) & 0x7) as usize;
        let (lhs, rhs) = (self.regs[rd], self.regs[rs]);
        match (op >> 6) & 0xf {
            0x8 => self.set_flags(lhs, rhs),
            0xa => self.set_flags(lhs, rhs),
            0xe => self.regs[rd] = lhs & !rhs,
            _ => return Err(unsupported_message("Thumb ALU", op as u32, 4, None)),
        }
        Ok(())
    }

    fn step_high_register(&mut self, op: u16)
        ensures
            final(self).instructions == old(self).instructions,
            final(self).vcount_reads == old(self).vcount_reads,
            ({
                let m0 = MachineView { regs: old(self).regs@, thumb: old(self).thumb, vcount_reads: 0, ppu: arbitrary(), io: Seq::empty(), vram: Seq::empty() };
                let m = spec_thumb_high(m0, op);
                final(self).regs@ == m.regs && final(self).thumb == m.thumb
            }),
    {
        proof {
            lemma_thumb_fields(op);
        }
        let h1 = ((op >> 7) & 1) as usize;
        let h2 = ((op >> 6) & 1) as usize;
        let rd = ((op & 0x7) as usize) + h1 * 8;
        let rs = (((op >> 3) & 0x7) as usize) + h2 * 8;
        match (op >> 8) & 0x3 {
            0x0 => self.regs[rd] = self.regs[rd].wrapping_add(self.regs[rs]),
            0x2 => self.regs[rd] = self.regs[rs],
            0x3 => {
                let target = self.regs[rs];
                self.branch_exchange(target);
            },
            _ => {},
        }
    }

    fn conditional_branch(&mut self, op: u16)
        ensures
            final(self).instructions == old(self).instructions,
            final(self).vcount_reads == old(self).vcount_reads,
            final(self).thumb == old(self).thumb,
            ({
                let m0 = MachineView { regs: old(self).regs@, thumb: old(self).thumb, vcount_reads: 0, ppu: arbitrary(), io: Seq::empty(), vram: Seq::empty() };
                final(self).regs@ == if spec_cond_taken(m0, (op >> 8u16) & 0xf) {
                    old(self).regs@.update(15, old(self).regs@[15].wrapping_add(spec_sext8((op & 0xff) as u32) << 1u32))
                } else {
                    old(self).regs@
                }
            }),
    {
        let cond = (op >> 8) & 0xf;
        let take = match cond {
            0x0 => self.z(),
            0x1 => !self.z(),
            0x8 => self.c() && !self.z(),
            0x9 => !self.c() || self.z(),
            _ => false,
        };
        if take {
            let mut offset = (op & 0xff) as u32;
            if offset & 0x80 != 0 {
                offset = offset | 0xffff_ff00;
            }
            self.regs[15] = self.regs[15].wrapping_add(offset << 1u32);
        }
    }

    /// `PUSH {rlist, lr}`: moves the stack pointer down one word per pushed
    /// register (the values themselves are not stored).
    fn push(&mut self, op: u16)
        requires
            op & 0xff00 == 0xb500,
        ensures
            final(self).instructions == old(self).instructions,
            final(self).vcount_reads == old(self).vcount_reads,
            final(self).thumb == old(self).thumb,
            final(self).regs@ == old(self).regs@.update(13, old(self).regs@[13].wrapping_sub(
                ((spec_popcount(op & 0xff, 8) + (if op & 0x0100 != 0 { 1nat } else { 0 })) * 4) as u32)),
    {
        let mut bits: u16 = op & 0xff;
        let mut count: u32 = 0;
        let mut k: u32 = 0;
        while k < 8
            invariant
                k <= 8,
                count <= k,
                count + spec_popcount(bits, (8 - k) as nat) == spec_popcount(op & 0xff, 8),
            decreases 8 - k,
        {
            count += (bits % 2) as u32;
            bits = bits / 2;
            k += 1;
        }
        if op & 0x0100 != 0 {
            count += 1;
        }
        self.regs[13] = self.regs[13].wrapping_sub(count * 4);
    }

    fn read_u16(&mut self, addr: u32, bus: &mut Bus) -> (r: u16)
        requires
            old(bus).wf(),
            addr == VCOUNT ==> old(self).vcount_reads < u32::MAX,
        ensures
            final(bus).wf(),
            same_memory_but_vram(*final(bus), *old(bus)),
            final(self).instructions == old(self).instructions,
            ({
                let (m, v) = spec_load_u16(spec_view(*old(self), *old(bus)), addr);
                spec_view(*final(self), *final(bus)) == m && r == v
            }),
    {
        if addr == VCOUNT {
            self.vcount_reads += 1;
            bus.ppu_mut().set_vcount(if self.vcount_reads < 3 { 0 } else { 160 });
            return bus.read(addr, AccessSize::Halfword) as u16;
        }
        0
    }

    fn write_u16(&mut self, addr: u32, value: u16, bus: &mut Bus)
        requires
            old(bus).wf(),
            !spec_store_u16_faults(addr),
        ensures
            final(bus).wf(),
            same_memory_but_vram(*final(bus), *old(bus)),
            *final(self) == *old(self),
            spec_view(*final(self), *final(bus)) == spec_store_u16(spec_view(*old(self), *old(bus)), addr, value),
    {
        if addr == DISPCNT {
            bus.write(addr, AccessSize::Halfword, value as u32);
        } else if VRAM_START <= addr && addr < VRAM_START + 0x18000 {
            let offset = (addr - VRAM_START) as usize;
            bus.memory_mut().write_vram_halfword(offset, value);
        }
    }

    fn set_flags(&mut self, lhs: u32, rhs: u32)
        ensures
            final(self).regs@ == old(self).regs@.update(14, spec_flags(lhs, rhs)),
            final(self).thumb == old(self).thumb,
            final(self).instructions == old(self).instructions,
            final(self).vcount_reads == old(self).vcount_reads,
    {
        let result = lhs.wrapping_sub(rhs);
        let zero: u32 = if result == 0 { 0x4000_0000 } else { 0 };
        let carry: u32 = if lhs >= rhs { 0x2000_0000 } else { 0 };
        self.regs[14] = zero | carry;
    }

    fn z(&self) -> (r: bool)
        ensures
            r == (self.regs@[14] & 0x4000_0000 != 0),
    {
        self.regs[14] & 0x4000_0000 != 0
    }

    fn c(&self) -> (r: bool)
        ensures
            r == (self.regs@[14] & 0x2000_0000 != 0),
    {
        self.regs[14] & 0x2000_0000 != 0
    }

    fn branch_exchange(&mut self, value: u32)
        ensures
            final(self).thumb == (value & 1 != 0),
            final(self).regs@ == old(self).regs@.update(15, value & !1u32),
            final(self).instructions == old(self).instructions,
            final(self).vcount_reads == old(self).vcount_reads,
    {
        self.thumb = value & 1 != 0;
        self.regs[15] = value & !1u32;
    }

    fn write_u32(&mut self, addr: u32, value: u32, bus: &mut Bus)
        requires
            old(bus).wf(),
            !spec_store_u32_faults(addr),
        ensures
            final(bus).wf(),
            same_memory_but_vram(*final(bus), *old(bus)),
            *final(self) == *old(self),
            spec_view(*final(self), *final(bus)) == spec_store_u32(spec_view(*old(self), *old(bus)), addr, value),
    {
        if IO_START <= addr && addr < IO_START + 0x400 {
            bus.write(addr, AccessSize::Word, value);
        }
    }
}

} // verus!
