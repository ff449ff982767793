use kgba::gba::bus::{AccessSize, Bus};
use kgba::gba::cartridge::Cartridge;
use kgba::gba::memory::GbaMemory;
use kgba::gba::memory_map::{GAME_PAK_ROM_START, IWRAM_START};
use kgba::gba::software::{RunResult, SoftwareRunner};

/// A ROM of `len` bytes whose header word at 0x1f4 is `entry` and whose
/// halfwords starting at offset `at` are `code`.
fn thumb_rom(len: usize, entry: u32, at: usize, code: &[u16]) -> Cartridge {
    let mut rom = vec![0u8; len];
    rom[0x1f4..0x1f8].copy_from_slice(&entry.to_le_bytes());
    for (i, op) in code.iter().enumerate() {
        rom[at + 2 * i..at + 2 * i + 2].copy_from_slice(&op.to_le_bytes());
    }
    Cartridge::from_bytes(rom)
}

fn arm_rom(code: &[u32]) -> Cartridge {
    let mut rom = vec![0u8; 0x200];
    for (i, op) in code.iter().enumerate() {
        rom[4 * i..4 * i + 4].copy_from_slice(&op.to_le_bytes());
    }
    Cartridge::from_bytes(rom)
}

#[test]
fn runner_starts_at_thumb_entry_when_bit_zero_is_set() {
    let cart = thumb_rom(0x200, 0x0800_0201, 0x200, &[]);
    let runner = SoftwareRunner::new_for_rom(&cart);
    assert!(runner.thumb);
    assert_eq!(runner.regs[15], 0x0800_0200);
    assert_eq!(runner.regs[13], IWRAM_START + 0x7f00);
    assert_eq!(runner.instructions, 0);
    assert_eq!(runner.regs[0], 0);
}

#[test]
fn runner_starts_in_arm_at_rom_start_without_thumb_entry() {
    let cart = arm_rom(&[]);
    let runner = SoftwareRunner::new_for_rom(&cart);
    assert!(!runner.thumb);
    assert_eq!(runner.regs[15], GAME_PAK_ROM_START);
}

#[test]
fn empty_rom_stops_at_unsupported_thumb_op() {
    let cart = Cartridge::from_bytes(Vec::new());
    let mut runner = SoftwareRunner::new_for_rom(&cart);
    let mut bus = Bus::new(GbaMemory::new());
    let result = runner.run_until_frame(&cart, &mut bus);
    assert_eq!(result, Err("unsupported Thumb op 0xffff at 0xfffffffe".to_string()));
    assert_eq!(runner.instructions, 1);
    assert_eq!(runner.regs[15], 0);
}

#[test]
fn arm_store_reaches_io_and_unknown_op_is_reported() {
    let cart = arm_rom(&[0xe3a0_0301, 0xe580_0208, 0x0000_0000]);
    let mut runner = SoftwareRunner::new_for_rom(&cart);
    let mut bus = Bus::new(GbaMemory::new());
    let result = runner.run_until_frame(&cart, &mut bus);
    assert_eq!(result, Err("unsupported ARM op 0x00000000 at 0x08000008".to_string()));
    assert_eq!(runner.regs[0], 0x0400_0000);
    assert_eq!(bus.read(0x0400_0208, AccessSize::Word), 0x0400_0000);
}

#[test]
fn arm_branch_exchange_switches_to_thumb() {
    // add r0, pc, #1 ; bx r0 -> Thumb at 0x08000008 + 1 - 1
    let cart = arm_rom(&[0xe28f_0001, 0xe12f_ff10, 0xffff_ffff]);
    let mut runner = SoftwareRunner::new_for_rom(&cart);
    let mut bus = Bus::new(GbaMemory::new());
    let result = runner.run_until_frame(&cart, &mut bus);
    assert_eq!(result, Err("unsupported Thumb op 0xffff at 0x08000008".to_string()));
    assert!(runner.thumb);
    assert_eq!(runner.regs[0], 0x0800_0009);
}

#[test]
fn thumb_halfword_store_sets_dispcnt() {
    // mov r0,#4 ; lsl r0,r0,#24 ; mov r1,#3 ; strh r1,[r0,#0]
    let cart = thumb_rom(0x300, 0x0800_0201, 0x200, &[0x2004, 0x0600, 0x2103, 0x8001, 0xffff]);
    let mut runner = SoftwareRunner::new_for_rom(&cart);
    let mut bus = Bus::new(GbaMemory::new());
    let result = runner.run_until_frame(&cart, &mut bus);
    assert_eq!(result, Err("unsupported Thumb op 0xffff at 0x08000208".to_string()));
    assert_eq!(runner.regs[0], 0x0400_0000);
    assert_eq!(bus.ppu().dispcnt, 3);
    assert_eq!(bus.read(0x0400_0000, AccessSize::Halfword), 3);
}

#[test]
fn thumb_halfword_store_reaches_vram() {
    // mov r0,#6 ; lsl r0,r0,#24 ; mov r1,#0xab ; strh r1,[r0,#2]
    let cart = thumb_rom(0x300, 0x0800_0201, 0x200, &[0x2006, 0x0600, 0x21ab, 0x8041, 0xffff]);
    let mut runner = SoftwareRunner::new_for_rom(&cart);
    let mut bus = Bus::new(GbaMemory::new());
    let _ = runner.run_until_frame(&cart, &mut bus);
    assert_eq!(&bus.memory().vram()[0..4], &[0, 0, 0xab, 0]);
}

#[test]
fn vcount_reads_report_vblank_from_the_third_read() {
    // r0 = VCOUNT ; ldrh r1..r3,[r0,#0]
    let cart = thumb_rom(
        0x300,
        0x0800_0201,
        0x200,
        &[0x2004, 0x0600, 0x3006, 0x8801, 0x8802, 0x8803, 0xffff],
    );
    let mut runner = SoftwareRunner::new_for_rom(&cart);
    let mut bus = Bus::new(GbaMemory::new());
    let _ = runner.run_until_frame(&cart, &mut bus);
    assert_eq!(runner.regs[0], 0x0400_0006);
    assert_eq!((runner.regs[1], runner.regs[2], runner.regs[3]), (0, 0, 160));
    assert_eq!(runner.vcount_reads, 3);
    assert_eq!(bus.ppu().vcount, 160);
}

#[test]
fn compare_sets_zero_and_carry_flags() {
    // mov r0,#5 ; cmp r0,#5
    let cart = thumb_rom(0x300, 0x0800_0201, 0x200, &[0x2005, 0x2805, 0xffff]);
    let mut runner = SoftwareRunner::new_for_rom(&cart);
    let mut bus = Bus::new(GbaMemory::new());
    let _ = runner.run_until_frame(&cart, &mut bus);
    assert_eq!(runner.regs[14], 0x6000_0000);

    // mov r0,#4 ; cmp r0,#5 (borrow: neither flag)
    let cart = thumb_rom(0x300, 0x0800_0201, 0x200, &[0x2004, 0x2805, 0xffff]);
    let mut runner = SoftwareRunner::new_for_rom(&cart);
    let _ = runner.run_until_frame(&cart, &mut bus);
    assert_eq!(runner.regs[14], 0);
}

#[test]
fn taken_conditional_branch_skips_forward() {
    // mov r0,#1 ; cmp r0,#1 ; beq +2 (skip one halfword) ; mov r1,#9 ; mov r2,#7
    let cart = thumb_rom(0x300, 0x0800_0201, 0x200, &[0x2001, 0x2801, 0xd001, 0x2109, 0x2207, 0xffff]);
    let mut runner = SoftwareRunner::new_for_rom(&cart);
    let mut bus = Bus::new(GbaMemory::new());
    let result = runner.run_until_frame(&cart, &mut bus);
    assert_eq!(result, Err("unsupported Thumb op 0xffff at 0x0800020a".to_string()));
    assert_eq!(runner.regs[1], 0);
    assert_eq!(runner.regs[2], 7);
}

#[test]
fn push_moves_the_stack_pointer_per_register() {
    // push {r0, r4, r7, lr}
    let cart = thumb_rom(0x300, 0x0800_0201, 0x200, &[0xb591, 0xffff]);
    let mut runner = SoftwareRunner::new_for_rom(&cart);
    let mut bus = Bus::new(GbaMemory::new());
    let _ = runner.run_until_frame(&cart, &mut bus);
    assert_eq!(runner.regs[13], IWRAM_START + 0x7f00 - 16);
}

#[test]
fn unsupported_alu_op_reports_without_address() {
    let cart = thumb_rom(0x300, 0x0800_0201, 0x200, &[0x4000]);
    let mut runner = SoftwareRunner::new_for_rom(&cart);
    let mut bus = Bus::new(GbaMemory::new());
    let result = runner.run_until_frame(&cart, &mut bus);
    assert_eq!(result, Err("unsupported Thumb ALU op 0x4000".to_string()));
}

#[test]
fn frame_is_ready_after_more_than_a_hundred_instructions_past_the_mark() {
    let nops = vec![0x46c0u16; 0x100];
    let cart = thumb_rom(0x400, 0x0800_0201, 0x200, &nops);
    let mut runner = SoftwareRunner::new_for_rom(&cart);
    let mut bus = Bus::new(GbaMemory::new());
    let result = runner.run_until_frame(&cart, &mut bus);
    assert_eq!(result, Ok(RunResult::FrameReady));
    assert_eq!(runner.instructions, 101);
    assert_eq!(runner.regs[15], 0x0800_0200 + 202);
}

#[test]
fn endless_loop_hits_the_instruction_limit() {
    // b . (offset -1 halfword after the pc has moved past the branch)
    let cart = thumb_rom(0x300, 0x0800_0201, 0x200, &[0xe7ff]);
    let mut runner = SoftwareRunner::new_for_rom(&cart);
    let mut bus = Bus::new(GbaMemory::new());
    let result = runner.run_until_frame(&cart, &mut bus);
    assert_eq!(result, Ok(RunResult::InstructionLimit { pc: 0x0800_0200 }));
    assert_eq!(runner.instructions, 200_000);
}

#[test]
fn checked_run_reports_a_right_shift_by_thirty_two() {
    // 0x0800 is `lsr r0, r0, #32`, which the runner cannot complete.
    let cart = thumb_rom(0x204, 0x0800_0201, 0x200, &[0x2001, 0x0800]);
    let mut runner = SoftwareRunner::new_for_rom(&cart);
    let mut bus = Bus::new(GbaMemory::new());
    let result = runner.run_until_frame_checked(&cart, &mut bus);
    assert_eq!(result, Err("cannot complete the instruction at 0x08000202".to_string()));
    assert_eq!(runner.instructions, 2);
    assert_eq!(runner.regs[15], 0x0800_0202);
    assert_eq!(runner.regs[0], 1);
}

#[test]
fn checked_run_reports_a_store_past_the_end_of_vram() {
    // r0 = 0x06017fff, the last byte of VRAM, then `strh r1, [r0]`.
    let code = [
        0x2006, // mov r0, #6
        0x0600, // lsl r0, r0, #24
        0x2117, // mov r1, #0x17
        0x0309, // lsl r1, r1, #12
        0x1840, // add r0, r0, r1
        0x21ff, // mov r1, #0xff
        0x0109, // lsl r1, r1, #4
        0x1840, // add r0, r0, r1
        0x300f, // add r0, #15
        0x8001, // strh r1, [r0]
    ];
    let cart = thumb_rom(0x220, 0x0800_0201, 0x200, &code);
    let mut runner = SoftwareRunner::new_for_rom(&cart);
    let mut bus = Bus::new(GbaMemory::new());
    let result = runner.run_until_frame_checked(&cart, &mut bus);
    assert_eq!(runner.regs[0], 0x0601_7fff);
    assert_eq!(result, Err("cannot complete the instruction at 0x08000212".to_string()));
    assert_eq!(runner.instructions, 10);
}

#[test]
fn checked_run_agrees_with_the_plain_run() {
    let cart = thumb_rom(0x200, 0x0800_0201, 0x200, &[]);
    let mut a = SoftwareRunner::new_for_rom(&cart);
    let mut b = SoftwareRunner::new_for_rom(&cart);
    let mut bus_a = Bus::new(GbaMemory::new());
    let mut bus_b = Bus::new(GbaMemory::new());
    assert_eq!(a.run_until_frame(&cart, &mut bus_a), b.run_until_frame_checked(&cart, &mut bus_b));
    assert_eq!(a.regs, b.regs);
    assert_eq!(a.instructions, b.instructions);
}
