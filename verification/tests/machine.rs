use kgba::gba::cartridge::Cartridge;
use kgba::gba::memory::GbaMemory;
use kgba::gba::memory_map::{EWRAM_SIZE, GAME_PAK_ROM_START, IO_START, IWRAM_SIZE, VRAM_SIZE};
use kgba::gba::ppu::Ppu;
use kgba::kvm::timers::Timers;
use kgba::kvm::util::align_up;

#[test]
fn cartridge_reads_little_endian_and_pads_with_ones() {
    let cart = Cartridge::from_bytes(vec![0x34, 0x12, 0x78, 0x56, 0x9a]);
    assert_eq!(cart.rom(), &[0x34, 0x12, 0x78, 0x56, 0x9a]);
    assert_eq!(cart.read_u16(GAME_PAK_ROM_START), 0x1234);
    assert_eq!(cart.read_u16(GAME_PAK_ROM_START + 1), 0x7812);
    assert_eq!(cart.read_u32(GAME_PAK_ROM_START), 0x5678_1234);
    assert_eq!(cart.read_u16(GAME_PAK_ROM_START + 4), 0xffff);
    assert_eq!(cart.read_u16(0x0000_0000), 0xffff);
    assert_eq!(cart.read_u32(GAME_PAK_ROM_START + 2), 0xffff_5678);
}

#[test]
fn cartridge_entry_point_needs_thumb_bit() {
    let mut rom = vec![0; 0x200];
    rom[0x1f4..0x1f8].copy_from_slice(&0x0800_0101u32.to_le_bytes());
    assert_eq!(Cartridge::from_bytes(rom.clone()).entry_thumb_addr(), Some(0x0800_0100));
    rom[0x1f4..0x1f8].copy_from_slice(&0x0800_0100u32.to_le_bytes());
    assert_eq!(Cartridge::from_bytes(rom).entry_thumb_addr(), None);
    assert_eq!(Cartridge::from_bytes(vec![]).entry_thumb_addr(), Some(0xffff_fffe));
}

#[test]
fn memory_words_round_trip() {
    let mut memory = GbaMemory::new();
    assert_eq!(memory.ewram().len(), EWRAM_SIZE);
    assert_eq!(memory.iwram().len(), IWRAM_SIZE);
    assert_eq!(memory.vram().len(), VRAM_SIZE);
    memory.write_ewram_word(8, 0xdead_beef);
    memory.write_iwram_word(IWRAM_SIZE - 4, 0x0102_0304);
    assert_eq!(memory.read_ewram_word(8), 0xdead_beef);
    assert_eq!(memory.ewram()[8], 0xef);
    assert_eq!(memory.read_iwram_word(IWRAM_SIZE - 4), 0x0102_0304);
    memory.write_vram_halfword(2, 0xabcd);
    assert_eq!(&memory.vram()[0..4], &[0, 0, 0xcd, 0xab]);
    memory.write_palette_halfword(0, 0x7fff);
    assert_eq!(&memory.palette()[0..2], &[0xff, 0x7f]);
    memory.vram_mut()[5] = 9;
    assert_eq!(memory.vram()[5], 9);
    let fresh = GbaMemory::default();
    assert!(fresh.oam().iter().all(|&b| b == 0));
}

fn timer_io() -> Vec<u8> {
    vec![0; 0x400]
}

#[test]
fn timer_reload_and_start_load_counter() {
    let mut timers = Timers::new();
    let mut io = timer_io();
    timers.write_register(IO_START + 0x0104, 0xfff0, &mut io);
    assert_eq!(&io[0x104..0x106], &[0, 0]);
    timers.write_register(IO_START + 0x0106, 0x0080, &mut io);
    assert_eq!(&io[0x104..0x106], &[0xf0, 0xff]);
    // Writing control again while running does not reload.
    timers.advance(3, &mut io);
    timers.write_register(IO_START + 0x0106, 0x0080, &mut io);
    assert_eq!(&io[0x104..0x106], &[0xf3, 0xff]);
    // Registers past the fourth timer are ignored.
    timers.write_register(IO_START + 0x0110, 0x0080, &mut io);
}

#[test]
fn timer_overflows_reload_and_cascade() {
    let mut timers = Timers::new();
    let mut io = timer_io();
    timers.write_register(IO_START + 0x0100, 0xfffe, &mut io);
    timers.write_register(IO_START + 0x0102, 0x0080, &mut io);
    timers.write_register(IO_START + 0x0104, 0x0000, &mut io);
    timers.write_register(IO_START + 0x0106, 0x0084, &mut io);

    let overflows = timers.advance(5, &mut io);
    // 0xfffe -> 0xffff, wrap to 0xfffe, 0xffff, wrap to 0xfffe, 0xffff.
    assert_eq!(overflows, [2, 0, 0, 0]);
    assert_eq!(&io[0x100..0x102], &[0xff, 0xff]);
    assert_eq!(&io[0x104..0x106], &[2, 0]);
}

#[test]
fn timer_prescaler_accumulates_cycles() {
    let mut timers = Timers::new();
    let mut io = timer_io();
    timers.write_register(IO_START + 0x0108, 0, &mut io);
    timers.write_register(IO_START + 0x010a, 0x0081, &mut io);
    assert_eq!(timers.advance(63, &mut io), [0, 0, 0, 0]);
    assert_eq!(&io[0x108..0x10a], &[0, 0]);
    timers.advance(1, &mut io);
    assert_eq!(&io[0x108..0x10a], &[1, 0]);
    timers.advance(128, &mut io);
    assert_eq!(&io[0x108..0x10a], &[3, 0]);
}

#[test]
fn align_up_rounds_to_multiples() {
    assert_eq!(align_up(0, 4096), 0);
    assert_eq!(align_up(1, 4096), 4096);
    assert_eq!(align_up(4096, 4096), 4096);
    assert_eq!(align_up(4097, 4096), 8192);
}

#[test]
fn timer_returns_to_reload_after_one_period() {
    let mut timers = Timers::new();
    let mut io = timer_io();
    timers.write_register(IO_START + 0x010c, 0xfff0, &mut io);
    timers.write_register(IO_START + 0x010e, 0x0080, &mut io);
    assert_eq!(timers.advance(15, &mut io), [0, 0, 0, 0]);
    assert_eq!(&io[0x10c..0x10e], &[0xff, 0xff]);
    assert_eq!(timers.advance(1, &mut io), [0, 0, 0, 1]);
    assert_eq!(&io[0x10c..0x10e], &[0xf0, 0xff]);
    assert_eq!(timers.advance(16, &mut io), [0, 0, 0, 1]);
    assert_eq!(&io[0x10c..0x10e], &[0xf0, 0xff]);
}

#[test]
fn dispstat_reads_follow_the_latest_writes() {
    let mut ppu = Ppu::new();
    assert_eq!(ppu.dispstat(), 0x0004); // VCOUNT 0 matches the setting 0
    ppu.write_dispstat(0x12ff);
    ppu.set_vcount(0x12);
    // Setting 0x12, IRQ enables 0x38, VCOUNT match; bits 0-2 and 6-7 of the write dropped.
    assert_eq!(ppu.dispstat(), 0x1238 | 0x0004);
    ppu.set_hblank(true);
    assert_eq!(ppu.dispstat(), 0x1238 | 0x0004 | 0x0002);
    ppu.set_vcount(200);
    assert_eq!(ppu.dispstat(), 0x1238 | 0x0002 | 0x0001);
    ppu.write_dispstat(0x0008);
    assert_eq!(ppu.dispstat(), 0x0008 | 0x0001);
    ppu.set_hblank(true);
    ppu.set_hblank(false);
    ppu.step_scanline();
    assert_eq!(ppu.vcount(), 201);
    assert_eq!(ppu.dispstat(), 0x0008 | 0x0001);
}

#[test]
fn ewram_mut_writes_reach_ewram_only() {
    let mut memory = GbaMemory::new();
    assert_eq!(memory.ewram_mut().len(), EWRAM_SIZE);
    memory.ewram_mut()[0x1234] = 0x5a;
    assert_eq!(memory.ewram()[0x1234], 0x5a);
    assert!(memory.ewram().iter().enumerate().all(|(i, &b)| (i == 0x1234) == (b != 0)));
    assert!(memory.iwram().iter().all(|&b| b == 0));
    assert!(memory.palette().iter().all(|&b| b == 0));
    assert!(memory.vram().iter().all(|&b| b == 0));
    assert!(memory.oam().iter().all(|&b| b == 0));
}
