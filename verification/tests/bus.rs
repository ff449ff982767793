use kgba::gba::bus::{AccessSize, Bus};
use kgba::gba::memory::GbaMemory;
use kgba::gba::memory_map::{
    BG0HOFS, BG2PA, BG2PD, BG2X, BG2Y, BLDALPHA, BLDCNT, BLDY, DISPCNT, DISPSTAT, IO_START,
    KEYINPUT, VCOUNT, WIN0H, WININ, WINOUT,
};
use kgba::gba::ppu::{BG2_ENABLE, MODE_3};

#[test]
fn dispcnt_accepts_halfword_and_byte_access() {
    let mut bus = Bus::new(GbaMemory::new());

    bus.write(DISPCNT, AccessSize::Byte, MODE_3 as u32);
    bus.write(DISPCNT + 1, AccessSize::Byte, (BG2_ENABLE >> 8) as u32);

    assert_eq!(
        bus.read(DISPCNT, AccessSize::Halfword),
        u32::from(MODE_3 | BG2_ENABLE)
    );
}

#[test]
fn word_reads_pack_adjacent_io_halfwords() {
    let mut bus = Bus::new(GbaMemory::new());

    bus.ppu_mut().step_scanline();

    assert_eq!(bus.read(DISPSTAT, AccessSize::Word) >> 16, 1);
}

#[test]
fn window_registers_accept_halfword_and_byte_access() {
    let mut bus = Bus::new(GbaMemory::new());

    bus.write(WIN0H, AccessSize::Halfword, 0x1428);
    bus.write(WININ, AccessSize::Byte, 0x02);
    bus.write(WINOUT + 1, AccessSize::Byte, 0x20);

    assert_eq!(bus.read(WIN0H, AccessSize::Halfword), 0x1428);
    assert_eq!(bus.read(WININ, AccessSize::Halfword), 0x02);
    assert_eq!(bus.read(WINOUT, AccessSize::Halfword), 0x2000);
}

#[test]
fn blend_registers_accept_halfword_and_byte_access() {
    let mut bus = Bus::new(GbaMemory::new());

    bus.write(BLDCNT, AccessSize::Halfword, 0x3fff);
    bus.write(BLDALPHA, AccessSize::Byte, 0x08);
    bus.write(BLDALPHA + 1, AccessSize::Byte, 0x08);
    bus.write(BLDY, AccessSize::Halfword, 0x0010);

    assert_eq!(bus.read(BLDCNT, AccessSize::Halfword), 0x3fff);
    assert_eq!(bus.read(BLDALPHA, AccessSize::Halfword), 0x0808);
    assert_eq!(bus.read(BLDY, AccessSize::Halfword), 0x0010);
}

#[test]
fn bg2_affine_registers_accept_halfword_and_word_access() {
    let mut bus = Bus::new(GbaMemory::new());

    assert_eq!(bus.read(BG2PA, AccessSize::Halfword), 0x0100);
    assert_eq!(bus.read(BG2PD, AccessSize::Halfword), 0x0100);

    bus.write(BG2PA, AccessSize::Halfword, 0x0200);
    bus.write(BG2X, AccessSize::Word, 0x0001_8000);
    bus.write(BG2Y, AccessSize::Word, 0x0fff_8000);

    assert_eq!(bus.read(BG2PA, AccessSize::Halfword), 0x0200);
    assert_eq!(bus.read(BG2X, AccessSize::Word), 0x0001_8000);
    assert_eq!(bus.read(BG2Y, AccessSize::Word), 0x0fff_8000);
}

#[test]
fn keyinput_reads_all_keys_released() {
    let mut bus = Bus::new(GbaMemory::new());
    bus.write(KEYINPUT, AccessSize::Halfword, 0x0001);
    assert_eq!(bus.read(KEYINPUT, AccessSize::Halfword), 0x03ff);
}

#[test]
fn scroll_offsets_keep_nine_bits() {
    let mut bus = Bus::new(GbaMemory::new());
    bus.write(BG0HOFS, AccessSize::Halfword, 0xffff);
    assert_eq!(bus.read(BG0HOFS, AccessSize::Halfword), 0x01ff);
}

#[test]
fn bg2x_high_half_keeps_twelve_bits() {
    let mut bus = Bus::new(GbaMemory::new());
    bus.write(BG2X + 2, AccessSize::Halfword, 0xffff);
    assert_eq!(bus.read(BG2X + 2, AccessSize::Halfword), 0x0fff);
    assert_eq!(bus.read(BG2X, AccessSize::Halfword), 0);
}

#[test]
fn plain_io_halfwords_read_back_and_bytes_split() {
    let mut bus = Bus::new(GbaMemory::new());
    let addr = IO_START + 0x0200;
    bus.write(addr, AccessSize::Halfword, 0xbeef);
    assert_eq!(bus.read(addr, AccessSize::Halfword), 0xbeef);
    assert_eq!(bus.read(addr, AccessSize::Byte), 0xef);
    assert_eq!(bus.read(addr + 1, AccessSize::Byte), 0xbe);
}

#[test]
fn outside_io_reads_zero() {
    let mut bus = Bus::new(GbaMemory::new());
    assert_eq!(bus.read(0x0500_0000, AccessSize::Halfword), 0);
    assert_eq!(bus.read(0x0300_0000, AccessSize::Word), 0);
}

#[test]
fn dispstat_reports_vblank_and_vcount_match() {
    let mut bus = Bus::new(GbaMemory::new());
    bus.write(DISPSTAT, AccessSize::Halfword, 0x0203);
    // Status bits are not writable; the VCOUNT setting (2) is.
    assert_eq!(bus.read(DISPSTAT, AccessSize::Halfword), 0x0200);
    bus.ppu_mut().step_scanline();
    bus.ppu_mut().step_scanline();
    assert_eq!(bus.read(VCOUNT, AccessSize::Halfword), 2);
    assert_eq!(bus.read(DISPSTAT, AccessSize::Halfword), 0x0204);
    bus.ppu_mut().set_vcount(160);
    assert_eq!(bus.read(DISPSTAT, AccessSize::Halfword), 0x0201);
}

#[test]
fn render_frame_argb8888_renders_mode3_from_vram() {
    let mut bus = Bus::new(GbaMemory::new());
    bus.memory_mut().write_vram_halfword(0, 0x001f);
    bus.write(DISPCNT, AccessSize::Halfword, u32::from(MODE_3 | BG2_ENABLE));
    let frame = bus.render_frame_argb8888();
    assert_eq!(frame.len(), 240 * 160);
    assert_eq!(frame[0], 0xffff0000);
    assert_eq!(frame[1], 0xff000000);
}
