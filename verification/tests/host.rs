use kgba::gba::memory_map::{BIOS_SIZE, IWRAM_SIZE};
use kgba::input::{keyinput_for_name, keyinput_from_keys, KEYINPUT_RELEASED};
use kgba::kvm::bootstrap::{
    install_bios_and_cache_bootstrap, install_cache_bootstrap, HBLANK_IO_L2_DESCRIPTOR,
    KVM_RESET_VECTOR, SHADOW_IO_SMALL_PAGE, TTBR0_VALUE,
};
use kgba::kvm::shared_memory::FAST_MEM_SIZE;
use kgba::kvm::util::last_os_error;
use kgba::report::{frame_hash, lit_pixels, tile_ascii};

fn word(bytes: &[u8], offset: usize) -> u32 {
    u32::from_le_bytes([bytes[offset], bytes[offset + 1], bytes[offset + 2], bytes[offset + 3]])
}

#[test]
fn key_names_press_one_key() {
    assert_eq!(keyinput_for_name("a"), Some(0x03fe));
    assert_eq!(keyinput_for_name("start"), Some(0x03f7));
    assert_eq!(keyinput_for_name("d"), Some(0x03ef));
    assert_eq!(keyinput_for_name("right"), Some(0x03ef));
    assert_eq!(keyinput_for_name("w"), Some(0x03bf));
    assert_eq!(keyinput_for_name("l"), Some(0x01ff));
    assert_eq!(keyinput_for_name("x"), None);
    assert_eq!(keyinput_for_name(""), None);
    assert_eq!(keyinput_for_name("starts"), None);
}

#[test]
fn keyboard_state_maps_to_keyinput() {
    let mut keys = vec![0u8; 64];
    assert_eq!(keyinput_from_keys(&keys), KEYINPUT_RELEASED);
    keys[15] = 1; // L -> A
    keys[40] = 1; // Return -> Start
    assert_eq!(keyinput_from_keys(&keys), 0x03ff & !0x0001 & !0x0008);
    // A short state leaves the missing keys released.
    assert_eq!(keyinput_from_keys(&keys[..20]), 0x03ff & !0x0001);
}

#[test]
fn frame_summaries() {
    assert_eq!(frame_hash(&[]), 0xcbf2_9ce4_8422_2325);
    let expected = (0xcbf2_9ce4_8422_2325u64 ^ 1).wrapping_mul(0x0000_0100_0000_01b3);
    assert_eq!(frame_hash(&[1]), expected);
    assert_ne!(frame_hash(&[1, 2]), frame_hash(&[2, 1]));
    assert_eq!(lit_pixels(&[0, 5, 0, 0xff00_0000]), 1);
    assert_eq!(lit_pixels(&[0xff00_0000, 0xffff_ffff, 0xff00_0001, 0x0100_0000]), 2);
    assert_eq!(tile_ascii(0x0010), '0');
    assert_eq!(tile_ascii(0x1221), 'A');
    assert_eq!(tile_ascii(0x00ff), char::from_u32(0xff + 32).unwrap());
}

#[test]
fn boot_layout_puts_reset_handler_and_page_tables() {
    let mut bios = vec![0u8; BIOS_SIZE];
    let image: Vec<u8> = (0..BIOS_SIZE).map(|i| (i % 251) as u8).collect();
    let mut fast = vec![0xaa; FAST_MEM_SIZE];
    install_bios_and_cache_bootstrap(&mut bios, &image, &mut fast);
    assert_eq!(word(&bios, 0), KVM_RESET_VECTOR);
    assert_eq!(word(&bios, 0x300), 0xe3a0_0001);
    assert_eq!(word(&bios, 0x300 + 15 * 4), TTBR0_VALUE);
    assert_eq!(word(&bios, 0x300 + 18 * 4), 0x0800_0000);
    assert_eq!(&bios[4..0x300], &image[4..0x300]);
    assert_eq!(&bios[0x34c..], &image[0x34c..]);
    // Normal table: EWRAM write-through, ROM write-back.
    assert_eq!(word(&fast, 0x20 * 4), 0x0200_0000 | 0x0001_0c0a);
    assert_eq!(word(&fast, 0x80 * 4), 0x0800_0000 | 0x0001_1c0e);
    assert_eq!(word(&fast, 0x40 * 4), 0x0400_0000 | 0x0001_1c0e);
    // HBlank table: the I/O section goes through the coarse table.
    assert_eq!(word(&fast, 0x4000 + 0x40 * 4), HBLANK_IO_L2_DESCRIPTOR);
    assert_eq!(word(&fast, 0x4000 + 0x80 * 4), 0x0800_0000 | 0x0001_1c0e);
    assert_eq!(word(&fast, 0x8000), SHADOW_IO_SMALL_PAGE);
    assert!(fast[0x8004..].iter().all(|&b| b == 0));
}

#[test]
fn iwram_boot_layout_puts_vectors_handlers_and_table() {
    let mut bios = vec![0x11u8; BIOS_SIZE];
    let mut iwram = vec![0x22u8; IWRAM_SIZE];
    install_cache_bootstrap(&mut bios, &mut iwram);
    assert_eq!(word(&bios, 0), 0xea00_000e);
    assert_eq!(word(&bios, 8), 0xea00_003c);
    assert_eq!(word(&bios, 0x40), 0xe59f_0028);
    assert_eq!(word(&bios, 0x40 + 12 * 4), 0x0300_404a);
    assert_eq!(word(&bios, 0x100), 0xe3a0_2000);
    assert_eq!(word(&bios, 0x100 + 13 * 4), 0xe1b0_f00e);
    assert_eq!(bios[0x20], 0x11);
    assert_eq!(bios[0x138], 0x11);
    assert_eq!(word(&iwram, 0x4000), 0x0001_1c0e);
    assert_eq!(word(&iwram, 0x4000 + 4095 * 4), 0xfff0_0000 | 0x0001_1c0e);
    assert_eq!(iwram[0x3fff], 0x22);
}

#[test]
fn os_error_text_follows_the_context() {
    let text = last_os_error("KVM_RUN");
    assert!(text.starts_with("KVM_RUN: "));
    assert!(text.len() > "KVM_RUN: ".len());
}

