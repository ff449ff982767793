//! The guest memory the vCPU boots from: the BIOS with a reset handler that
//! turns on the MMU and caches, and the first-level page tables (a normal
//! one, and one for HBlank handlers that maps the I/O page onto its shadow
//! copy) in the fast window.
use vstd::prelude::*;

use crate::gba::bits::{le32, write_u32};
use crate::gba::memory_map::{
    BIOS_SIZE, IWRAM_SIZE, EWRAM_START, GAME_PAK_ROM_START, IO_START, IWRAM_START, OAM_START, PALETTE_START,
    VRAM_START,
};
use crate::kvm::shared_memory::{FAST_MEM_SIZE, FAST_MEM_START};

verus! {

pub const NORMAL_L1_ADDR: u32 = FAST_MEM_START;
pub const HBLANK_L1_ADDR: u32 = 0x0f00_4000;
pub const HBLANK_IO_L2_ADDR: u32 = 0x0f00_8000;
pub const SHADOW_IO_ADDR: u32 = 0x0f00_9000;
pub const FAST_CTRL_ADDR: u32 = 0x0f00_a000;
pub const FAST_EXIT_ADDR: u32 = 0x0400_03fc;

pub const NORMAL_L1_OFFSET: usize = 0;
pub const HBLANK_L1_OFFSET: usize = 0x4000;
pub const HBLANK_IO_L2_OFFSET: usize = 0x8000;
pub const SECTION_SIZE: u32 = 0x0010_0000;
pub const TTBR0_INNER_SHAREABLE_WBWA: u32 = 0x0000_004a;
pub const TTBR0_VALUE: u32 = 0x0f00_004a;
pub const KVM_RESET_VECTOR_OFFSET: usize = 0;
pub const KVM_RESET_HANDLER_OFFSET: usize = 0x300;

/// A 1 MiB section, normal memory, shareable, write-back write-allocate.
pub const NORMAL_SHARED_WBWA_SECTION: u32 = 0x0001_1c0e;
/// A 1 MiB section, normal memory, shareable, write-through.
pub const NORMAL_SHARED_WRITE_THROUGH_SECTION: u32 = 0x0001_0c0a;
/// The HBlank table's entry for the I/O section: a coarse table at
/// `HBLANK_IO_L2_ADDR`.
pub const HBLANK_IO_L2_DESCRIPTOR: u32 = 0x0f00_8001;
/// The coarse table's first small page: the shadow I/O page, cached.
pub const SHADOW_IO_SMALL_PAGE: u32 = 0x0f00_907e;

/// `b` at the reset vector: branch to the handler at 0x300.
pub const KVM_RESET_VECTOR: u32 = 0xea00_00be;

/// Number of words of the reset handler.
pub const CACHE_BOOTSTRAP_LEN: usize = 19;

/// The reset handler: set the ASID, TTBR0 and domain access, enable the MMU
/// and caches, set the stack and jump to the ROM entry point (its data
/// words follow the code).
pub open spec fn spec_cache_bootstrap() -> Seq<u32> {
    seq![
        0xe3a0_0001u32, 0xee0d_0f30, 0xe59f_002c, 0xee02_0f10, 0xe3e0_0000, 0xee03_0f10, 0xee11_0f10,
        0xe59f_101c, 0xe180_0001, 0xee01_0f10, 0xf57f_f04f, 0xf57f_f06f, 0xe59f_d00c, 0xe59f_000c,
        0xe12f_ff10, TTBR0_VALUE, 0x0000_1005, 0x0300_7fe0, GAME_PAK_ROM_START,
    ]
}

fn cache_bootstrap() -> (r: Vec<u32>)
    ensures
        r@ == spec_cache_bootstrap(),
{
    let r: Vec<u32> = vec![
        0xe3a0_0001, // mov r0, #1 ; normal ASID
        0xee0d_0f30, // mcr p15, 0, r0, c13, c0, 1 ; CONTEXTIDR
        0xe59f_002c, // ldr r0, [pc, #0x2c] ; TTBR0
        0xee02_0f10, // mcr p15, 0, r0, c2, c0, 0
        0xe3e0_0000, // mvn r0, #0 ; DACR all manager
        0xee03_0f10, // mcr p15, 0, r0, c3, c0, 0
        0xee11_0f10, // mrc p15, 0, r0, c1, c0, 0 ; SCTLR
        0xe59f_101c, // ldr r1, [pc, #0x1c] ; M | C | I
        0xe180_0001, // orr r0, r0, r1
        0xee01_0f10, // mcr p15, 0, r0, c1, c0, 0
        0xf57f_f04f, // dsb sy
        0xf57f_f06f, // isb sy
        0xe59f_d00c, // ldr sp, [pc, #0x0c] ; SVC stack
        0xe59f_000c, // ldr r0, [pc, #0x0c] ; ROM entry
        0xe12f_ff10, // bx r0
        TTBR0_VALUE,
        0x0000_1005, // SCTLR.M | SCTLR.C | SCTLR.I
        0x0300_7fe0, // SVC stack, below REG_IRQ_WAITFLAGS/INT_VECTOR
        GAME_PAK_ROM_START,
    ];
    assert(r@ =~= spec_cache_bootstrap());
    r
}

/// The first-level entry of section `section` (1 MiB each): the guest RAM
/// areas are mapped write-through so the host sees the guest's stores,
/// everything else write-back.
pub open spec fn spec_section_entry(section: int) -> u32 {
    let base = (section * SECTION_SIZE) as u32;
    let attrs = if base == EWRAM_START || base == IWRAM_START || base == PALETTE_START || base == VRAM_START
        || base == OAM_START {
        NORMAL_SHARED_WRITE_THROUGH_SECTION
    } else {
        NORMAL_SHARED_WBWA_SECTION
    };
    base | attrs
}

/// The section holding the I/O area.
pub const IO_SECTION: usize = 0x40;

/// The BIOS area as booted: the image, with the reset vector and the reset
/// handler written over it.
pub open spec fn spec_boot_bios(bios: Seq<u8>, image: Seq<u8>) -> bool {
    &&& bios.len() == BIOS_SIZE
    &&& le32(bios, KVM_RESET_VECTOR_OFFSET as int) == KVM_RESET_VECTOR
    &&& forall|i: int| 0 <= i < CACHE_BOOTSTRAP_LEN ==> #[trigger] le32(bios, KVM_RESET_HANDLER_OFFSET + 4 * i)
        == spec_cache_bootstrap()[i]
    &&& forall|b: int| 4 <= b < KVM_RESET_HANDLER_OFFSET || KVM_RESET_HANDLER_OFFSET + 4 * CACHE_BOOTSTRAP_LEN <= b < BIOS_SIZE
        ==> #[trigger] bios[b] == image[b]
}

/// The fast window as booted: the normal table maps every section, the
/// HBlank table too except that the I/O section goes through the coarse
/// table whose first page is the shadow I/O page; everything else is zero.
pub open spec fn spec_boot_fast(fast: Seq<u8>) -> bool {
    &&& fast.len() == FAST_MEM_SIZE
    &&& forall|s: int| 0 <= s < 4096 ==> #[trigger] le32(fast, NORMAL_L1_OFFSET + 4 * s) == spec_section_entry(s)
    &&& forall|s: int| 0 <= s < 4096 ==> #[trigger] le32(fast, HBLANK_L1_OFFSET + 4 * s)
        == (if s == IO_SECTION { HBLANK_IO_L2_DESCRIPTOR } else { spec_section_entry(s) })
    &&& le32(fast, HBLANK_IO_L2_OFFSET as int) == SHADOW_IO_SMALL_PAGE
    &&& forall|b: int| HBLANK_IO_L2_OFFSET + 4 <= b < FAST_MEM_SIZE ==> #[trigger] fast[b] == 0
}

/// Writes `word` at byte `offset`; the bytes outside the word, and so the
/// words that do not overlap it, keep their values.
fn store_word(memory: &mut Vec<u8>, offset: usize, word: u32)
    requires
        offset + 3 < old(memory)@.len(),
    ensures
        final(memory)@.len() == old(memory)@.len(),
        le32(final(memory)@, offset as int) == word,
        forall|b: int| 0 <= b < old(memory)@.len() && !(offset <= b < offset + 4) ==> #[trigger] final(memory)@[b] == old(memory)@[b],
        forall|o: int| 0 <= o && o + 3 < old(memory)@.len() && (o + 4 <= offset || offset + 4 <= o)
            ==> #[trigger] le32(final(memory)@, o) == le32(old(memory)@, o),
{
    let ghost before = memory@;
    write_u32(memory, offset, word);
    assert forall|o: int| 0 <= o && o + 3 < before.len() && (o + 4 <= offset || offset + 4 <= o)
        implies #[trigger] le32(memory@, o) == le32(before, o) by {
        assert(memory@[o] == before[o]);
        assert(memory@[o + 1] == before[o + 1]);
        assert(memory@[o + 2] == before[o + 2]);
        assert(memory@[o + 3] == before[o + 3]);
    }
}

/// Lays out the BIOS area and the fast window for booting: the BIOS image
/// with the reset vector and handler, and the page tables (see
/// `spec_boot_bios` and `spec_boot_fast`). The caller makes the stores
/// visible to the guest (cleans the data cache) afterwards.
pub fn install_bios_and_cache_bootstrap(bios: &mut Vec<u8>, image: &[u8], fast_memory: &mut Vec<u8>)
    requires
        old(bios)@.len() == BIOS_SIZE,
        image@.len() == BIOS_SIZE,
        old(fast_memory)@.len() == FAST_MEM_SIZE,
    ensures
        spec_boot_bios(final(bios)@, image@),
        spec_boot_fast(final(fast_memory)@),
{
    let mut i: usize = 0;
    while i < BIOS_SIZE
        invariant
            i <= BIOS_SIZE,
            bios@.len() == BIOS_SIZE,
            image@.len() == BIOS_SIZE,
            forall|b: int| 0 <= b < i ==> #[trigger] bios@[b] == image@[b],
        decreases BIOS_SIZE - i,
    {
        bios.set(i, image[i]);
        i += 1;
    }
    store_word(bios, KVM_RESET_VECTOR_OFFSET, KVM_RESET_VECTOR);
    let words = cache_bootstrap();
    let mut index: usize = 0;
    while index < CACHE_BOOTSTRAP_LEN
        invariant
            index <= CACHE_BOOTSTRAP_LEN,
            words@ == spec_cache_bootstrap(),
            bios@.len() == BIOS_SIZE,
            image@.len() == BIOS_SIZE,
            le32(bios@, KVM_RESET_VECTOR_OFFSET as int) == KVM_RESET_VECTOR,
            forall|k: int| 0 <= k < index ==> #[trigger] le32(bios@, KVM_RESET_HANDLER_OFFSET + 4 * k) == spec_cache_bootstrap()[k],
            forall|b: int| 4 <= b < KVM_RESET_HANDLER_OFFSET || KVM_RESET_HANDLER_OFFSET + 4 * CACHE_BOOTSTRAP_LEN <= b < BIOS_SIZE
                ==> #[trigger] bios@[b] == image@[b],
        decreases CACHE_BOOTSTRAP_LEN - index,
    {
        store_word(bios, KVM_RESET_HANDLER_OFFSET + index * 4, words[index]);
        assert(le32(bios@, KVM_RESET_HANDLER_OFFSET + 4 * index) == spec_cache_bootstrap()[index as int]);
        index += 1;
    }

    let mut b: usize = 0;
    while b < FAST_MEM_SIZE
        invariant
            b <= FAST_MEM_SIZE,
            fast_memory@.len() == FAST_MEM_SIZE,
            forall|k: int| 0 <= k < b ==> #[trigger] fast_memory@[k] == 0,
        decreases FAST_MEM_SIZE - b,
    {
        fast_memory.set(b, 0);
        b += 1;
    }

    let mut section: u32 = 0;
    while section < 4096
        invariant
            section <= 4096,
            fast_memory@.len() == FAST_MEM_SIZE,
            forall|s: int| 0 <= s < section ==> #[trigger] le32(fast_memory@, NORMAL_L1_OFFSET + 4 * s) == spec_section_entry(s),
            forall|s: int| 0 <= s < section ==> #[trigger] le32(fast_memory@, HBLANK_L1_OFFSET + 4 * s) == spec_section_entry(s),
            forall|k: int| HBLANK_IO_L2_OFFSET <= k < FAST_MEM_SIZE ==> #[trigger] fast_memory@[k] == 0,
        decreases 4096 - section,
    {
        let base = section * SECTION_SIZE;
        let attrs = if base == EWRAM_START || base == IWRAM_START || base == PALETTE_START || base == VRAM_START
            || base == OAM_START {
            NORMAL_SHARED_WRITE_THROUGH_SECTION
        } else {
            NORMAL_SHARED_WBWA_SECTION
        };
        let entry = base | attrs;
        let offset = section as usize * 4;
        store_word(fast_memory, NORMAL_L1_OFFSET + offset, entry);
        store_word(fast_memory, HBLANK_L1_OFFSET + offset, entry);
        assert(le32(fast_memory@, NORMAL_L1_OFFSET + 4 * section) == spec_section_entry(section as int));
        assert(le32(fast_memory@, HBLANK_L1_OFFSET + 4 * section) == spec_section_entry(section as int));
        section += 1;
    }

    let io_l1_offset = ((IO_START / SECTION_SIZE) as usize) * 4;
    store_word(fast_memory, HBLANK_L1_OFFSET + io_l1_offset, HBLANK_IO_L2_DESCRIPTOR);
    store_word(fast_memory, HBLANK_IO_L2_OFFSET, SHADOW_IO_SMALL_PAGE);
    assert forall|s: int| 0 <= s < 4096 implies #[trigger] le32(fast_memory@, HBLANK_L1_OFFSET + 4 * s)
        == (if s == IO_SECTION { HBLANK_IO_L2_DESCRIPTOR } else { spec_section_entry(s) }) by {
        if s != IO_SECTION {
            assert(HBLANK_L1_OFFSET + 4 * s + 4 <= HBLANK_L1_OFFSET + io_l1_offset || HBLANK_L1_OFFSET + io_l1_offset + 4 <= HBLANK_L1_OFFSET + 4 * s);
        }
    }
}

/// Guest address of the page table that the IWRAM boot layout keeps in
/// IWRAM, and its offset there.
pub const PAGE_TABLE_GUEST_ADDR: u32 = 0x0300_4000;
pub const PAGE_TABLE_IWRAM_OFFSET: usize = 0x4000;
pub const IWRAM_TTBR0_VALUE: u32 = 0x0300_404a;
pub const BIOS_RESET_HANDLER_OFFSET: usize = 0x40;
pub const BIOS_SWI_HANDLER_OFFSET: usize = 0x100;

/// The exception vectors of the IWRAM boot layout: reset to 0x40, SWI to
/// 0x100, every other exception spins.
pub open spec fn spec_bios_vector_table() -> Seq<u32> {
    seq![0xea00_000eu32, 0xeaff_fffe, 0xea00_003c, 0xeaff_fffe, 0xeaff_fffe, 0xeaff_fffe, 0xeaff_fffe, 0xeaff_fffe]
}

/// Its reset handler: TTBR0 and domain access, MMU and caches on, jump to
/// the ROM entry point.
pub open spec fn spec_iwram_cache_bootstrap() -> Seq<u32> {
    seq![
        0xe59f_0028u32, 0xee02_0f10, 0xe3e0_0000, 0xee03_0f10, 0xee11_0f10, 0xe59f_1018, 0xe180_0001,
        0xee01_0f10, 0xf57f_f04f, 0xf57f_f06f, 0xe59f_0008, 0xe12f_ff10, IWRAM_TTBR0_VALUE, 0x0000_1005,
        GAME_PAK_ROM_START,
    ]
}

/// Its SWI handler: unsigned division of r0 by r1 (quotient in r0 and r3,
/// remainder in r1; division by zero gives zeros).
pub open spec fn spec_bios_swi_handler() -> Seq<u32> {
    seq![
        0xe3a0_2000u32, 0xe3a0_3000, 0xe351_0000, 0x0a00_0005, 0xe1a0_3000, 0xe153_0001, 0x3a00_0002,
        0xe043_3001, 0xe282_2001, 0xeaff_fffa, 0xe1a0_0002, 0xe1a0_1003, 0xe1a0_3002, 0xe1b0_f00e,
    ]
}

/// `memory` holds `words` from byte `offset`.
pub open spec fn holds_words(memory: Seq<u8>, offset: int, words: Seq<u32>) -> bool {
    forall|i: int| 0 <= i < words.len() ==> #[trigger] le32(memory, offset + 4 * i) == words[i]
}

fn store_words(memory: &mut Vec<u8>, offset: usize, words: &Vec<u32>)
    requires
        offset + 4 * words@.len() <= old(memory)@.len(),
    ensures
        final(memory)@.len() == old(memory)@.len(),
        holds_words(final(memory)@, offset as int, words@),
        forall|b: int| 0 <= b < old(memory)@.len() && !(offset <= b < offset + 4 * words@.len())
            ==> #[trigger] final(memory)@[b] == old(memory)@[b],
        forall|o: int| 0 <= o && o + 3 < old(memory)@.len() && (o + 4 <= offset || offset + 4 * words@.len() <= o)
            ==> #[trigger] le32(final(memory)@, o) == le32(old(memory)@, o),
{
    let ghost before = memory@;
    let len = memory.len();
    let mut index: usize = 0;
    while index < words.len()
        invariant
            index <= words@.len(),
            before.len() == len,
            offset + 4 * words@.len() <= before.len(),
            memory@.len() == before.len(),
            forall|k: int| 0 <= k < index ==> #[trigger] le32(memory@, offset + 4 * k) == words@[k],
            forall|b: int| 0 <= b < before.len() && !(offset <= b < offset + 4 * index) ==> #[trigger] memory@[b] == before[b],
        decreases words@.len() - index,
    {
        store_word(memory, offset + 4 * index, words[index]);
        assert(le32(memory@, offset + 4 * index) == words@[index as int]);
        index += 1;
    }
    assert forall|o: int| 0 <= o && o + 3 < before.len() && (o + 4 <= offset || offset + 4 * words@.len() <= o)
        implies #[trigger] le32(memory@, o) == le32(before, o) by {
        assert(memory@[o] == before[o]);
        assert(memory@[o + 1] == before[o + 1]);
        assert(memory@[o + 2] == before[o + 2]);
        assert(memory@[o + 3] == before[o + 3]);
    }
}

/// Lays out the IWRAM boot variant: exception vectors, reset handler and
/// SWI handler in the BIOS area, and a flat write-back page table in IWRAM
/// at `PAGE_TABLE_IWRAM_OFFSET`; other bytes keep their values. The caller
/// makes the stores visible to the guest afterwards.
pub fn install_cache_bootstrap(bios: &mut Vec<u8>, iwram: &mut Vec<u8>)
    requires
        old(bios)@.len() == BIOS_SIZE,
        old(iwram)@.len() == IWRAM_SIZE,
    ensures
        final(bios)@.len() == BIOS_SIZE,
        holds_words(final(bios)@, 0, spec_bios_vector_table()),
        holds_words(final(bios)@, BIOS_RESET_HANDLER_OFFSET as int, spec_iwram_cache_bootstrap()),
        holds_words(final(bios)@, BIOS_SWI_HANDLER_OFFSET as int, spec_bios_swi_handler()),
        forall|b: int| 0x20 <= b < BIOS_RESET_HANDLER_OFFSET || BIOS_RESET_HANDLER_OFFSET + 60 <= b < BIOS_SWI_HANDLER_OFFSET
            || BIOS_SWI_HANDLER_OFFSET + 56 <= b < BIOS_SIZE ==> #[trigger] final(bios)@[b] == old(bios)@[b],
        final(iwram)@.len() == IWRAM_SIZE,
        forall|s: int| 0 <= s < 4096 ==> #[trigger] le32(final(iwram)@, PAGE_TABLE_IWRAM_OFFSET + 4 * s)
            == ((s * SECTION_SIZE) as u32 | NORMAL_SHARED_WBWA_SECTION),
        forall|b: int| 0 <= b < PAGE_TABLE_IWRAM_OFFSET ==> #[trigger] final(iwram)@[b] == old(iwram)@[b],
{
    let vectors: Vec<u32> = vec![0xea00_000e, 0xeaff_fffe, 0xea00_003c, 0xeaff_fffe, 0xeaff_fffe, 0xeaff_fffe, 0xeaff_fffe, 0xeaff_fffe];
    let reset: Vec<u32> = vec![
        0xe59f_0028, // ldr r0, [pc, #0x28] ; TTBR0
        0xee02_0f10, // mcr p15, 0, r0, c2, c0, 0
        0xe3e0_0000, // mvn r0, #0 ; DACR all manager
        0xee03_0f10, // mcr p15, 0, r0, c3, c0, 0
        0xee11_0f10, // mrc p15, 0, r0, c1, c0, 0 ; SCTLR
        0xe59f_1018, // ldr r1, [pc, #0x18] ; M | C | I
        0xe180_0001, // orr r0, r0, r1
        0xee01_0f10, // mcr p15, 0, r0, c1, c0, 0
        0xf57f_f04f, // dsb sy
        0xf57f_f06f, // isb sy
        0xe59f_0008, // ldr r0, [pc, #0x08] ; ROM entry
        0xe12f_ff10, // bx r0
        IWRAM_TTBR0_VALUE,
        0x0000_1005, // SCTLR.M | SCTLR.C | SCTLR.I
        GAME_PAK_ROM_START,
    ];
    let swi: Vec<u32> = vec![
        0xe3a0_2000, // mov r2, #0
        0xe3a0_3000, // mov r3, #0
        0xe351_0000, // cmp r1, #0
        0x0a00_0005, // beq done
        0xe1a0_3000, // mov r3, r0
        0xe153_0001, // cmp r3, r1
        0x3a00_0002, // blo done
        0xe043_3001, // sub r3, r3, r1
        0xe282_2001, // add r2, r2, #1
        0xeaff_fffa, // b loop
        0xe1a0_0002, // mov r0, r2
        0xe1a0_1003, // mov r1, r3
        0xe1a0_3002, // mov r3, r2
        0xe1b0_f00e, // movs pc, lr
    ];
    assert(vectors@ =~= spec_bios_vector_table());
    assert(reset@ =~= spec_iwram_cache_bootstrap());
    assert(swi@ =~= spec_bios_swi_handler());
    let ghost bios0 = bios@;
    store_words(bios, 0, &vectors);
    store_words(bios, BIOS_RESET_HANDLER_OFFSET, &reset);
    store_words(bios, BIOS_SWI_HANDLER_OFFSET, &swi);

    let ghost iwram0 = iwram@;
    let mut section: u32 = 0;
    while section < 4096
        invariant
            section <= 4096,
            iwram@.len() == IWRAM_SIZE,
            forall|s: int| 0 <= s < section ==> #[trigger] le32(iwram@, PAGE_TABLE_IWRAM_OFFSET + 4 * s)
                == ((s * SECTION_SIZE) as u32 | NORMAL_SHARED_WBWA_SECTION),
            forall|b: int| 0 <= b < PAGE_TABLE_IWRAM_OFFSET ==> #[trigger] iwram@[b] == iwram0[b],
        decreases 4096 - section,
    {
        let base = section * SECTION_SIZE;
        let entry = base | NORMAL_SHARED_WBWA_SECTION;
        store_word(iwram, PAGE_TABLE_IWRAM_OFFSET + section as usize * 4, entry);
        assert(le32(iwram@, PAGE_TABLE_IWRAM_OFFSET + 4 * section) == ((section * SECTION_SIZE) as u32 | NORMAL_SHARED_WBWA_SECTION));
        section += 1;
    }
}

} // verus!
