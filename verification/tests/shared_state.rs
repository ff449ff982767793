use kgba::gba::memory_map::{
    BG1HOFS, BG1VOFS, BG2PA, BG2PD, DISPCNT, DISPSTAT, DMA2CNT, DMA2DAD, DMA2SAD, DMA3CNT, DMA3DAD,
    DMA3SAD, EWRAM_SIZE, FIFO_A, FIFO_B, GAME_PAK_ROM_START, IE, IF, IME, IO_START, IWRAM_SIZE,
    KEYINPUT, MOSAIC, OAM_SIZE, PALETTE_SIZE, SOUNDCNT_H, VCOUNT, VRAM_SIZE,
};
use kgba::gba::ppu::bgr555_to_argb8888;
use kgba::kvm::clock::{begin_scanline, begin_scanline_checked, end_scanline, hblank_point};
use kgba::kvm::shared_memory::{
    handle_exit, handle_mmio, KvmSharedMemory, FAST_HBLANK_BG_HOFS_OFFSET, FAST_HBLANK_BG_VOFS_OFFSET,
    FAST_HBLANK_COMPLETED_SEQ_OFFSET, FAST_HBLANK_DIRTY_BG_HOFS0, FAST_HBLANK_DIRTY_BG_VOFS0,
    FAST_HBLANK_DIRTY_IF_ACK, FAST_HBLANK_DIRTY_IME, FAST_HBLANK_DIRTY_MASK_OFFSET,
    FAST_HBLANK_IF_ACK_OFFSET, FAST_HBLANK_IME_OFFSET, FAST_HBLANK_KIND_OFFSET,
    FAST_HBLANK_REQUESTED_SEQ_OFFSET, FAST_HBLANK_VCOUNT_OFFSET, FAST_MEM_SIZE, IO_SLOT_SIZE,
};
use kgba::kvm::sys::{
    io, ioc, ior, iow, reg_arm64_core_pc, KvmIrqLevel, KvmMmio, KvmOneReg, KvmUserspaceMemoryRegion,
    KvmVcpuInit, KVMIO, KVM_ARM_PREFERRED_TARGET, KVM_ARM_VCPU_INIT, KVM_CREATE_VCPU, KVM_CREATE_VM,
    KVM_GET_API_VERSION, KVM_GET_VCPU_MMAP_SIZE, KVM_IRQ_LINE, KVM_RUN, KVM_SET_ONE_REG,
    KVM_SET_USER_MEMORY_REGION,
};

fn test_shared_memory(rom: &[u8]) -> KvmSharedMemory {
    KvmSharedMemory::new(
        vec![0; EWRAM_SIZE],
        vec![0; IWRAM_SIZE],
        vec![0; IO_SLOT_SIZE],
        vec![0; PALETTE_SIZE],
        vec![0; VRAM_SIZE],
        vec![0; OAM_SIZE],
        vec![0; FAST_MEM_SIZE],
        rom,
    )
}

#[test]
fn immediate_dma3_copies_mode3_bitmap_from_rom_to_vram() {
    let count = 240 * 160;
    let source_offset = 0x31c;
    let mut rom = vec![0; source_offset + count * 2];
    rom[source_offset..source_offset + 4].copy_from_slice(&[0x5f, 0x4a, 0x34, 0x12]);
    let last_offset = source_offset + (count - 1) * 2;
    rom[last_offset..last_offset + 2].copy_from_slice(&[0x1f, 0x00]);

    let mut shared = test_shared_memory(&rom);
    shared.write_io_u16(DMA3SAD, (GAME_PAK_ROM_START + source_offset as u32) as u16);
    shared.write_io_u16(
        DMA3SAD + 2,
        ((GAME_PAK_ROM_START + source_offset as u32) >> 16) as u16,
    );
    shared.write_io_u16(DMA3DAD, 0);
    shared.write_io_u16(DMA3DAD + 2, 0x0600);
    shared.write_io_u16(DMA3CNT, count as u16);
    shared.write_io_u16(DMA3CNT + 2, 0x8000);

    shared.run_immediate_dma_for_io_write(DMA3CNT, 4);

    assert_eq!(&shared.vram[0..4], &[0x5f, 0x4a, 0x34, 0x12]);
    assert_eq!(&shared.vram[(count - 1) * 2..count * 2], &[0x1f, 0x00]);
    assert_eq!(shared.read_io_u16(DMA3CNT + 2) & 0x8000, 0);
    assert_eq!(shared.read_io_u16(MOSAIC), 0);
}

#[test]
fn shared_hblank_completion_updates_mirror_and_raster_state() {
    let mut shared = test_shared_memory(&[]);
    shared.write_io_u16(IF, 0x0002);
    shared.hblank_latch_vcount = 7;
    shared.hblank_latch_seq = 3;
    shared.write_fast_hblank_u32(
        FAST_HBLANK_DIRTY_MASK_OFFSET,
        (FAST_HBLANK_DIRTY_BG_HOFS0 << 1)
            | (FAST_HBLANK_DIRTY_BG_VOFS0 << 1)
            | FAST_HBLANK_DIRTY_IME
            | FAST_HBLANK_DIRTY_IF_ACK,
    );
    shared.write_fast_hblank_u16(FAST_HBLANK_BG_HOFS_OFFSET + 2, 0x0042);
    shared.write_fast_hblank_u16(FAST_HBLANK_BG_VOFS_OFFSET + 2, 0x0017);
    shared.write_fast_hblank_u16(FAST_HBLANK_IME_OFFSET, 1);
    shared.write_fast_hblank_u16(FAST_HBLANK_IF_ACK_OFFSET, 0x0002);
    shared.write_fast_hblank_u64(FAST_HBLANK_COMPLETED_SEQ_OFFSET, 3);

    assert!(shared.poll_hblank_complete(3));

    assert_eq!(shared.read_io_u16(IF) & 0x0002, 0);
    assert_eq!(shared.read_io_u16(IME), 1);
    assert_eq!(shared.read_io_u16(BG1HOFS), 0x0042);
    assert_eq!(shared.read_io_u16(BG1VOFS), 0x0017);
    assert_eq!(shared.raster.hofs[160 + 8], 0x0042);
    assert_eq!(shared.raster.vofs[160 + 8], 0x0017);
}

#[test]
fn timer_overflow_runs_fifo_dma_and_publishes_pcm() {
    let rom = [0x40, 0xc0, 0x20, 0xe0, 0x10, 0xf0, 0x08, 0xf8];
    let mut shared = test_shared_memory(&rom);
    shared.write_io_u16(SOUNDCNT_H, 0x7000);
    shared.write_io_u16(DMA2SAD, GAME_PAK_ROM_START as u16);
    shared.write_io_u16(DMA2SAD + 2, (GAME_PAK_ROM_START >> 16) as u16);
    shared.write_io_u16(DMA2DAD, FIFO_B as u16);
    shared.write_io_u16(DMA2DAD + 2, (FIFO_B >> 16) as u16);
    shared.write_io_u16(DMA2CNT, 0);
    shared.write_io_u16(DMA2CNT + 2, 0xb600);
    shared.write_io_u16(IO_START + 0x0104, 0xffff);
    shared.write_io_u16(IO_START + 0x0106, 0x0080);
    shared.write_timer_registers_from_io(IO_START + 0x0104, 4);

    shared.advance_timers(1);

    let mut samples = [0; 2];
    shared.fill_audio_samples(&mut samples);
    assert_eq!(samples, [0x4000, 0x4000]);
    assert_eq!(
        shared.read_io_u16(DMA2SAD),
        (GAME_PAK_ROM_START + 16) as u16
    );
}

#[test]
fn new_shared_memory_has_identity_affine_matrix() {
    let shared = test_shared_memory(&[1, 2, 3]);
    assert_eq!(shared.read_io_u16(BG2PA), 0x0100);
    assert_eq!(shared.read_io_u16(BG2PD), 0x0100);
    assert_eq!(shared.rom, vec![1, 2, 3]);
    assert_eq!(shared.hblank_latch_vcount, 0xffff);
    assert_eq!(shared.completed_frame_seq(), 0);
    assert!(!shared.hblank_irq_pending());
}

#[test]
fn entering_vblank_sets_flag_and_requests_enabled_interrupt() {
    let mut shared = test_shared_memory(&[]);
    shared.write_io_u16(DISPSTAT, 0x0008 | 0x0002);
    shared.write_io_u16(IE, 0x0001);
    shared.write_io_u16(IME, 1);
    shared.set_vcount(160);
    assert_eq!(shared.read_io_u16(VCOUNT), 160);
    assert_eq!(shared.read_io_u16(DISPSTAT), 0x0008 | 0x0001);
    assert_eq!(shared.read_io_u16(IF) & 1, 1);
    assert_eq!(shared.take_irq_levels(), vec![true, false, true]);
    assert!(shared.take_irq_levels().is_empty());

    // Staying in VBlank requests nothing new.
    shared.set_vcount(161);
    assert!(shared.take_irq_levels().is_empty());

    shared.set_vcount(0);
    assert_eq!(shared.read_io_u16(DISPSTAT), 0x0008);
}

#[test]
fn visible_lines_latch_scroll_offsets() {
    let mut shared = test_shared_memory(&[]);
    shared.write_io_u16(BG1HOFS, 0x0123);
    shared.write_io_u16(BG1VOFS, 0x0045);
    shared.set_vcount(5);
    assert_eq!(shared.raster.hofs[160 + 5], 0x0123);
    assert_eq!(shared.raster.vofs[160 + 5], 0x0045);
    shared.set_vcount(160);
    assert_eq!(shared.raster.completed_hofs[160 + 5], 0x0123);
    assert_eq!(shared.raster.completed_vofs[160 + 5], 0x0045);
}

#[test]
fn io_writes_acknowledge_interrupts_and_keep_dispstat_status() {
    let mut shared = test_shared_memory(&[]);
    shared.write_io_u16(IF, 0x0007);
    shared.write_io_u16(DISPSTAT, 0x0005);
    let data = [0x05, 0x00, 0, 0, 0, 0, 0, 0];
    shared.mirror_io_write(IF, 2, &data);
    assert_eq!(shared.read_io_u16(IF), 0x0002);

    let data = [0xff, 0xab, 0, 0, 0, 0, 0, 0];
    shared.mirror_io_write(DISPSTAT, 2, &data);
    assert_eq!(shared.read_io_u16(DISPSTAT), 0x0005 | 0xab38);

    let data = [0x34, 0x12, 0, 0, 0, 0, 0, 0];
    shared.mirror_io_write(KEYINPUT, 2, &data);
    assert_eq!(shared.read_io_u16(KEYINPUT), 0x1234);
}

#[test]
fn io_writes_feed_and_reset_sound_fifos() {
    let mut shared = test_shared_memory(&[]);
    let data = [1, 2, 3, 4, 5, 6, 7, 8];
    shared.mirror_io_write(FIFO_A, 4, &data);
    shared.mirror_io_write(FIFO_B, 2, &data);
    assert_eq!(shared.audio.fifo_a, vec![1i8, 2, 3, 4]);
    assert_eq!(shared.audio.fifo_b, vec![1i8, 2]);

    let reset_a = [0x00, 0x08, 0, 0, 0, 0, 0, 0];
    shared.mirror_io_write(SOUNDCNT_H, 2, &reset_a);
    assert!(shared.audio.fifo_a.is_empty());
    assert_eq!(shared.audio.fifo_b.len(), 2);

    for _ in 0..20 {
        shared.mirror_io_write(FIFO_A, 4, &data);
    }
    assert_eq!(shared.audio.fifo_a.len(), 32);
}

#[test]
fn entering_hblank_hands_a_numbered_request_to_the_guest() {
    let mut shared = test_shared_memory(&[]);
    shared.write_io_u16(DISPCNT, 0x0100);
    shared.write_io_u16(DISPSTAT, 0x0010);
    shared.write_io_u16(VCOUNT, 7);
    assert_eq!(shared.enter_hblank(), Some(1));
    assert_eq!(shared.read_io_u16(DISPSTAT), 0x0012);
    assert_eq!(shared.read_io_u16(IF) & 2, 2);
    assert_eq!(shared.read_fast_hblank_u32(FAST_HBLANK_KIND_OFFSET), 1);
    assert_eq!(shared.read_fast_hblank_u64(FAST_HBLANK_REQUESTED_SEQ_OFFSET), 1);
    assert_eq!(shared.read_fast_hblank_u16(FAST_HBLANK_VCOUNT_OFFSET), 7);
    assert_eq!(shared.read_shadow_io_u16(VCOUNT), 7);
    assert_eq!(shared.read_shadow_io_u16(DISPSTAT), 0x0012);
    assert_eq!(shared.take_irq_levels(), vec![false, true]);

    // Already in HBlank: nothing new.
    assert_eq!(shared.enter_hblank(), None);

    // A still-pending request is not repeated.
    shared.write_io_u16(DISPSTAT, 0x0010);
    assert_eq!(shared.enter_hblank(), None);
}

#[test]
fn hblank_completion_through_mmio_takes_shadow_registers() {
    let mut shared = test_shared_memory(&[]);
    shared.write_io_u16(DISPCNT, 0x0100);
    shared.write_io_u16(DISPSTAT, 0x0010);
    shared.write_io_u16(VCOUNT, 7);
    let seq = shared.enter_hblank().expect("request");
    shared.write_shadow_io_u16(BG1HOFS, 0x0031);
    shared.write_shadow_io_u16(IME, 1);
    shared.finish_fast_hblank();
    assert_eq!(shared.read_io_u16(IF) & 2, 0);
    assert_eq!(shared.read_io_u16(IME), 1);
    assert_eq!(shared.read_io_u16(BG1HOFS), 0x0031);
    assert_eq!(shared.raster.hofs[160 + 8], 0x0031);
    assert!(shared.bghofs_scanline_active[1]);
    assert!(shared.poll_hblank_complete(seq));
    assert_eq!(shared.read_fast_hblank_u32(FAST_HBLANK_KIND_OFFSET), 0);
    assert!(shared.needs_scanline_renderer());
}

#[test]
fn mmio_exits_are_served_from_the_io_page() {
    let mut shared = test_shared_memory(&[]);
    let mut write = KvmMmio {
        phys_addr: u64::from(MOSAIC),
        data: [0x21, 0x43, 0, 0, 0, 0, 0, 0],
        len: 2,
        is_write: 1,
    };
    handle_mmio(&mut shared, &mut write);
    assert_eq!(shared.read_io_u16(MOSAIC), 0x4321);

    let mut read = KvmMmio { phys_addr: u64::from(MOSAIC), data: [9; 8], len: 2, is_write: 0 };
    handle_mmio(&mut shared, &mut read);
    assert_eq!(read.data, [0x21, 0x43, 0, 0, 0, 0, 0, 0]);

    let mut outside = KvmMmio { phys_addr: 0x0900_0000, data: [9; 8], len: 4, is_write: 0 };
    handle_mmio(&mut shared, &mut outside);
    assert_eq!(outside.data, [0; 8]);

    let mut data = [7u8; 8];
    shared.copy_io_read(MOSAIC, 1, &mut data);
    assert_eq!(data, [0x21, 0, 0, 0, 0, 0, 0, 0]);
}

#[test]
fn mmio_timer_writes_start_timers() {
    let mut shared = test_shared_memory(&[]);
    let mut write = KvmMmio {
        phys_addr: u64::from(IO_START + 0x0100),
        data: [0xfe, 0xff, 0x80, 0x00, 0, 0, 0, 0],
        len: 4,
        is_write: 1,
    };
    handle_mmio(&mut shared, &mut write);
    assert_eq!(shared.timers.timers[0].reload, 0xfffe);
    assert_eq!(shared.timers.timers[0].control, 0x0080);
    assert_eq!(shared.timers.timers[0].counter, 0xfffe);
    shared.tick_scanline();
    assert_eq!(shared.timers.timers[0].counter, 0xfffe);
    assert_eq!(shared.audio.pcm.len(), 2 * 616);
}

#[test]
fn scanlines_and_frames_are_drawn_and_published() {
    let mut shared = test_shared_memory(&[]);
    shared.palette[0] = 0x1f;
    let red = bgr555_to_argb8888(0x001f);
    shared.render_scanline(3);
    assert_eq!(shared.frame_buffers.work[3 * 240], red);
    assert_eq!(shared.frame_buffers.work[2 * 240], 0);
    shared.render_scanline(160);
    assert!(shared.supports_scanline_renderer());

    shared.publish_completed_frame();
    assert_eq!(shared.completed_frame_seq(), 1);
    let snapshot = shared.latest_frame_snapshot();
    assert_eq!(snapshot.seq, 1);
    assert_eq!(snapshot.pixels[3 * 240 + 17], red);

    let frame = shared.render_frame();
    assert_eq!(frame.len(), 240 * 160);
    assert!(frame.iter().all(|&p| p == red));
    assert_eq!(shared.take_video_perf_snapshot().frames, 1);
    assert_eq!(shared.take_video_perf_snapshot().frames, 0);
}

#[test]
fn windows_blending_and_visible_objects_need_the_frame_renderer() {
    let mut shared = test_shared_memory(&[]);
    shared.write_io_u16(DISPCNT, 0x2000);
    assert!(!shared.supports_scanline_renderer());
    shared.write_io_u16(DISPCNT, 0x1000);
    assert!(!shared.supports_scanline_renderer());
    shared.oam[1] = 0x02;
    for obj in 1..128 {
        shared.oam[obj * 8 + 1] = 0x02;
    }
    assert!(shared.supports_scanline_renderer());
    shared.write_io_u16(DISPCNT, 0x0100);
    shared.write_io_u16(0x0400_0008, 0x0040);
    assert!(!shared.supports_scanline_renderer());
    assert!(!shared.needs_scanline_renderer());
}

#[test]
fn performance_counters_classify_mmio_exits() {
    let mut shared = test_shared_memory(&[]);
    shared.record_kvm_mmio_exit(IF, true, false);
    shared.record_kvm_mmio_exit(BG1HOFS, true, false);
    shared.record_kvm_mmio_exit(VCOUNT, false, false);
    shared.record_kvm_mmio_exit(0x0400_03fc, false, true);
    shared.record_kvm_mmio_exit(0x0900_0000, false, false);
    shared.record_hblank_wait(30, false);
    shared.record_hblank_wait(10, true);
    shared.record_sdl_present(5);
    let perf = shared.take_video_perf_snapshot();
    assert_eq!(perf.kvm_mmio_exits, 5);
    assert_eq!(perf.kvm_mmio_fast_exit, 1);
    assert_eq!(perf.kvm_mmio_io_writes, 2);
    assert_eq!(perf.kvm_mmio_io_reads, 1);
    assert_eq!(perf.kvm_mmio_io_if, 1);
    assert_eq!(perf.kvm_mmio_io_bg_hofs, 1);
    assert_eq!(perf.kvm_mmio_io_other, 1);
    assert_eq!(perf.hblank_wait_us, 40);
    assert_eq!(perf.hblank_wait_max_us, 30);
    assert_eq!(perf.hblank_wait_timeouts, 1);
    assert_eq!(perf.sdl_present_us, 5);
}

#[test]
fn debug_state_summarizes_bg1_raster() {
    let mut shared = test_shared_memory(&[]);
    for y in 0..160 {
        shared.raster.completed_hofs[160 + y] = (y as u16) + 3;
    }
    shared.vram[29 * 0x800] = 1;
    shared.vram[29 * 0x800 + 7] = 1;
    let state = shared.debug_video_state();
    assert_eq!(state.bg1_raster_min, 3);
    assert_eq!(state.bg1_raster_max, 162);
    assert_eq!(state.bg1_raster_sample, 83);
    assert_eq!(state.bg1_raster_checksum, (0..160u32).map(|y| y + 3).sum::<u32>());
    assert_eq!(state.bg0_map_nonzero, 2);
}

#[test]
fn kvm_request_numbers_pack_direction_type_number_and_size() {
    assert_eq!(io(KVMIO, 0x00), KVM_GET_API_VERSION);
    assert_eq!(io(KVMIO, 0x01), KVM_CREATE_VM);
    assert_eq!(io(KVMIO, 0x04), KVM_GET_VCPU_MMAP_SIZE);
    assert_eq!(io(KVMIO, 0x41), KVM_CREATE_VCPU);
    assert_eq!(io(KVMIO, 0x80), KVM_RUN);
    assert_eq!(iow::<KvmUserspaceMemoryRegion>(KVMIO, 0x46), KVM_SET_USER_MEMORY_REGION);
    assert_eq!(iow::<KvmOneReg>(KVMIO, 0xac), KVM_SET_ONE_REG);
    assert_eq!(iow::<KvmVcpuInit>(KVMIO, 0xae), KVM_ARM_VCPU_INIT);
    assert_eq!(ior::<KvmVcpuInit>(KVMIO, 0xaf), KVM_ARM_PREFERRED_TARGET);
    assert_eq!(iow::<KvmIrqLevel>(KVMIO, 0x61), KVM_IRQ_LINE);
    assert_eq!(ioc(3, 0x12, 0x34, 0x56), 0xc056_1234);
    assert_eq!(reg_arm64_core_pc(), 0x6030_0000_0010_0040);
}

#[test]
fn publishing_twice_gives_both_buffers_back() {
    let mut shared = test_shared_memory(&[]);
    shared.frame_buffers.work[0] = 7;
    shared.frame_buffers.completed[0] = 9;
    shared.publish_completed_frame();
    assert_eq!(shared.frame_buffers.completed[0], 7);
    assert_eq!(shared.frame_buffers.work[0], 9);
    shared.publish_completed_frame();
    assert_eq!(shared.frame_buffers.work[0], 7);
    assert_eq!(shared.frame_buffers.completed[0], 9);
    assert_eq!(shared.completed_frame_seq(), 2);
}

#[test]
fn interrupt_line_follows_guest_writes() {
    let mut shared = test_shared_memory(&[]);
    shared.write_io_u16(IF, 0x0001);
    shared.mirror_io_write(IE, 2, &[1, 0, 0, 0, 0, 0, 0, 0]);
    assert!(shared.take_irq_levels().is_empty());
    shared.mirror_io_write(IME, 2, &[1, 0, 0, 0, 0, 0, 0, 0]);
    assert_eq!(shared.take_irq_levels(), vec![true]);
    assert!(shared.interrupt_line.asserted);
    shared.mirror_io_write(IF, 2, &[1, 0, 0, 0, 0, 0, 0, 0]);
    assert_eq!(shared.take_irq_levels(), vec![false]);
    assert_eq!(shared.read_io_u16(IF), 0);
}

#[test]
fn exits_are_served_or_end_the_run() {
    let mut shared = test_shared_memory(&[]);
    let mut mmio = KvmMmio { phys_addr: u64::from(MOSAIC), data: [5, 0, 0, 0, 0, 0, 0, 0], len: 2, is_write: 1 };
    assert_eq!(handle_exit(&mut shared, 6, &mut mmio), Ok(()));
    assert_eq!(shared.read_io_u16(MOSAIC), 5);
    assert_eq!(
        handle_exit(&mut shared, 17, &mut mmio),
        Err("KVM stopped with exit reason 17".to_string())
    );
    assert_eq!(
        handle_exit(&mut shared, 8, &mut mmio),
        Err("KVM stopped with exit reason 8".to_string())
    );
    assert_eq!(handle_exit(&mut shared, 2, &mut mmio), Ok(()));
}

#[test]
fn scanline_clock_draws_lines_and_publishes_at_vblank() {
    let mut shared = test_shared_memory(&[]);
    shared.palette[0] = 0x1f;
    shared.bghofs_scanline_active[0] = true;
    let needs = begin_scanline(&mut shared, 159);
    assert!(needs);
    assert_eq!(shared.read_io_u16(VCOUNT), 159);
    assert_eq!(shared.frame_buffers.work[159 * 240], bgr555_to_argb8888(0x1f));
    assert_eq!(hblank_point(&mut shared), None);
    assert_eq!(end_scanline(&mut shared, 159, needs), 160);
    assert_eq!(shared.completed_frame_seq(), 1);
    assert_eq!(end_scanline(&mut shared, 227, needs), 0);
    assert_eq!(end_scanline(&mut shared, 10, needs), 11);
    assert_eq!(shared.completed_frame_seq(), 1);
}

/// Timer 1 overflowing every cycle feeds FIFO B through DMA2 from `source`.
fn sound_dma_from(source: u32, rom: &[u8]) -> KvmSharedMemory {
    let mut shared = test_shared_memory(rom);
    shared.write_io_u16(SOUNDCNT_H, 0x7000);
    shared.write_io_u16(DMA2SAD, source as u16);
    shared.write_io_u16(DMA2SAD + 2, (source >> 16) as u16);
    shared.write_io_u16(DMA2DAD, FIFO_B as u16);
    shared.write_io_u16(DMA2DAD + 2, (FIFO_B >> 16) as u16);
    shared.write_io_u16(DMA2CNT, 0);
    shared.write_io_u16(DMA2CNT + 2, 0xb600);
    shared.write_io_u16(IO_START + 0x0104, 0xffff);
    shared.write_io_u16(IO_START + 0x0106, 0x0080);
    shared.write_timer_registers_from_io(IO_START + 0x0104, 4);
    shared
}

#[test]
fn checked_line_start_reports_a_sound_dma_past_the_end_of_ewram() {
    let mut shared = sound_dma_from(0x0203_ffff, &[]);
    let result = begin_scanline_checked(&mut shared, 5);
    assert_eq!(result, Err("sound DMA reads past the end of guest memory".to_string()));
    assert_eq!(shared.read_io_u16(VCOUNT), 5);
}

#[test]
fn checked_line_start_agrees_with_the_plain_one() {
    let rom = [0x40, 0xc0, 0x20, 0xe0, 0x10, 0xf0, 0x08, 0xf8];
    let mut a = sound_dma_from(GAME_PAK_ROM_START, &rom);
    let mut b = sound_dma_from(GAME_PAK_ROM_START, &rom);
    let needs = begin_scanline(&mut a, 7);
    assert_eq!(begin_scanline_checked(&mut b, 7), Ok(needs));
    assert_eq!(a.read_io_u16(VCOUNT), b.read_io_u16(VCOUNT));
    assert_eq!(a.read_io_u16(DMA2SAD), b.read_io_u16(DMA2SAD));
    let mut samples_a = [0; 8];
    let mut samples_b = [0; 8];
    a.fill_audio_samples(&mut samples_a);
    b.fill_audio_samples(&mut samples_b);
    assert_eq!(samples_a, samples_b);
    assert_ne!(a.read_io_u16(DMA2SAD), GAME_PAK_ROM_START as u16);
}

#[test]
fn checked_line_start_with_rom_advances_the_sound_dma_source() {
    let rom = vec![0u8; 0x1000];
    let mut shared = sound_dma_from(GAME_PAK_ROM_START, &rom);
    assert!(begin_scanline_checked(&mut shared, 0).is_ok());
    assert_eq!(shared.read_io_u16(VCOUNT), 0);
}
