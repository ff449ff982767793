use std::collections::VecDeque;

use kgba::kvm::shared_memory::{
    dma_addr_step, dma_channel_for_cnt_high, hblank_target_line, interrupt_asserted,
    io_register_write, push_pcm_sample, IoRegisterWrite, AUDIO_PCM_CAPACITY,
};

#[test]
fn io_register_write_extracts_partial_halfword_write() {
    let data = [0x34, 0x12, 0, 0, 0, 0, 0, 0];

    assert_eq!(
        io_register_write(0x0400_0202, 0x0400_0202, 2, &data),
        Some(IoRegisterWrite {
            mask: 0xffff,
            value: 0x1234
        })
    );
    assert_eq!(
        io_register_write(0x0400_0202, 0x0400_0203, 1, &data),
        Some(IoRegisterWrite {
            mask: 0xff00,
            value: 0x3400
        })
    );
    assert_eq!(io_register_write(0x0400_0202, 0x0400_0204, 2, &data), None);
}

#[test]
fn io_register_write_finds_register_inside_wider_access() {
    let data = [0x11, 0x22, 0x33, 0x44, 0, 0, 0, 0];
    assert_eq!(
        io_register_write(0x0400_0202, 0x0400_0200, 4, &data),
        Some(IoRegisterWrite {
            mask: 0xffff,
            value: 0x4433
        })
    );
    assert_eq!(
        io_register_write(0x0400_0202, 0x0400_0202, 1, &data),
        Some(IoRegisterWrite {
            mask: 0x00ff,
            value: 0x0011
        })
    );
}

#[test]
fn dma_control_registers_map_to_channels() {
    assert_eq!(dma_channel_for_cnt_high(0x0400_00ba), Some(0));
    assert_eq!(dma_channel_for_cnt_high(0x0400_00c6), Some(1));
    assert_eq!(dma_channel_for_cnt_high(0x0400_00de), Some(3));
    assert_eq!(dma_channel_for_cnt_high(0x0400_00bc), None);
    assert_eq!(dma_channel_for_cnt_high(0x0400_00e0), None);
}

#[test]
fn dma_address_steps() {
    assert_eq!(dma_addr_step(0, 4), 4);
    assert_eq!(dma_addr_step(1, 4), -4);
    assert_eq!(dma_addr_step(2, 2), 0);
    assert_eq!(dma_addr_step(3, 2), 2);
}

#[test]
fn hblank_targets_next_visible_line() {
    assert_eq!(hblank_target_line(0), Some(1));
    assert_eq!(hblank_target_line(7), Some(8));
    assert_eq!(hblank_target_line(158), Some(159));
    assert_eq!(hblank_target_line(159), None);
    assert_eq!(hblank_target_line(200), None);
    assert_eq!(hblank_target_line(227), Some(0));
}

#[test]
fn interrupt_line_needs_master_enable_and_enabled_request() {
    assert!(interrupt_asserted(0x0002, 0x0002, 1));
    assert!(!interrupt_asserted(0x0002, 0x0002, 0));
    assert!(!interrupt_asserted(0x0001, 0x0002, 1));
}

#[test]
fn pcm_queue_clamps_and_drops_oldest() {
    let mut pcm = VecDeque::new();
    push_pcm_sample(&mut pcm, 40_000);
    push_pcm_sample(&mut pcm, -40_000);
    push_pcm_sample(&mut pcm, 123);
    assert_eq!(pcm, VecDeque::from(vec![i16::MAX, i16::MIN, 123]));

    let mut full: VecDeque<i16> = (0..AUDIO_PCM_CAPACITY).map(|i| i as i16).collect();
    push_pcm_sample(&mut full, 7);
    assert_eq!(full.len(), AUDIO_PCM_CAPACITY);
    assert_eq!(full.front(), Some(&1));
    assert_eq!(full.back(), Some(&7));
}
