//! The decisions of the scanline clock that drives the shared I/O state:
//! what happens at the start of a line, at its HBlank point, and at its
//! end. The caller paces the lines and waits for the guest's HBlank
//! handler.
use vstd::prelude::*;

use crate::gba::ppu::{HEIGHT, TOTAL_SCANLINES};
use crate::kvm::shared_memory::{
    rom_fits, spec_advance_timers, spec_advance_timers_faults, spec_enter_hblank, spec_line_rendered,
    spec_needs_scanline_renderer, spec_publish_completed_frame, spec_set_vcount, io16, KvmSharedMemory,
    SharedState, IRQ_HBLANK, SCANLINE_CYCLES,
};
use crate::gba::memory_map::{GAME_PAK_ROM_START, IF};

verus! {

/// The start of line `vcount`: VCOUNT moves there, a scanline of timer
/// time passes, and when frames are drawn line by line (as decided before
/// VCOUNT moved) a visible line is drawn.
pub open spec fn spec_begin_scanline(s0: SharedState, vcount: u16, s: SharedState) -> bool {
    let needs = spec_needs_scanline_renderer(s0);
    let s2 = spec_advance_timers(spec_set_vcount(s0, vcount), SCANLINE_CYCLES);
    if (vcount as int) < HEIGHT && needs { spec_line_rendered(s2, s, vcount as int) } else { s == s2 }
}

/// Starts line `vcount` (see `spec_begin_scanline`); returns whether frames
/// are drawn line by line.
pub fn begin_scanline(shared: &mut KvmSharedMemory, vcount: u16) -> (needs: bool)
    requires
        old(shared).wf(),
        rom_fits(old(shared).state()),
        !spec_advance_timers_faults(spec_set_vcount(old(shared).state(), vcount), SCANLINE_CYCLES),
    ensures
        final(shared).wf(),
        needs == spec_needs_scanline_renderer(old(shared).state()),
        spec_begin_scanline(old(shared).state(), vcount, final(shared).state()),
{
    let needs = shared.needs_scanline_renderer();
    shared.set_vcount(vcount);
    shared.tick_scanline();
    if (vcount as usize) < HEIGHT && needs {
        shared.render_scanline(vcount as usize);
    }
    needs
}

/// The error of a ROM too large to map above the Game Pak base.
pub open spec fn spec_rom_too_large_message() -> Seq<char> {
    "ROM does not fit the guest address space"@
}

/// The error of a timer-driven sound DMA that reads past the end of a
/// guest RAM area.
pub open spec fn spec_sound_dma_fault_message() -> Seq<char> {
    "sound DMA reads past the end of guest memory"@
}

/// As `begin_scanline`, for every state: a ROM too large for the address
/// space is refused before anything changes, and a sound DMA started by a
/// timer overflow that reads past the end of a guest RAM area stops the
/// line with an error (the state is then well formed but otherwise left
/// as the DMA found it).
pub fn begin_scanline_checked(shared: &mut KvmSharedMemory, vcount: u16) -> (r: Result<bool, String>)
    requires
        old(shared).wf(),
    ensures
        final(shared).wf(),
        match r {
            Ok(needs) => {
                &&& rom_fits(old(shared).state())
                &&& !spec_advance_timers_faults(spec_set_vcount(old(shared).state(), vcount), SCANLINE_CYCLES)
                &&& needs == spec_needs_scanline_renderer(old(shared).state())
                &&& spec_begin_scanline(old(shared).state(), vcount, final(shared).state())
            },
            Err(e) => if !rom_fits(old(shared).state()) {
                e@ == spec_rom_too_large_message() && final(shared).state() == old(shared).state()
            } else {
                &&& spec_advance_timers_faults(spec_set_vcount(old(shared).state(), vcount), SCANLINE_CYCLES)
                &&& e@ == spec_sound_dma_fault_message()
            },
        },
{
    let rom_len = shared.rom.len() as u32;
    if rom_len > u32::MAX - GAME_PAK_ROM_START {
        return Err(String::from_str("ROM does not fit the guest address space"));
    }
    let needs = shared.needs_scanline_renderer();
    shared.set_vcount(vcount);
    if !shared.try_advance_timers(SCANLINE_CYCLES) {
        return Err(String::from_str("sound DMA reads past the end of guest memory"));
    }
    if (vcount as usize) < HEIGHT && needs {
        shared.render_scanline(vcount as usize);
    }
    Ok(needs)
}

/// The HBlank point of a line: unless an HBlank interrupt is still
/// pending, HBlank is entered; returns the request handed to the guest,
/// which the caller then waits for.
pub fn hblank_point(shared: &mut KvmSharedMemory) -> (r: Option<u64>)
    requires
        old(shared).wf(),
        old(shared).hblank_requested_seq < u64::MAX,
    ensures
        final(shared).wf(),
        io16(old(shared).io@, IF) & IRQ_HBLANK != 0 ==> r is None && final(shared).state() == old(shared).state(),
        io16(old(shared).io@, IF) & IRQ_HBLANK == 0 ==> (final(shared).state(), r) == spec_enter_hblank(old(shared).state()),
{
    if shared.hblank_irq_pending() {
        return None;
    }
    shared.enter_hblank()
}

/// The line after `vcount`, wrapping after the last of the 228 lines.
pub open spec fn spec_next_line(vcount: u16) -> u16 {
    if vcount + 1 >= TOTAL_SCANLINES { 0 } else { (vcount + 1) as u16 }
}

/// The end of line `vcount`: when the last visible line is done and frames
/// are drawn line by line, the frame is published; returns the next line.
pub fn end_scanline(shared: &mut KvmSharedMemory, vcount: u16, needs: bool) -> (next: u16)
    requires
        old(shared).wf(),
        vcount < TOTAL_SCANLINES,
    ensures
        final(shared).wf(),
        next == spec_next_line(vcount),
        final(shared).state() == (if vcount + 1 == HEIGHT && needs {
            spec_publish_completed_frame(old(shared).state())
        } else {
            old(shared).state()
        }),
{
    let next = vcount + 1;
    if next as usize == HEIGHT && needs {
        shared.publish_completed_frame();
    }
    if next >= TOTAL_SCANLINES { 0 } else { next }
}

} // verus!
