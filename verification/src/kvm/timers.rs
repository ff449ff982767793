//! The four GBA timers: reload and control writes, prescaled counting,
//! cascading, and overflow counts, mirrored into the I/O register area.
use vstd::prelude::*;

use crate::gba::bits::{put16, write_u16};
use crate::gba::memory_map::IO_START;

verus! {

/// Offset of TM0CNT_L within the I/O area.
pub const TIMER_IO_OFFSET: usize = 0x0100;

#[derive(Clone, Copy, Debug)]
pub struct Timer {
    pub reload: u16,
    pub counter: u16,
    pub control: u16,
    pub accumulated_cycles: u64,
}

/// Control bit 7 starts the timer.
pub open spec fn spec_enabled(t: Timer) -> bool {
    t.control & 0x0080 != 0
}

/// Control bit 2 makes the timer count overflows of the previous one.
pub open spec fn spec_cascade(t: Timer) -> bool {
    t.control & 0x0004 != 0
}

/// CPU cycles per count for prescaler setting `control & 3`.
pub open spec fn spec_period(control: u16) -> int {
    let p = control & 0x3;
    if p == 0 { 1 } else if p == 1 { 64 } else if p == 2 { 256 } else { 1024 }
}

/// One count: the counter increments, and on passing 0xffff it restarts
/// from the reload value and reports an overflow.
pub open spec fn spec_tick(counter: u16, reload: u16) -> (u16, bool) {
    if counter == 0xffff { (reload, true) } else { ((counter + 1) as u16, false) }
}

/// The counter and the number of overflows after `ticks` counts.
pub open spec fn spec_add_ticks(counter: u16, reload: u16, ticks: nat) -> (u16, nat)
    decreases ticks,
{
    if ticks == 0 {
        (counter, 0)
    } else {
        let (c, n) = spec_add_ticks(counter, reload, (ticks - 1) as nat);
        let (c2, overflow) = spec_tick(c, reload);
        (c2, if overflow { n + 1 } else { n })
    }
}

/// A timer counting `ticks` more times.
pub open spec fn spec_timer_add_ticks(t: Timer, ticks: nat) -> Timer {
    Timer { counter: spec_add_ticks(t.counter, t.reload, ticks).0, ..t }
}

/// A free-running timer after `cycles` CPU cycles: the cycles accumulate and
/// every full prescaler period is one count. Stopped and cascading timers
/// do not move.
pub open spec fn spec_advance_timer(t: Timer, cycles: u32) -> (Timer, nat) {
    if !spec_enabled(t) || spec_cascade(t) {
        (t, 0)
    } else {
        let total = t.accumulated_cycles + cycles;
        let ticks = (total / spec_period(t.control)) as nat;
        let (counter, overflows) = spec_add_ticks(t.counter, t.reload, ticks);
        (Timer { counter, accumulated_cycles: (total % spec_period(t.control)) as u64, ..t }, overflows)
    }
}

/// A cascading timer counting the `ticks` overflows of the previous timer;
/// other timers do not move.
pub open spec fn spec_advance_cascade_timer(t: Timer, ticks: nat) -> (Timer, nat) {
    if !spec_enabled(t) || !spec_cascade(t) {
        (t, 0)
    } else {
        let (counter, overflows) = spec_add_ticks(t.counter, t.reload, ticks);
        (Timer { counter, ..t }, overflows)
    }
}

/// Timer `i` (1..3) after `cycles`, given the overflows of timer `i - 1`.
pub open spec fn spec_advance_chained(t: Timer, cycles: u32, previous_overflows: nat) -> (Timer, nat) {
    if spec_cascade(t) { spec_advance_cascade_timer(t, previous_overflows) } else { spec_advance_timer(t, cycles) }
}

/// The I/O area with the counter of timer `i` stored in TMiCNT_L.
pub open spec fn spec_io_with_counter(io: Seq<u8>, i: int, counter: u16) -> Seq<u8> {
    put16(io, TIMER_IO_OFFSET + i * 4, counter)
}

/// The I/O area after a timer step: a timer that counted in it mirrors its
/// new counter into TMiCNT_L.
pub open spec fn spec_io_after(io: Seq<u8>, i: int, t: Timer, counted: bool) -> Seq<u8> {
    if counted { spec_io_with_counter(io, i, t.counter) } else { io }
}

/// Every timer's leftover cycles are less than its prescaler period.
pub open spec fn spec_timers_wf(ts: Seq<Timer>) -> bool {
    ts.len() == 4 && forall|i: int| 0 <= i < 4 ==> #[trigger] ts[i].accumulated_cycles < spec_period(ts[i].control)
}

/// A halfword write to timer register `addr` (TMnCNT_L or TMnCNT_H) of
/// timers `ts`, with `io` the I/O area: the low half sets the reload value;
/// the high half sets the control bits, drops leftover cycles and, when it
/// starts a stopped timer, loads the counter from the reload value and
/// mirrors it into `io`.
pub open spec fn spec_write_timer_register(ts: Seq<Timer>, io: Seq<u8>, addr: u32, value: u16) -> (Seq<Timer>, Seq<u8>) {
    let relative = addr - (IO_START + 0x0100);
    let i = relative / 4;
    let t = ts[i];
    if i >= 4 {
        (ts, io)
    } else if relative % 4 < 2 {
        (ts.update(i, Timer { reload: value, ..t }), io)
    } else {
        let started = !spec_enabled(t) && spec_enabled(Timer { control: value, ..t });
        let t2 = Timer {
            control: value,
            accumulated_cycles: 0,
            counter: if started { t.reload } else { t.counter },
            ..t
        };
        (ts.update(i, t2), if started { spec_io_with_counter(io, i, t.reload) } else { io })
    }
}

/// All four timers after `cycles` CPU cycles: the timers, their overflow
/// counts, and the I/O area with the counters of the timers that counted.
pub open spec fn spec_advance_all(ts: Seq<Timer>, io: Seq<u8>, cycles: u32) -> (Seq<Timer>, Seq<u32>, Seq<u8>) {
    let (t0, n0) = spec_advance_timer(ts[0], cycles);
    let (t1, n1) = spec_advance_chained(ts[1], cycles, n0);
    let (t2, n2) = spec_advance_chained(ts[2], cycles, n1);
    let (t3, n3) = spec_advance_chained(ts[3], cycles, n2);
    let io0 = spec_io_after(io, 0, t0, spec_enabled(ts[0]) && !spec_cascade(ts[0]));
    let io1 = spec_io_after(io0, 1, t1, spec_enabled(ts[1]));
    let io2 = spec_io_after(io1, 2, t2, spec_enabled(ts[2]));
    (seq![t0, t1, t2, t3], seq![n0 as u32, n1 as u32, n2 as u32, n3 as u32], spec_io_after(io2, 3, t3, spec_enabled(ts[3])))
}

/// Counting below the overflow point just adds to the counter, without an
/// overflow.
pub proof fn lemma_add_ticks_below_overflow(counter: u16, reload: u16, ticks: nat)
    requires
        counter + ticks <= 0xffff,
    ensures
        spec_add_ticks(counter, reload, ticks) == ((counter + ticks) as u16, 0nat),
    decreases ticks,
{
    if ticks > 0 {
        lemma_add_ticks_below_overflow(counter, reload, (ticks - 1) as nat);
    }
}

/// A timer started from its reload value overflows once every
/// `0x10000 - reload` counts, and is then back at the reload value.
pub proof fn lemma_add_ticks_period(reload: u16)
    ensures
        spec_add_ticks(reload, reload, (0x10000 - reload) as nat) == (reload, 1nat),
{
    lemma_add_ticks_below_overflow(reload, reload, (0xffff - reload) as nat);
}

/// A running timer that does not cascade, with no leftover cycles, counts
/// once per prescaler period: every cycle at prescaler 0, every 64 at 1,
/// every 256 at 2 and every 1024 at 3. Below the overflow point it moves
/// on by `cycles / period`, keeps `cycles % period` cycles and reports no
/// overflow; TMiCNT_L in the I/O area shows the new counter.
pub proof fn lemma_timer_counts_per_period(ts: Seq<Timer>, io: Seq<u8>, cycles: u32, i: int)
    requires
        spec_timers_wf(ts),
        io.len() >= 0x110,
        0 <= i < 4,
        ts[i].control & 0x0080 != 0,
        ts[i].control & 0x0004 == 0,
        ts[i].accumulated_cycles == 0,
        ({
            let p = ts[i].control & 0x3;
            let period: int = if p == 0 { 1 } else if p == 1 { 64 } else if p == 2 { 256 } else { 1024 };
            ts[i].counter + (cycles as int) / period <= 0xffff
        }),
    ensures
        ({
            let p = ts[i].control & 0x3;
            let period: int = if p == 0 { 1 } else if p == 1 { 64 } else if p == 2 { 256 } else { 1024 };
            let (ts2, n, io2) = spec_advance_all(ts, io, cycles);
            &&& ts2[i].counter == ts[i].counter + (cycles as int) / period
            &&& crate::gba::bits::le16(io2, 0x100 + 4 * i) == ts2[i].counter
            &&& ts2[i].accumulated_cycles == (cycles as int) % period
            &&& n[i] == 0
        }),
{
    let t = ts[i];
    let period = spec_period(t.control);
    lemma_add_ticks_below_overflow(t.counter, t.reload, ((cycles as int) / period) as nat);
}

/// No more overflows than counts.
proof fn lemma_add_ticks_overflows_le(counter: u16, reload: u16, ticks: nat)
    ensures
        spec_add_ticks(counter, reload, ticks).1 <= ticks,
    decreases ticks,
{
    if ticks > 0 {
        lemma_add_ticks_overflows_le(counter, reload, (ticks - 1) as nat);
    }
}

/// A free-running timer overflows fewer than 2^32 times in one step.
proof fn lemma_advance_timer_bounded(t: Timer, cycles: u32)
    requires
        t.accumulated_cycles < spec_period(t.control),
    ensures
        spec_advance_timer(t, cycles).1 < 0x1_0000_0000,
{
    if spec_enabled(t) && !spec_cascade(t) {
        let period = spec_period(t.control);
        let total = t.accumulated_cycles + cycles;
        let ticks = total / period;
        assert(ticks < 0x1_0000_0000) by (nonlinear_arith)
            requires
                period == 1 || period == 64 || period == 256 || period == 1024,
                0 <= t.accumulated_cycles < period,
                0 <= cycles < 0x1_0000_0000,
                total == t.accumulated_cycles + cycles,
                ticks == total / period;
        lemma_add_ticks_overflows_le(t.counter, t.reload, ticks as nat);
    }
}

/// A timer after a step overflows fewer than 2^32 times when the one
/// before it did.
proof fn lemma_advance_chained_bounded(t: Timer, cycles: u32, previous: nat)
    requires
        t.accumulated_cycles < spec_period(t.control),
        previous < 0x1_0000_0000,
    ensures
        spec_advance_chained(t, cycles, previous).1 < 0x1_0000_0000,
{
    lemma_advance_timer_bounded(t, cycles);
    lemma_add_ticks_overflows_le(t.counter, t.reload, previous);
}

/// Counting from `counter` exactly up past 0xffff overflows once and
/// leaves the reload value.
proof fn lemma_add_ticks_to_overflow(counter: u16, reload: u16)
    ensures
        spec_add_ticks(counter, reload, (0x10000 - counter) as nat) == (reload, 1nat),
{
    lemma_add_ticks_below_overflow(counter, reload, (0xffff - counter) as nat);
}

/// A running timer that does not cascade, with no leftover cycles, whose
/// counts in `cycles` take it exactly past 0xffff: it reports one overflow
/// and restarts from its reload value.
pub proof fn lemma_timer_overflow_reloads(ts: Seq<Timer>, io: Seq<u8>, cycles: u32, i: int)
    requires
        spec_timers_wf(ts),
        0 <= i < 4,
        ts[i].control & 0x0080 != 0,
        ts[i].control & 0x0004 == 0,
        ts[i].accumulated_cycles == 0,
        ({
            let p = ts[i].control & 0x3;
            let period: int = if p == 0 { 1 } else if p == 1 { 64 } else if p == 2 { 256 } else { 1024 };
            ts[i].counter + (cycles as int) / period == 0x10000
        }),
    ensures
        ({
            let (ts2, n, _io2) = spec_advance_all(ts, io, cycles);
            &&& ts2[i].counter == ts[i].reload
            &&& n[i] == 1
        }),
{
    lemma_add_ticks_to_overflow(ts[i].counter, ts[i].reload);
}

/// A running cascading timer (1 to 3) counts the overflows of the timer
/// before it in the same step: below its overflow point it moves on by
/// exactly that many and reports none.
pub proof fn lemma_timer_cascade_counts(ts: Seq<Timer>, io: Seq<u8>, cycles: u32, i: int)
    requires
        spec_timers_wf(ts),
        1 <= i < 4,
        ts[i].control & 0x0080 != 0,
        ts[i].control & 0x0004 != 0,
        ts[i].counter + spec_advance_all(ts, io, cycles).1[i - 1] <= 0xffff,
    ensures
        ({
            let (ts2, n, _io2) = spec_advance_all(ts, io, cycles);
            &&& ts2[i].counter == ts[i].counter + n[i - 1]
            &&& n[i] == 0
        }),
{
    let (ts2, n, _io2) = spec_advance_all(ts, io, cycles);
    let (t0, n0) = spec_advance_timer(ts[0], cycles);
    let (t1, n1) = spec_advance_chained(ts[1], cycles, n0);
    let (t2, n2) = spec_advance_chained(ts[2], cycles, n1);
    lemma_advance_timer_bounded(ts[0], cycles);
    lemma_advance_chained_bounded(ts[1], cycles, n0);
    lemma_advance_chained_bounded(ts[2], cycles, n1);
    assert(n[0] == n0 && n[1] == n1 && n[2] == n2);
    let prev: nat = if i == 1 { n0 } else if i == 2 { n1 } else { n2 };
    lemma_add_ticks_below_overflow(ts[i].counter, ts[i].reload, prev);
}

#[derive(Debug)]
pub struct Timers {
    pub timers: [Timer; 4],
}

impl Timers {
    /// Every timer's leftover cycles are less than its prescaler period.
    pub open spec fn wf(&self) -> bool {
        spec_timers_wf(self.timers@)
    }

    pub fn new() -> (r: Self)
        ensures
            r.wf(),
            forall|i: int| 0 <= i < 4 ==> #[trigger] r.timers@[i]
                == (Timer { reload: 0, counter: 0, control: 0, accumulated_cycles: 0 }),
    {
        let t = Timer { reload: 0, counter: 0, control: 0, accumulated_cycles: 0 };
        Timers { timers: [t, t, t, t] }
    }

    /// A halfword write to timer register `addr` (TMnCNT_L or TMnCNT_H): the
    /// low half sets the reload value; the high half sets the control bits,
    /// drops leftover cycles and, when it starts a stopped timer, loads the
    /// counter from the reload value and mirrors it into `io`.
    pub fn write_register(&mut self, addr: u32, value: u16, io: &mut Vec<u8>)
        requires
            addr >= IO_START + 0x0100,
            old(io)@.len() >= 0x0110,
            old(self).wf(),
        ensures
            final(self).wf(),
            (final(self).timers@, final(io)@) == spec_write_timer_register(old(self).timers@, old(io)@, addr, value),
    {
        let relative = addr - (IO_START + 0x0100);
        let timer_index = (relative / 4) as usize;
        if timer_index >= 4 {
            return;
        }
        if relative % 4 < 2 {
            self.timers[timer_index].reload = value;
        } else {
            let was_enabled = self.timers[timer_index].control & 0x0080 != 0;
            self.timers[timer_index].control = value;
            self.timers[timer_index].accumulated_cycles = 0;
            if !was_enabled && self.timers[timer_index].control & 0x0080 != 0 {
                self.timers[timer_index].counter = self.timers[timer_index].reload;
                write_timer_counter(io, timer_index, self.timers[timer_index].counter);
            }
        }
    }

    /// Advances all timers by `cycles` CPU cycles and returns the number of
    /// overflows of each; a cascading timer counts the overflows of the one
    /// before it.
    pub fn advance(&mut self, cycles: u32, io: &mut Vec<u8>) -> (r: [u32; 4])
        requires
            old(self).wf(),
            old(io)@.len() >= 0x0110,
        ensures
            final(self).wf(),
            final(io)@.len() == old(io)@.len(),
            spec_advance_all(old(self).timers@, old(io)@, cycles) == (final(self).timers@, r@, final(io)@),
    {
        let overflow0 = self.advance_timer(0, cycles, io);
        let overflow1 = if self.timers[1].control & 0x0004 != 0 {
            self.advance_cascade_timer(1, overflow0, io)
        } else {
            self.advance_timer(1, cycles, io)
        };
        let overflow2 = if self.timers[2].control & 0x0004 != 0 {
            self.advance_cascade_timer(2, overflow1, io)
        } else {
            self.advance_timer(2, cycles, io)
        };
        let overflow3 = if self.timers[3].control & 0x0004 != 0 {
            self.advance_cascade_timer(3, overflow2, io)
        } else {
            self.advance_timer(3, cycles, io)
        };
        let r = [overflow0, overflow1, overflow2, overflow3];
        assert(self.timers@ =~= seq![self.timers@[0], self.timers@[1], self.timers@[2], self.timers@[3]]);
        assert(r@ =~= seq![overflow0, overflow1, overflow2, overflow3]);
        r
    }

    fn advance_timer(&mut self, timer_index: usize, cycles: u32, io: &mut Vec<u8>) -> (r: u32)
        requires
            timer_index < 4,
            old(self).wf(),
            old(io)@.len() >= 0x0110,
        ensures
            final(self).wf(),
            final(io)@.len() == old(io)@.len(),
            ({
                let t0 = old(self).timers@[timer_index as int];
                let (t, n) = spec_advance_timer(t0, cycles);
                &&& final(self).timers@ == old(self).timers@.update(timer_index as int, t) && r == n
                &&& final(io)@ == spec_io_after(old(io)@, timer_index as int, t, spec_enabled(t0) && !spec_cascade(t0))
            }),
    {
        let timer = self.timers[timer_index];
        if timer.control & 0x0080 == 0 || timer.control & 0x0004 != 0 {
            return 0;
        }
        let period = period_cycles(timer.control);
        assert(self.timers@[timer_index as int].accumulated_cycles < spec_period(timer.control));
        let total = timer.accumulated_cycles + cycles as u64;
        proof { lemma_ticks_fit(timer.accumulated_cycles as int, cycles as int, period as int); }
        let ticks = (total / period as u64) as u32;
        self.timers[timer_index].accumulated_cycles = total % period as u64;
        self.add_ticks(timer_index, ticks, io)
    }

    fn advance_cascade_timer(&mut self, timer_index: usize, ticks: u32, io: &mut Vec<u8>) -> (r: u32)
        requires
            timer_index < 4,
            old(self).wf(),
            old(io)@.len() >= 0x0110,
        ensures
            final(self).wf(),
            final(io)@.len() == old(io)@.len(),
            ({
                let t0 = old(self).timers@[timer_index as int];
                let (t, n) = spec_advance_cascade_timer(t0, ticks as nat);
                &&& final(self).timers@ == old(self).timers@.update(timer_index as int, t) && r == n
                &&& final(io)@ == spec_io_after(old(io)@, timer_index as int, t, spec_enabled(t0) && spec_cascade(t0))
            }),
    {
        let timer = self.timers[timer_index];
        if timer.control & 0x0080 == 0 || timer.control & 0x0004 == 0 {
            return 0;
        }
        self.add_ticks(timer_index, ticks, io)
    }

    /// Counts timer `timer_index` up `ticks` times, mirrors the counter into
    /// `io`, and returns the number of overflows.
    fn add_ticks(&mut self, timer_index: usize, ticks: u32, io: &mut Vec<u8>) -> (r: u32)
        requires
            timer_index < 4,
            old(self).wf(),
            old(io)@.len() >= 0x0110,
        ensures
            final(self).wf(),
            final(io)@.len() == old(io)@.len(),
            ({
                let t = old(self).timers@[timer_index as int];
                let (c, n) = spec_add_ticks(t.counter, t.reload, ticks as nat);
                &&& final(self).timers@ == old(self).timers@.update(timer_index as int, Timer { counter: c, ..t })
                &&& r == n
                &&& final(io)@ == spec_io_with_counter(old(io)@, timer_index as int, c)
            }),
    {
        let ghost t0 = self.timers@[timer_index as int];
        let ghost timers0 = self.timers@;
        let mut overflows: u32 = 0;
        let mut k: u32 = 0;
        while k < ticks
            invariant
                timer_index < 4,
                k <= ticks,
                timers0.len() == 4,
                t0 == timers0[timer_index as int],
                self.timers@ == timers0.update(timer_index as int,
                    Timer { counter: spec_add_ticks(t0.counter, t0.reload, k as nat).0, ..t0 }),
                overflows == spec_add_ticks(t0.counter, t0.reload, k as nat).1,
                overflows <= k,
            decreases ticks - k,
        {
            let timer = self.timers[timer_index];
            proof {
                let ghost next = spec_add_ticks(t0.counter, t0.reload, (k + 1) as nat);
                assert(timer.counter == spec_add_ticks(t0.counter, t0.reload, k as nat).0);
            }
            if timer.counter == 0xffff {
                self.timers[timer_index].counter = timer.reload;
                overflows += 1;
            } else {
                self.timers[timer_index].counter = timer.counter + 1;
            }
            k += 1;
        }
        write_timer_counter(io, timer_index, self.timers[timer_index].counter);
        assert(self.timers@[timer_index as int].accumulated_cycles == t0.accumulated_cycles);
        overflows
    }
}

/// Leftover cycles plus new cycles, divided into whole periods, fit in 32 bits.
proof fn lemma_ticks_fit(acc: int, cycles: int, period: int)
    requires
        0 <= acc < period,
        1 <= period <= 1024,
        0 <= cycles <= u32::MAX,
    ensures
        (acc + cycles) / period <= u32::MAX,
        0 <= (acc + cycles) % period < period,
{
    vstd::arithmetic::div_mod::lemma_div_is_ordered(acc + cycles, period - 1 + cycles, period);
    vstd::arithmetic::div_mod::lemma_div_plus_one(cycles - 1, period);
    assert((period - 1 + cycles) / period <= cycles) by {
        if cycles == 0 {
            vstd::arithmetic::div_mod::lemma_basic_div(period - 1, period);
        } else {
            vstd::arithmetic::div_mod::lemma_fundamental_div_mod(period - 1 + cycles, period);
            assert((period - 1 + cycles) / period <= cycles) by (nonlinear_arith)
                requires
                    period - 1 + cycles == period * ((period - 1 + cycles) / period) + (period - 1 + cycles) % period,
                    0 <= (period - 1 + cycles) % period,
                    period >= 1,
                    cycles >= 1;
        }
    }
    vstd::arithmetic::div_mod::lemma_mod_bound(acc + cycles, period);
}

fn period_cycles(control: u16) -> (r: u32)
    ensures
        r == spec_period(control),
        1 <= r <= 1024,
{
    let p = control & 0x3;
    if p == 0 { 1 } else if p == 1 { 64 } else if p == 2 { 256 } else { 1024 }
}

/// Mirrors the counter of timer `timer_index` into TMnCNT_L of `io`.
fn write_timer_counter(io: &mut Vec<u8>, timer_index: usize, value: u16)
    requires
        timer_index < 4,
        old(io)@.len() >= 0x0110,
    ensures
        final(io)@ == spec_io_with_counter(old(io)@, timer_index as int, value),
{
    write_u16(io, TIMER_IO_OFFSET + timer_index * 4, value);
}

} // verus!
