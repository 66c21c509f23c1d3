//! The DIV/TIMA hardware timer: DIV advances at 16384 Hz (every 256
//! T-cycles); when TAC enables it, TIMA advances at the rate TAC selects
//! and raises the timer interrupt on overflow, reloading from TMA.

use vstd::prelude::*;
use crate::memory::{Memory, MemView};

verus! {

/// Timer state: the sub-counters that divide the T-cycle clock down to the
/// DIV and TIMA rates.
pub struct Timer {
    pub timer_counter: usize,
    pub divider_counter: usize,
}

/// The counter increment; like the hardware register it stands for, it
/// wraps at the machine-word limit instead of ever faulting.
pub open spec fn spec_count_up(c: usize) -> usize {
    if c == usize::MAX {
        0
    } else {
        (c + 1) as usize
    }
}

/// The number of T-cycles per TIMA increment selected by the low two bits
/// of TAC: 4096 Hz, 262144 Hz, 65536 Hz, 16384 Hz.
pub open spec fn spec_tima_period(tac: u8) -> usize {
    if tac % 4 == 0 {
        1024
    } else if tac % 4 == 1 {
        16
    } else if tac % 4 == 2 {
        64
    } else {
        256
    }
}

/// One T-cycle of the timer: the DIV divider always counts; the TIMA
/// divider counts only while TAC bit 2 is set. When TIMA overflows it
/// reloads from TMA and sets IF bit 2.
pub open spec fn spec_timer_tick(t: Timer, m: MemView) -> (Timer, MemView) {
    let dc = spec_count_up(t.divider_counter);
    let (dc2, m1): (usize, MemView) = if dc == 256 {
        (0, MemView { divider: ((m.divider + 1) % 256) as u8, ..m })
    } else {
        (dc, m)
    };
    if m.timer_control & 4 != 0 {
        let tc = spec_count_up(t.timer_counter);
        if tc == spec_tima_period(m.timer_control) {
            if m.timer == 255 {
                (
                    Timer { timer_counter: 0, divider_counter: dc2 },
                    MemView {
                        timer: m1.timer_modulo,
                        interrupt_flag: m1.interrupt_flag | 4,
                        ..m1
                    },
                )
            } else {
                (
                    Timer { timer_counter: 0, divider_counter: dc2 },
                    MemView { timer: (m1.timer + 1) as u8, ..m1 },
                )
            }
        } else {
            (Timer { timer_counter: tc, divider_counter: dc2 }, m1)
        }
    } else {
        (Timer { timer_counter: t.timer_counter, divider_counter: dc2 }, m1)
    }
}

fn count_up(c: usize) -> (r: usize)
    ensures
        r == spec_count_up(c),
{
    if c == usize::MAX {
        0
    } else {
        c + 1
    }
}

impl Timer {
    /// A timer with both dividers at zero.
    pub fn new() -> (r: Timer)
        ensures
            r.timer_counter == 0,
            r.divider_counter == 0,
    {
        Timer { timer_counter: 0, divider_counter: 0 }
    }

    /// One T-cycle of the timer (see [`spec_timer_tick`]).
    pub fn tick(&mut self, mem: &mut Memory)
        requires
            old(mem).wf(),
        ensures
            *final(self) == spec_timer_tick(*old(self), old(mem)@).0,
            final(mem)@ == spec_timer_tick(*old(self), old(mem)@).1,
            final(mem).wf(),
    {
        let dc = count_up(self.divider_counter);
        if dc == 256 {
            self.divider_counter = 0;
            mem.divider = ((mem.divider as u16 + 1) % 256) as u8;
        } else {
            self.divider_counter = dc;
        }
        if mem.timer_control & 4 != 0 {
            let target: usize = if mem.timer_control % 4 == 0 {
                1024
            } else if mem.timer_control % 4 == 1 {
                16
            } else if mem.timer_control % 4 == 2 {
                64
            } else {
                256
            };
            let tc = count_up(self.timer_counter);
            if tc == target {
                self.timer_counter = 0;
                if mem.timer == 255 {
                    mem.timer = mem.timer_modulo;
                    mem.interrupt_flag = mem.interrupt_flag | 4;
                } else {
                    mem.timer = mem.timer + 1;
                }
            } else {
                self.timer_counter = tc;
            }
        }
    }
}

} // verus!
