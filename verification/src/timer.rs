//! Divider/interval timer.
//!
//! A 16-bit internal counter advances by one per T-cycle.  `DIV` reads the
//! upper 8 bits of that counter; writing any value to `DIV` resets the whole
//! counter to 0.  `TAC` bit 2 enables `TIMA`; `TAC` bits 0-1 select which
//! counter bit is watched.  When `selected bit AND enable` falls from 1 to 0,
//! `TIMA` is incremented; on overflow, four T-cycles later `TIMA` is reloaded
//! from `TMA` and the timer interrupt is requested.  A write to `TIMA` during
//! that window aborts the reload.

use vstd::prelude::*;

verus! {

/// DIV/TIMA timer state.  `current_cycle` is the 16-bit internal counter;
/// `clock_frequency_bit` caches the power-of-two weight of the counter bit
/// selected by `TAC` bits 0-1 (one of 512, 8, 32, 128).
#[derive(Clone, Copy, Debug)]
pub struct Timer {
    pub current_cycle: u16,
    pub tima: u8,
    pub tma: u8,
    pub tac: u8,
    pub int_timer_flag: bool,
    pub int_timer_enable: bool,
    pub clock_frequency_bit: u16,
    pub prev_and_result: bool,
    pub after_overflow_cycle: u8,
    pub is_overflowing: bool,
    pub is_stop: bool,
}

impl Timer {
    /// Well-formedness: the cached frequency weight is one of the four
    /// selectable counter-bit weights, the reload delay counter stays inside
    /// its 4-cycle window, and the cached fields agree with `TAC`.
    pub open spec fn wf(self) -> bool {
        &&& (self.clock_frequency_bit == 512 || self.clock_frequency_bit == 8
            || self.clock_frequency_bit == 32 || self.clock_frequency_bit == 128)
        &&& self.after_overflow_cycle < 4
        &&& self.int_timer_enable == self.spec_enabled()
        &&& self.clock_frequency_bit == Self::freq_bit_of_tac(self.tac)
    }

    /// `TAC` bit 2, the timer enable.
    pub open spec fn spec_enabled(self) -> bool {
        self.tac / 4 % 2 == 1
    }

    /// The counter-bit weight selected by `TAC` bits 0-1:
    /// 0 selects bit 9, 1 selects bit 3, 2 selects bit 5, 3 selects bit 7.
    pub open spec fn freq_bit_of_tac(tac: u8) -> u16 {
        if tac % 4 == 0 {
            512
        } else if tac % 4 == 1 {
            8
        } else if tac % 4 == 2 {
            32
        } else {
            128
        }
    }

    /// Whether the watched counter bit is set in `counter`.
    pub open spec fn spec_sel_bit(counter: u16, weight: u16) -> bool {
        (counter / weight) % 2 == 1
    }

    /// The internal counter after one T-cycle (wrapping at 16 bits).
    pub open spec fn spec_next_counter(self) -> u16 {
        if self.current_cycle == 0xFFFF {
            0
        } else {
            (self.current_cycle + 1) as u16
        }
    }

    /// The falling-edge detector input after this T-cycle:
    /// selected counter bit AND enable.
    pub open spec fn spec_next_and(self) -> bool {
        Self::spec_sel_bit(self.spec_next_counter(), self.clock_frequency_bit)
            && self.spec_enabled()
    }

    /// Whether this T-cycle increments `TIMA` (a 1 -> 0 edge of the AND).
    pub open spec fn spec_tima_incremented(self) -> bool {
        self.prev_and_result && !self.spec_next_and()
    }

    /// `TIMA` after the possible increment, before any reload.
    pub open spec fn spec_tima_after_inc(self) -> u8 {
        if self.spec_tima_incremented() {
            if self.tima == 0xFF {
                0
            } else {
                (self.tima + 1) as u8
            }
        } else {
            self.tima
        }
    }

    /// Whether the overflow window is open after the possible increment.
    pub open spec fn spec_overflowing_after_inc(self) -> bool {
        self.is_overflowing || (self.spec_tima_incremented() && self.tima == 0xFF)
    }

    /// Whether this T-cycle is the fourth of the overflow window, so the
    /// reload from `TMA` and the interrupt request happen now.
    pub open spec fn spec_reload_now(self) -> bool {
        self.spec_overflowing_after_inc() && self.after_overflow_cycle == 3
    }

    /// One T-cycle of the timer: advance the internal counter, detect the
    /// falling edge of `selected bit AND enable` to step `TIMA`, and run the
    /// 4-cycle overflow window that reloads `TIMA` from `TMA` and requests
    /// the timer interrupt.  A stopped timer is left untouched.
    pub fn tick(&mut self)
        requires
            old(self).wf(),
        ensures
            final(self).wf(),
            old(self).is_stop ==> *final(self) == *old(self),
            !old(self).is_stop ==> *final(self) == (Timer {
                current_cycle: old(self).spec_next_counter(),
                tima: if old(self).spec_reload_now() {
                    old(self).tma
                } else {
                    old(self).spec_tima_after_inc()
                },
                int_timer_flag: old(self).int_timer_flag || old(self).spec_reload_now(),
                prev_and_result: old(self).spec_next_and(),
                after_overflow_cycle: if old(self).spec_reload_now() {
                    0
                } else if old(self).spec_overflowing_after_inc() {
                    (old(self).after_overflow_cycle + 1) as u8
                } else {
                    old(self).after_overflow_cycle
                },
                is_overflowing: old(self).spec_overflowing_after_inc()
                    && !old(self).spec_reload_now(),
                ..*old(self)
            }),
    {
        if self.is_stop {
            return;
        }

        if self.current_cycle == 0xFFFF {
            self.current_cycle = 0;
        } else {
            self.current_cycle = self.current_cycle + 1;
        }

        let counter_bit = (self.current_cycle / self.clock_frequency_bit) % 2 == 1;
        let and_result = counter_bit && self.int_timer_enable;

        if self.prev_and_result && !and_result {
            if self.tima == 0xFF {
                self.tima = 0;
                self.is_overflowing = true;
            } else {
                self.tima = self.tima + 1;
            }
        }

        if self.is_overflowing {
            if self.after_overflow_cycle == 3 {
                self.tima = self.tma;
                self.after_overflow_cycle = 0;
                self.int_timer_flag = true;
                self.is_overflowing = false;
            } else {
                self.after_overflow_cycle = self.after_overflow_cycle + 1;
            }
        }

        self.prev_and_result = and_result;
    }

    /// `DIV` reads the upper 8 bits of the internal counter.
    pub fn read_div(&self) -> (r: u8)
        ensures
            r == self.current_cycle / 256,
    {
        (self.current_cycle / 256) as u8
    }

    pub fn read_tima(&self) -> (r: u8)
        ensures
            r == self.tima,
    {
        self.tima
    }

    pub fn read_tma(&self) -> (r: u8)
        ensures
            r == self.tma,
    {
        self.tma
    }

    pub fn read_tac(&self) -> (r: u8)
        ensures
            r == self.tac,
    {
        self.tac
    }

    /// Writing any value to `DIV` resets the whole internal counter to 0,
    /// so the next `DIV` read returns 0.
    pub fn write_div(&mut self, data: u8)
        requires
            old(self).wf(),
        ensures
            final(self).wf(),
            *final(self) == (Timer { current_cycle: 0, ..*old(self) }),
    {
        let _ = data;
        self.current_cycle = 0;
    }

    /// A `TIMA` write also aborts a pending overflow reload.
    pub fn write_tima(&mut self, data: u8)
        requires
            old(self).wf(),
        ensures
            final(self).wf(),
            *final(self) == (Timer {
                tima: data,
                is_overflowing: false,
                after_overflow_cycle: 0,
                ..*old(self)
            }),
    {
        self.tima = data;
        self.is_overflowing = false;
        self.after_overflow_cycle = 0;
    }

    pub fn write_tma(&mut self, data: u8)
        requires
            old(self).wf(),
        ensures
            final(self).wf(),
            *final(self) == (Timer { tma: data, ..*old(self) }),
    {
        self.tma = data;
    }

    /// A `TAC` write refreshes the cached enable bit and counter-bit weight.
    pub fn write_tac(&mut self, data: u8)
        requires
            old(self).wf(),
        ensures
            final(self).wf(),
            *final(self) == (Timer {
                tac: data,
                int_timer_enable: ({ let t = Timer { tac: data, ..*old(self) }; t.spec_enabled() }),
                clock_frequency_bit: Timer::freq_bit_of_tac(data),
                ..*old(self)
            }),
    {
        self.tac = data;
        self.int_timer_enable = (data / 4) % 2 == 1;
        if data % 4 == 0 {
            self.clock_frequency_bit = 512;
        } else if data % 4 == 1 {
            self.clock_frequency_bit = 8;
        } else if data % 4 == 2 {
            self.clock_frequency_bit = 32;
        } else {
            self.clock_frequency_bit = 128;
        }
    }

    /// Post-reset timer state: everything cleared, `TAC` selecting bit 9
    /// with the timer disabled.
    pub open spec fn spec_new() -> Timer {
        Timer {
            current_cycle: 0,
            tima: 0,
            tma: 0,
            tac: 0,
            int_timer_flag: false,
            int_timer_enable: false,
            clock_frequency_bit: 512,
            prev_and_result: false,
            after_overflow_cycle: 0,
            is_overflowing: false,
            is_stop: false,
        }
    }

    pub fn new() -> (r: Timer)
        ensures
            r.wf(),
            r == Timer::spec_new(),
            r == (Timer {
                current_cycle: 0,
                tima: 0,
                tma: 0,
                tac: 0,
                int_timer_flag: false,
                int_timer_enable: false,
                clock_frequency_bit: 512,
                prev_and_result: false,
                after_overflow_cycle: 0,
                is_overflowing: false,
                is_stop: false,
            }),
    {
        Timer {
            current_cycle: 0,
            tima: 0,
            tma: 0,
            tac: 0,
            int_timer_flag: false,
            int_timer_enable: false,
            clock_frequency_bit: 512,
            prev_and_result: false,
            after_overflow_cycle: 0,
            is_overflowing: false,
            is_stop: false,
        }
    }
}

/// With `TAC` bit 2 clear and the edge detector settled (no high memo bit,
/// no overflow window open), one T-cycle leaves `TIMA` untouched and the
/// timer settled again; by induction `TIMA` is invariant while the timer is
/// disabled.  The two settledness conditions exclude only the first cycles
/// right after the timer is disabled: disabling `TAC` itself produces one
/// final falling edge, and a reload already in flight still lands.
pub proof fn lemma_tima_invariant_while_disabled(t: Timer)
    requires
        t.wf(),
        !t.spec_enabled(),
        !t.prev_and_result,
        !t.is_overflowing,
    ensures
        ({
            let u = Timer {
                current_cycle: t.spec_next_counter(),
                prev_and_result: t.spec_next_and(),
                ..t
            };
            &&& !t.is_stop ==> spec_timer_tick(t) == u
            &&& u.tima == t.tima
            &&& !u.spec_enabled()
            &&& !u.prev_and_result
            &&& !u.is_overflowing
        }),
{
}

/// The full one-T-cycle transition of the timer as a function of the state,
/// exactly as `Timer::tick` ensures it for a running timer.
pub open spec fn spec_timer_tick(t: Timer) -> Timer {
    Timer {
        current_cycle: t.spec_next_counter(),
        tima: if t.spec_reload_now() {
            t.tma
        } else {
            t.spec_tima_after_inc()
        },
        int_timer_flag: t.int_timer_flag || t.spec_reload_now(),
        prev_and_result: t.spec_next_and(),
        after_overflow_cycle: if t.spec_reload_now() {
            0
        } else if t.spec_overflowing_after_inc() {
            (t.after_overflow_cycle + 1) as u8
        } else {
            t.after_overflow_cycle
        },
        is_overflowing: t.spec_overflowing_after_inc() && !t.spec_reload_now(),
        ..t
    }
}

/// Resetting the divider: after a `DIV` write the very next `DIV` read
/// returns 0, whatever was written and whatever the timer state was.
pub proof fn lemma_div_write_then_read_zero(t: Timer)
    requires
        t.wf(),
    ensures
        (Timer { current_cycle: 0, ..t }).current_cycle / 256 == 0,
{
}

} // verus!
