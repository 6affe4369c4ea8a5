//! Four-channel tone synthesis unit.
//!
//! The master counter advances one per T-cycle.  A frame sequencer steps on
//! each 1 -> 0 edge of DIV bit 4 through positions 0..=7, clocking length
//! counters on even steps, the channel-1 sweep on steps 2 and 6, and the
//! envelopes on step 7.  Each channel has a frequency timer ticked every
//! T-cycle.  Mixed stereo samples are pushed into a bounded ring at one
//! sample per `4_194_304 / sample_rate` T-cycles; the mix is kept as exact
//! integer numerators (channel DAC value 0..=15 times the side volume
//! 0..=7, summed over routed channels) for the host to scale.

use vstd::prelude::*;

use crate::util::spec_pow2;
use crate::util::pow2_u16;
use crate::util::spec_bit8;
use crate::util::bit8;

verus! {

/// Square channel with frequency sweep.
#[derive(Clone, Copy, Debug)]
pub struct Ch1 {
    pub sweep_period: u8,
    pub sweep_timer: u8,
    pub sweep_down: bool,
    pub calc_sweep_in_neg: bool,
    pub sweep_shift: u8,
    pub sweep_flag: bool,
    pub shadow_frequency: u16,
    pub length: u8,
    pub length_timer: u8,
    pub length_ticking: bool,
    pub stop_flag: bool,
    pub duty_pattern: u8,
    pub env_initial_volume: u8,
    pub env_up: bool,
    pub env_period: u8,
    pub env_timer: u8,
    pub frequency: u16,
    pub duty_position: u8,
    pub frequency_timer: u16,
    pub volume: u8,
    pub channel_on: bool,
}

/// Plain square channel.
#[derive(Clone, Copy, Debug)]
pub struct Ch2 {
    pub length: u8,
    pub length_timer: u8,
    pub length_ticking: bool,
    pub stop_flag: bool,
    pub duty_pattern: u8,
    pub env_initial_volume: u8,
    pub env_up: bool,
    pub env_period: u8,
    pub env_timer: u8,
    pub frequency: u16,
    pub duty_position: u8,
    pub frequency_timer: u16,
    pub volume: u8,
    pub channel_on: bool,
}

/// Wave channel playing 32 4-bit samples from its own RAM.
#[derive(Clone, Copy, Debug)]
pub struct Ch3 {
    pub channel_on: bool,
    pub length: u8,
    pub length_timer: u16,
    pub length_ticking: bool,
    pub volume: u8,
    pub frequency: u16,
    pub frequency_timer: u16,
    pub position: u8,
    pub wave_pattern_ram: [u8; 16],
    pub enable: bool,
    pub stop_flag: bool,
}

/// Noise channel driven by a 15-bit LFSR.
#[derive(Clone, Copy, Debug)]
pub struct Ch4 {
    pub length: u8,
    pub length_timer: u8,
    pub length_ticking: bool,
    pub stop_flag: bool,
    pub env_initial_volume: u8,
    pub env_up: bool,
    pub env_period: u8,
    pub env_timer: u8,
    pub frequency_timer: u16,
    pub divisor: u8,
    pub divisor_code: u8,
    pub shift_amount: u8,
    pub lfsr: u16,
    pub counter_width: bool,
    pub volume: u8,
    pub channel_on: bool,
}

/// Master volume, routing and power control.
#[derive(Clone, Copy, Debug)]
pub struct SoundControl {
    pub left_volume: u8,
    pub right_volume: u8,
    pub select_output: u8,
    pub vin_left: bool,
    pub vin_right: bool,
    pub sound_on: bool,
}

impl Ch1 {
    pub open spec fn wf(self) -> bool {
        &&& self.sweep_period < 8
        &&& self.sweep_shift < 8
        &&& self.duty_pattern < 4
        &&& self.env_initial_volume < 16
        &&& self.env_period < 8
        &&& self.frequency < 2048
        &&& self.shadow_frequency < 2048
        &&& self.duty_position < 8
        &&& self.volume < 16
    }

    /// DAC power follows the envelope register: initial volume or direction.
    pub open spec fn spec_dac_enable(self) -> bool {
        self.env_initial_volume > 0 || self.env_up
    }

    pub fn dac_enable(&self) -> (r: bool)
        ensures
            r == self.spec_dac_enable(),
    {
        self.env_initial_volume > 0 || self.env_up
    }

    /// One length clock: while enabled and non-zero the length timer counts
    /// down; hitting zero silences the channel.
    pub open spec fn spec_length(self) -> Ch1 {
        if !self.stop_flag || self.length_timer == 0 {
            self
        } else {
            Ch1 {
                length_timer: (self.length_timer - 1) as u8,
                channel_on: self.channel_on && self.length_timer != 1,
                ..self
            }
        }
    }

    pub fn length(&mut self)
        ensures
            *final(self) == old(self).spec_length(),
    {
        if !self.stop_flag || self.length_timer == 0 {
            return;
        }
        self.length_timer = self.length_timer - 1;
        if self.length_timer == 0 {
            self.channel_on = false;
        }
    }

    /// One envelope clock: with a non-zero period, when the envelope timer
    /// runs out it reloads and the volume steps one toward the direction's
    /// end of 0..=15.
    pub open spec fn spec_envelope(self) -> Ch1 {
        if self.env_period == 0 {
            self
        } else {
            let t = if self.env_timer > 0 {
                (self.env_timer - 1) as u8
            } else {
                0
            };
            if t == 0 {
                Ch1 {
                    env_timer: self.env_period,
                    volume: if self.env_up {
                        if self.volume < 15 {
                            (self.volume + 1) as u8
                        } else {
                            self.volume
                        }
                    } else {
                        if self.volume > 0 {
                            (self.volume - 1) as u8
                        } else {
                            self.volume
                        }
                    },
                    ..self
                }
            } else {
                Ch1 { env_timer: t, ..self }
            }
        }
    }

    pub fn envelope(&mut self)
        requires
            old(self).wf(),
        ensures
            final(self).wf(),
            *final(self) == old(self).spec_envelope(),
    {
        if self.env_period != 0 {
            if self.env_timer > 0 {
                self.env_timer = self.env_timer - 1;
            }
            if self.env_timer == 0 {
                self.env_timer = self.env_period;
                if self.env_up {
                    if self.volume < 15 {
                        self.volume = self.volume + 1;
                    }
                } else {
                    if self.volume > 0 {
                        self.volume = self.volume - 1;
                    }
                }
            }
        }
    }

    /// The sweep unit's next frequency: the shadow frequency shifted right
    /// by the sweep shift, added or subtracted.  A subtracting calculation
    /// is remembered in `calc_sweep_in_neg`.
    pub open spec fn spec_calc_value(self) -> int {
        let offset = self.shadow_frequency as int / spec_pow2(self.sweep_shift as int);
        if !self.sweep_down {
            self.shadow_frequency + offset
        } else {
            self.shadow_frequency - offset
        }
    }

    pub open spec fn spec_after_calc(self) -> Ch1 {
        Ch1 { calc_sweep_in_neg: self.calc_sweep_in_neg || self.sweep_down, ..self }
    }

    pub fn calc_new_frequency(&mut self) -> (r: u16)
        requires
            old(self).wf(),
        ensures
            final(self).wf(),
            *final(self) == old(self).spec_after_calc(),
            r == old(self).spec_calc_value(),
    {
        proof {
            crate::util::lemma_pow2_pos(self.sweep_shift as int);
            crate::util::lemma_div_le(
                self.shadow_frequency as int,
                spec_pow2(self.sweep_shift as int),
            );
        }
        let offset = self.shadow_frequency / pow2_u16(self.sweep_shift);
        if !self.sweep_down {
            return self.shadow_frequency + offset;
        }
        self.calc_sweep_in_neg = true;
        self.shadow_frequency - offset
    }

    /// One sweep clock per the sweep rules: the timer counts down; on zero
    /// it reloads (period 0 counts as 8), and with the sweep armed and a
    /// non-zero period a new frequency is calculated, applied when it fits
    /// 11 bits and the shift is non-zero, and a second overflowing
    /// calculation silences the channel.
    pub open spec fn spec_sweep(self) -> Ch1 {
        let a = if self.sweep_timer > 0 {
            Ch1 { sweep_timer: (self.sweep_timer - 1) as u8, ..self }
        } else {
            self
        };
        if a.sweep_timer != 0 {
            a
        } else {
            let b = Ch1 {
                sweep_timer: if a.sweep_period == 0 {
                    8
                } else {
                    a.sweep_period
                },
                ..a
            };
            if b.sweep_flag && b.sweep_period > 0 {
                let c = b.spec_after_calc();
                let nf = b.spec_calc_value();
                let d = if nf <= 2047 && c.sweep_shift > 0 {
                    Ch1 { frequency: nf as u16, shadow_frequency: nf as u16, ..c }
                } else {
                    c
                };
                let e = d.spec_after_calc();
                if d.spec_calc_value() > 2047 {
                    Ch1 { channel_on: false, ..e }
                } else {
                    e
                }
            } else {
                b
            }
        }
    }

    pub fn sweep(&mut self)
        requires
            old(self).wf(),
        ensures
            final(self).wf(),
            *final(self) == old(self).spec_sweep(),
    {
        if self.sweep_timer > 0 {
            self.sweep_timer = self.sweep_timer - 1;
        }

        if self.sweep_timer == 0 {
            self.sweep_timer = if self.sweep_period == 0 {
                8
            } else {
                self.sweep_period
            };

            if self.sweep_flag && self.sweep_period > 0 {
                let new_frequency = self.calc_new_frequency();

                if new_frequency <= 2047 && self.sweep_shift > 0 {
                    self.frequency = new_frequency;
                    self.shadow_frequency = new_frequency;
                }

                if self.calc_new_frequency() > 2047 {
                    self.channel_on = false;
                }
            }
        }
    }

    /// One frequency-timer T-cycle: the timer counts down (wrapping from
    /// 0); hitting zero reloads it with `(2048 - frequency) * 4` and steps
    /// the duty position.
    pub open spec fn spec_frequency_tick(self) -> Ch1 {
        let t = if self.frequency_timer == 0 {
            0xFFFFu16
        } else {
            (self.frequency_timer - 1) as u16
        };
        if t == 0 {
            Ch1 {
                frequency_timer: ((2048 - self.frequency) * 4) as u16,
                duty_position: ((self.duty_position + 1) % 8) as u8,
                ..self
            }
        } else {
            Ch1 { frequency_timer: t, ..self }
        }
    }

    pub fn frequency_tick(&mut self)
        requires
            old(self).wf(),
        ensures
            final(self).wf(),
            *final(self) == old(self).spec_frequency_tick(),
    {
        if self.frequency_timer == 0 {
            self.frequency_timer = 0xFFFF;
        } else {
            self.frequency_timer = self.frequency_timer - 1;
        }

        if self.frequency_timer == 0 {
            self.frequency_timer = (2048 - self.frequency) * 4;
            self.duty_position = (self.duty_position + 1) % 8;
        }
    }

    /// Retrigger: wake the channel (if its DAC is powered), reload an
    /// expired length timer (with one extra length clock when enabled in
    /// the ticking half), reload the frequency timer, envelope and volume,
    /// and re-arm the sweep, silencing at once on an overflowing first
    /// calculation.
    pub open spec fn spec_trigger(self) -> Ch1 {
        let a = Ch1 { channel_on: self.spec_dac_enable(), ..self };
        let b = if a.length_timer == 0 {
            (Ch1 { length_timer: 64, ..a }).spec_extra_length()
        } else {
            a
        };
        let c = Ch1 {
            frequency_timer: ((2048 - b.frequency) * 4) as u16,
            env_timer: b.env_period,
            volume: b.env_initial_volume,
            shadow_frequency: b.frequency,
            sweep_timer: if b.sweep_period == 0 {
                8
            } else {
                b.sweep_period
            },
            calc_sweep_in_neg: false,
            sweep_flag: b.sweep_period > 0 || b.sweep_shift > 0,
            ..b
        };
        if c.sweep_shift > 0 {
            let d = c.spec_after_calc();
            if c.spec_calc_value() > 2047 {
                Ch1 { channel_on: false, ..d }
            } else {
                d
            }
        } else {
            c
        }
    }

    /// The extra length clock on trigger, taken only while the length
    /// counter is being ticked this half of the sequencer period.
    pub open spec fn spec_extra_length(self) -> Ch1 {
        if self.stop_flag && self.length_ticking {
            self.spec_length()
        } else {
            self
        }
    }

    pub fn trigger(&mut self)
        requires
            old(self).wf(),
        ensures
            final(self).wf(),
            *final(self) == old(self).spec_trigger(),
    {
        self.channel_on = self.dac_enable();
        if self.length_timer == 0 {
            self.length_timer = 64;
            if self.stop_flag && self.length_ticking {
                self.length();
            }
        }
        self.frequency_timer = (2048 - self.frequency) * 4;
        self.env_timer = self.env_period;
        self.volume = self.env_initial_volume;

        self.shadow_frequency = self.frequency;
        self.sweep_timer = if self.sweep_period == 0 {
            8
        } else {
            self.sweep_period
        };

        self.calc_sweep_in_neg = false;
        self.sweep_flag = self.sweep_period > 0 || self.sweep_shift > 0;
        if self.sweep_shift > 0 {
            if self.calc_new_frequency() > 2047 {
                self.channel_on = false;
            }
        }
    }

    /// What a read of register 0..=4 returns, with the unused bits high.
    pub open spec fn spec_read(self, address: u16) -> u8 {
        if address == 0 {
            (128 + self.sweep_period * 16 + (if self.sweep_down {
                8int
            } else {
                0int
            }) + self.sweep_shift) as u8
        } else if address == 1 {
            (self.duty_pattern * 64 + 63) as u8
        } else if address == 2 {
            (self.env_initial_volume * 16 + (if self.env_up {
                8int
            } else {
                0int
            }) + self.env_period) as u8
        } else if address == 4 {
            if self.stop_flag {
                0xFF
            } else {
                0xBF
            }
        } else {
            0xFF
        }
    }

    pub fn read(&self, address: u16) -> (r: u8)
        requires
            self.wf(),
        ensures
            r == self.spec_read(address),
    {
        if address == 0 {
            128 + self.sweep_period * 16 + (if self.sweep_down {
                8
            } else {
                0
            }) + self.sweep_shift
        } else if address == 1 {
            self.duty_pattern * 64 + 63
        } else if address == 2 {
            self.env_initial_volume * 16 + (if self.env_up {
                8
            } else {
                0
            }) + self.env_period
        } else if address == 4 {
            if self.stop_flag {
                0xFF
            } else {
                0xBF
            }
        } else {
            0xFF
        }
    }

    /// The channel state after a write to register 0..=4.
    pub open spec fn spec_write(self, address: u16, data: u8) -> Ch1 {
        if address == 0 {
            let a = Ch1 {
                sweep_period: ((data as int / 16) % 8) as u8,
                sweep_down: spec_bit8(data, 3),
                sweep_shift: (data % 8) as u8,
                ..self
            };
            if self.sweep_down && self.calc_sweep_in_neg && !a.sweep_down {
                Ch1 { channel_on: false, calc_sweep_in_neg: false, ..a }
            } else {
                a
            }
        } else if address == 1 {
            Ch1 {
                duty_pattern: (data as int / 64) as u8,
                length: (data % 64) as u8,
                length_timer: (64 - data % 64) as u8,
                ..self
            }
        } else if address == 2 {
            let a = Ch1 {
                env_initial_volume: (data as int / 16) as u8,
                env_up: spec_bit8(data, 3),
                env_period: (data % 8) as u8,
                ..self
            };
            Ch1 { channel_on: a.channel_on && a.spec_dac_enable(), ..a }
        } else if address == 3 {
            Ch1 { frequency: ((self.frequency as int / 256) * 256 + data) as u16, ..self }
        } else if address == 4 {
            let a = Ch1 {
                frequency: (self.frequency % 256 + (data % 8) * 256) as u16,
                stop_flag: spec_bit8(data, 6),
                ..self
            };
            let b = if !self.stop_flag && a.stop_flag && a.length_ticking {
                a.spec_length()
            } else {
                a
            };
            if spec_bit8(data, 7) {
                b.spec_trigger()
            } else {
                b
            }
        } else {
            self
        }
    }

    pub fn write(&mut self, address: u16, data: u8)
        requires
            old(self).wf(),
        ensures
            final(self).wf(),
            *final(self) == old(self).spec_write(address, data),
    {
        if address == 0 {
            let prev_sweep_down = self.sweep_down;
            self.sweep_period = (data / 16) % 8;
            self.sweep_down = bit8(data, 3);
            self.sweep_shift = data % 8;

            if prev_sweep_down && self.calc_sweep_in_neg && !self.sweep_down {
                self.channel_on = false;
                self.calc_sweep_in_neg = false;
            }
        } else if address == 1 {
            self.duty_pattern = data / 64;
            self.length = data % 64;
            self.length_timer = 64 - self.length;
        } else if address == 2 {
            self.env_initial_volume = data / 16;
            self.env_up = bit8(data, 3);
            self.env_period = data % 8;
            self.channel_on = self.channel_on && self.dac_enable();
        } else if address == 3 {
            self.frequency = (self.frequency / 256) * 256 + data as u16;
        } else if address == 4 {
            self.frequency = self.frequency % 256 + (data as u16 % 8) * 256;
            let prev_stop_flag = self.stop_flag;
            self.stop_flag = bit8(data, 6);

            if !prev_stop_flag && self.stop_flag && self.length_ticking {
                self.length();
            }

            if bit8(data, 7) {
                self.trigger();
            }
        }
    }

    /// The duty waveform bit for pattern 0..=3 at position 0..=7.
    pub open spec fn spec_duty(pattern: u8, position: u8) -> bool {
        if pattern == 0 {
            position == 7
        } else if pattern == 1 {
            position == 0 || position == 7
        } else if pattern == 2 {
            position == 0 || position >= 5
        } else {
            1 <= position <= 6
        }
    }

    /// The channel's DAC input: the duty bit scaled by the envelope volume,
    /// 0 while the channel is off.
    pub open spec fn spec_output(self) -> int {
        if !self.channel_on {
            0
        } else if Self::spec_duty(self.duty_pattern, self.duty_position) {
            self.volume as int
        } else {
            0
        }
    }

    pub fn output(&self) -> (r: u8)
        requires
            self.wf(),
        ensures
            r == self.spec_output(),
            r <= 15,
    {
        if !self.channel_on {
            return 0;
        }
        let high = if self.duty_pattern == 0 {
            self.duty_position == 7
        } else if self.duty_pattern == 1 {
            self.duty_position == 0 || self.duty_position == 7
        } else if self.duty_pattern == 2 {
            self.duty_position == 0 || self.duty_position >= 5
        } else {
            1 <= self.duty_position && self.duty_position <= 6
        };
        if high {
            self.volume
        } else {
            0
        }
    }

    /// Channel reset state.
    pub open spec fn spec_new() -> Ch1 {
        Ch1 {
            sweep_period: 0,
            sweep_timer: 0,
            sweep_down: false,
            calc_sweep_in_neg: false,
            sweep_shift: 0,
            sweep_flag: false,
            shadow_frequency: 0,
            length: 0,
            length_timer: 0,
            length_ticking: false,
            stop_flag: false,
            duty_pattern: 0,
            env_initial_volume: 0,
            env_up: false,
            env_period: 0,
            env_timer: 0,
            frequency: 0,
            duty_position: 0,
            frequency_timer: 0,
            volume: 0,
            channel_on: false,
        }
    }

    pub fn new() -> (r: Ch1)
        ensures
            r == Ch1::spec_new(),
            r.wf(),
    {
        Ch1 {
            sweep_period: 0,
            sweep_timer: 0,
            sweep_down: false,
            calc_sweep_in_neg: false,
            sweep_shift: 0,
            sweep_flag: false,
            shadow_frequency: 0,
            length: 0,
            length_timer: 0,
            length_ticking: false,
            stop_flag: false,
            duty_pattern: 0,
            env_initial_volume: 0,
            env_up: false,
            env_period: 0,
            env_timer: 0,
            frequency: 0,
            duty_position: 0,
            frequency_timer: 0,
            volume: 0,
            channel_on: false,
        }
    }
}

impl Ch2 {
    pub open spec fn wf(self) -> bool {
        &&& self.duty_pattern < 4
        &&& self.env_initial_volume < 16
        &&& self.env_period < 8
        &&& self.frequency < 2048
        &&& self.duty_position < 8
        &&& self.volume < 16
    }

    pub open spec fn spec_dac_enable(self) -> bool {
        self.env_initial_volume > 0 || self.env_up
    }

    pub fn dac_enable(&self) -> (r: bool)
        ensures
            r == self.spec_dac_enable(),
    {
        self.env_initial_volume > 0 || self.env_up
    }

    pub open spec fn spec_length(self) -> Ch2 {
        if !self.stop_flag || self.length_timer == 0 {
            self
        } else {
            Ch2 {
                length_timer: (self.length_timer - 1) as u8,
                channel_on: self.channel_on && self.length_timer != 1,
                ..self
            }
        }
    }

    pub fn length(&mut self)
        ensures
            *final(self) == old(self).spec_length(),
    {
        if !self.stop_flag || self.length_timer == 0 {
            return;
        }
        self.length_timer = self.length_timer - 1;
        if self.length_timer == 0 {
            self.channel_on = false;
        }
    }

    pub open spec fn spec_envelope(self) -> Ch2 {
        if self.env_period == 0 {
            self
        } else {
            let t = if self.env_timer > 0 {
                (self.env_timer - 1) as u8
            } else {
                0
            };
            if t == 0 {
                Ch2 {
                    env_timer: self.env_period,
                    volume: if self.env_up {
                        if self.volume < 15 {
                            (self.volume + 1) as u8
                        } else {
                            self.volume
                        }
                    } else {
                        if self.volume > 0 {
                            (self.volume - 1) as u8
                        } else {
                            self.volume
                        }
                    },
                    ..self
                }
            } else {
                Ch2 { env_timer: t, ..self }
            }
        }
    }

    pub fn envelope(&mut self)
        requires
            old(self).wf(),
        ensures
            final(self).wf(),
            *final(self) == old(self).spec_envelope(),
    {
        if self.env_period != 0 {
            if self.env_timer > 0 {
                self.env_timer = self.env_timer - 1;
            }
            if self.env_timer == 0 {
                self.env_timer = self.env_period;
                if self.env_up {
                    if self.volume < 15 {
                        self.volume = self.volume + 1;
                    }
                } else {
                    if self.volume > 0 {
                        self.volume = self.volume - 1;
                    }
                }
            }
        }
    }

    pub open spec fn spec_frequency_tick(self) -> Ch2 {
        let t = if self.frequency_timer == 0 {
            0xFFFFu16
        } else {
            (self.frequency_timer - 1) as u16
        };
        if t == 0 {
            Ch2 {
                frequency_timer: ((2048 - self.frequency) * 4) as u16,
                duty_position: ((self.duty_position + 1) % 8) as u8,
                ..self
            }
        } else {
            Ch2 { frequency_timer: t, ..self }
        }
    }

    pub fn frequency_tick(&mut self)
        requires
            old(self).wf(),
        ensures
            final(self).wf(),
            *final(self) == old(self).spec_frequency_tick(),
    {
        if self.frequency_timer == 0 {
            self.frequency_timer = 0xFFFF;
        } else {
            self.frequency_timer = self.frequency_timer - 1;
        }

        if self.frequency_timer == 0 {
            self.frequency_timer = (2048 - self.frequency) * 4;
            self.duty_position = (self.duty_position + 1) % 8;
        }
    }

    pub open spec fn spec_extra_length(self) -> Ch2 {
        if self.stop_flag && self.length_ticking {
            self.spec_length()
        } else {
            self
        }
    }

    pub open spec fn spec_trigger(self) -> Ch2 {
        let a = Ch2 { channel_on: self.spec_dac_enable(), ..self };
        let b = if a.length_timer == 0 {
            (Ch2 { length_timer: 64, ..a }).spec_extra_length()
        } else {
            a
        };
        Ch2 {
            frequency_timer: ((2048 - b.frequency) * 4) as u16,
            env_timer: b.env_period,
            volume: b.env_initial_volume,
            ..b
        }
    }

    pub fn trigger(&mut self)
        requires
            old(self).wf(),
        ensures
            final(self).wf(),
            *final(self) == old(self).spec_trigger(),
    {
        self.channel_on = self.dac_enable();
        if self.length_timer == 0 {
            self.length_timer = 64;
            if self.stop_flag && self.length_ticking {
                self.length();
            }
        }
        self.frequency_timer = (2048 - self.frequency) * 4;
        self.env_timer = self.env_period;
        self.volume = self.env_initial_volume;
    }

    pub open spec fn spec_read(self, address: u16) -> u8 {
        if address == 1 {
            (self.duty_pattern * 64 + 63) as u8
        } else if address == 2 {
            (self.env_initial_volume * 16 + (if self.env_up {
                8int
            } else {
                0int
            }) + self.env_period) as u8
        } else if address == 4 {
            if self.stop_flag {
                0xFF
            } else {
                0xBF
            }
        } else {
            0xFF
        }
    }

    pub fn read(&self, address: u16) -> (r: u8)
        requires
            self.wf(),
        ensures
            r == self.spec_read(address),
    {
        if address == 1 {
            self.duty_pattern * 64 + 63
        } else if address == 2 {
            self.env_initial_volume * 16 + (if self.env_up {
                8
            } else {
                0
            }) + self.env_period
        } else if address == 4 {
            if self.stop_flag {
                0xFF
            } else {
                0xBF
            }
        } else {
            0xFF
        }
    }

    pub open spec fn spec_write(self, address: u16, data: u8) -> Ch2 {
        if address == 1 {
            Ch2 {
                duty_pattern: ((data as int / 64) % 4) as u8,
                length: (data % 64) as u8,
                length_timer: (64 - data % 64) as u8,
                ..self
            }
        } else if address == 2 {
            let a = Ch2 {
                env_initial_volume: (data as int / 16) as u8,
                env_up: spec_bit8(data, 3),
                env_period: (data % 8) as u8,
                ..self
            };
            Ch2 { channel_on: a.channel_on && a.spec_dac_enable(), ..a }
        } else if address == 3 {
            Ch2 { frequency: ((self.frequency as int / 256) * 256 + data) as u16, ..self }
        } else if address == 4 {
            let a = Ch2 {
                frequency: (self.frequency % 256 + (data % 8) * 256) as u16,
                stop_flag: spec_bit8(data, 6),
                ..self
            };
            let b = if !self.stop_flag && a.stop_flag && a.length_ticking {
                a.spec_length()
            } else {
                a
            };
            if spec_bit8(data, 7) {
                b.spec_trigger()
            } else {
                b
            }
        } else {
            self
        }
    }

    pub fn write(&mut self, address: u16, data: u8)
        requires
            old(self).wf(),
        ensures
            final(self).wf(),
            *final(self) == old(self).spec_write(address, data),
    {
        if address == 1 {
            self.duty_pattern = (data / 64) % 4;
            self.length = data % 64;
            self.length_timer = 64 - self.length;
        } else if address == 2 {
            self.env_initial_volume = data / 16;
            self.env_up = bit8(data, 3);
            self.env_period = data % 8;
            self.channel_on = self.channel_on && self.dac_enable();
        } else if address == 3 {
            self.frequency = (self.frequency / 256) * 256 + data as u16;
        } else if address == 4 {
            self.frequency = self.frequency % 256 + (data as u16 % 8) * 256;
            let prev_stop_flag = self.stop_flag;
            self.stop_flag = bit8(data, 6);

            if !prev_stop_flag && self.stop_flag && self.length_ticking {
                self.length();
            }

            if bit8(data, 7) {
                self.trigger();
            }
        }
    }

    /// This channel's duty table runs one phase behind channel 1's.
    pub open spec fn spec_duty(pattern: u8, position: u8) -> bool {
        if pattern == 0 {
            position == 7
        } else if pattern == 1 {
            position >= 6
        } else if pattern == 2 {
            position >= 4
        } else {
            position <= 5
        }
    }

    pub open spec fn spec_output(self) -> int {
        if !self.channel_on {
            0
        } else if Self::spec_duty(self.duty_pattern, self.duty_position) {
            self.volume as int
        } else {
            0
        }
    }

    pub fn output(&self) -> (r: u8)
        requires
            self.wf(),
        ensures
            r == self.spec_output(),
            r <= 15,
    {
        if !self.channel_on {
            return 0;
        }
        let high = if self.duty_pattern == 0 {
            self.duty_position == 7
        } else if self.duty_pattern == 1 {
            self.duty_position >= 6
        } else if self.duty_pattern == 2 {
            self.duty_position >= 4
        } else {
            self.duty_position <= 5
        };
        if high {
            self.volume
        } else {
            0
        }
    }

    pub open spec fn spec_new() -> Ch2 {
        Ch2 {
            length: 0,
            length_timer: 0,
            length_ticking: false,
            stop_flag: false,
            duty_pattern: 0,
            env_initial_volume: 0,
            env_up: false,
            env_period: 0,
            env_timer: 0,
            frequency: 0,
            duty_position: 0,
            frequency_timer: 0,
            volume: 0,
            channel_on: false,
        }
    }

    pub fn new() -> (r: Ch2)
        ensures
            r == Ch2::spec_new(),
            r.wf(),
    {
        Ch2 {
            length: 0,
            length_timer: 0,
            length_ticking: false,
            stop_flag: false,
            duty_pattern: 0,
            env_initial_volume: 0,
            env_up: false,
            env_period: 0,
            env_timer: 0,
            frequency: 0,
            duty_position: 0,
            frequency_timer: 0,
            volume: 0,
            channel_on: false,
        }
    }
}

impl Ch3 {
    pub open spec fn wf(self) -> bool {
        &&& self.volume < 4
        &&& self.frequency < 2048
        &&& self.position < 32
        &&& self.length_timer <= 256
    }

    /// The wave channel's DAC is gated directly by its enable bit.
    pub open spec fn spec_dac_enable(self) -> bool {
        self.enable
    }

    pub open spec fn spec_length(self) -> Ch3 {
        if !self.stop_flag || self.length_timer == 0 {
            self
        } else {
            Ch3 {
                length_timer: (self.length_timer - 1) as u16,
                channel_on: self.channel_on && self.length_timer != 1,
                ..self
            }
        }
    }

    pub fn length(&mut self)
        ensures
            *final(self) == old(self).spec_length(),
    {
        if !self.stop_flag || self.length_timer == 0 {
            return;
        }
        self.length_timer = self.length_timer - 1;
        if self.length_timer == 0 {
            self.channel_on = false;
        }
    }

    pub open spec fn spec_frequency_tick(self) -> Ch3 {
        let t = if self.frequency_timer == 0 {
            0xFFFFu16
        } else {
            (self.frequency_timer - 1) as u16
        };
        if t == 0 {
            Ch3 {
                frequency_timer: ((2048 - self.frequency) * 2) as u16,
                position: ((self.position + 1) % 32) as u8,
                ..self
            }
        } else {
            Ch3 { frequency_timer: t, ..self }
        }
    }

    pub fn frequency_tick(&mut self)
        requires
            old(self).wf(),
        ensures
            final(self).wf(),
            *final(self) == old(self).spec_frequency_tick(),
    {
        if self.frequency_timer == 0 {
            self.frequency_timer = 0xFFFF;
        } else {
            self.frequency_timer = self.frequency_timer - 1;
        }

        if self.frequency_timer == 0 {
            self.frequency_timer = (2048 - self.frequency) * 2;
            self.position = (self.position + 1) % 32;
        }
    }

    pub open spec fn spec_extra_length(self) -> Ch3 {
        if self.stop_flag && self.length_ticking {
            self.spec_length()
        } else {
            self
        }
    }

    pub open spec fn spec_trigger(self) -> Ch3 {
        let a = Ch3 { channel_on: self.spec_dac_enable(), ..self };
        let b = if a.length_timer == 0 {
            (Ch3 { length_timer: 256, ..a }).spec_extra_length()
        } else {
            a
        };
        Ch3 {
            frequency_timer: ((2048 - b.frequency) * 2) as u16,
            position: 0,
            ..b
        }
    }

    pub fn trigger(&mut self)
        requires
            old(self).wf(),
        ensures
            final(self).wf(),
            *final(self) == old(self).spec_trigger(),
    {
        self.channel_on = self.enable;
        if self.length_timer == 0 {
            self.length_timer = 256;
            if self.stop_flag && self.length_ticking {
                self.length();
            }
        }
        self.frequency_timer = (2048 - self.frequency) * 2;
        self.position = 0;
    }

    /// Register reads; offsets 0x30..=0x3F read the wave RAM.
    pub open spec fn spec_read(self, address: u16) -> u8 {
        if address == 0 {
            if self.enable {
                0xFF
            } else {
                0x7F
            }
        } else if address == 2 {
            (0x9F + self.volume * 32) as u8
        } else if address == 4 {
            if self.stop_flag {
                0xFF
            } else {
                0xBF
            }
        } else if 0x30 <= address <= 0x3F {
            self.wave_pattern_ram@[address - 0x30]
        } else {
            0xFF
        }
    }

    pub fn read(&self, address: u16) -> (r: u8)
        requires
            self.wf(),
        ensures
            r == self.spec_read(address),
    {
        if address == 0 {
            if self.enable {
                0xFF
            } else {
                0x7F
            }
        } else if address == 2 {
            0x9F + self.volume * 32
        } else if address == 4 {
            if self.stop_flag {
                0xFF
            } else {
                0xBF
            }
        } else if 0x30 <= address && address <= 0x3F {
            self.wave_pattern_ram[(address - 0x30) as usize]
        } else {
            0xFF
        }
    }

    /// The channel state after a register write, wave RAM included; only
    /// the wave RAM view can change on a 0x30..=0x3F write.
    pub open spec fn spec_write_regs(self, address: u16, data: u8) -> Ch3 {
        if address == 0 {
            let e = spec_bit8(data, 7);
            Ch3 { enable: e, channel_on: self.channel_on && e, ..self }
        } else if address == 1 {
            Ch3 { length: data, length_timer: (256 - data) as u16, ..self }
        } else if address == 2 {
            Ch3 { volume: ((data as int / 32) % 4) as u8, ..self }
        } else if address == 3 {
            Ch3 { frequency: ((self.frequency as int / 256) * 256 + data) as u16, ..self }
        } else if address == 4 {
            let a = Ch3 {
                frequency: (self.frequency % 256 + (data % 8) * 256) as u16,
                stop_flag: spec_bit8(data, 6),
                ..self
            };
            let b = if !self.stop_flag && a.stop_flag && a.length_ticking {
                a.spec_length()
            } else {
                a
            };
            if spec_bit8(data, 7) {
                b.spec_trigger()
            } else {
                b
            }
        } else {
            self
        }
    }

    pub fn write(&mut self, address: u16, data: u8)
        requires
            old(self).wf(),
        ensures
            final(self).wf(),
            0x30 <= address <= 0x3F ==> *final(self) == (Ch3 {
                wave_pattern_ram: final(self).wave_pattern_ram,
                ..*old(self)
            }) && final(self).wave_pattern_ram@ == old(self).wave_pattern_ram@.update(
                address - 0x30,
                data,
            ),
            !(0x30 <= address <= 0x3F) ==> *final(self) == old(self).spec_write_regs(
                address,
                data,
            ),
    {
        if address == 0 {
            self.enable = bit8(data, 7);
            self.channel_on = self.channel_on && self.enable;
        } else if address == 1 {
            self.length = data;
            self.length_timer = 256 - data as u16;
        } else if address == 2 {
            self.volume = (data / 32) % 4;
        } else if address == 3 {
            self.frequency = (self.frequency / 256) * 256 + data as u16;
        } else if address == 4 {
            self.frequency = self.frequency % 256 + (data as u16 % 8) * 256;
            let prev_stop_flag = self.stop_flag;
            self.stop_flag = bit8(data, 6);

            if !prev_stop_flag && self.stop_flag && self.length_ticking {
                self.length();
            }

            if bit8(data, 7) {
                self.trigger();
            }
        } else if 0x30 <= address && address <= 0x3F {
            self.wave_pattern_ram[(address - 0x30) as usize] = data;
        }
    }

    /// The current 4-bit wave sample: even positions read the high nibble.
    pub open spec fn spec_sample(self) -> int {
        if self.position % 2 == 0 {
            self.wave_pattern_ram@[self.position as int / 2] as int / 16
        } else {
            self.wave_pattern_ram@[self.position as int / 2] as int % 16
        }
    }

    /// The DAC input: the sample shifted right by 0, 1 or 2 for volume
    /// codes 1..=3; code 0 or a silenced channel gives 0.
    pub open spec fn spec_output(self) -> int {
        if self.volume == 0 || !self.channel_on {
            0
        } else {
            self.spec_sample() / spec_pow2(self.volume - 1)
        }
    }

    pub fn output(&self) -> (r: u8)
        requires
            self.wf(),
        ensures
            r == self.spec_output(),
            r <= 15,
    {
        if self.volume == 0 || !self.channel_on {
            return 0;
        }
        let raw = if self.position % 2 == 0 {
            self.wave_pattern_ram[(self.position / 2) as usize] / 16
        } else {
            self.wave_pattern_ram[(self.position / 2) as usize] % 16
        };
        proof {
            reveal_with_fuel(spec_pow2, 4);
        }
        if self.volume == 1 {
            raw
        } else if self.volume == 2 {
            raw / 2
        } else {
            raw / 4
        }
    }

    /// The reset state, around a given wave RAM (an APU power cycle keeps
    /// the wave RAM).
    pub open spec fn spec_new_with_ram(ram: [u8; 16]) -> Ch3 {
        Ch3 {
            channel_on: false,
            length: 0,
            length_timer: 0,
            length_ticking: false,
            volume: 0,
            frequency: 0,
            frequency_timer: 0,
            position: 0,
            wave_pattern_ram: ram,
            enable: false,
            stop_flag: false,
        }
    }

    pub fn new() -> (r: Ch3)
        ensures
            r.wf(),
            r == Ch3::spec_new_with_ram(r.wave_pattern_ram),
            forall|k: int| 0 <= k < 16 ==> r.wave_pattern_ram@[k] == 0u8,
    {
        Ch3 {
            channel_on: false,
            length: 0,
            length_timer: 0,
            length_ticking: false,
            volume: 0,
            frequency: 0,
            frequency_timer: 0,
            position: 0,
            wave_pattern_ram: [0u8; 16],
            enable: false,
            stop_flag: false,
        }
    }
}

impl Ch4 {
    pub open spec fn wf(self) -> bool {
        &&& self.env_initial_volume < 16
        &&& self.env_period < 8
        &&& self.volume < 16
        &&& self.divisor_code < 8
        &&& self.shift_amount < 16
        &&& self.lfsr < 32768
        &&& self.divisor == (if self.divisor_code == 0 {
            8int
        } else {
            16 * self.divisor_code
        })
    }

    pub open spec fn spec_dac_enable(self) -> bool {
        self.env_initial_volume > 0 || self.env_up
    }

    pub fn dac_enable(&self) -> (r: bool)
        ensures
            r == self.spec_dac_enable(),
    {
        self.env_initial_volume > 0 || self.env_up
    }

    pub open spec fn spec_length(self) -> Ch4 {
        if !self.stop_flag || self.length_timer == 0 {
            self
        } else {
            Ch4 {
                length_timer: (self.length_timer - 1) as u8,
                channel_on: self.channel_on && self.length_timer != 1,
                ..self
            }
        }
    }

    pub fn length(&mut self)
        ensures
            *final(self) == old(self).spec_length(),
    {
        if !self.stop_flag || self.length_timer == 0 {
            return;
        }
        self.length_timer = self.length_timer - 1;
        if self.length_timer == 0 {
            self.channel_on = false;
        }
    }

    pub open spec fn spec_envelope(self) -> Ch4 {
        if self.env_period == 0 {
            self
        } else {
            let t = if self.env_timer > 0 {
                (self.env_timer - 1) as u8
            } else {
                0
            };
            if t == 0 {
                Ch4 {
                    env_timer: self.env_period,
                    volume: if self.env_up {
                        if self.volume < 15 {
                            (self.volume + 1) as u8
                        } else {
                            self.volume
                        }
                    } else {
                        if self.volume > 0 {
                            (self.volume - 1) as u8
                        } else {
                            self.volume
                        }
                    },
                    ..self
                }
            } else {
                Ch4 { env_timer: t, ..self }
            }
        }
    }

    pub fn envelope(&mut self)
        requires
            old(self).wf(),
        ensures
            final(self).wf(),
            *final(self) == old(self).spec_envelope(),
    {
        if self.env_period != 0 {
            if self.env_timer > 0 {
                self.env_timer = self.env_timer - 1;
            }
            if self.env_timer == 0 {
                self.env_timer = self.env_period;
                if self.env_up {
                    if self.volume < 15 {
                        self.volume = self.volume + 1;
                    }
                } else {
                    if self.volume > 0 {
                        self.volume = self.volume - 1;
                    }
                }
            }
        }
    }

    /// The frequency timer reload `divisor << shift`, truncated to 16 bits.
    pub open spec fn spec_timer_reload(self) -> u16 {
        ((self.divisor as int * spec_pow2(self.shift_amount as int)) % 65536) as u16
    }

    /// One LFSR step: bits 0 and 1 xor into bit 14 after the shift right,
    /// and also into bit 6 in 7-bit width mode.
    pub open spec fn spec_lfsr_next(self) -> u16 {
        let x: int = if (self.lfsr % 2 == 1) != (self.lfsr as int / 2 % 2 == 1) {
            1
        } else {
            0
        };
        if self.counter_width {
            let t = self.lfsr as int / 2;
            ((t - (t / 64 % 2) * 64) + x * 64) as u16
        } else {
            (self.lfsr as int / 2 + x * 16384) as u16
        }
    }

    pub open spec fn spec_frequency_tick(self) -> Ch4 {
        let t = if self.frequency_timer == 0 {
            0xFFFFu16
        } else {
            (self.frequency_timer - 1) as u16
        };
        if t == 0 {
            Ch4 {
                frequency_timer: self.spec_timer_reload(),
                lfsr: self.spec_lfsr_next(),
                ..self
            }
        } else {
            Ch4 { frequency_timer: t, ..self }
        }
    }

    fn timer_reload(&self) -> (r: u16)
        requires
            self.wf(),
        ensures
            r == self.spec_timer_reload(),
    {
        proof {
            crate::util::lemma_pow2_pos(self.shift_amount as int);
            reveal_with_fuel(spec_pow2, 16);
        }
        let p = pow2_u16(self.shift_amount);
        proof {
            assert(self.divisor as int * p as int <= 112 * 65535) by (nonlinear_arith)
                requires
                    self.divisor <= 112,
                    p <= 65535,
            ;
        }
        ((self.divisor as u32 * p as u32) % 65536) as u16
    }

    pub fn frequency_tick(&mut self)
        requires
            old(self).wf(),
        ensures
            final(self).wf(),
            *final(self) == old(self).spec_frequency_tick(),
    {
        if self.frequency_timer == 0 {
            self.frequency_timer = 0xFFFF;
        } else {
            self.frequency_timer = self.frequency_timer - 1;
        }

        if self.frequency_timer == 0 {
            self.frequency_timer = self.timer_reload();
            let b0: u16 = self.lfsr % 2;
            let b1: u16 = self.lfsr / 2 % 2;
            let x: u16 = if b0 != b1 {
                1
            } else {
                0
            };
            if self.counter_width {
                let t = self.lfsr / 2;
                self.lfsr = (t - (t / 64 % 2) * 64) + x * 64;
            } else {
                self.lfsr = self.lfsr / 2 + x * 16384;
            }
        }
    }

    pub open spec fn spec_extra_length(self) -> Ch4 {
        if self.stop_flag && self.length_ticking {
            self.spec_length()
        } else {
            self
        }
    }

    /// Retrigger: the LFSR is reseeded to all ones.
    pub open spec fn spec_trigger(self) -> Ch4 {
        let a = Ch4 { channel_on: self.spec_dac_enable(), ..self };
        let b = if a.length_timer == 0 {
            (Ch4 { length_timer: 64, ..a }).spec_extra_length()
        } else {
            a
        };
        Ch4 {
            frequency_timer: b.spec_timer_reload(),
            env_timer: b.env_period,
            volume: b.env_initial_volume,
            lfsr: 0x7FFF,
            ..b
        }
    }

    pub fn trigger(&mut self)
        requires
            old(self).wf(),
        ensures
            final(self).wf(),
            *final(self) == old(self).spec_trigger(),
    {
        self.channel_on = self.dac_enable();
        if self.length_timer == 0 {
            self.length_timer = 64;
            if self.stop_flag && self.length_ticking {
                self.length();
            }
        }
        self.frequency_timer = self.timer_reload();
        self.env_timer = self.env_period;
        self.volume = self.env_initial_volume;
        self.lfsr = 0x7FFF;
    }

    pub open spec fn spec_read(self, address: u16) -> u8 {
        if address == 2 {
            (self.env_initial_volume * 16 + (if self.env_up {
                8int
            } else {
                0int
            }) + self.env_period) as u8
        } else if address == 3 {
            (self.shift_amount * 16 + (if self.counter_width {
                8int
            } else {
                0int
            }) + self.divisor_code) as u8
        } else if address == 4 {
            if self.stop_flag {
                0xFF
            } else {
                0xBF
            }
        } else {
            0xFF
        }
    }

    pub fn read(&self, address: u16) -> (r: u8)
        requires
            self.wf(),
        ensures
            r == self.spec_read(address),
    {
        if address == 2 {
            self.env_initial_volume * 16 + (if self.env_up {
                8
            } else {
                0
            }) + self.env_period
        } else if address == 3 {
            self.shift_amount * 16 + (if self.counter_width {
                8
            } else {
                0
            }) + self.divisor_code
        } else if address == 4 {
            if self.stop_flag {
                0xFF
            } else {
                0xBF
            }
        } else {
            0xFF
        }
    }

    pub open spec fn spec_write(self, address: u16, data: u8) -> Ch4 {
        if address == 1 {
            Ch4 {
                length: (data % 64) as u8,
                length_timer: (64 - data % 64) as u8,
                ..self
            }
        } else if address == 2 {
            let a = Ch4 {
                env_initial_volume: (data as int / 16) as u8,
                env_up: spec_bit8(data, 3),
                env_period: (data % 8) as u8,
                ..self
            };
            Ch4 { channel_on: a.channel_on && a.spec_dac_enable(), ..a }
        } else if address == 3 {
            let code = (data % 8) as u8;
            Ch4 {
                shift_amount: (data as int / 16) as u8,
                counter_width: spec_bit8(data, 3),
                divisor_code: code,
                divisor: if code == 0 {
                    8
                } else {
                    (16 * code) as u8
                },
                ..self
            }
        } else if address == 4 {
            let a = Ch4 { stop_flag: spec_bit8(data, 6), ..self };
            let b = if !self.stop_flag && a.stop_flag && a.length_ticking {
                a.spec_length()
            } else {
                a
            };
            if spec_bit8(data, 7) {
                b.spec_trigger()
            } else {
                b
            }
        } else {
            self
        }
    }

    pub fn write(&mut self, address: u16, data: u8)
        requires
            old(self).wf(),
        ensures
            final(self).wf(),
            *final(self) == old(self).spec_write(address, data),
    {
        if address == 1 {
            self.length = data % 64;
            self.length_timer = 64 - self.length;
        } else if address == 2 {
            self.env_initial_volume = data / 16;
            self.env_up = bit8(data, 3);
            self.env_period = data % 8;
            self.channel_on = self.channel_on && self.dac_enable();
        } else if address == 3 {
            self.shift_amount = data / 16;
            self.counter_width = bit8(data, 3);
            self.divisor_code = data % 8;

            if self.divisor_code == 0 {
                self.divisor = 8;
            } else {
                self.divisor = 16 * self.divisor_code;
            }
        } else if address == 4 {
            let prev_stop_flag = self.stop_flag;
            self.stop_flag = bit8(data, 6);

            if !prev_stop_flag && self.stop_flag && self.length_ticking {
                self.length();
            }

            if bit8(data, 7) {
                self.trigger();
            }
        }
    }

    /// The DAC input: the envelope volume while LFSR bit 0 is clear.
    pub open spec fn spec_output(self) -> int {
        if !self.channel_on {
            0
        } else if self.lfsr % 2 == 0 {
            self.volume as int
        } else {
            0
        }
    }

    pub fn output(&self) -> (r: u8)
        requires
            self.wf(),
        ensures
            r == self.spec_output(),
            r <= 15,
    {
        if !self.channel_on {
            return 0;
        }
        if self.lfsr % 2 == 0 {
            self.volume
        } else {
            0
        }
    }

    pub open spec fn spec_new() -> Ch4 {
        Ch4 {
            length: 0,
            length_timer: 0,
            length_ticking: false,
            stop_flag: false,
            env_initial_volume: 0,
            env_up: false,
            env_period: 0,
            env_timer: 0,
            frequency_timer: 0,
            divisor: 8,
            divisor_code: 0,
            shift_amount: 0,
            lfsr: 0x7FFF,
            counter_width: false,
            volume: 0,
            channel_on: false,
        }
    }

    pub fn new() -> (r: Ch4)
        ensures
            r == Ch4::spec_new(),
            r.wf(),
    {
        Ch4 {
            length: 0,
            length_timer: 0,
            length_ticking: false,
            stop_flag: false,
            env_initial_volume: 0,
            env_up: false,
            env_period: 0,
            env_timer: 0,
            frequency_timer: 0,
            divisor: 8,
            divisor_code: 0,
            shift_amount: 0,
            lfsr: 0x7FFF,
            counter_width: false,
            volume: 0,
            channel_on: false,
        }
    }
}

impl SoundControl {
    pub open spec fn wf(self) -> bool {
        &&& self.left_volume < 8
        &&& self.right_volume < 8
    }

    pub open spec fn spec_new() -> SoundControl {
        SoundControl {
            left_volume: 0,
            right_volume: 0,
            select_output: 0,
            vin_left: false,
            vin_right: false,
            sound_on: false,
        }
    }
}

/// The whole synthesis unit: four channels, master control, the frame
/// sequencer's step and DIV-bit edge detector, and the bounded stereo
/// sample ring.
pub struct Sound {
    pub ch1: Ch1,
    pub ch2: Ch2,
    pub ch3: Ch3,
    pub ch4: Ch4,
    /// T-cycles since the last emitted sample.
    pub current_cycle: usize,
    /// Frame-sequencer position 0..=7.
    pub frame_step: u8,
    /// Last seen DIV bit 4, for the falling-edge detector.
    pub prev_bit: bool,
    pub sound_control: SoundControl,
    /// Bounded ring of mixed samples, as exact integer numerators
    /// (see `spec_mix`).
    pub sound_buffer: Vec<(i16, i16)>,
    pub buffer_capacity: usize,
    pub sample_rate: usize,
}

impl Sound {
    pub open spec fn wf(self) -> bool {
        &&& self.ch1.wf()
        &&& self.ch2.wf()
        &&& self.ch3.wf()
        &&& self.ch4.wf()
        &&& self.sound_control.wf()
        &&& self.frame_step < 8
        &&& 1 <= self.sample_rate <= 4194304
        &&& self.current_cycle < self.spec_output_cycle()
        &&& self.sound_buffer@.len() <= self.buffer_capacity
    }

    /// T-cycles per emitted sample at the host's rate.
    pub open spec fn spec_output_cycle(self) -> int {
        4194304int / self.sample_rate as int
    }

    /// One length clock for all four channels; the length counters tick in
    /// this half of the sequencer period.
    pub open spec fn spec_length_all(self) -> Sound {
        Sound {
            ch1: (Ch1 { length_ticking: true, ..self.ch1 }).spec_length(),
            ch2: (Ch2 { length_ticking: true, ..self.ch2 }).spec_length(),
            ch3: (Ch3 { length_ticking: true, ..self.ch3 }).spec_length(),
            ch4: (Ch4 { length_ticking: true, ..self.ch4 }).spec_length(),
            ..self
        }
    }

    /// The length counters do not tick in this half of the period.
    pub open spec fn spec_ticking_off(self) -> Sound {
        Sound {
            ch1: Ch1 { length_ticking: false, ..self.ch1 },
            ch2: Ch2 { length_ticking: false, ..self.ch2 },
            ch3: Ch3 { length_ticking: false, ..self.ch3 },
            ch4: Ch4 { length_ticking: false, ..self.ch4 },
            ..self
        }
    }

    /// What one sequencer step clocks: lengths on steps 0, 2, 4 and 6, the
    /// sweep on 2 and 6, the envelopes on 7.
    pub open spec fn spec_seq_step(self, step: u8) -> Sound {
        if step == 0 || step == 4 {
            self.spec_length_all()
        } else if step == 2 || step == 6 {
            (Sound { ch1: self.ch1.spec_sweep(), ..self }).spec_length_all()
        } else if step == 7 {
            let a = Sound {
                ch1: self.ch1.spec_envelope(),
                ch2: self.ch2.spec_envelope(),
                ch4: self.ch4.spec_envelope(),
                ..self
            };
            a.spec_ticking_off()
        } else {
            self.spec_ticking_off()
        }
    }

    /// The exact stereo sample the mixer emits, as integer numerators: for
    /// each side, the sum over routed channels of the channel's DAC value
    /// (0..=15) times the side's master volume (0..=7).  The host divides
    /// by `15 * 7` and scales to its range.
    pub open spec fn spec_mix(self) -> (i16, i16) {
        let o1 = self.ch1.spec_output();
        let o2 = self.ch2.spec_output();
        let o3 = self.ch3.spec_output();
        let o4 = self.ch4.spec_output();
        let sel = self.sound_control.select_output;
        let rv = self.sound_control.right_volume as int;
        let lv = self.sound_control.left_volume as int;
        let right = (if spec_bit8(sel, 0) {
            o1
        } else {
            0
        }) * rv + (if spec_bit8(sel, 1) {
            o2
        } else {
            0
        }) * rv + (if spec_bit8(sel, 2) {
            o3
        } else {
            0
        }) * rv + (if spec_bit8(sel, 3) {
            o4
        } else {
            0
        }) * rv;
        let left = (if spec_bit8(sel, 4) {
            o1
        } else {
            0
        }) * lv + (if spec_bit8(sel, 5) {
            o2
        } else {
            0
        }) * lv + (if spec_bit8(sel, 6) {
            o3
        } else {
            0
        }) * lv + (if spec_bit8(sel, 7) {
            o4
        } else {
            0
        }) * lv;
        (left as i16, right as i16)
    }

    /// The state one T-cycle later, before the sample step: frequency
    /// timers tick, and the frame sequencer steps on a 1 -> 0 edge of DIV
    /// bit 4.
    pub open spec fn spec_tick_pre_sample(self, div: u8) -> Sound {
        let a = Sound {
            ch1: self.ch1.spec_frequency_tick(),
            ch2: self.ch2.spec_frequency_tick(),
            ch3: self.ch3.spec_frequency_tick(),
            ch4: self.ch4.spec_frequency_tick(),
            ..self
        };
        let cur = spec_bit8(div, 4);
        let falling = self.prev_bit && !cur;
        let step = if falling {
            ((self.frame_step + 1) % 8) as u8
        } else {
            self.frame_step
        };
        let b = if falling {
            a.spec_seq_step(step)
        } else {
            a
        };
        Sound { frame_step: step, prev_bit: cur, ..b }
    }

    /// Whether this T-cycle completes an output period, so a sample is
    /// emitted.
    pub open spec fn spec_emits_sample(self) -> bool {
        self.current_cycle + 1 >= self.spec_output_cycle()
    }

    /// The sample-period counter after this T-cycle.
    pub open spec fn spec_next_cycle_count(self) -> usize {
        if self.spec_emits_sample() {
            (self.current_cycle + 1 - self.spec_output_cycle()) as usize
        } else {
            (self.current_cycle + 1) as usize
        }
    }

    #[verifier::rlimit(60)]
    fn length_all(&mut self)
        requires
            old(self).wf(),
        ensures
            final(self).wf(),
            *final(self) == old(self).spec_length_all(),
    {
        self.ch1.length_ticking = true;
        self.ch2.length_ticking = true;
        self.ch3.length_ticking = true;
        self.ch4.length_ticking = true;
        self.ch1.length();
        self.ch2.length();
        self.ch3.length();
        self.ch4.length();
    }

    fn ticking_off(&mut self)
        requires
            old(self).wf(),
        ensures
            final(self).wf(),
            *final(self) == old(self).spec_ticking_off(),
    {
        self.ch1.length_ticking = false;
        self.ch2.length_ticking = false;
        self.ch3.length_ticking = false;
        self.ch4.length_ticking = false;
    }

    fn mix(&self) -> (r: (i16, i16))
        requires
            self.wf(),
        ensures
            r == self.spec_mix(),
    {
        let o1 = self.output_gated(self.ch1.output(), 0) as i16;
        let o2 = self.output_gated(self.ch2.output(), 1) as i16;
        let o3 = self.output_gated(self.ch3.output(), 2) as i16;
        let o4 = self.output_gated(self.ch4.output(), 3) as i16;
        let l1 = self.output_gated(self.ch1.output(), 4) as i16;
        let l2 = self.output_gated(self.ch2.output(), 5) as i16;
        let l3 = self.output_gated(self.ch3.output(), 6) as i16;
        let l4 = self.output_gated(self.ch4.output(), 7) as i16;
        let rv = self.sound_control.right_volume as i16;
        let lv = self.sound_control.left_volume as i16;
        proof {
            assert(o1 * rv <= 105 && o2 * rv <= 105 && o3 * rv <= 105 && o4 * rv <= 105 && l1 * lv
                <= 105 && l2 * lv <= 105 && l3 * lv <= 105 && l4 * lv <= 105 && o1 * rv >= 0 && o2
                * rv >= 0 && o3 * rv >= 0 && o4 * rv >= 0 && l1 * lv >= 0 && l2 * lv >= 0 && l3
                * lv >= 0 && l4 * lv >= 0) by (nonlinear_arith)
                requires
                    0 <= o1 <= 15,
                    0 <= o2 <= 15,
                    0 <= o3 <= 15,
                    0 <= o4 <= 15,
                    0 <= l1 <= 15,
                    0 <= l2 <= 15,
                    0 <= l3 <= 15,
                    0 <= l4 <= 15,
                    0 <= rv <= 7,
                    0 <= lv <= 7,
            ;
        }
        let right = o1 * rv + o2 * rv + o3 * rv + o4 * rv;
        let left = l1 * lv + l2 * lv + l3 * lv + l4 * lv;
        (left, right)
    }

    /// A channel's DAC value, or 0 when its routing bit is off.
    fn output_gated(&self, out: u8, routing_bit: u8) -> (r: u8)
        requires
            routing_bit < 8,
            out <= 15,
        ensures
            r == if spec_bit8(self.sound_control.select_output, routing_bit as int) {
                out
            } else {
                0u8
            },
            r <= 15,
    {
        if bit8(self.sound_control.select_output, routing_bit) {
            out
        } else {
            0
        }
    }

    /// The frequency-timer and frame-sequencer part of one T-cycle.
    #[verifier::rlimit(100)]
    fn pre_sample_tick(&mut self, div: u8)
        requires
            old(self).wf(),
        ensures
            final(self).wf(),
            *final(self) == old(self).spec_tick_pre_sample(div),
    {
        self.ch1.frequency_tick();
        self.ch2.frequency_tick();
        self.ch3.frequency_tick();
        self.ch4.frequency_tick();

        let cur_bit = bit8(div, 4);

        if self.prev_bit && !cur_bit {
            self.frame_step = (self.frame_step + 1) % 8;

            if self.frame_step == 0 || self.frame_step == 4 {
                self.length_all();
            } else if self.frame_step == 2 || self.frame_step == 6 {
                self.ch1.sweep();
                self.length_all();
            } else if self.frame_step == 7 {
                self.ch1.envelope();
                self.ch2.envelope();
                self.ch4.envelope();
                self.ticking_off();
            } else {
                self.ticking_off();
            }
        }

        self.prev_bit = cur_bit;
    }

    /// One T-cycle of the unit, fed the current DIV register value: the
    /// pre-sample transition, then every `spec_output_cycle` T-cycles one
    /// mixed sample enters the ring (dropped when the ring is full).  A
    /// powered-off unit is inert.
    #[verifier::rlimit(100)]
    pub fn tick(&mut self, div: u8)
        requires
            old(self).wf(),
        ensures
            final(self).wf(),
            !old(self).sound_control.sound_on ==> *final(self) == *old(self),
            old(self).sound_control.sound_on ==> ({
                let pre = old(self).spec_tick_pre_sample(div);
                &&& *final(self) == (Sound {
                    current_cycle: old(self).spec_next_cycle_count(),
                    sound_buffer: final(self).sound_buffer,
                    ..pre
                })
                &&& final(self).sound_buffer@ == if old(self).spec_emits_sample()
                    && old(self).sound_buffer@.len() < old(self).buffer_capacity {
                    old(self).sound_buffer@.push(pre.spec_mix())
                } else {
                    old(self).sound_buffer@
                }
            }),
    {
        if !self.sound_control.sound_on {
            return;
        }

        self.pre_sample_tick(div);

        let output_cycle = 4194304 / self.sample_rate;
        if self.current_cycle + 1 >= output_cycle {
            self.current_cycle = self.current_cycle + 1 - output_cycle;
            if self.sound_buffer.len() < self.buffer_capacity {
                let sample = self.mix();
                self.sound_buffer.push(sample);
            }
        } else {
            self.current_cycle = self.current_cycle + 1;
        }
    }

    /// What a register read in 0xFF10..=0xFF3F returns.
    pub open spec fn spec_read(self, address: u16) -> u8 {
        if 0xFF10 <= address <= 0xFF14 {
            self.ch1.spec_read((address - 0xFF10) as u16)
        } else if 0xFF15 <= address <= 0xFF19 {
            self.ch2.spec_read((address - 0xFF15) as u16)
        } else if 0xFF1A <= address <= 0xFF1E {
            self.ch3.spec_read((address - 0xFF1A) as u16)
        } else if 0xFF1F <= address <= 0xFF23 {
            self.ch4.spec_read((address - 0xFF1F) as u16)
        } else if address == 0xFF24 {
            ((if self.sound_control.vin_left {
                128int
            } else {
                0int
            }) + self.sound_control.left_volume * 16 + (if self.sound_control.vin_right {
                8int
            } else {
                0int
            }) + self.sound_control.right_volume) as u8
        } else if address == 0xFF25 {
            self.sound_control.select_output
        } else if address == 0xFF26 {
            ((if self.sound_control.sound_on {
                128int
            } else {
                0int
            }) + 0x70 + (if self.ch4.channel_on {
                8int
            } else {
                0int
            }) + (if self.ch3.channel_on {
                4int
            } else {
                0int
            }) + (if self.ch2.channel_on {
                2int
            } else {
                0int
            }) + (if self.ch1.channel_on {
                1int
            } else {
                0int
            })) as u8
        } else if 0xFF30 <= address <= 0xFF3F {
            self.ch3.spec_read((address - 0xFF00) as u16)
        } else {
            0xFF
        }
    }

    pub fn read(&self, address: u16) -> (r: u8)
        requires
            self.wf(),
        ensures
            r == self.spec_read(address),
    {
        if 0xFF10 <= address && address <= 0xFF14 {
            self.ch1.read(address - 0xFF10)
        } else if 0xFF15 <= address && address <= 0xFF19 {
            self.ch2.read(address - 0xFF15)
        } else if 0xFF1A <= address && address <= 0xFF1E {
            self.ch3.read(address - 0xFF1A)
        } else if 0xFF1F <= address && address <= 0xFF23 {
            self.ch4.read(address - 0xFF1F)
        } else if address == 0xFF24 {
            (if self.sound_control.vin_left {
                128
            } else {
                0
            }) + self.sound_control.left_volume * 16 + (if self.sound_control.vin_right {
                8
            } else {
                0
            }) + self.sound_control.right_volume
        } else if address == 0xFF25 {
            self.sound_control.select_output
        } else if address == 0xFF26 {
            (if self.sound_control.sound_on {
                128
            } else {
                0
            }) + 0x70 + (if self.ch4.channel_on {
                8
            } else {
                0
            }) + (if self.ch3.channel_on {
                4
            } else {
                0
            }) + (if self.ch2.channel_on {
                2
            } else {
                0
            }) + (if self.ch1.channel_on {
                1
            } else {
                0
            })
        } else if 0xFF30 <= address && address <= 0xFF3F {
            self.ch3.read(address - 0xFF00)
        } else {
            0xFF
        }
    }

    /// Powering the unit off resets everything but the wave RAM, the edge
    /// detector memo, the sample ring and its rate; the sequencer restarts
    /// at step 7.
    pub open spec fn spec_reset(self) -> Sound {
        Sound {
            ch1: Ch1::spec_new(),
            ch2: Ch2::spec_new(),
            ch3: Ch3::spec_new_with_ram(self.ch3.wave_pattern_ram),
            ch4: Ch4::spec_new(),
            frame_step: 7,
            current_cycle: 0,
            sound_control: SoundControl::spec_new(),
            ..self
        }
    }

    fn reset(&mut self)
        requires
            old(self).wf(),
        ensures
            final(self).wf(),
            *final(self) == old(self).spec_reset(),
    {
        self.ch1 = Ch1::new();
        let wave = self.ch3.wave_pattern_ram;
        self.ch2 = Ch2::new();
        self.ch3 = Ch3::new();
        self.ch3.wave_pattern_ram = wave;
        self.ch4 = Ch4::new();
        self.frame_step = 7;
        self.current_cycle = 0;
        self.sound_control = SoundControl {
            left_volume: 0,
            right_volume: 0,
            select_output: 0,
            vin_left: false,
            vin_right: false,
            sound_on: false,
        };
    }

    /// The state after a register write in 0xFF10..=0xFF3F.  While the unit
    /// is powered on every register accepts writes; a 0 written to bit 7 of
    /// 0xFF26 powers it off and resets all state but the wave RAM.  While
    /// off, only the power bit and the wave RAM accept writes; powering
    /// back on restarts the frame sequencer at step 7.
    #[verifier::opaque]
    pub open spec fn spec_write(self, address: u16, data: u8) -> Sound {
        if self.sound_control.sound_on {
            if 0xFF10 <= address <= 0xFF14 {
                Sound { ch1: self.ch1.spec_write((address - 0xFF10) as u16, data), ..self }
            } else if 0xFF15 <= address <= 0xFF19 {
                Sound { ch2: self.ch2.spec_write((address - 0xFF15) as u16, data), ..self }
            } else if 0xFF1A <= address <= 0xFF1E {
                Sound { ch3: self.ch3.spec_write_regs((address - 0xFF1A) as u16, data), ..self }
            } else if 0xFF1F <= address <= 0xFF23 {
                Sound { ch4: self.ch4.spec_write((address - 0xFF1F) as u16, data), ..self }
            } else if address == 0xFF24 {
                Sound {
                    sound_control: SoundControl {
                        vin_left: spec_bit8(data, 7),
                        vin_right: spec_bit8(data, 3),
                        left_volume: ((data as int / 16) % 8) as u8,
                        right_volume: (data % 8) as u8,
                        ..self.sound_control
                    },
                    ..self
                }
            } else if address == 0xFF25 {
                Sound {
                    sound_control: SoundControl { select_output: data, ..self.sound_control },
                    ..self
                }
            } else if address == 0xFF26 {
                if !spec_bit8(data, 7) {
                    self.spec_reset()
                } else {
                    self
                }
            } else {
                self
            }
        } else {
            if address == 0xFF26 {
                if spec_bit8(data, 7) {
                    Sound {
                        sound_control: SoundControl { sound_on: true, ..self.sound_control },
                        frame_step: 7,
                        ..self
                    }
                } else {
                    self
                }
            } else {
                self
            }
        }
    }

    /// Whether an address lands in the wave RAM, which accepts writes even
    /// with the unit powered off.
    pub open spec fn spec_is_wave(address: u16) -> bool {
        0xFF30 <= address <= 0xFF3F
    }

    pub fn write(&mut self, address: u16, data: u8)
        requires
            old(self).wf(),
        ensures
            final(self).wf(),
            !Self::spec_is_wave(address) ==> *final(self) == old(self).spec_write(address, data),
            Self::spec_is_wave(address) ==> *final(self) == (Sound {
                ch3: final(self).ch3,
                ..*old(self)
            }) && final(self).ch3 == (Ch3 {
                wave_pattern_ram: final(self).ch3.wave_pattern_ram,
                ..old(self).ch3
            }) && final(self).ch3.wave_pattern_ram@ == old(self).ch3.wave_pattern_ram@.update(
                address - 0xFF30,
                data,
            ),
    {
        proof {
            reveal(Sound::spec_write);
        }
        if self.sound_control.sound_on {
            if 0xFF10 <= address && address <= 0xFF14 {
                self.ch1.write(address - 0xFF10, data);
            } else if 0xFF15 <= address && address <= 0xFF19 {
                self.ch2.write(address - 0xFF15, data);
            } else if 0xFF1A <= address && address <= 0xFF1E {
                self.ch3.write(address - 0xFF1A, data);
            } else if 0xFF1F <= address && address <= 0xFF23 {
                self.ch4.write(address - 0xFF1F, data);
            } else if address == 0xFF24 {
                self.sound_control.vin_left = bit8(data, 7);
                self.sound_control.vin_right = bit8(data, 3);
                self.sound_control.left_volume = (data / 16) % 8;
                self.sound_control.right_volume = data % 8;
            } else if address == 0xFF25 {
                self.sound_control.select_output = data;
            } else if address == 0xFF26 {
                if !bit8(data, 7) {
                    self.reset();
                }
            } else if 0xFF30 <= address && address <= 0xFF3F {
                self.ch3.write(address - 0xFF00, data);
            }
        } else {
            if address == 0xFF26 {
                if bit8(data, 7) {
                    self.sound_control.sound_on = true;
                    self.frame_step = 7;
                }
            } else if 0xFF30 <= address && address <= 0xFF3F {
                self.ch3.write(address - 0xFF00, data);
            }
        }
    }

    /// Hand the host the oldest mixed sample, if one is waiting.
    pub fn pop_sample(&mut self) -> (r: Option<(i16, i16)>)
        requires
            old(self).wf(),
        ensures
            final(self).wf(),
            old(self).sound_buffer@.len() == 0 ==> r is None && *final(self) == *old(self),
            old(self).sound_buffer@.len() > 0 ==> r == Some(old(self).sound_buffer@[0])
                && *final(self) == (Sound {
                sound_buffer: final(self).sound_buffer,
                ..*old(self)
            }) && final(self).sound_buffer@ == old(self).sound_buffer@.subrange(
                1,
                old(self).sound_buffer@.len() as int,
            ),
    {
        if self.sound_buffer.len() == 0 {
            None
        } else {
            let sample = self.sound_buffer.remove(0);
            Some(sample)
        }
    }

    /// How many mixed samples are waiting in the ring.
    pub fn sample_count(&self) -> (r: usize)
        ensures
            r == self.sound_buffer@.len(),
    {
        self.sound_buffer.len()
    }

    /// A powered-off unit with an empty ring of the given capacity,
    /// emitting one sample per `4_194_304 / sample_rate` T-cycles.
    pub fn new(sample_rate: usize, buffer_size: usize) -> (r: Sound)
        requires
            1 <= sample_rate <= 4194304,
        ensures
            r.wf(),
            r.sample_rate == sample_rate,
            r.buffer_capacity == buffer_size,
            r.sound_buffer@.len() == 0,
            r.frame_step == 7,
            !r.sound_control.sound_on,
    {
        proof {
            assert(4194304int / sample_rate as int >= 1) by (nonlinear_arith)
                requires
                    1 <= sample_rate <= 4194304,
            ;
        }
        Sound {
            ch1: Ch1::new(),
            ch2: Ch2::new(),
            ch3: Ch3::new(),
            ch4: Ch4::new(),
            current_cycle: 0,
            frame_step: 7,
            prev_bit: false,
            sound_control: SoundControl {
                left_volume: 0,
                right_volume: 0,
                select_output: 0,
                vin_left: false,
                vin_right: false,
                sound_on: false,
            },
            sound_buffer: Vec::new(),
            buffer_capacity: buffer_size,
            sample_rate,
        }
    }
}

/// Powering the unit off and back on restarts the frame sequencer at step
/// 7, so the next length clock (step 0) comes only after a full sequencer
/// period.
pub proof fn lemma_power_cycle_resets_sequencer(s: Sound, data_off: u8, data_on: u8)
    requires
        s.wf(),
        s.sound_control.sound_on,
        !spec_bit8(data_off, 7),
        spec_bit8(data_on, 7),
    ensures
        ({
            let off = s.spec_write(0xFF26, data_off);
            let on = off.spec_write(0xFF26, data_on);
            &&& !off.sound_control.sound_on
            &&& on.sound_control.sound_on
            &&& on.frame_step == 7
            &&& on.ch3.wave_pattern_ram == s.ch3.wave_pattern_ram
        }),
{
    reveal(Sound::spec_write);
}

} // verus!


