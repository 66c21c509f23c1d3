//! The audio unit: two square channels with envelope (channel 1 also with
//! sweep), the wave channel, the LFSR noise channel, the 512 Hz frame
//! sequencer and the sample clock that emits one sample every 87 T-cycles.
//!
//! A sample is kept as the four channels' DAC levels (each 0..=15, absent
//! for a disabled channel); turning levels into signed PCM is the host's
//! one floating-point step.

use vstd::prelude::*;
use crate::memory::{Memory, MemView};
use crate::cpu::{spec_pow2, pow2};
use crate::ppu::{spec_pow2_16, pow2_16};

verus! {

/// One audio sample: the DAC input level (0..=15) of each channel that is
/// enabled in NR52, `None` for a disabled channel. The host maps each
/// level v to the amplitude v/7.5 - 1, sums the four contributions and
/// divides by 4.
#[derive(Clone, Copy, Debug, PartialEq, Eq)]
pub struct AudioSample {
    pub ch1: Option<u8>,
    pub ch2: Option<u8>,
    pub ch3: Option<u8>,
    pub ch4: Option<u8>,
}

/// Audio-unit state: per-channel frequency timers and positions, length
/// timers, envelope timers and volumes, channel-1 sweep state, the frame
/// sequencer, the sample clock and the output buffer.
pub struct APU {
    pub audio_buffer: Vec<AudioSample>,
    pub sampling_timer: usize,
    pub frame_sequencer_counter: usize,
    pub frame_sequencer_clock_counter: usize,
    pub frequency_timer_1: usize,
    pub wave_duty_position_1: usize,
    pub period_timer_1: usize,
    pub length_timer_1: usize,
    pub sweep_enable_1: bool,
    pub shadow_frequency_1: usize,
    pub sweep_timer_1: usize,
    pub current_volume_1: usize,
    pub frequency_timer_2: usize,
    pub wave_duty_position_2: usize,
    pub period_timer_2: usize,
    pub length_timer_2: usize,
    pub current_volume_2: usize,
    pub sample_index_3: usize,
    pub length_timer_3: usize,
    pub frequency_timer_3: usize,
    pub period_timer_4: usize,
    pub length_timer_4: usize,
    pub current_volume_4: usize,
    pub frequency_timer_4: usize,
    pub lfsr: usize,
}

/// Mathematical view of the audio-unit state.
#[verifier::ext_equal]
pub ghost struct ApuView {
    pub audio_buffer: Seq<AudioSample>,
    pub sampling_timer: usize,
    pub frame_sequencer_counter: usize,
    pub frame_sequencer_clock_counter: usize,
    pub frequency_timer_1: usize,
    pub wave_duty_position_1: usize,
    pub period_timer_1: usize,
    pub length_timer_1: usize,
    pub sweep_enable_1: bool,
    pub shadow_frequency_1: usize,
    pub sweep_timer_1: usize,
    pub current_volume_1: usize,
    pub frequency_timer_2: usize,
    pub wave_duty_position_2: usize,
    pub period_timer_2: usize,
    pub length_timer_2: usize,
    pub current_volume_2: usize,
    pub sample_index_3: usize,
    pub length_timer_3: usize,
    pub frequency_timer_3: usize,
    pub period_timer_4: usize,
    pub length_timer_4: usize,
    pub current_volume_4: usize,
    pub frequency_timer_4: usize,
    pub lfsr: usize,
}

impl View for APU {
    type V = ApuView;

    open spec fn view(&self) -> ApuView {
        ApuView {
            audio_buffer: self.audio_buffer@,
            sampling_timer: self.sampling_timer,
            frame_sequencer_counter: self.frame_sequencer_counter,
            frame_sequencer_clock_counter: self.frame_sequencer_clock_counter,
            frequency_timer_1: self.frequency_timer_1,
            wave_duty_position_1: self.wave_duty_position_1,
            period_timer_1: self.period_timer_1,
            length_timer_1: self.length_timer_1,
            sweep_enable_1: self.sweep_enable_1,
            shadow_frequency_1: self.shadow_frequency_1,
            sweep_timer_1: self.sweep_timer_1,
            current_volume_1: self.current_volume_1,
            frequency_timer_2: self.frequency_timer_2,
            wave_duty_position_2: self.wave_duty_position_2,
            period_timer_2: self.period_timer_2,
            length_timer_2: self.length_timer_2,
            current_volume_2: self.current_volume_2,
            sample_index_3: self.sample_index_3,
            length_timer_3: self.length_timer_3,
            frequency_timer_3: self.frequency_timer_3,
            period_timer_4: self.period_timer_4,
            length_timer_4: self.length_timer_4,
            current_volume_4: self.current_volume_4,
            frequency_timer_4: self.frequency_timer_4,
            lfsr: self.lfsr,
        }
    }
}

impl ApuView {
    /// Well-formedness: the dividers stay below their wrap points, duty and
    /// wave positions within their tables, volumes within the DAC range,
    /// the sweep shadow within the 11-bit frequency range and the LFSR
    /// within 15 bits.
    pub open spec fn wf(self) -> bool {
        &&& self.sampling_timer < 87
        &&& self.frame_sequencer_counter < 8192
        &&& self.frame_sequencer_clock_counter <= 7
        &&& self.wave_duty_position_1 <= 7
        &&& self.wave_duty_position_2 <= 7
        &&& self.sample_index_3 <= 31
        &&& self.current_volume_1 <= 15
        &&& self.current_volume_2 <= 15
        &&& self.current_volume_4 <= 15
        &&& self.shadow_frequency_1 <= 2047
        &&& self.lfsr < 32768
    }
}

/// The audio-unit state a fresh machine starts with.
pub open spec fn spec_apu_init() -> ApuView {
    ApuView {
        audio_buffer: Seq::empty(),
        sampling_timer: 0,
        frame_sequencer_counter: 0,
        frame_sequencer_clock_counter: 0,
        frequency_timer_1: 0,
        wave_duty_position_1: 0,
        period_timer_1: 0,
        length_timer_1: 0,
        sweep_enable_1: false,
        shadow_frequency_1: 0,
        sweep_timer_1: 0,
        current_volume_1: 0,
        frequency_timer_2: 0,
        wave_duty_position_2: 0,
        period_timer_2: 0,
        length_timer_2: 0,
        current_volume_2: 0,
        sample_index_3: 0,
        length_timer_3: 0,
        frequency_timer_3: 0,
        period_timer_4: 0,
        length_timer_4: 0,
        current_volume_4: 0,
        frequency_timer_4: 0,
        lfsr: 0,
    }
}

/// The 11-bit square-channel frequency held in an NRx3/NRx4 register pair.
pub open spec fn spec_square_freq(nrx3: u8, nrx4: u8) -> int {
    nrx3 + (nrx4 % 8) * 256
}

/// The square-wave level (0 or 1) for a duty pattern at a phase position.
pub open spec fn spec_waveform(duty: int, pos: int) -> int {
    if duty == 0 {
        if pos == 7 {
            1
        } else {
            0
        }
    } else if duty == 1 {
        if pos >= 6 {
            1
        } else {
            0
        }
    } else if duty == 2 {
        if pos >= 4 {
            1
        } else {
            0
        }
    } else {
        if pos <= 5 {
            1
        } else {
            0
        }
    }
}

fn waveform(duty: u8, pos: usize) -> (r: u8)
    ensures
        r as int == spec_waveform(duty as int, pos as int),
        r <= 1,
{
    if duty == 0 {
        if pos == 7 {
            1
        } else {
            0
        }
    } else if duty == 1 {
        if pos >= 6 {
            1
        } else {
            0
        }
    } else if duty == 2 {
        if pos >= 4 {
            1
        } else {
            0
        }
    } else {
        if pos <= 5 {
            1
        } else {
            0
        }
    }
}

/// The noise-channel period in T-cycles selected by NR43: a divisor keyed
/// by the low three bits, shifted up by the high four bits.
pub open spec fn spec_noise_period(nr43: u8) -> int {
    let code = nr43 % 8;
    (if code > 0 {
        code * 16
    } else {
        8int
    }) * spec_pow2_16((nr43 / 16) as int)
}

fn noise_period(nr43: u8) -> (r: usize)
    ensures
        r as int == spec_noise_period(nr43),
{
    let code = nr43 % 8;
    let base: usize = if code > 0 {
        (code as usize) * 16
    } else {
        8
    };
    let scale = pow2_16((nr43 / 16) as usize) as usize;
    proof {
        assert(base * scale <= 112 * 0x8000) by (nonlinear_arith)
            requires
                base <= 112,
                scale <= 0x8000,
        ;
    }
    base * scale
}

/// The sweep unit's next frequency, and the bus after its overflow check:
/// a result beyond 2047 switches channel 1 off in NR52.
pub open spec fn spec_calc_freq(a: ApuView, m: MemView) -> (int, MemView) {
    let shift = (m.nr10 % 8) as int;
    let delta = (a.shadow_frequency_1 as int) / (spec_pow2(shift) as int);
    let newf: int = if (m.nr10 / 8) % 2 == 1 {
        a.shadow_frequency_1 - delta
    } else {
        a.shadow_frequency_1 + delta
    };
    (
        newf,
        if newf > 2047 {
            MemView { nr52: (m.nr52 - m.nr52 % 2) as u8, ..m }
        } else {
            m
        },
    )
}

/// Channel triggers: a store that set bit 7 of an NRx4 register clears the
/// bit, marks the channel enabled in NR52 and reinitializes the channel
/// (frequency timer, length timer, envelope, and for channel 1 the sweep
/// unit with its immediate overflow check).
pub open spec fn spec_apu_trigger(a: ApuView, m: MemView) -> (ApuView, MemView) {
    let (a1, m1): (ApuView, MemView) = if (m.nr14 / 128) % 2 == 1 {
        let m2 = MemView { nr14: (m.nr14 - 128) as u8, nr52: m.nr52 | 1, ..m };
        let freq = spec_square_freq(m2.nr13, m2.nr14);
        let sweep_period = (m2.nr10 / 16) % 8;
        let sweep_shift = m2.nr10 % 8;
        let a2 = ApuView {
            frequency_timer_1: ((2048 - freq) * 4) as usize,
            length_timer_1: (64 - m2.nr11 % 64) as usize,
            current_volume_1: (m2.nr12 / 16) as usize,
            period_timer_1: (m2.nr12 % 8) as usize,
            shadow_frequency_1: freq as usize,
            sweep_timer_1: 8,
            sweep_enable_1: sweep_period != 0 || sweep_shift != 0,
            ..a
        };
        if sweep_shift != 0 {
            (a2, spec_calc_freq(a2, m2).1)
        } else {
            (a2, m2)
        }
    } else {
        (a, m)
    };
    let (a3, m3): (ApuView, MemView) = if (m1.nr24 / 128) % 2 == 1 {
        let m4 = MemView { nr24: (m1.nr24 - 128) as u8, nr52: m1.nr52 | 2, ..m1 };
        (
            ApuView {
                frequency_timer_2: ((2048 - spec_square_freq(m4.nr23, m4.nr24)) * 4) as usize,
                length_timer_2: (64 - m4.nr21 % 64) as usize,
                current_volume_2: (m4.nr22 / 16) as usize,
                period_timer_2: (m4.nr22 % 8) as usize,
                ..a1
            },
            m4,
        )
    } else {
        (a1, m1)
    };
    let (a5, m5): (ApuView, MemView) = if (m3.nr34 / 128) % 2 == 1 {
        let m6 = MemView { nr34: (m3.nr34 - 128) as u8, nr52: m3.nr52 | 4, ..m3 };
        (
            ApuView {
                frequency_timer_3: ((2048 - spec_square_freq(m6.nr33, m6.nr34)) * 4) as usize,
                length_timer_3: (256 - m6.nr31) as usize,
                sample_index_3: 0,
                ..a3
            },
            m6,
        )
    } else {
        (a3, m3)
    };
    if (m5.nr44 / 128) % 2 == 1 {
        let m7 = MemView { nr44: (m5.nr44 - 128) as u8, nr52: m5.nr52 | 8, ..m5 };
        (
            ApuView {
                frequency_timer_4: spec_noise_period(m7.nr43) as usize,
                length_timer_4: (64 - m7.nr41 % 64) as usize,
                current_volume_4: (m7.nr42 / 16) as usize,
                period_timer_4: (m7.nr42 % 8) as usize,
                lfsr: 0x7fff,
                ..a5
            },
            m7,
        )
    } else {
        (a5, m5)
    }
}

/// Frequency-timer countdown: when a channel's timer runs out, its wave
/// position (duty phase, wave sample index, or LFSR) advances and the
/// timer reloads from the channel's frequency registers. A timer at 0
/// belongs to an untriggered channel and stays put.
pub open spec fn spec_apu_freq(a: ApuView, m: MemView) -> ApuView {
    let a1: ApuView = if a.frequency_timer_1 == 1 {
        ApuView {
            frequency_timer_1: ((2048 - spec_square_freq(m.nr13, m.nr14)) * 4) as usize,
            wave_duty_position_1: ((a.wave_duty_position_1 + 1) % 8) as usize,
            ..a
        }
    } else if a.frequency_timer_1 > 1 {
        ApuView { frequency_timer_1: (a.frequency_timer_1 - 1) as usize, ..a }
    } else {
        a
    };
    let a2: ApuView = if a1.frequency_timer_2 == 1 {
        ApuView {
            frequency_timer_2: ((2048 - spec_square_freq(m.nr23, m.nr24)) * 4) as usize,
            wave_duty_position_2: ((a1.wave_duty_position_2 + 1) % 8) as usize,
            ..a1
        }
    } else if a1.frequency_timer_2 > 1 {
        ApuView { frequency_timer_2: (a1.frequency_timer_2 - 1) as usize, ..a1 }
    } else {
        a1
    };
    let a3: ApuView = if a2.frequency_timer_3 == 1 {
        ApuView {
            frequency_timer_3: ((2048 - spec_square_freq(m.nr33, m.nr34)) * 4) as usize,
            sample_index_3: ((a2.sample_index_3 + 1) % 32) as usize,
            ..a2
        }
    } else if a2.frequency_timer_3 > 1 {
        ApuView { frequency_timer_3: (a2.frequency_timer_3 - 1) as usize, ..a2 }
    } else {
        a2
    };
    if a3.frequency_timer_4 == 1 {
        let l = a3.lfsr as int;
        let xor = (l % 2 + (l / 2) % 2) % 2;
        let l2 = l / 2 + xor * 16384;
        let l3: int = if (m.nr43 / 8) % 2 == 1 {
            (l2 / 128) * 128 + xor * 64 + l2 % 64
        } else {
            l2
        };
        ApuView {
            frequency_timer_4: spec_noise_period(m.nr43) as usize,
            lfsr: l3 as usize,
            ..a3
        }
    } else if a3.frequency_timer_4 > 1 {
        ApuView { frequency_timer_4: (a3.frequency_timer_4 - 1) as usize, ..a3 }
    } else {
        a3
    }
}

/// One envelope step of a channel: when the envelope period is nonzero and
/// the period timer runs out, the volume moves one step towards the bound
/// of the direction NRx2 selects.
pub open spec fn spec_env_step(nrx2: u8, ptimer: usize, vol: usize) -> (usize, usize) {
    if nrx2 % 8 != 0 {
        let pt: usize = if ptimer > 0 {
            (ptimer - 1) as usize
        } else {
            ptimer
        };
        if pt == 0 {
            let v: usize = if (nrx2 / 8) % 2 == 1 && vol < 0xf {
                (vol + 1) as usize
            } else if (nrx2 / 8) % 2 == 0 && vol > 0 {
                (vol - 1) as usize
            } else {
                vol
            };
            ((nrx2 % 8) as usize, v)
        } else {
            (pt, vol)
        }
    } else {
        (ptimer, vol)
    }
}

/// One length step of a channel: with length enabled in NRx4 and a running
/// length timer, the timer counts down; at zero the channel's enable bit
/// in NR52 clears. `mask` keeps every NR52 bit but the channel's.
pub open spec fn spec_len_step(nrx4: u8, len: usize, nr52: u8, mask: u8) -> (usize, u8) {
    if (nrx4 / 64) % 2 == 1 && len > 0 {
        let l2 = (len - 1) as usize;
        if l2 == 0 {
            (l2, nr52 & mask)
        } else {
            (l2, nr52)
        }
    } else {
        (len, nr52)
    }
}

/// One sweep step of channel 1: the sweep timer counts down; at zero it
/// reloads (8 when the sweep period is zero) and, with the sweep unit
/// enabled, computes the next frequency, writes it back to NR13/NR14 and
/// the shadow register when it fits and the shift is nonzero, and runs the
/// overflow check a second time.
pub open spec fn spec_sweep_step(a: ApuView, m: MemView) -> (ApuView, MemView) {
    let sweep_period = (m.nr10 / 16) % 8;
    let sweep_shift = m.nr10 % 8;
    let st: usize = if a.sweep_timer_1 > 0 {
        (a.sweep_timer_1 - 1) as usize
    } else {
        a.sweep_timer_1
    };
    if st == 0 {
        let st2: usize = if sweep_period > 0 {
            sweep_period as usize
        } else {
            8
        };
        let a1 = ApuView { sweep_timer_1: st2, ..a };
        if a.sweep_enable_1 && sweep_period > 0 {
            let (newf, m1) = spec_calc_freq(a1, m);
            if newf <= 2047 && sweep_shift > 0 {
                let m2 = MemView {
                    nr13: (newf % 256) as u8,
                    nr14: (m1.nr14 - m1.nr14 % 8 + newf / 256) as u8,
                    ..m1
                };
                let a2 = ApuView { shadow_frequency_1: newf as usize, ..a1 };
                (a2, spec_calc_freq(a2, m2).1)
            } else {
                (a1, m1)
            }
        } else {
            (a1, m)
        }
    } else {
        (ApuView { sweep_timer_1: st, ..a }, m)
    }
}

/// One frame-sequencer advance, every 8192 T-cycles: step 7 clocks the
/// envelopes, even steps clock the length timers, steps 2 and 6 clock the
/// sweep, then the step counter advances modulo 8.
pub open spec fn spec_apu_seq(a: ApuView, m: MemView) -> (ApuView, MemView) {
    if a.frame_sequencer_counter + 1 == 8192 {
        let cc = a.frame_sequencer_clock_counter;
        let a0 = ApuView { frame_sequencer_counter: 0, ..a };
        let (a1, m1): (ApuView, MemView) = if cc == 7 {
            let (p1, v1) = spec_env_step(m.nr12, a0.period_timer_1, a0.current_volume_1);
            let (p2, v2) = spec_env_step(m.nr22, a0.period_timer_2, a0.current_volume_2);
            let (p4, v4) = spec_env_step(m.nr42, a0.period_timer_4, a0.current_volume_4);
            (
                ApuView {
                    period_timer_1: p1,
                    current_volume_1: v1,
                    period_timer_2: p2,
                    current_volume_2: v2,
                    period_timer_4: p4,
                    current_volume_4: v4,
                    ..a0
                },
                m,
            )
        } else {
            (a0, m)
        };
        let (a2, m2): (ApuView, MemView) = if cc % 2 == 0 {
            let (l1, s1) = spec_len_step(m1.nr14, a1.length_timer_1, m1.nr52, 0xfe);
            let (l2, s2) = spec_len_step(m1.nr24, a1.length_timer_2, s1, 0xfd);
            let (l3, s3) = spec_len_step(m1.nr34, a1.length_timer_3, s2, 0xfb);
            let (l4, s4) = spec_len_step(m1.nr44, a1.length_timer_4, s3, 0xf7);
            (
                ApuView {
                    length_timer_1: l1,
                    length_timer_2: l2,
                    length_timer_3: l3,
                    length_timer_4: l4,
                    ..a1
                },
                MemView { nr52: s4, ..m1 },
            )
        } else {
            (a1, m1)
        };
        let (a3, m3): (ApuView, MemView) = if cc == 2 || cc == 6 {
            spec_sweep_step(a2, m2)
        } else {
            (a2, m2)
        };
        (
            ApuView { frame_sequencer_clock_counter: ((cc + 1) % 8) as usize, ..a3 },
            m3,
        )
    } else {
        (ApuView { frame_sequencer_counter: (a.frame_sequencer_counter + 1) as usize, ..a }, m)
    }
}

/// The sample the mixer emits: the DAC level of each channel enabled in
/// NR52 (square duty levels scaled by the envelope volume, the selected
/// wave RAM nibble scaled by NR32, the LFSR output scaled by the
/// envelope), `None` for disabled channels.
pub open spec fn spec_sample(a: ApuView, m: MemView) -> AudioSample {
    AudioSample {
        ch1: if m.nr52 % 2 == 1 {
            Some(
                if spec_waveform((m.nr11 / 64) as int, a.wave_duty_position_1 as int) == 0 {
                    0u8
                } else {
                    a.current_volume_1 as u8
                },
            )
        } else {
            None
        },
        ch2: if (m.nr52 / 2) % 2 == 1 {
            Some(
                if spec_waveform((m.nr21 / 64) as int, a.wave_duty_position_2 as int) == 0 {
                    0u8
                } else {
                    a.current_volume_2 as u8
                },
            )
        } else {
            None
        },
        ch3: if (m.nr52 / 4) % 2 == 1 {
            let byte = m.read((0xff30 + a.sample_index_3 / 2) as u16);
            let nib: u8 = if a.sample_index_3 % 2 == 0 {
                byte / 16
            } else {
                byte % 16
            };
            let volume = (m.nr32 / 32) % 4;
            Some(
                if volume == 0 {
                    nib / 16
                } else if volume == 2 {
                    nib / 2
                } else if volume == 3 {
                    nib / 4
                } else {
                    nib
                },
            )
        } else {
            None
        },
        ch4: if (m.nr52 / 8) % 2 == 1 {
            Some(
                if a.lfsr % 2 == 0 {
                    a.current_volume_4 as u8
                } else {
                    0
                },
            )
        } else {
            None
        },
    }
}

/// The sample clock: every 87 T-cycles one sample goes to the output
/// buffer.
pub open spec fn spec_apu_sample(a: ApuView, m: MemView) -> ApuView {
    if a.sampling_timer + 1 == 87 {
        ApuView {
            sampling_timer: 0,
            audio_buffer: a.audio_buffer.push(spec_sample(a, m)),
            ..a
        }
    } else {
        ApuView { sampling_timer: (a.sampling_timer + 1) as usize, ..a }
    }
}

/// One T-cycle of the audio unit: channel triggers, frequency-timer
/// countdown, the frame sequencer and the sample clock, in that order.
pub open spec fn spec_apu_tick(a: ApuView, m: MemView) -> (ApuView, MemView) {
    let (a1, m1) = spec_apu_trigger(a, m);
    let a2 = spec_apu_freq(a1, m1);
    let (a3, m3) = spec_apu_seq(a2, m1);
    (spec_apu_sample(a3, m3), m3)
}

impl APU {
    /// Well-formedness of the executable state (see [`ApuView::wf`]).
    pub open spec fn wf(&self) -> bool {
        self@.wf()
    }

    /// A fresh audio unit: everything at zero, empty output buffer.
    pub fn new() -> (r: APU)
        ensures
            r@ == spec_apu_init(),
            r.wf(),
    {
        let r = APU {
            audio_buffer: Vec::new(),
            sampling_timer: 0,
            frame_sequencer_counter: 0,
            frame_sequencer_clock_counter: 0,
            frequency_timer_1: 0,
            wave_duty_position_1: 0,
            period_timer_1: 0,
            length_timer_1: 0,
            sweep_enable_1: false,
            shadow_frequency_1: 0,
            sweep_timer_1: 0,
            current_volume_1: 0,
            frequency_timer_2: 0,
            wave_duty_position_2: 0,
            period_timer_2: 0,
            length_timer_2: 0,
            current_volume_2: 0,
            sample_index_3: 0,
            length_timer_3: 0,
            frequency_timer_3: 0,
            period_timer_4: 0,
            length_timer_4: 0,
            current_volume_4: 0,
            frequency_timer_4: 0,
            lfsr: 0,
        };
        proof {
            assert(r@ =~= spec_apu_init());
        }
        r
    }

    /// The sweep unit's next frequency, with its overflow check applied to
    /// NR52 (see [`spec_calc_freq`]).
    fn calculate_frequency(&self, mem: &mut Memory) -> (r: usize)
        requires
            old(mem).wf(),
            self@.shadow_frequency_1 <= 2047,
        ensures
            r as int == spec_calc_freq(self@, old(mem)@).0,
            final(mem)@ == spec_calc_freq(self@, old(mem)@).1,
            final(mem).wf(),
    {
        let sweep_shift = (mem.nr10 % 8) as usize;
        let delta = self.shadow_frequency_1 / (pow2(sweep_shift) as usize);
        let new_frequency: usize = if (mem.nr10 / 8) % 2 == 1 {
            self.shadow_frequency_1 - delta
        } else {
            self.shadow_frequency_1 + delta
        };
        if new_frequency > 2047 {
            mem.nr52 = mem.nr52 - mem.nr52 % 2;
        }
        new_frequency
    }

    /// Channel triggers (see [`spec_apu_trigger`]).
    #[verifier::rlimit(100)]
    fn trigger_channels(&mut self, mem: &mut Memory)
        requires
            old(self).wf(),
            old(mem).wf(),
        ensures
            final(self)@ == spec_apu_trigger(old(self)@, old(mem)@).0,
            final(mem)@ == spec_apu_trigger(old(self)@, old(mem)@).1,
            final(self).wf(),
            final(mem).wf(),
    {
        if (mem.nr14 / 128) % 2 == 1 {
            mem.nr14 = mem.nr14 - 128;
            mem.nr52 = mem.nr52 | 1;
            let freq = (mem.nr13 as usize) + ((mem.nr14 % 8) as usize) * 256;
            self.frequency_timer_1 = (2048 - freq) * 4;
            self.length_timer_1 = 64 - ((mem.nr11 % 64) as usize);
            self.current_volume_1 = (mem.nr12 / 16) as usize;
            self.period_timer_1 = (mem.nr12 % 8) as usize;
            self.shadow_frequency_1 = freq;
            self.sweep_timer_1 = 8;
            let sweep_period = (mem.nr10 / 16) % 8;
            let sweep_shift = mem.nr10 % 8;
            self.sweep_enable_1 = sweep_period != 0 || sweep_shift != 0;
            if sweep_shift != 0 {
                self.calculate_frequency(mem);
            }
        }
        if (mem.nr24 / 128) % 2 == 1 {
            mem.nr24 = mem.nr24 - 128;
            mem.nr52 = mem.nr52 | 2;
            let freq = (mem.nr23 as usize) + ((mem.nr24 % 8) as usize) * 256;
            self.frequency_timer_2 = (2048 - freq) * 4;
            self.length_timer_2 = 64 - ((mem.nr21 % 64) as usize);
            self.current_volume_2 = (mem.nr22 / 16) as usize;
            self.period_timer_2 = (mem.nr22 % 8) as usize;
        }
        if (mem.nr34 / 128) % 2 == 1 {
            mem.nr34 = mem.nr34 - 128;
            mem.nr52 = mem.nr52 | 4;
            let freq = (mem.nr33 as usize) + ((mem.nr34 % 8) as usize) * 256;
            self.frequency_timer_3 = (2048 - freq) * 4;
            self.length_timer_3 = 256 - (mem.nr31 as usize);
            self.sample_index_3 = 0;
        }
        if (mem.nr44 / 128) % 2 == 1 {
            mem.nr44 = mem.nr44 - 128;
            mem.nr52 = mem.nr52 | 8;
            self.frequency_timer_4 = noise_period(mem.nr43);
            self.length_timer_4 = 64 - ((mem.nr41 % 64) as usize);
            self.current_volume_4 = (mem.nr42 / 16) as usize;
            self.period_timer_4 = (mem.nr42 % 8) as usize;
            self.lfsr = 0x7fff;
        }
    }

    /// Frequency-timer countdown (see [`spec_apu_freq`]).
    #[verifier::rlimit(100)]
    fn advance_frequency_timers(&mut self, mem: &Memory)
        requires
            old(self).wf(),
            mem.wf(),
        ensures
            final(self)@ == spec_apu_freq(old(self)@, mem@),
            final(self).wf(),
    {
        if self.frequency_timer_1 == 1 {
            self.wave_duty_position_1 = (self.wave_duty_position_1 + 1) % 8;
            let freq = (mem.nr13 as usize) + ((mem.nr14 % 8) as usize) * 256;
            self.frequency_timer_1 = (2048 - freq) * 4;
        } else if self.frequency_timer_1 > 1 {
            self.frequency_timer_1 = self.frequency_timer_1 - 1;
        }
        if self.frequency_timer_2 == 1 {
            self.wave_duty_position_2 = (self.wave_duty_position_2 + 1) % 8;
            let freq = (mem.nr23 as usize) + ((mem.nr24 % 8) as usize) * 256;
            self.frequency_timer_2 = (2048 - freq) * 4;
        } else if self.frequency_timer_2 > 1 {
            self.frequency_timer_2 = self.frequency_timer_2 - 1;
        }
        if self.frequency_timer_3 == 1 {
            self.sample_index_3 = (self.sample_index_3 + 1) % 32;
            let freq = (mem.nr33 as usize) + ((mem.nr34 % 8) as usize) * 256;
            self.frequency_timer_3 = (2048 - freq) * 4;
        } else if self.frequency_timer_3 > 1 {
            self.frequency_timer_3 = self.frequency_timer_3 - 1;
        }
        if self.frequency_timer_4 == 1 {
            let l = self.lfsr;
            let xor = (l % 2 + (l / 2) % 2) % 2;
            let l2 = l / 2 + xor * 16384;
            if (mem.nr43 / 8) % 2 == 1 {
                self.lfsr = (l2 / 128) * 128 + xor * 64 + l2 % 64;
            } else {
                self.lfsr = l2;
            }
            self.frequency_timer_4 = noise_period(mem.nr43);
        } else if self.frequency_timer_4 > 1 {
            self.frequency_timer_4 = self.frequency_timer_4 - 1;
        }
    }

    /// One envelope step (see [`spec_env_step`]).
    fn env_step(nrx2: u8, ptimer: usize, vol: usize) -> (r: (usize, usize))
        requires
            vol <= 15,
        ensures
            r == spec_env_step(nrx2, ptimer, vol),
            r.1 <= 15,
    {
        if nrx2 % 8 != 0 {
            let pt: usize = if ptimer > 0 {
                ptimer - 1
            } else {
                ptimer
            };
            if pt == 0 {
                let v: usize = if (nrx2 / 8) % 2 == 1 && vol < 0xf {
                    vol + 1
                } else if (nrx2 / 8) % 2 == 0 && vol > 0 {
                    vol - 1
                } else {
                    vol
                };
                ((nrx2 % 8) as usize, v)
            } else {
                (pt, vol)
            }
        } else {
            (ptimer, vol)
        }
    }

    /// One length step (see [`spec_len_step`]).
    fn len_step(nrx4: u8, len: usize, nr52: u8, mask: u8) -> (r: (usize, u8))
        ensures
            r == spec_len_step(nrx4, len, nr52, mask),
    {
        if (nrx4 / 64) % 2 == 1 && len > 0 {
            let l2 = len - 1;
            if l2 == 0 {
                (l2, nr52 & mask)
            } else {
                (l2, nr52)
            }
        } else {
            (len, nr52)
        }
    }

    /// The frame sequencer (see [`spec_apu_seq`]).
    #[verifier::rlimit(100)]
    fn frame_sequencer(&mut self, mem: &mut Memory)
        requires
            old(self).wf(),
            old(mem).wf(),
        ensures
            final(self)@ == spec_apu_seq(old(self)@, old(mem)@).0,
            final(mem)@ == spec_apu_seq(old(self)@, old(mem)@).1,
            final(self).wf(),
            final(mem).wf(),
    {
        if self.frame_sequencer_counter + 1 == 8192 {
            let cc = self.frame_sequencer_clock_counter;
            self.frame_sequencer_counter = 0;
            if cc == 7 {
                let r1 = Self::env_step(mem.nr12, self.period_timer_1, self.current_volume_1);
                self.period_timer_1 = r1.0;
                self.current_volume_1 = r1.1;
                let r2 = Self::env_step(mem.nr22, self.period_timer_2, self.current_volume_2);
                self.period_timer_2 = r2.0;
                self.current_volume_2 = r2.1;
                let r4 = Self::env_step(mem.nr42, self.period_timer_4, self.current_volume_4);
                self.period_timer_4 = r4.0;
                self.current_volume_4 = r4.1;
            }
            if cc % 2 == 0 {
                let r1 = Self::len_step(mem.nr14, self.length_timer_1, mem.nr52, 0xfe);
                self.length_timer_1 = r1.0;
                let r2 = Self::len_step(mem.nr24, self.length_timer_2, r1.1, 0xfd);
                self.length_timer_2 = r2.0;
                let r3 = Self::len_step(mem.nr34, self.length_timer_3, r2.1, 0xfb);
                self.length_timer_3 = r3.0;
                let r4 = Self::len_step(mem.nr44, self.length_timer_4, r3.1, 0xf7);
                self.length_timer_4 = r4.0;
                mem.nr52 = r4.1;
            }
            if cc == 2 || cc == 6 {
                let sweep_period = (mem.nr10 / 16) % 8;
                let sweep_shift = mem.nr10 % 8;
                if self.sweep_timer_1 > 0 {
                    self.sweep_timer_1 = self.sweep_timer_1 - 1;
                }
                if self.sweep_timer_1 == 0 {
                    if sweep_period > 0 {
                        self.sweep_timer_1 = sweep_period as usize;
                    } else {
                        self.sweep_timer_1 = 8;
                    }
                    if self.sweep_enable_1 && sweep_period > 0 {
                        let new_frequency = self.calculate_frequency(mem);
                        if new_frequency <= 2047 && sweep_shift > 0 {
                            mem.nr13 = (new_frequency % 256) as u8;
                            mem.nr14 = mem.nr14 - mem.nr14 % 8 + ((new_frequency / 256) as u8);
                            self.shadow_frequency_1 = new_frequency;
                            self.calculate_frequency(mem);
                        }
                    }
                }
            }
            self.frame_sequencer_clock_counter = (cc + 1) % 8;
        } else {
            self.frame_sequencer_counter = self.frame_sequencer_counter + 1;
        }
    }

    /// The sample clock (see [`spec_apu_sample`]).
    #[verifier::rlimit(100)]
    fn sample_clock(&mut self, mem: &Memory)
        requires
            old(self).wf(),
            mem.wf(),
        ensures
            final(self)@ == spec_apu_sample(old(self)@, mem@),
            final(self).wf(),
    {
        if self.sampling_timer + 1 == 87 {
            self.sampling_timer = 0;
            let ch1: Option<u8> = if mem.nr52 % 2 == 1 {
                let w = waveform(mem.nr11 / 64, self.wave_duty_position_1);
                Some(
                    if w == 0 {
                        0
                    } else {
                        self.current_volume_1 as u8
                    },
                )
            } else {
                None
            };
            let ch2: Option<u8> = if (mem.nr52 / 2) % 2 == 1 {
                let w = waveform(mem.nr21 / 64, self.wave_duty_position_2);
                Some(
                    if w == 0 {
                        0
                    } else {
                        self.current_volume_2 as u8
                    },
                )
            } else {
                None
            };
            let ch3: Option<u8> = if (mem.nr52 / 4) % 2 == 1 {
                let byte = mem.get_byte(0xff30 + (self.sample_index_3 as u16) / 2);
                let nib: u8 = if self.sample_index_3 % 2 == 0 {
                    byte / 16
                } else {
                    byte % 16
                };
                let volume = (mem.nr32 / 32) % 4;
                Some(
                    if volume == 0 {
                        nib / 16
                    } else if volume == 2 {
                        nib / 2
                    } else if volume == 3 {
                        nib / 4
                    } else {
                        nib
                    },
                )
            } else {
                None
            };
            let ch4: Option<u8> = if (mem.nr52 / 8) % 2 == 1 {
                Some(
                    if self.lfsr % 2 == 0 {
                        self.current_volume_4 as u8
                    } else {
                        0
                    },
                )
            } else {
                None
            };
            self.audio_buffer.push(AudioSample { ch1, ch2, ch3, ch4 });
        } else {
            self.sampling_timer = self.sampling_timer + 1;
        }
    }

    /// One T-cycle of the audio unit (see [`spec_apu_tick`]).
    pub fn tick(&mut self, mem: &mut Memory)
        requires
            old(self).wf(),
            old(mem).wf(),
        ensures
            final(self)@ == spec_apu_tick(old(self)@, old(mem)@).0,
            final(mem)@ == spec_apu_tick(old(self)@, old(mem)@).1,
            final(self).wf(),
            final(mem).wf(),
    {
        self.trigger_channels(mem);
        self.advance_frequency_timers(mem);
        self.frame_sequencer(mem);
        self.sample_clock(mem);
    }

    /// Drop all buffered samples.
    pub fn clear_audio_buffer(&mut self)
        ensures
            final(self)@ == (ApuView { audio_buffer: Seq::empty(), ..old(self)@ }),
    {
        self.audio_buffer.clear();
        proof {
            assert(self@ =~= (ApuView { audio_buffer: Seq::empty(), ..old(self)@ }));
        }
    }
}

} // verus!
