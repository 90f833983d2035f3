//! Audio engine: four independent channel generators mixed and downsampled
//! from the console clock to the output sample rate.

use vstd::prelude::*;

verus! {

/// Output sample rate in hertz.
pub const SAMPLE_RATE: u32 = 44100;

/// Capacity of the circular output buffer, in samples.
pub const BUFFER_SIZE: usize = 1024;

/// Console clock rate in hertz; the downsampling accumulator wraps at this
/// value.
pub const CLOCK_RATE: u32 = 4194304;

/// The four audio channel kinds.
#[derive(Debug, Clone, Copy)]
pub enum ChannelType {
    Square1,
    Square2,
    Wave,
    Noise,
}

/// A sample value clamped to the signed 16-bit range.
pub open spec fn spec_clamp_i16(x: int) -> i16 {
    if x < -32768 {
        -32768i16
    } else if x > 32767 {
        32767i16
    } else {
        x as i16
    }
}

/// Clamps a mixed value to the signed 16-bit range.
fn clamp_sample(x: i32) -> (r: i16)
    ensures
        r == spec_clamp_i16(x as int),
{
    if x < -32768 {
        -32768
    } else if x > 32767 {
        32767
    } else {
        x as i16
    }
}

/// Square wave channel.
pub struct SquareChannel {
    pub enabled: bool,
    pub frequency: u16,
    pub duty_cycle: u8,
    pub volume: u8,
    pub envelope_period: u8,
    pub envelope_direction: bool,
    pub length: u8,
    pub length_enabled: bool,
    /// Phase accumulator; the duty pattern bit is read at bits 16 through 18.
    pub phase: u32,
    pub envelope_counter: u8,
    pub current_volume: u8,
}

/// The fixed duty pattern selected by the low two bits of the duty setting:
/// 12.5%, 25%, 50% or 75% of the period high.
pub open spec fn spec_duty_pattern(d: u8) -> u8 {
    if d & 3 == 0 {
        0x01
    } else if d & 3 == 1 {
        0x81
    } else if d & 3 == 2 {
        0x87
    } else {
        0x7E
    }
}

/// The sample a square channel emits: silence at zero volume, otherwise the
/// envelope volume scaled to a 16-bit range, positive where the duty
/// pattern bit at the current phase is set and negative where it is clear.
pub open spec fn spec_square_output(ch: SquareChannel) -> i16 {
    if ch.current_volume == 0 {
        0
    } else {
        let pattern = spec_duty_pattern(ch.duty_cycle);
        let bit = (pattern >> ((ch.phase >> 16) & 7)) & 1;
        if bit != 0 {
            spec_clamp_i16(ch.current_volume * 512)
        } else {
            spec_clamp_i16(-(ch.current_volume as int) * 512)
        }
    }
}

/// The square channel state after one emission: the phase advances by
/// eight times the frequency setting, wrapping at 32 bits; a silent channel
/// does not advance.
pub open spec fn spec_square_next(ch: SquareChannel) -> SquareChannel {
    if ch.current_volume == 0 {
        ch
    } else {
        SquareChannel { phase: ch.phase.wrapping_add((ch.frequency * 8) as u32), ..ch }
    }
}

/// A square channel exactly as construction leaves it: disabled, silent,
/// with every setting and accumulator at zero.
pub open spec fn spec_silent_square() -> SquareChannel {
    SquareChannel {
        enabled: false,
        frequency: 0,
        duty_cycle: 0,
        volume: 0,
        envelope_period: 0,
        envelope_direction: false,
        length: 0,
        length_enabled: false,
        phase: 0,
        envelope_counter: 0,
        current_volume: 0,
    }
}

impl SquareChannel {
    /// Creates a silent square channel.
    pub fn new() -> (ch: SquareChannel)
        ensures
            !ch.enabled,
            ch.frequency == 0,
            ch.duty_cycle == 0,
            ch.volume == 0,
            ch.envelope_period == 0,
            !ch.envelope_direction,
            ch.length == 0,
            !ch.length_enabled,
            ch.phase == 0,
            ch.envelope_counter == 0,
            ch.current_volume == 0,
            ch == spec_silent_square(),
    {
        SquareChannel {
            enabled: false,
            frequency: 0,
            duty_cycle: 0,
            volume: 0,
            envelope_period: 0,
            envelope_direction: false,
            length: 0,
            length_enabled: false,
            phase: 0,
            envelope_counter: 0,
            current_volume: 0,
        }
    }

    /// Emits one sample and advances the phase accumulator.
    pub fn get_sample(&mut self) -> (sample: i16)
        ensures
            sample == spec_square_output(*old(self)),
            *final(self) == spec_square_next(*old(self)),
    {
        if self.current_volume == 0 {
            return 0;
        }
        let pattern: u8 = match self.duty_cycle & 3 {
            0 => 0x01,
            1 => 0x81,
            2 => 0x87,
            _ => 0x7E,
        };
        let bit_index = (self.phase >> 16) & 7;
        proof {
            let p = self.phase;
            assert((p >> 16) & 7 < 8) by (bit_vector);
        }
        let bit = (pattern >> bit_index) & 1;
        let magnitude = self.current_volume as i32 * 512;
        let sample = if bit != 0 {
            clamp_sample(magnitude)
        } else {
            clamp_sample(-magnitude)
        };
        self.phase = self.phase.wrapping_add(self.frequency as u32 * 8);
        sample
    }
}

/// Wavetable channel with a 32-entry sample table.
pub struct WaveChannel {
    pub enabled: bool,
    pub frequency: u16,
    pub volume: u8,
    pub length: u8,
    pub length_enabled: bool,
    pub wave_pattern: Vec<u8>,
    pub phase: u32,
    pub sample_index: usize,
}

/// The sample a wavetable channel emits: silence at zero volume, otherwise
/// the table entry at the current index scaled to a 16-bit range.
pub open spec fn spec_wave_output(ch: &WaveChannel) -> i16 {
    if ch.volume == 0 {
        0
    } else {
        spec_clamp_i16(ch.wave_pattern@[ch.sample_index as int % 32] * 256)
    }
}

/// The table index after one emission: the next entry, wrapping at the
/// table size; a silent channel does not advance.
pub open spec fn spec_wave_next_index(ch: &WaveChannel) -> usize {
    if ch.volume == 0 {
        ch.sample_index
    } else {
        (((ch.sample_index % 32) + 1) % 32) as usize
    }
}

impl WaveChannel {
    /// Creates a silent wavetable channel with a zeroed table.
    pub fn new() -> (ch: WaveChannel)
        ensures
            !ch.enabled,
            ch.frequency == 0,
            ch.volume == 0,
            ch.length == 0,
            !ch.length_enabled,
            ch.wave_pattern@ == Seq::new(32, |i: int| 0u8),
            ch.phase == 0,
            ch.sample_index == 0,
    {
        let ch = WaveChannel {
            enabled: false,
            frequency: 0,
            volume: 0,
            length: 0,
            length_enabled: false,
            wave_pattern: vec![0u8; 32],
            phase: 0,
            sample_index: 0,
        };
        proof {
            assert(ch.wave_pattern@ =~= Seq::new(32, |i: int| 0u8));
        }
        ch
    }

    /// Emits one sample and advances the table index.
    pub fn get_sample(&mut self) -> (sample: i16)
        requires
            old(self).wave_pattern@.len() == 32,
        ensures
            sample == spec_wave_output(old(self)),
            final(self).sample_index == spec_wave_next_index(old(self)),
            *final(self) == (WaveChannel { sample_index: final(self).sample_index, ..*old(self) }),
    {
        if self.volume == 0 {
            return 0;
        }
        let idx = self.sample_index % 32;
        let sample = clamp_sample(self.wave_pattern[idx] as i32 * 256);
        self.sample_index = (idx + 1) % 32;
        sample
    }
}

/// Noise channel driven by a 15-bit linear-feedback shift register.
pub struct NoiseChannel {
    pub enabled: bool,
    pub frequency: u16,
    pub volume: u8,
    pub envelope_period: u8,
    pub envelope_direction: bool,
    pub length: u8,
    pub length_enabled: bool,
    pub width_mode: bool,
    pub lfsr: u16,
    pub envelope_counter: u8,
    pub current_volume: u8,
}

/// The feedback register after one emission: the XOR of bits 0 and 1 is
/// inserted at bit 14 of the right-shifted register, and mirrored into bit
/// 6 in short-width mode.
pub open spec fn spec_lfsr_next(lfsr: u16, width_mode: bool) -> u16 {
    let feedback = ((lfsr >> 1) & 1) ^ (lfsr & 1);
    let shifted = (lfsr >> 1) | (feedback << 14);
    if width_mode {
        (shifted & !0x40) | ((feedback << 6) & 0x40)
    } else {
        shifted
    }
}

/// The sample a noise channel emits: silence at zero volume, otherwise the
/// envelope volume scaled to a 16-bit range, positive where the register's
/// low bit is clear and negative where it is set.
pub open spec fn spec_noise_output(ch: NoiseChannel) -> i16 {
    if ch.current_volume == 0 {
        0
    } else if ch.lfsr & 1 == 0 {
        spec_clamp_i16(ch.current_volume * 512)
    } else {
        spec_clamp_i16(-(ch.current_volume as int) * 512)
    }
}

/// The noise channel state after one emission: the feedback register steps
/// once; a silent channel does not step.
pub open spec fn spec_noise_next(ch: NoiseChannel) -> NoiseChannel {
    if ch.current_volume == 0 {
        ch
    } else {
        NoiseChannel { lfsr: spec_lfsr_next(ch.lfsr, ch.width_mode), ..ch }
    }
}

/// A noise channel exactly as construction leaves it: disabled, silent,
/// long-width, with the feedback register seeded to `0x7FFF`.
pub open spec fn spec_silent_noise() -> NoiseChannel {
    NoiseChannel {
        enabled: false,
        frequency: 0,
        volume: 0,
        envelope_period: 0,
        envelope_direction: false,
        length: 0,
        length_enabled: false,
        width_mode: false,
        lfsr: 0x7FFF,
        envelope_counter: 0,
        current_volume: 0,
    }
}

impl NoiseChannel {
    /// Creates a silent noise channel with the register seeded to `0x7FFF`.
    pub fn new() -> (ch: NoiseChannel)
        ensures
            !ch.enabled,
            ch.frequency == 0,
            ch.volume == 0,
            ch.envelope_period == 0,
            !ch.envelope_direction,
            ch.length == 0,
            !ch.length_enabled,
            !ch.width_mode,
            ch.lfsr == 0x7FFF,
            ch.envelope_counter == 0,
            ch.current_volume == 0,
            ch == spec_silent_noise(),
    {
        NoiseChannel {
            enabled: false,
            frequency: 0,
            volume: 0,
            envelope_period: 0,
            envelope_direction: false,
            length: 0,
            length_enabled: false,
            width_mode: false,
            lfsr: 0x7FFF,
            envelope_counter: 0,
            current_volume: 0,
        }
    }

    /// Emits one sample and steps the feedback register.
    pub fn get_sample(&mut self) -> (sample: i16)
        ensures
            sample == spec_noise_output(*old(self)),
            *final(self) == spec_noise_next(*old(self)),
    {
        if self.current_volume == 0 {
            return 0;
        }
        let bit = self.lfsr & 1;
        let magnitude = self.current_volume as i32 * 512;
        let sample = if bit == 0 {
            clamp_sample(magnitude)
        } else {
            clamp_sample(-magnitude)
        };
        let bit_1 = (self.lfsr >> 1) & 1;
        let bit_0 = self.lfsr & 1;
        let feedback = bit_1 ^ bit_0;
        self.lfsr = (self.lfsr >> 1) | (feedback << 14);
        if self.width_mode {
            self.lfsr = (self.lfsr & !0x40) | ((feedback << 6) & 0x40);
        }
        sample
    }
}

/// Audio engine: the four channel generators, the downsampling accumulator,
/// and the circular output buffer.
pub struct Apu {
    /// Master volume byte; the mixed sum is scaled by it and divided by 4.
    pub master_volume: u8,
    pub sound_enabled: bool,
    /// Circular output buffer of signed 16-bit samples.
    pub audio_buffer: Vec<i16>,
    pub buffer_pos: usize,
    /// Cycles seen so far; wraps at 32 bits.
    pub cycles: u32,
    /// Fractional downsampling accumulator.
    pub sample_counter: u32,
    pub channel1: SquareChannel,
    pub channel2: SquareChannel,
    pub channel3: WaveChannel,
    pub channel4: NoiseChannel,
}

/// The sample one emission appends: silence when sound is globally
/// disabled, otherwise the enabled channels summed, scaled by the master
/// volume over 4 with truncating division, and clamped to 16 bits.
pub open spec fn spec_mixed_sample(a: &Apu) -> i16 {
    if !a.sound_enabled {
        0
    } else {
        let sum = (if a.channel1.enabled {
            spec_square_output(a.channel1) as int
        } else {
            0
        }) + (if a.channel2.enabled {
            spec_square_output(a.channel2) as int
        } else {
            0
        }) + (if a.channel3.enabled {
            spec_wave_output(&a.channel3) as int
        } else {
            0
        }) + (if a.channel4.enabled {
            spec_noise_output(a.channel4) as int
        } else {
            0
        });
        spec_clamp_i16(spec_div_trunc_4(sum * a.master_volume))
    }
}

/// Division by 4 truncating toward zero, as the mixer's scaling performs.
pub open spec fn spec_div_trunc_4(x: int) -> int {
    if x >= 0 {
        x / 4
    } else {
        -((-x) / 4)
    }
}

impl Apu {
    /// The output buffer has its fixed capacity, the write position is
    /// inside it, the accumulator is below the clock rate, and the wave
    /// table is full-size.
    pub open spec fn wf(&self) -> bool {
        &&& self.audio_buffer@.len() == BUFFER_SIZE
        &&& self.buffer_pos < BUFFER_SIZE
        &&& self.sample_counter < CLOCK_RATE
        &&& self.channel3.wave_pattern@.len() == 32
    }

    /// Creates an audio engine with silent channels and an empty buffer.
    pub fn new() -> (a: Apu)
        ensures
            a.wf(),
            a.master_volume == 0x77,
            a.sound_enabled,
            a.audio_buffer@ == Seq::new(BUFFER_SIZE as nat, |i: int| 0i16),
            a.buffer_pos == 0,
            a.cycles == 0,
            a.sample_counter == 0,
            a.channel1 == spec_silent_square(),
            a.channel2 == spec_silent_square(),
            !a.channel3.enabled,
            a.channel3.frequency == 0,
            a.channel3.volume == 0,
            a.channel3.length == 0,
            !a.channel3.length_enabled,
            a.channel3.wave_pattern@ == Seq::new(32, |i: int| 0u8),
            a.channel3.phase == 0,
            a.channel3.sample_index == 0,
            a.channel4 == spec_silent_noise(),
    {
        let a = Apu {
            master_volume: 0x77,
            sound_enabled: true,
            audio_buffer: vec![0i16; BUFFER_SIZE],
            buffer_pos: 0,
            cycles: 0,
            sample_counter: 0,
            channel1: SquareChannel::new(),
            channel2: SquareChannel::new(),
            channel3: WaveChannel::new(),
            channel4: NoiseChannel::new(),
        };
        proof {
            assert(a.audio_buffer@ =~= Seq::new(BUFFER_SIZE as nat, |i: int| 0i16));
        }
        a
    }

    /// Advances the engine by one cycle.  The accumulator gains the sample
    /// rate; when it reaches the clock rate it wraps and one sample is
    /// emitted into the buffer.
    pub fn step(&mut self)
        requires
            old(self).wf(),
        ensures
            final(self).wf(),
            final(self).cycles == old(self).cycles.wrapping_add(1),
            final(self).sample_counter == (if old(self).sample_counter + SAMPLE_RATE
                >= CLOCK_RATE {
                old(self).sample_counter + SAMPLE_RATE - CLOCK_RATE
            } else {
                old(self).sample_counter + SAMPLE_RATE
            }),
            final(self).master_volume == old(self).master_volume,
            final(self).sound_enabled == old(self).sound_enabled,
            final(self).audio_buffer@ == (if old(self).sample_counter + SAMPLE_RATE
                >= CLOCK_RATE {
                old(self).audio_buffer@.update(
                    old(self).buffer_pos as int,
                    spec_mixed_sample(old(self)),
                )
            } else {
                old(self).audio_buffer@
            }),
            final(self).buffer_pos == (if old(self).sample_counter + SAMPLE_RATE >= CLOCK_RATE {
                (old(self).buffer_pos + 1) % (BUFFER_SIZE as int)
            } else {
                old(self).buffer_pos as int
            }),
            final(self).channel1 == (if old(self).sample_counter + SAMPLE_RATE >= CLOCK_RATE
                && old(self).sound_enabled && old(self).channel1.enabled {
                spec_square_next(old(self).channel1)
            } else {
                old(self).channel1
            }),
            final(self).channel2 == (if old(self).sample_counter + SAMPLE_RATE >= CLOCK_RATE
                && old(self).sound_enabled && old(self).channel2.enabled {
                spec_square_next(old(self).channel2)
            } else {
                old(self).channel2
            }),
            final(self).channel3.sample_index == (if old(self).sample_counter + SAMPLE_RATE
                >= CLOCK_RATE && old(self).sound_enabled && old(self).channel3.enabled {
                spec_wave_next_index(&old(self).channel3)
            } else {
                old(self).channel3.sample_index
            }),
            final(self).channel3 == (WaveChannel {
                sample_index: final(self).channel3.sample_index,
                ..old(self).channel3
            }),
            final(self).channel4 == (if old(self).sample_counter + SAMPLE_RATE >= CLOCK_RATE
                && old(self).sound_enabled && old(self).channel4.enabled {
                spec_noise_next(old(self).channel4)
            } else {
                old(self).channel4
            }),
    {
        self.cycles = self.cycles.wrapping_add(1);
        self.sample_counter = self.sample_counter + SAMPLE_RATE;
        if self.sample_counter >= CLOCK_RATE {
            self.sample_counter = self.sample_counter - CLOCK_RATE;
            self.generate_sample();
        }
    }

    /// Mixes one output sample into the buffer and advances the write
    /// position, stepping each enabled channel generator.
    fn generate_sample(&mut self)
        requires
            old(self).audio_buffer@.len() == BUFFER_SIZE,
            old(self).buffer_pos < BUFFER_SIZE,
            old(self).channel3.wave_pattern@.len() == 32,
        ensures
            final(self).audio_buffer@ == old(self).audio_buffer@.update(
                old(self).buffer_pos as int,
                spec_mixed_sample(old(self)),
            ),
            final(self).buffer_pos == (old(self).buffer_pos + 1) % (BUFFER_SIZE as int),
            final(self).cycles == old(self).cycles,
            final(self).sample_counter == old(self).sample_counter,
            final(self).master_volume == old(self).master_volume,
            final(self).sound_enabled == old(self).sound_enabled,
            final(self).channel1 == (if old(self).sound_enabled && old(self).channel1.enabled {
                spec_square_next(old(self).channel1)
            } else {
                old(self).channel1
            }),
            final(self).channel2 == (if old(self).sound_enabled && old(self).channel2.enabled {
                spec_square_next(old(self).channel2)
            } else {
                old(self).channel2
            }),
            final(self).channel3.sample_index == (if old(self).sound_enabled && old(
                self,
            ).channel3.enabled {
                spec_wave_next_index(&old(self).channel3)
            } else {
                old(self).channel3.sample_index
            }),
            final(self).channel3 == (WaveChannel {
                sample_index: final(self).channel3.sample_index,
                ..old(self).channel3
            }),
            final(self).channel4 == (if old(self).sound_enabled && old(self).channel4.enabled {
                spec_noise_next(old(self).channel4)
            } else {
                old(self).channel4
            }),
    {
        if !self.sound_enabled {
            self.audio_buffer[self.buffer_pos] = 0;
            self.buffer_pos = (self.buffer_pos + 1) % BUFFER_SIZE;
            return ;
        }
        let mut sample: i32 = 0;
        if self.channel1.enabled {
            sample = sample + self.channel1.get_sample() as i32;
        }
        if self.channel2.enabled {
            sample = sample + self.channel2.get_sample() as i32;
        }
        if self.channel3.enabled {
            sample = sample + self.channel3.get_sample() as i32;
        }
        if self.channel4.enabled {
            sample = sample + self.channel4.get_sample() as i32;
        }
        let mv = self.master_volume as i32;
        proof {
            let s = sample as int;
            let m = mv as int;
            assert(-33554432 <= s * m <= 33554432) by (nonlinear_arith)
                requires
                    -131072 <= s <= 131068,
                    0 <= m <= 255,
            ;
        }
        let prod = sample * mv;
        let scaled: i32 = if prod >= 0 {
            ((prod as u32) / 4) as i32
        } else {
            -((((-prod) as u32) / 4) as i32)
        };
        let out = clamp_sample(scaled);
        self.audio_buffer[self.buffer_pos] = out;
        self.buffer_pos = (self.buffer_pos + 1) % BUFFER_SIZE;
    }

    /// The samples emitted since the last clear, in emission order.
    pub fn get_audio_samples(&self) -> (r: &[i16])
        requires
            self.wf(),
        ensures
            r@ == self.audio_buffer@.subrange(0, self.buffer_pos as int),
    {
        vstd::slice::slice_subrange(self.audio_buffer.as_slice(), 0, self.buffer_pos)
    }

    /// Resets the buffer position; the capacity and contents stay.
    pub fn clear_buffer(&mut self)
        ensures
            *final(self) == (Apu { buffer_pos: 0usize, ..*old(self) }),
    {
        self.buffer_pos = 0;
    }
}

impl Default for Apu {
    fn default() -> (a: Apu)
        ensures
            a.wf(),
            a.buffer_pos == 0,
    {
        Apu::new()
    }
}

/// Law: one emission of the 15-bit feedback register replaces bit 0 with
/// the prior bit 1 and inserts the XOR of the prior bits 0 and 1 at bit 14.
pub proof fn lemma_lfsr_feedback(lfsr: u16)
    requires
        lfsr < 0x8000,
    ensures
        (spec_lfsr_next(lfsr, false) >> 14) & 1 == ((lfsr & 1) ^ ((lfsr >> 1) & 1)),
        spec_lfsr_next(lfsr, false) & 1 == (lfsr >> 1) & 1,
        spec_lfsr_next(lfsr, false) < 0x8000,
        spec_lfsr_next(lfsr, true) < 0x8000,
{
    let next = (lfsr >> 1) | ((((lfsr >> 1) & 1) ^ (lfsr & 1)) << 14);
    assert((next >> 14) & 1 == ((lfsr & 1) ^ ((lfsr >> 1) & 1)) && next & 1 == (lfsr >> 1) & 1
        && next < 0x8000 && ((next & !0x40) | (((((lfsr >> 1) & 1) ^ (lfsr & 1)) << 6) & 0x40))
        < 0x8000) by (bit_vector)
        requires
            lfsr < 0x8000,
            next == (lfsr >> 1) | ((((lfsr >> 1) & 1) ^ (lfsr & 1)) << 14),
    ;
}

/// Law: a square channel is silent whenever its current envelope volume is
/// zero, for every duty-cycle setting and phase.
pub proof fn lemma_square_silent_at_zero_volume(ch: SquareChannel)
    requires
        ch.current_volume == 0,
    ensures
        spec_square_output(ch) == 0,
{
}

} // verus!
