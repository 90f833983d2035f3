use gameboy_dmg_emulator::emulator::apu::{
    Apu, NoiseChannel, SquareChannel, WaveChannel, BUFFER_SIZE, CLOCK_RATE, SAMPLE_RATE,
};

#[test]
fn test_apu_initial_state() {
    let apu = Apu::new();
    assert_eq!(apu.master_volume, 0x77);
    assert!(apu.sound_enabled);
    assert_eq!(apu.buffer_pos, 0);
    assert_eq!(apu.audio_buffer.len(), BUFFER_SIZE);
    assert_eq!(apu.channel4.lfsr, 0x7FFF);
    assert_eq!(apu.get_audio_samples().len(), 0);
}

#[test]
fn test_square_silent_at_zero_volume() {
    // Zero volume is silent for every duty setting.
    for duty in 0..4u8 {
        let mut ch = SquareChannel::new();
        ch.duty_cycle = duty;
        ch.frequency = 0x400;
        assert_eq!(ch.get_sample(), 0);
        // A silent channel does not advance its phase.
        assert_eq!(ch.phase, 0);
    }
}

#[test]
fn test_square_sample_values() {
    // Duty pattern 0x87 has bit 0 set: positive amplitude at phase 0.
    let mut ch = SquareChannel::new();
    ch.duty_cycle = 2;
    ch.current_volume = 1;
    ch.frequency = 3;
    assert_eq!(ch.get_sample(), 512);
    assert_eq!(ch.phase, 24);

    // Duty pattern 0x01 has bit 1 clear: negative amplitude at bit 1.
    let mut ch = SquareChannel::new();
    ch.duty_cycle = 0;
    ch.current_volume = 2;
    ch.phase = 1 << 16;
    assert_eq!(ch.get_sample(), -1024);
}

#[test]
fn test_wave_sample_and_index() {
    let mut ch = WaveChannel::new();
    assert_eq!(ch.get_sample(), 0);
    assert_eq!(ch.sample_index, 0);
    ch.volume = 1;
    ch.wave_pattern[0] = 3;
    ch.wave_pattern[1] = 7;
    assert_eq!(ch.get_sample(), 3 * 256);
    assert_eq!(ch.sample_index, 1);
    assert_eq!(ch.get_sample(), 7 * 256);
    ch.sample_index = 31;
    assert_eq!(ch.get_sample(), 0 * 256);
    assert_eq!(ch.sample_index, 0);
}

#[test]
fn test_noise_lfsr_feedback() {
    // Seeded at 0x7FFF: bits 0 and 1 are both set, so the inserted bit 14
    // is their XOR, zero, and the new bit 0 is the prior bit 1.
    let mut ch = NoiseChannel::new();
    ch.current_volume = 1;
    assert_eq!(ch.lfsr, 0x7FFF);
    let sample = ch.get_sample();
    // Low bit was set before the shift: negative amplitude.
    assert_eq!(sample, -512);
    assert_eq!(ch.lfsr, 0x3FFF);
    assert_eq!((ch.lfsr >> 14) & 1, 0);
    assert_eq!(ch.lfsr & 1, 1);

    // A register with bits 0 and 1 differing inserts a one at bit 14.
    let mut ch = NoiseChannel::new();
    ch.current_volume = 1;
    ch.lfsr = 0x0001;
    let _ = ch.get_sample();
    assert_eq!(ch.lfsr, 0x4000);
}

#[test]
fn test_noise_short_width_mirrors_bit6() {
    let mut ch = NoiseChannel::new();
    ch.current_volume = 1;
    ch.width_mode = true;
    ch.lfsr = 0x0001;
    let _ = ch.get_sample();
    // The inserted bit lands at bit 14 and is mirrored into bit 6.
    assert_eq!(ch.lfsr, 0x4040);
}

#[test]
fn test_noise_silent_keeps_register() {
    let mut ch = NoiseChannel::new();
    assert_eq!(ch.get_sample(), 0);
    assert_eq!(ch.lfsr, 0x7FFF);
}

#[test]
fn test_step_emission_cadence() {
    // One sample is emitted each time the accumulator crosses the clock
    // rate: the first after ceil(4194304 / 44100) == 96 ticks.
    let mut apu = Apu::new();
    for _ in 0..95 {
        apu.step();
    }
    assert_eq!(apu.buffer_pos, 0);
    apu.step();
    assert_eq!(apu.buffer_pos, 1);
    assert_eq!(apu.sample_counter, 96 * SAMPLE_RATE - CLOCK_RATE);
}

#[test]
fn test_mixer_scales_by_master_volume() {
    let mut apu = Apu::new();
    apu.channel1.enabled = true;
    apu.channel1.current_volume = 1;
    apu.channel1.duty_cycle = 2;
    for _ in 0..96 {
        apu.step();
    }
    // The square emits 512; scaled by master volume 0x77 over 4.
    assert_eq!(apu.audio_buffer[0], 15232);
    assert_eq!(apu.get_audio_samples(), &[15232i16]);
}

#[test]
fn test_mixer_silent_when_disabled() {
    let mut apu = Apu::new();
    apu.sound_enabled = false;
    apu.channel1.enabled = true;
    apu.channel1.current_volume = 5;
    apu.channel1.duty_cycle = 2;
    for _ in 0..96 {
        apu.step();
    }
    assert_eq!(apu.audio_buffer[0], 0);
    // Disabled sound emits silence without stepping the generators.
    assert_eq!(apu.channel1.phase, 0);
}

#[test]
fn test_lfsr_steps_through_apu() {
    let mut apu = Apu::new();
    apu.channel4.enabled = true;
    apu.channel4.current_volume = 1;
    for _ in 0..96 {
        apu.step();
    }
    assert_eq!(apu.channel4.lfsr, 0x3FFF);
    assert_eq!(apu.audio_buffer[0], -15232);
}

#[test]
fn test_buffer_wraps_at_capacity() {
    let mut apu = Apu::new();
    apu.buffer_pos = BUFFER_SIZE - 1;
    apu.sample_counter = CLOCK_RATE - SAMPLE_RATE;
    apu.step();
    assert_eq!(apu.buffer_pos, 0);
}

#[test]
fn test_clear_buffer() {
    let mut apu = Apu::new();
    for _ in 0..96 {
        apu.step();
    }
    assert_eq!(apu.buffer_pos, 1);
    apu.clear_buffer();
    assert_eq!(apu.buffer_pos, 0);
    assert_eq!(apu.get_audio_samples().len(), 0);
}

#[test]
fn test_mixer_clamps_to_i16() {
    // Four loud channels pushed through a full master volume clamp at the
    // signed 16-bit bounds.
    let mut apu = Apu::new();
    apu.master_volume = 0xFF;
    apu.channel1.enabled = true;
    apu.channel1.current_volume = 255;
    apu.channel1.duty_cycle = 2;
    apu.channel2.enabled = true;
    apu.channel2.current_volume = 255;
    apu.channel2.duty_cycle = 2;
    for _ in 0..96 {
        apu.step();
    }
    assert_eq!(apu.audio_buffer[0], 32767);
}
