use gameboy_dmg_emulator::platform::native::{
    frame_due, AudioHandler, DisplayHandler, InputHandler, NativeGameBoy, TARGET_FRAME_NANOS,
};

#[test]
fn test_native_gameboy_wrapper() {
    let mut native = NativeGameBoy::new();
    assert_eq!(native.get_frame_buffer().len(), 0);
    assert_eq!(native.get_audio_samples().len(), 0);
    let empty: Vec<u8> = Vec::new();
    assert!(native.load_rom(&empty).is_err());
    let rom = vec![0u8; 0x8000];
    assert!(native.load_rom(&rom).is_ok());
    // Pacing decisions depend on the clock; the calls must simply return.
    let _ = native.should_render();
    native.run_frame();
    assert_eq!(native.get_frame_buffer().len(), 0);
}

#[test]
fn test_frame_due_decision() {
    assert!(frame_due(TARGET_FRAME_NANOS, 0, TARGET_FRAME_NANOS));
    assert!(!frame_due(TARGET_FRAME_NANOS - 1, 0, TARGET_FRAME_NANOS));
    assert!(frame_due(1000, 200, 800));
    assert!(!frame_due(999, 200, 800));
    // A clock that moved backwards never makes a frame due.
    assert!(!frame_due(100, 200, 0));
}

#[test]
fn test_joypad_state_bits() {
    let mut input = InputHandler::new();
    assert_eq!(input.get_joypad_state(), 0xFF);
    input.right = true;
    assert_eq!(input.get_joypad_state(), 0xFE);
    input.left = true;
    assert_eq!(input.get_joypad_state(), 0xFC);
    input.up = true;
    input.down = true;
    input.a = true;
    input.b = true;
    input.select = true;
    input.start = true;
    assert_eq!(input.get_joypad_state(), 0x00);
    input.reset();
    assert_eq!(input.get_joypad_state(), 0xFF);
    input.start = true;
    assert_eq!(input.get_joypad_state(), 0x7F);
}

#[test]
fn test_audio_handler_buffering() {
    let mut audio = AudioHandler::new(44100);
    assert_eq!(audio.get_sample_rate(), 44100);
    assert_eq!(audio.get_buffer().len(), 0);
    audio.add_samples(&[1i16, -2, 3]);
    audio.add_samples(&[4i16]);
    assert_eq!(audio.get_buffer(), &[1i16, -2, 3, 4]);
    audio.clear_buffer();
    assert_eq!(audio.get_buffer().len(), 0);
}

#[test]
fn test_display_dimensions() {
    let display = DisplayHandler::new(4);
    assert_eq!(display.get_dimensions(), (640, 576));
    let display = DisplayHandler::new(1);
    assert_eq!(display.get_dimensions(), (160, 144));
}

#[test]
fn test_convert_to_rgb_triples() {
    let display = DisplayHandler::new(1);
    let rgb = display.convert_to_rgb(&[0u8, 1, 2, 3]);
    assert_eq!(
        rgb,
        vec![255u8, 255, 255, 192, 192, 192, 96, 96, 96, 0, 0, 0]
    );
}

#[test]
fn test_scale_pixels_identity() {
    let display = DisplayHandler::new(1);
    let mut rgb = vec![0u8; 160 * 144 * 3];
    for (i, byte) in rgb.iter_mut().enumerate() {
        *byte = (i % 251) as u8;
    }
    let scaled = display.scale_pixels(&rgb);
    assert_eq!(scaled, rgb);
}

#[test]
fn test_scale_pixels_doubling() {
    let display = DisplayHandler::new(2);
    let mut rgb = vec![0u8; 160 * 144 * 3];
    for (i, byte) in rgb.iter_mut().enumerate() {
        *byte = (i % 251) as u8;
    }
    let scaled = display.scale_pixels(&rgb);
    assert_eq!(scaled.len(), 160 * 144 * 3 * 4);
    let out_width = 320;
    for &(yy, xx) in &[(0usize, 0usize), (0, 1), (1, 0), (5, 7), (287, 319), (100, 200)] {
        for c in 0..3 {
            let out_idx = (yy * out_width + xx) * 3 + c;
            let src_idx = ((yy / 2) * 160 + xx / 2) * 3 + c;
            assert_eq!(scaled[out_idx], rgb[src_idx]);
        }
    }
}

#[test]
fn test_scale_pixels_zero_scale() {
    let display = DisplayHandler::new(0);
    let rgb = vec![0u8; 160 * 144 * 3];
    let scaled = display.scale_pixels(&rgb);
    assert_eq!(scaled.len(), 0);
}
