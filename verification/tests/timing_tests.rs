use gameboy_dmg_emulator::emulator::ppu::{
    Ppu, PpuMode, DRAW_CYCLES, FRAME_CYCLES, HBLANK_CYCLES, SCANLINE_CYCLES, SCAN_OBJECTS_CYCLES,
};

#[test]
fn test_scanline_cycle_budget() {
    // One visible scanline's mode durations sum to the scanline budget,
    // and all 154 scanlines sum to the frame budget.
    assert_eq!(SCAN_OBJECTS_CYCLES + DRAW_CYCLES + HBLANK_CYCLES, 456);
    assert_eq!(SCANLINE_CYCLES, 456);
    assert_eq!(144 * SCANLINE_CYCLES + 10 * SCANLINE_CYCLES, 70224);
    assert_eq!(FRAME_CYCLES, 70224);
}

#[test]
fn test_initial_state() {
    let ppu = Ppu::new();
    assert_eq!(ppu.scanline, 0);
    assert_eq!(ppu.mode, PpuMode::OamScan);
    assert_eq!(ppu.cycles, 0);
    assert_eq!(ppu.lcdc, 0x91);
    assert_eq!(ppu.bg_palette, 0xFC);
    assert_eq!(ppu.get_frame_buffer().len(), 160 * 144);
    assert!(!ppu.is_vblank());
}

#[test]
fn test_mode_progression_one_scanline() {
    let mut ppu = Ppu::new();
    for _ in 0..80 {
        ppu.step();
    }
    assert_eq!(ppu.mode, PpuMode::Drawing);
    for _ in 0..172 {
        ppu.step();
    }
    assert_eq!(ppu.mode, PpuMode::HBlank);
    for _ in 0..204 {
        ppu.step();
    }
    assert_eq!(ppu.mode, PpuMode::OamScan);
    assert_eq!(ppu.scanline, 1);
}

#[test]
fn test_vblank_entry_and_exit() {
    let mut ppu = Ppu::new();
    // 144 visible scanlines of 456 cycles each reach vertical blank.
    for _ in 0..144 * 456 {
        ppu.step();
    }
    assert!(ppu.is_vblank());
    assert_eq!(ppu.scanline, 144);
    // Ten blank lines later the engine wraps to the top.
    for _ in 0..10 * 456 {
        ppu.step();
    }
    assert!(!ppu.is_vblank());
    assert_eq!(ppu.scanline, 0);
}

#[test]
fn test_frame_period() {
    // After exactly one frame's worth of ticks the engine is back at
    // scanline 0, scanning objects.
    let mut ppu = Ppu::new();
    for _ in 0..70224 {
        ppu.step();
    }
    assert_eq!(ppu.scanline, 0);
    assert_eq!(ppu.mode, PpuMode::OamScan);
    assert_eq!(ppu.cycles, 0);
}

#[test]
fn test_draw_completion_clears_scanline() {
    let mut ppu = Ppu::new();
    // Dirty the first row, then step through its draw.
    for x in 0..160 {
        ppu.frame_buffer[x] = 3;
    }
    ppu.frame_buffer[160] = 2;
    for _ in 0..(80 + 172) {
        ppu.step();
    }
    assert_eq!(ppu.mode, PpuMode::HBlank);
    for x in 0..160 {
        assert_eq!(ppu.frame_buffer[x], 0);
    }
    // The next row is untouched until its own draw completes.
    assert_eq!(ppu.frame_buffer[160], 2);
}
