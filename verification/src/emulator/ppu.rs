//! Video timing engine: cycles through the four rendering modes on a fixed
//! cycle budget, rasterizing one scanline at each draw-complete transition.

use vstd::prelude::*;

use vstd::arithmetic::div_mod::{lemma_add_mod_noop, lemma_mod_multiples_vanish, lemma_small_mod};

verus! {

/// Width of the LCD in pixels.
pub const LCD_WIDTH: usize = 160;

/// Height of the LCD in pixels.
pub const LCD_HEIGHT: usize = 144;

/// Cycles spent scanning object attributes at the start of a scanline.
pub const SCAN_OBJECTS_CYCLES: u32 = 80;

/// Cycles spent drawing a scanline.
pub const DRAW_CYCLES: u32 = 172;

/// Cycles spent in horizontal blank at the end of a visible scanline.
pub const HBLANK_CYCLES: u32 = 204;

/// Cycles of one full scanline; the three visible-mode budgets sum to this.
pub const SCANLINE_CYCLES: u32 = 456;

/// Number of visible scanlines.
pub const VISIBLE_SCANLINES: u8 = 144;

/// Number of scanlines per frame, vertical blank included.
pub const TOTAL_SCANLINES: u8 = 154;

/// Cycles of one full frame: every scanline at the scanline budget.
pub const FRAME_CYCLES: u32 = 70224;

/// Rendering modes of the video engine.
#[derive(Debug, Clone, Copy, PartialEq, Eq, Structural)]
pub enum PpuMode {
    HBlank,
    VBlank,
    OamScan,
    Drawing,
}

/// Cycle budget of one stay in a mode.
pub open spec fn spec_mode_cycles(m: PpuMode) -> u32 {
    match m {
        PpuMode::OamScan => SCAN_OBJECTS_CYCLES,
        PpuMode::Drawing => DRAW_CYCLES,
        PpuMode::HBlank => HBLANK_CYCLES,
        PpuMode::VBlank => SCANLINE_CYCLES,
    }
}

/// The timing state of the video engine: the current scanline, the mode,
/// and the cycles already spent in it.
#[verifier::ext_equal]
pub ghost struct PpuTiming {
    pub scanline: u8,
    pub mode: PpuMode,
    pub cycles: u32,
}

/// Well-formed timing: the intra-mode counter stays under the mode budget,
/// and the scanline range matches the mode (vertical blank owns scanlines
/// 144 through 153, the visible modes own 0 through 143).
pub open spec fn timing_wf(t: PpuTiming) -> bool {
    &&& t.cycles < spec_mode_cycles(t.mode)
    &&& (t.mode is VBlank ==> 144 <= t.scanline <= 153)
    &&& (!(t.mode is VBlank) ==> t.scanline <= 143)
}

/// The timing state after one clock tick.
pub open spec fn spec_tick_timing(t: PpuTiming) -> PpuTiming {
    let c = t.cycles + 1;
    match t.mode {
        PpuMode::OamScan => {
            if c >= SCAN_OBJECTS_CYCLES {
                PpuTiming { scanline: t.scanline, mode: PpuMode::Drawing, cycles: 0 }
            } else {
                PpuTiming { cycles: c as u32, ..t }
            }
        },
        PpuMode::Drawing => {
            if c >= DRAW_CYCLES {
                PpuTiming { scanline: t.scanline, mode: PpuMode::HBlank, cycles: 0 }
            } else {
                PpuTiming { cycles: c as u32, ..t }
            }
        },
        PpuMode::HBlank => {
            if c >= HBLANK_CYCLES {
                let line = (t.scanline + 1) as u8;
                if line >= VISIBLE_SCANLINES {
                    PpuTiming { scanline: line, mode: PpuMode::VBlank, cycles: 0 }
                } else {
                    PpuTiming { scanline: line, mode: PpuMode::OamScan, cycles: 0 }
                }
            } else {
                PpuTiming { cycles: c as u32, ..t }
            }
        },
        PpuMode::VBlank => {
            if c >= SCANLINE_CYCLES {
                let line = (t.scanline + 1) as u8;
                if line >= TOTAL_SCANLINES {
                    PpuTiming { scanline: 0, mode: PpuMode::OamScan, cycles: 0 }
                } else {
                    PpuTiming { scanline: line, mode: PpuMode::VBlank, cycles: 0 }
                }
            } else {
                PpuTiming { cycles: c as u32, ..t }
            }
        },
    }
}

/// The frame buffer after the scanline completing its draw is rasterized.
/// The layer compositors contribute nothing yet, so the line holds the
/// cleared palette index; lines outside the visible range leave the buffer
/// untouched.
pub open spec fn spec_render_line(frame: Seq<u8>, line: u8) -> Seq<u8> {
    if line < VISIBLE_SCANLINES {
        frame.map(
            |i: int, b: u8|
                if line * (LCD_WIDTH as int) <= i < (line + 1) * (LCD_WIDTH as int) {
                    0u8
                } else {
                    b
                },
        )
    } else {
        frame
    }
}

/// Picture processing unit.
pub struct Ppu {
    /// Frame buffer: one palette index (0 through 3) per pixel, row-major.
    pub frame_buffer: Vec<u8>,
    /// Current scanline being processed.
    pub scanline: u8,
    /// Current rendering mode.
    pub mode: PpuMode,
    /// Cycles spent in the current mode.
    pub cycles: u32,
    /// LCD control register.
    pub lcdc: u8,
    /// LCD status register.
    pub stat: u8,
    pub scroll_x: u8,
    pub scroll_y: u8,
    pub window_x: u8,
    pub window_y: u8,
    pub bg_palette: u8,
    pub obj_palette_0: u8,
    pub obj_palette_1: u8,
}

impl Ppu {
    /// The frame buffer covers the LCD and the timing state is well formed.
    pub open spec fn wf(&self) -> bool {
        &&& self.frame_buffer@.len() == LCD_WIDTH * LCD_HEIGHT
        &&& timing_wf(self.timing())
    }

    /// The timing state of this engine.
    pub open spec fn timing(&self) -> PpuTiming {
        PpuTiming { scanline: self.scanline, mode: self.mode, cycles: self.cycles }
    }

    /// Creates a video engine at scanline 0, scanning objects, with a
    /// cleared frame buffer and the power-on register values.
    pub fn new() -> (p: Ppu)
        ensures
            p.wf(),
            p.frame_buffer@ == Seq::new((LCD_WIDTH * LCD_HEIGHT) as nat, |i: int| 0u8),
            p.scanline == 0,
            p.mode is OamScan,
            p.cycles == 0,
            p.lcdc == 0x91,
            p.stat == 0x00,
            p.scroll_x == 0,
            p.scroll_y == 0,
            p.window_x == 0,
            p.window_y == 0,
            p.bg_palette == 0xFC,
            p.obj_palette_0 == 0xFF,
            p.obj_palette_1 == 0xFF,
    {
        let p = Ppu {
            frame_buffer: vec![0u8; LCD_WIDTH * LCD_HEIGHT],
            scanline: 0,
            mode: PpuMode::OamScan,
            cycles: 0,
            lcdc: 0x91,
            stat: 0x00,
            scroll_x: 0,
            scroll_y: 0,
            window_x: 0,
            window_y: 0,
            bg_palette: 0xFC,
            obj_palette_0: 0xFF,
            obj_palette_1: 0xFF,
        };
        proof {
            assert(p.frame_buffer@ =~= Seq::new((LCD_WIDTH * LCD_HEIGHT) as nat, |i: int| 0u8));
        }
        p
    }

    /// Advances the engine by one cycle.  On the draw-complete transition
    /// the current scanline is rasterized into the frame buffer; everything
    /// else only moves the timing state.
    pub fn step(&mut self)
        requires
            old(self).wf(),
        ensures
            final(self).wf(),
            final(self).timing() == spec_tick_timing(old(self).timing()),
            final(self).frame_buffer@ == (if old(self).mode is Drawing && old(self).cycles + 1
                >= DRAW_CYCLES {
                spec_render_line(old(self).frame_buffer@, old(self).scanline)
            } else {
                old(self).frame_buffer@
            }),
            final(self).lcdc == old(self).lcdc,
            final(self).stat == old(self).stat,
            final(self).scroll_x == old(self).scroll_x,
            final(self).scroll_y == old(self).scroll_y,
            final(self).window_x == old(self).window_x,
            final(self).window_y == old(self).window_y,
            final(self).bg_palette == old(self).bg_palette,
            final(self).obj_palette_0 == old(self).obj_palette_0,
            final(self).obj_palette_1 == old(self).obj_palette_1,
    {
        self.cycles = self.cycles + 1;
        match self.mode {
            PpuMode::OamScan => {
                if self.cycles >= SCAN_OBJECTS_CYCLES {
                    self.cycles = 0;
                    self.mode = PpuMode::Drawing;
                }
            },
            PpuMode::Drawing => {
                if self.cycles >= DRAW_CYCLES {
                    self.cycles = 0;
                    self.mode = PpuMode::HBlank;
                    self.render_scanline();
                }
            },
            PpuMode::HBlank => {
                if self.cycles >= HBLANK_CYCLES {
                    self.cycles = 0;
                    self.scanline = self.scanline + 1;
                    if self.scanline >= VISIBLE_SCANLINES {
                        self.mode = PpuMode::VBlank;
                    } else {
                        self.mode = PpuMode::OamScan;
                    }
                }
            },
            PpuMode::VBlank => {
                if self.cycles >= SCANLINE_CYCLES {
                    self.cycles = 0;
                    self.scanline = self.scanline + 1;
                    if self.scanline >= TOTAL_SCANLINES {
                        self.scanline = 0;
                        self.mode = PpuMode::OamScan;
                    }
                }
            },
        }
    }

    /// Rasterizes the current scanline into the frame buffer: the line is
    /// cleared, then each enabled layer is composited in the fixed order
    /// background, window, sprites.
    fn render_scanline(&mut self)
        requires
            old(self).wf(),
        ensures
            final(self).frame_buffer@ == spec_render_line(
                old(self).frame_buffer@,
                old(self).scanline,
            ),
            *final(self) == (Ppu { frame_buffer: final(self).frame_buffer, ..*old(self) }),
    {
        if self.scanline >= VISIBLE_SCANLINES {
            return ;
        }
        let line_start: usize = self.scanline as usize * LCD_WIDTH;
        let mut x: usize = 0;
        while x < LCD_WIDTH
            invariant
                old(self).wf(),
                old(self).scanline < VISIBLE_SCANLINES,
                x <= LCD_WIDTH,
                line_start == old(self).scanline * LCD_WIDTH,
                self.frame_buffer@.len() == LCD_WIDTH * LCD_HEIGHT,
                *self == (Ppu { frame_buffer: self.frame_buffer, ..*old(self) }),
                forall|j: int|
                    line_start <= j < line_start + x ==> self.frame_buffer@[j] == 0,
                forall|j: int|
                    0 <= j < self.frame_buffer@.len() && !(line_start <= j < line_start + x)
                        ==> self.frame_buffer@[j] == old(self).frame_buffer@[j],
            decreases LCD_WIDTH - x,
        {
            proof {
                let ls = line_start;
                let line = old(self).scanline;
                let xx = x;
                assert(ls + xx < 160 * 144) by (nonlinear_arith)
                    requires
                        ls == line * 160,
                        line < 144,
                        xx < 160,
                ;
            }
            self.frame_buffer[line_start + x] = 0;
            x = x + 1;
        }
        if self.lcdc & 0x01 != 0 {
            self.render_background();
        }
        if self.lcdc & 0x20 != 0 {
            self.render_window();
        }
        if self.lcdc & 0x02 != 0 {
            self.render_sprites();
        }
        proof {
            let line = old(self).scanline;
            let w = LCD_WIDTH as int;
            assert(forall|j: int|
                0 <= j < self.frame_buffer@.len() ==> self.frame_buffer@[j] == (if line * w <= j
                    < (line + 1) * w {
                    0u8
                } else {
                    old(self).frame_buffer@[j]
                }));
            assert(self.frame_buffer@ =~= spec_render_line(old(self).frame_buffer@, line));
        }
    }

    /// Composites the background layer into the current scanline.  Tile
    /// fetching is not wired up, so the layer leaves the cleared line
    /// unchanged.
    fn render_background(&mut self)
        ensures
            *final(self) == *old(self),
    {
    }

    /// Composites the window layer into the current scanline.  Tile fetching
    /// is not wired up, so the layer leaves the cleared line unchanged.
    fn render_window(&mut self)
        ensures
            *final(self) == *old(self),
    {
    }

    /// Composites the sprite layer into the current scanline.  Object
    /// fetching is not wired up, so the layer leaves the cleared line
    /// unchanged.
    fn render_sprites(&mut self)
        ensures
            *final(self) == *old(self),
    {
    }

    /// The current frame buffer.
    pub fn get_frame_buffer(&self) -> (r: &[u8])
        ensures
            r@ == self.frame_buffer@,
    {
        self.frame_buffer.as_slice()
    }

    /// Whether the engine is in vertical blank.
    pub fn is_vblank(&self) -> (r: bool)
        ensures
            r == (self.mode is VBlank),
    {
        self.mode == PpuMode::VBlank
    }
}

impl Default for Ppu {
    fn default() -> (p: Ppu)
        ensures
            p.wf(),
            p.scanline == 0,
            p.mode is OamScan,
            p.cycles == 0,
    {
        Ppu::new()
    }
}

/// Law: the mode budgets of one visible scanline sum to the scanline
/// budget, and the visible plus blank scanlines at that budget sum to the
/// frame budget.
pub proof fn lemma_cycle_budget()
    ensures
        SCAN_OBJECTS_CYCLES + DRAW_CYCLES + HBLANK_CYCLES == SCANLINE_CYCLES,
        144 * SCANLINE_CYCLES + 10 * SCANLINE_CYCLES == FRAME_CYCLES,
{
}

/// Offset within a scanline's cycle budget at which a mode begins.
pub open spec fn spec_mode_offset(m: PpuMode) -> int {
    match m {
        PpuMode::OamScan => 0,
        PpuMode::Drawing => SCAN_OBJECTS_CYCLES as int,
        PpuMode::HBlank => (SCAN_OBJECTS_CYCLES + DRAW_CYCLES) as int,
        PpuMode::VBlank => 0,
    }
}

/// Position of a timing state within the frame's cycle budget.
pub open spec fn spec_frame_position(t: PpuTiming) -> int {
    t.scanline * (SCANLINE_CYCLES as int) + spec_mode_offset(t.mode) + t.cycles
}

/// A well-formed timing state sits strictly inside the frame budget.
pub proof fn lemma_position_bounds(t: PpuTiming)
    requires
        timing_wf(t),
    ensures
        0 <= spec_frame_position(t) < FRAME_CYCLES,
{
}

/// One tick advances the frame position by exactly one cycle, wrapping at
/// the frame budget, and preserves well-formedness.
pub proof fn lemma_tick_position(t: PpuTiming)
    requires
        timing_wf(t),
    ensures
        timing_wf(spec_tick_timing(t)),
        spec_frame_position(spec_tick_timing(t)) == (spec_frame_position(t) + 1) % (
        FRAME_CYCLES as int),
{
    lemma_position_bounds(t);
    let p = spec_frame_position(t);
    let t2 = spec_tick_timing(t);
    if p + 1 < FRAME_CYCLES {
        lemma_small_mod((p + 1) as nat, FRAME_CYCLES as nat);
    } else {
        assert(t.mode is VBlank && t.scanline == 153 && t.cycles == 455);
        assert(spec_frame_position(t2) == 0);
        assert((p + 1) % (FRAME_CYCLES as int) == 0);
    }
}

/// Two well-formed timing states at the same frame position are the same
/// state.
pub proof fn lemma_position_determines_timing(a: PpuTiming, b: PpuTiming)
    requires
        timing_wf(a),
        timing_wf(b),
        spec_frame_position(a) == spec_frame_position(b),
    ensures
        a == b,
{
    let line_a = a.scanline as int;
    let line_b = b.scanline as int;
    let ra = spec_mode_offset(a.mode) + a.cycles;
    let rb = spec_mode_offset(b.mode) + b.cycles;
    assert(0 <= ra < 456);
    assert(0 <= rb < 456);
    assert(line_a * 456 + ra == line_b * 456 + rb);
    assert(line_a == line_b) by (nonlinear_arith)
        requires
            line_a * 456 + ra == line_b * 456 + rb,
            0 <= ra < 456,
            0 <= rb < 456,
    ;
    assert(ra == rb);
    assert(a.mode == b.mode);
    assert(a =~= b);
}

/// The timing state after `n` clock ticks.
pub open spec fn spec_after_ticks(t: PpuTiming, n: nat) -> PpuTiming
    decreases n,
{
    if n == 0 {
        t
    } else {
        spec_tick_timing(spec_after_ticks(t, (n - 1) as nat))
    }
}

/// After `n` ticks the frame position has advanced by `n` cycles, modulo the
/// frame budget.
pub proof fn lemma_after_ticks_position(t: PpuTiming, n: nat)
    requires
        timing_wf(t),
    ensures
        timing_wf(spec_after_ticks(t, n)),
        spec_frame_position(spec_after_ticks(t, n)) == (spec_frame_position(t) + n) % (
        FRAME_CYCLES as int),
    decreases n,
{
    lemma_position_bounds(t);
    let m = FRAME_CYCLES as int;
    let p = spec_frame_position(t);
    if n == 0 {
        lemma_small_mod(p as nat, FRAME_CYCLES as nat);
    } else {
        let prev = spec_after_ticks(t, (n - 1) as nat);
        lemma_after_ticks_position(t, (n - 1) as nat);
        lemma_tick_position(prev);
        lemma_position_bounds(prev);
        let q = spec_frame_position(prev);
        // q == (p + n - 1) % m, and the final position is (q + 1) % m.
        lemma_add_mod_noop(p + n - 1, 1, m);
        lemma_small_mod(1nat, FRAME_CYCLES as nat);
        assert((q + 1) % m == ((p + n - 1) % m + 1int % m) % m);
        assert(((p + n - 1) % m + 1int % m) % m == (p + n) % m);
    }
}

/// Law: the video timing is periodic in the frame budget.  After exactly
/// one frame's worth of ticks, a well-formed engine is back at the same
/// scanline, mode and intra-mode cycle count; started from the initial
/// state, it is back at scanline 0 scanning objects.
pub proof fn lemma_frame_period(t: PpuTiming)
    requires
        timing_wf(t),
    ensures
        spec_after_ticks(t, FRAME_CYCLES as nat) == t,
{
    let m = FRAME_CYCLES as int;
    let p = spec_frame_position(t);
    lemma_after_ticks_position(t, FRAME_CYCLES as nat);
    lemma_position_bounds(t);
    lemma_mod_multiples_vanish(1, p, m);
    lemma_small_mod(p as nat, FRAME_CYCLES as nat);
    assert((p + FRAME_CYCLES) % m == p);
    lemma_position_determines_timing(spec_after_ticks(t, FRAME_CYCLES as nat), t);
}

} // verus!
