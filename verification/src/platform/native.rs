//! Native platform wiring: frame pacing around the console shell, joypad
//! state, audio sample collection and display conversion.

use vstd::prelude::*;

use crate::emulator::{GameBoy, GameBoyView};
use crate::emulator::ppu::FRAME_CYCLES;
use crate::graphics::renderer::spec_shade;
use vstd::arithmetic::div_mod::lemma_fundamental_div_mod_converse;
use crate::EmulatorError;

verus! {

/// Nanoseconds per frame at roughly 60 frames per second.
pub const TARGET_FRAME_NANOS: u64 = 16_666_667;

/// Relies on `std::time::SystemTime::now`, read against the Unix epoch and
/// converted to whole nanoseconds; a reading before the epoch yields 0.
/// Nothing is promised of the value: the wall clock may move arbitrarily
/// between calls.
#[verifier::external_body]
fn clock_nanos() -> u64 {
    match std::time::SystemTime::now().duration_since(std::time::SystemTime::UNIX_EPOCH) {
        Ok(d) => d.as_nanos() as u64,
        Err(_) => 0,
    }
}

/// Whether a new frame is due: the clock has advanced at least one frame
/// interval past the previous frame time.
pub open spec fn spec_frame_due(now: u64, last: u64, target: u64) -> bool {
    now >= last + target
}

/// Decides whether a new frame is due given a clock reading, the previous
/// frame time and the frame interval.
pub fn frame_due(now: u64, last: u64, target: u64) -> (r: bool)
    ensures
        r == spec_frame_due(now, last, target),
{
    if now < last {
        false
    } else {
        now - last >= target
    }
}

/// Native console wrapper that paces emulation to the frame interval.
pub struct NativeGameBoy {
    gameboy: GameBoy,
    last_frame_time: u64,
    target_frame_time: u64,
}

impl NativeGameBoy {
    /// The wrapped console's observable state.
    pub closed spec fn spec_gameboy(&self) -> GameBoyView {
        self.gameboy@
    }

    /// The frame interval in nanoseconds.
    pub closed spec fn spec_target(&self) -> u64 {
        self.target_frame_time
    }

    /// Creates a paced console at the standard frame interval.
    pub fn new() -> (r: NativeGameBoy)
        ensures
            r.spec_gameboy().frame == Seq::<u8>::empty(),
            r.spec_gameboy().samples == Seq::<i16>::empty(),
            r.spec_target() == TARGET_FRAME_NANOS,
    {
        NativeGameBoy {
            gameboy: GameBoy::new(),
            last_frame_time: clock_nanos(),
            target_frame_time: TARGET_FRAME_NANOS,
        }
    }

    /// Accepts a ROM image; rejects exactly the empty image.
    pub fn load_rom(&mut self, rom_data: &[u8]) -> (r: Result<(), EmulatorError>)
        ensures
            r is Err <==> rom_data@.len() == 0,
            r matches Err(e) ==> e is InvalidRom,
            final(self).spec_gameboy() == old(self).spec_gameboy(),
            final(self).spec_target() == old(self).spec_target(),
    {
        self.gameboy.load_rom(rom_data)
    }

    /// Runs one frame's worth of cycles if a frame interval has elapsed
    /// since the last frame; otherwise does nothing.  When a frame runs,
    /// the frame time is moved up to the clock reading.
    pub fn run_frame(&mut self)
        ensures
            final(self).spec_gameboy() == old(self).spec_gameboy(),
            final(self).spec_target() == old(self).spec_target(),
    {
        let now = clock_nanos();
        if frame_due(now, self.last_frame_time, self.target_frame_time) {
            let mut i: u32 = 0;
            while i < FRAME_CYCLES
                invariant
                    i <= FRAME_CYCLES,
                    self.spec_gameboy() == old(self).spec_gameboy(),
                    self.spec_target() == old(self).spec_target(),
                decreases FRAME_CYCLES - i,
            {
                self.gameboy.step();
                i = i + 1;
            }
            self.last_frame_time = now;
        }
    }

    /// The current frame buffer.
    pub fn get_frame_buffer(&self) -> (r: &[u8])
        ensures
            r@ == self.spec_gameboy().frame,
    {
        self.gameboy.get_frame_buffer()
    }

    /// The audio samples produced since the last clear.
    pub fn get_audio_samples(&self) -> (r: &[i16])
        ensures
            r@ == self.spec_gameboy().samples,
    {
        self.gameboy.get_audio_samples()
    }

    /// Whether a frame interval has elapsed since the last frame.  The
    /// answer depends on the wall clock, so nothing is promised of it.
    pub fn should_render(&self) -> bool {
        frame_due(clock_nanos(), self.last_frame_time, self.target_frame_time)
    }
}

impl Default for NativeGameBoy {
    fn default() -> (r: NativeGameBoy)
        ensures
            r.spec_target() == TARGET_FRAME_NANOS,
    {
        NativeGameBoy::new()
    }
}

/// Joypad button states for native platforms.
pub struct InputHandler {
    pub up: bool,
    pub down: bool,
    pub left: bool,
    pub right: bool,
    pub a: bool,
    pub b: bool,
    pub start: bool,
    pub select: bool,
}

/// The joypad state byte: every bit starts high and each pressed button
/// pulls its bit low.
pub open spec fn spec_joypad_state(h: &InputHandler) -> u8 {
    let s0 = 0xFFu8;
    let s1 = if h.right {
        s0 & !0x01
    } else {
        s0
    };
    let s2 = if h.left {
        s1 & !0x02
    } else {
        s1
    };
    let s3 = if h.up {
        s2 & !0x04
    } else {
        s2
    };
    let s4 = if h.down {
        s3 & !0x08
    } else {
        s3
    };
    let s5 = if h.a {
        s4 & !0x10
    } else {
        s4
    };
    let s6 = if h.b {
        s5 & !0x20
    } else {
        s5
    };
    let s7 = if h.select {
        s6 & !0x40
    } else {
        s6
    };
    if h.start {
        s7 & !0x80
    } else {
        s7
    }
}

impl InputHandler {
    /// Creates an input handler with every button released.
    pub fn new() -> (h: InputHandler)
        ensures
            !h.up && !h.down && !h.left && !h.right,
            !h.a && !h.b && !h.start && !h.select,
    {
        InputHandler {
            up: false,
            down: false,
            left: false,
            right: false,
            a: false,
            b: false,
            start: false,
            select: false,
        }
    }

    /// The joypad state as a byte with pressed buttons pulled low.
    pub fn get_joypad_state(&self) -> (r: u8)
        ensures
            r == spec_joypad_state(self),
    {
        let mut state: u8 = 0xFF;
        if self.right {
            state = state & !0x01;
        }
        if self.left {
            state = state & !0x02;
        }
        if self.up {
            state = state & !0x04;
        }
        if self.down {
            state = state & !0x08;
        }
        if self.a {
            state = state & !0x10;
        }
        if self.b {
            state = state & !0x20;
        }
        if self.select {
            state = state & !0x40;
        }
        if self.start {
            state = state & !0x80;
        }
        state
    }

    /// Releases every button.
    pub fn reset(&mut self)
        ensures
            !final(self).up && !final(self).down && !final(self).left && !final(self).right,
            !final(self).a && !final(self).b && !final(self).start && !final(self).select,
    {
        self.up = false;
        self.down = false;
        self.left = false;
        self.right = false;
        self.a = false;
        self.b = false;
        self.start = false;
        self.select = false;
    }
}

impl Default for InputHandler {
    fn default() -> (h: InputHandler)
        ensures
            !h.up && !h.down && !h.left && !h.right,
            !h.a && !h.b && !h.start && !h.select,
    {
        InputHandler::new()
    }
}

/// Audio sample collection for native platforms.
pub struct AudioHandler {
    sample_rate: u32,
    buffer: Vec<i16>,
}

impl AudioHandler {
    /// The configured sample rate.
    pub closed spec fn spec_sample_rate(&self) -> u32 {
        self.sample_rate
    }

    /// The collected samples.
    pub closed spec fn spec_buffer(&self) -> Seq<i16> {
        self.buffer@
    }

    /// Creates an audio handler with an empty buffer.
    pub fn new(sample_rate: u32) -> (h: AudioHandler)
        ensures
            h.spec_sample_rate() == sample_rate,
            h.spec_buffer() == Seq::<i16>::empty(),
    {
        AudioHandler { sample_rate, buffer: Vec::new() }
    }

    /// Appends samples to the buffer.
    pub fn add_samples(&mut self, samples: &[i16])
        ensures
            final(self).spec_buffer() == old(self).spec_buffer() + samples@,
            final(self).spec_sample_rate() == old(self).spec_sample_rate(),
    {
        let mut i: usize = 0;
        while i < samples.len()
            invariant
                i <= samples@.len(),
                self.spec_sample_rate() == old(self).spec_sample_rate(),
                self.spec_buffer() == old(self).spec_buffer() + samples@.subrange(0, i as int),
            decreases samples@.len() - i,
        {
            self.buffer.push(samples[i]);
            i = i + 1;
            proof {
                assert(self.spec_buffer() =~= old(self).spec_buffer() + samples@.subrange(
                    0,
                    i as int,
                ));
            }
        }
        proof {
            assert(samples@.subrange(0, samples@.len() as int) =~= samples@);
        }
    }

    /// The collected samples.
    pub fn get_buffer(&self) -> (r: &[i16])
        ensures
            r@ == self.spec_buffer(),
    {
        self.buffer.as_slice()
    }

    /// Discards the collected samples.
    pub fn clear_buffer(&mut self)
        ensures
            final(self).spec_buffer() == Seq::<i16>::empty(),
            final(self).spec_sample_rate() == old(self).spec_sample_rate(),
    {
        self.buffer.clear();
    }

    /// The configured sample rate.
    pub fn get_sample_rate(&self) -> (r: u32)
        ensures
            r == self.spec_sample_rate(),
    {
        self.sample_rate
    }
}

/// Display conversion for native platforms: palette indices to RGB and
/// integer upscaling.
pub struct DisplayHandler {
    width: u32,
    height: u32,
    scale: u32,
}

impl DisplayHandler {
    /// The handler covers the LCD and its scale stays small enough that
    /// every scaled dimension fits comfortably in the machine's integers.
    pub closed spec fn wf(&self) -> bool {
        &&& self.width == 160
        &&& self.height == 144
        &&& self.scale <= 4096
    }

    /// The configured integer scale factor.
    pub closed spec fn spec_scale(&self) -> u32 {
        self.scale
    }

    /// Creates a display handler for the LCD at an integer scale.  The
    /// bound on the scale is a machine limit: it keeps every scaled
    /// dimension (at most `160 * 4096` pixels) and every per-row byte
    /// count (at most `160 * 4096 * 3` bytes) inside 32-bit arithmetic,
    /// on either pointer width this library is verified for.
    pub fn new(scale: u32) -> (h: DisplayHandler)
        requires
            scale <= 4096,
        ensures
            h.wf(),
            h.spec_scale() == scale,
    {
        DisplayHandler { width: 160, height: 144, scale }
    }

    /// The output dimensions: the LCD dimensions times the scale.
    pub fn get_dimensions(&self) -> (r: (u32, u32))
        requires
            self.wf(),
        ensures
            r.0 == 160 * self.spec_scale(),
            r.1 == 144 * self.spec_scale(),
    {
        (self.width * self.scale, self.height * self.scale)
    }

    /// Converts palette indices to RGB: three identical gray bytes per
    /// pixel, so output byte `k` shows the shade of source pixel `k / 3`.
    pub fn convert_to_rgb(&self, frame_buffer: &[u8]) -> (r: Vec<u8>)
        requires
            frame_buffer@.len() * 3 <= usize::MAX,
        ensures
            r@.len() == frame_buffer@.len() * 3,
            forall|k: int| 0 <= k < r@.len() ==> r@[k] == spec_shade(frame_buffer@[k / 3]),
    {
        let mut r: Vec<u8> = Vec::new();
        let mut i: usize = 0;
        while i < frame_buffer.len()
            invariant
                i <= frame_buffer@.len(),
                frame_buffer@.len() * 3 <= usize::MAX,
                r@.len() == i * 3,
                forall|k: int| 0 <= k < r@.len() ==> r@[k] == spec_shade(frame_buffer@[k / 3]),
            decreases frame_buffer@.len() - i,
        {
            let pixel = frame_buffer[i];
            let color: u8 = if pixel == 0 {
                255
            } else if pixel == 1 {
                192
            } else if pixel == 2 {
                96
            } else {
                0
            };
            r.push(color);
            r.push(color);
            r.push(color);
            i = i + 1;
            proof {
                let a = i - 1;
                assert forall|k: int| 0 <= k < r@.len() implies r@[k] == spec_shade(
                    frame_buffer@[k / 3],
                ) by {
                    if k >= 3 * a {
                        lemma_fundamental_div_mod_converse(k, 3, a, k - 3 * a);
                    }
                }
            }
        }
        r
    }

    /// One output row of the upscaled image: the source row's pixels, each
    /// repeated `scale` times.
    fn scaled_row(&self, rgb_data: &[u8], y: usize) -> (row: Vec<u8>)
        requires
            self.wf(),
            self.spec_scale() >= 1,
            rgb_data@.len() == 160 * 144 * 3,
            y < 144,
        ensures
            row@.len() == 160 * self.spec_scale() * 3,
            forall|k: int|
                0 <= k < row@.len() ==> row@[k] == rgb_data@[(y * 160 + (k / 3) / (
                self.spec_scale() as int)) * 3 + k % 3],
    {
        let scale = self.scale as usize;
        let ghost s = scale as int;
        let mut row: Vec<u8> = Vec::new();
        let mut x: usize = 0;
        while x < 160
            invariant
                self.wf(),
                scale == self.spec_scale(),
                s == scale as int,
                1 <= scale <= 4096,
                rgb_data@.len() == 160 * 144 * 3,
                y < 144,
                x <= 160,
                row@.len() == x * scale * 3,
                forall|k: int|
                    0 <= k < row@.len() ==> row@[k] == rgb_data@[(y * 160 + (k / 3) / s) * 3 + k
                        % 3],
            decreases 160 - x,
        {
            let pixel_idx = (y * 160 + x) * 3;
            let mut sx: usize = 0;
            while sx < scale
                invariant
                    self.wf(),
                    scale == self.spec_scale(),
                    s == scale as int,
                    1 <= scale <= 4096,
                    rgb_data@.len() == 160 * 144 * 3,
                    y < 144,
                    x < 160,
                    sx <= scale,
                    pixel_idx == (y * 160 + x) * 3,
                    row@.len() == (x * scale + sx) * 3,
                    forall|k: int|
                        0 <= k < row@.len() ==> row@[k] == rgb_data@[(y * 160 + (k / 3) / s) * 3
                            + k % 3],
                decreases scale - sx,
            {
                row.push(rgb_data[pixel_idx]);
                row.push(rgb_data[pixel_idx + 1]);
                row.push(rgb_data[pixel_idx + 2]);
                sx = sx + 1;
                proof {
                    let a = (x * scale + sx - 1) as int;
                    assert forall|k: int| 0 <= k < row@.len() implies row@[k] == rgb_data@[(y * 160
                        + (k / 3) / s) * 3 + k % 3] by {
                        if k >= 3 * a {
                            lemma_fundamental_div_mod_converse(k, 3, a, k - 3 * a);
                            lemma_fundamental_div_mod_converse(a, s, x as int, a - x * s);
                            assert(row@[k] == rgb_data@[pixel_idx + (k - 3 * a)]);
                        }
                    }
                }
            }
            proof {
                let xi = x as int;
                let si = s;
                assert((xi + 1) * si * 3 == (xi * si + si) * 3) by (nonlinear_arith);
            }
            x = x + 1;
        }
        row
    }
}

/// The source byte shown at output byte `k` of a frame upscaled by `s`:
/// output pixel `(yy, xx)` shows source pixel `(yy / s, xx / s)`, colour
/// components unchanged.
pub open spec fn spec_scaled_src(k: int, s: int) -> int {
    let p = k / 3;
    let c = k % 3;
    let yy = p / (160 * s);
    let xx = p % (160 * s);
    ((yy / s) * 160 + xx / s) * 3 + c
}

impl DisplayHandler {
    /// Upscales an RGB frame by the integer scale factor, repeating every
    /// source pixel in a `scale` by `scale` block.
    pub fn scale_pixels(&self, rgb_data: &[u8]) -> (r: Vec<u8>)
        requires
            self.wf(),
            rgb_data@.len() == 160 * 144 * 3,
        ensures
            r@.len() == 144 * self.spec_scale() * 160 * self.spec_scale() * 3,
            forall|k: int|
                0 <= k < r@.len() ==> r@[k] == rgb_data@[spec_scaled_src(
                    k,
                    self.spec_scale() as int,
                )],
    {
        let ghost s = self.spec_scale() as int;
        if self.scale == 1 {
            let r = vstd::slice::slice_to_vec(rgb_data);
            proof {
                assert forall|k: int| 0 <= k < r@.len() implies r@[k] == rgb_data@[spec_scaled_src(
                    k,
                    1,
                )] by {
                    let p = k / 3;
                    assert((k / 3) * 3 + k % 3 == k) by {
                        vstd::arithmetic::div_mod::lemma_fundamental_div_mod(k, 3);
                    }
                    assert((p / 160) * 160 + p % 160 == p) by {
                        vstd::arithmetic::div_mod::lemma_fundamental_div_mod(p, 160);
                    }
                    assert(p / 1 == p && (p / 160) / 1 == p / 160 && (p % 160) / 1 == p % 160);
                }
            }
            return r;
        }
        let scale = self.scale as usize;
        let mut out: Vec<u8> = Vec::new();
        let mut y: usize = 0;
        while y < 144
            invariant
                self.wf(),
                scale == self.spec_scale(),
                s == scale as int,
                scale <= 4096,
                rgb_data@.len() == 160 * 144 * 3,
                y <= 144,
                out@.len() == y * scale * 160 * scale * 3,
                forall|k: int| 0 <= k < out@.len() ==> out@[k] == rgb_data@[spec_scaled_src(k, s)],
            decreases 144 - y,
        {
            let mut sy: usize = 0;
            while sy < scale
                invariant
                    self.wf(),
                    scale == self.spec_scale(),
                    s == scale as int,
                    scale <= 4096,
                    rgb_data@.len() == 160 * 144 * 3,
                    y < 144,
                    sy <= scale,
                    out@.len() == (y * scale + sy) * 160 * scale * 3,
                    forall|k: int|
                        0 <= k < out@.len() ==> out@[k] == rgb_data@[spec_scaled_src(k, s)],
                decreases scale - sy,
            {
                let mut row = self.scaled_row(rgb_data, y);
                let ghost pre = out@;
                let ghost row_view = row@;
                out.append(&mut row);
                sy = sy + 1;
                proof {
                    let yy0 = (y * scale + sy - 1) as int;
                    let w = 160 * s;
                    assert(pre.len() == yy0 * w * 3) by (nonlinear_arith)
                        requires
                            pre.len() == yy0 * 160 * s * 3,
                            w == 160 * s,
                    ;
                    assert(out@.len() == (yy0 + 1) * 160 * s * 3) by (nonlinear_arith)
                        requires
                            out@.len() == yy0 * 160 * s * 3 + 160 * s * 3,
                    ;
                    assert(out@.len() == (y * scale + sy) * 160 * scale * 3);
                    assert forall|k: int| 0 <= k < out@.len() implies out@[k]
                        == rgb_data@[spec_scaled_src(k, s)] by {
                        if k < pre.len() {
                            assert(out@[k] == pre[k]);
                        } else {
                            let j = k - yy0 * w * 3;
                            assert(out@[k] == row_view[j]);
                            assert(row_view[j] == rgb_data@[(y * 160 + (j / 3) / s) * 3 + j % 3]);
                            let a = yy0 * w + j / 3;
                            assert(k == a * 3 + j % 3) by (nonlinear_arith)
                                requires
                                    k == yy0 * w * 3 + j,
                                    a == yy0 * w + j / 3,
                                    j == 3 * (j / 3) + j % 3,
                            ;
                            assert(j == 3 * (j / 3) + j % 3 && 0 <= j % 3 < 3) by {
                                vstd::arithmetic::div_mod::lemma_fundamental_div_mod(j, 3);
                            }
                            lemma_fundamental_div_mod_converse(k, 3, a, j % 3);
                            assert(0 <= j / 3 < w) by (nonlinear_arith)
                                requires
                                    0 <= j < w * 3,
                                    j == 3 * (j / 3) + j % 3,
                                    0 <= j % 3 < 3,
                            ;
                            lemma_fundamental_div_mod_converse(a, w, yy0, j / 3);
                            lemma_fundamental_div_mod_converse(yy0, s, y as int, yy0 - y * s);
                            assert(spec_scaled_src(k, s) == (y * 160 + (j / 3) / s) * 3 + j % 3);
                        }
                    }
                }
            }
            proof {
                let yi = y as int;
                let si = s;
                assert((yi + 1) * si * 160 * si * 3 == (yi * si + si) * 160 * si * 3)
                    by (nonlinear_arith);
            }
            y = y + 1;
        }
        out
    }
}

impl Default for DisplayHandler {
    fn default() -> (h: DisplayHandler)
        ensures
            h.wf(),
            h.spec_scale() == 4,
    {
        DisplayHandler::new(4)
    }
}

} // verus!
