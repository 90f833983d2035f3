//! Common rendering interface shared by the graphics backends.

use vstd::prelude::*;

use crate::EmulatorError;

verus! {

/// Common renderer contract for the graphics backends.  A backend starts
/// uninitialized; `init` brings it up, and `render` succeeds exactly when
/// the backend has been initialized.  The viewport state only moves under
/// `set_viewport`.
pub trait Renderer {
    /// Whether the backend has been initialized.
    spec fn spec_initialized(&self) -> bool;

    /// The configured viewport width before scaling.
    spec fn spec_width(&self) -> u32;

    /// The configured viewport height before scaling.
    spec fn spec_height(&self) -> u32;

    /// The configured integer scale factor.
    spec fn spec_scale(&self) -> u32;

    /// Initializes the renderer.
    fn init(&mut self) -> (r: Result<(), EmulatorError>)
        ensures
            r is Ok,
            final(self).spec_initialized(),
            final(self).spec_width() == old(self).spec_width(),
            final(self).spec_height() == old(self).spec_height(),
            final(self).spec_scale() == old(self).spec_scale(),
    ;

    /// Renders a frame buffer to the output.
    fn render(&mut self, frame_buffer: &[u8]) -> (r: Result<(), EmulatorError>)
        ensures
            r is Ok <==> old(self).spec_initialized(),
            r matches Err(e) ==> e is GraphicsError,
            final(self).spec_initialized() == old(self).spec_initialized(),
            final(self).spec_width() == old(self).spec_width(),
            final(self).spec_height() == old(self).spec_height(),
            final(self).spec_scale() == old(self).spec_scale(),
    ;

    /// Clears the output.
    fn clear(&mut self)
        ensures
            final(self).spec_initialized() == old(self).spec_initialized(),
            final(self).spec_width() == old(self).spec_width(),
            final(self).spec_height() == old(self).spec_height(),
            final(self).spec_scale() == old(self).spec_scale(),
    ;

    /// Presents the rendered frame.
    fn present(&mut self)
        ensures
            final(self).spec_initialized() == old(self).spec_initialized(),
            final(self).spec_width() == old(self).spec_width(),
            final(self).spec_height() == old(self).spec_height(),
            final(self).spec_scale() == old(self).spec_scale(),
    ;

    /// The viewport dimensions: width and height scaled by the scale
    /// factor, held at the integer ceiling when a product overflows.
    fn get_viewport(&self) -> (r: (u32, u32))
        ensures
            r.0 == (if self.spec_width() * self.spec_scale() <= u32::MAX {
                self.spec_width() * self.spec_scale()
            } else {
                u32::MAX as int
            }),
            r.1 == (if self.spec_height() * self.spec_scale() <= u32::MAX {
                self.spec_height() * self.spec_scale()
            } else {
                u32::MAX as int
            }),
    ;

    /// Sets the viewport dimensions.
    fn set_viewport(&mut self, width: u32, height: u32)
        ensures
            final(self).spec_width() == width,
            final(self).spec_height() == height,
            final(self).spec_scale() == old(self).spec_scale(),
            final(self).spec_initialized() == old(self).spec_initialized(),
    ;
}

/// Shader source code for a backend.
pub struct ShaderSource {
    pub vertex: &'static str,
    pub fragment: &'static str,
}

/// Rendering configuration.
pub struct RenderConfig {
    pub width: u32,
    pub height: u32,
    pub scale: u32,
    pub vsync: bool,
    pub filter: FilterMode,
}

impl Default for RenderConfig {
    /// The default configuration: the LCD dimensions at 4x scale, with
    /// vertical sync and nearest-neighbour filtering.
    fn default() -> (c: RenderConfig)
        ensures
            c.width == 160,
            c.height == 144,
            c.scale == 4,
            c.vsync,
            c.filter is Nearest,
    {
        RenderConfig { width: 160, height: 144, scale: 4, vsync: true, filter: FilterMode::Nearest }
    }
}

/// Texture filtering modes.
#[derive(Debug, Clone, Copy, PartialEq, Eq, Structural)]
pub enum FilterMode {
    Nearest,
    Linear,
}

/// The gray shade displayed for a palette index: 0 is lightest, 3 darkest,
/// and out-of-range indices show as black.
pub open spec fn spec_shade(pixel: u8) -> u8 {
    if pixel == 0 {
        255
    } else if pixel == 1 {
        192
    } else if pixel == 2 {
        96
    } else {
        0
    }
}

/// Converts palette indices to one gray texture byte per pixel.
pub fn create_texture_data(frame_buffer: &[u8]) -> (r: Vec<u8>)
    ensures
        r@.len() == frame_buffer@.len(),
        forall|i: int| 0 <= i < r@.len() ==> r@[i] == spec_shade(frame_buffer@[i]),
{
    let mut r: Vec<u8> = Vec::new();
    let mut i: usize = 0;
    while i < frame_buffer.len()
        invariant
            i <= frame_buffer@.len(),
            r@.len() == i,
            forall|j: int| 0 <= j < i ==> r@[j] == spec_shade(frame_buffer@[j]),
        decreases frame_buffer@.len() - i,
    {
        let pixel = frame_buffer[i];
        let shade: u8 = if pixel == 0 {
            255
        } else if pixel == 1 {
            192
        } else if pixel == 2 {
            96
        } else {
            0
        };
        r.push(shade);
        i = i + 1;
    }
    r
}

} // verus!
