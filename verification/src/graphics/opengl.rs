//! OpenGL rendering backend for native platforms.  The device calls are not
//! wired up; the backend tracks configuration and initialization state.

use vstd::prelude::*;

use super::renderer::{RenderConfig, Renderer};
use crate::EmulatorError;

verus! {

/// OpenGL renderer.
pub struct OpenGLRenderer {
    config: RenderConfig,
    initialized: bool,
}

impl OpenGLRenderer {
    /// Creates an uninitialized renderer for a configuration.
    pub fn new(config: RenderConfig) -> (r: OpenGLRenderer)
        ensures
            !r.spec_initialized(),
            r.spec_width() == config.width,
            r.spec_height() == config.height,
            r.spec_scale() == config.scale,
    {
        OpenGLRenderer { config, initialized: false }
    }
}

impl Renderer for OpenGLRenderer {
    closed spec fn spec_initialized(&self) -> bool {
        self.initialized
    }

    closed spec fn spec_width(&self) -> u32 {
        self.config.width
    }

    closed spec fn spec_height(&self) -> u32 {
        self.config.height
    }

    closed spec fn spec_scale(&self) -> u32 {
        self.config.scale
    }

    fn init(&mut self) -> (r: Result<(), EmulatorError>) {
        self.initialized = true;
        Ok(())
    }

    fn render(&mut self, frame_buffer: &[u8]) -> (r: Result<(), EmulatorError>) {
        if !self.initialized {
            return Err(
                EmulatorError::GraphicsError(String::from_str("Renderer not initialized")),
            );
        }
        Ok(())
    }

    fn clear(&mut self) {
    }

    fn present(&mut self) {
    }

    fn get_viewport(&self) -> (u32, u32) {
        let w = self.config.width.checked_mul(self.config.scale);
        let h = self.config.height.checked_mul(self.config.scale);
        (w.unwrap_or(u32::MAX), h.unwrap_or(u32::MAX))
    }

    fn set_viewport(&mut self, width: u32, height: u32) {
        self.config.width = width;
        self.config.height = height;
    }
}

} // verus!
