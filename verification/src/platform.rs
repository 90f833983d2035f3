//! Platform-specific wiring around the emulator core.

pub mod native;
