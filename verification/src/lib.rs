//! Game Boy DMG-01 emulator core.
//!
//! Cycle-granular emulation of the memory-mapped hardware of the original
//! handheld: a 64KB address space routed over fixed backing stores, a
//! bank-switching cartridge controller, a video timing engine and a
//! four-channel audio engine.  The library is platform-agnostic; display,
//! input and audio-device glue live outside it.

use vstd::prelude::*;

pub mod emulator;
pub mod graphics;
pub mod platform;
pub mod text;

pub use emulator::GameBoy;

verus! {

/// Emulator error taxonomy.
///
/// Construction-time failures surface as values of this type; all runtime
/// read/write operations are total and infallible by contract.
#[derive(Debug)]
pub enum EmulatorError {
    /// The ROM image is too short to be a cartridge.
    InvalidRom,
    /// The header names a controller family with no implemented variant;
    /// carries the raw type byte.
    UnsupportedCartridge(u8),
    /// A memory subsystem failure described by the carried text.
    MemoryError(String),
    /// An audio subsystem failure described by the carried text.
    AudioError(String),
    /// A graphics subsystem failure described by the carried text.
    GraphicsError(String),
}

} // verus!
