//! Core emulator components: processor registers, address space, video
//! timing, audio synthesis and the cartridge controller.

use vstd::prelude::*;

pub mod apu;
pub mod cartridge;
pub mod cpu;
pub mod memory;
pub mod ppu;

use crate::EmulatorError;

verus! {

/// Ghost model of the console shell: the two output buffers it exposes.
pub ghost struct GameBoyView {
    pub frame: Seq<u8>,
    pub samples: Seq<i16>,
}

/// Top-level console shell.
///
/// The instruction fetch-decode-execute engine that would drive the
/// components is an external collaborator; this shell only validates ROM
/// images handed to it and exposes the (still empty) output buffers.
pub struct GameBoy {
    frame: Vec<u8>,
    samples: Vec<i16>,
}

impl View for GameBoy {
    type V = GameBoyView;

    closed spec fn view(&self) -> GameBoyView {
        GameBoyView { frame: self.frame@, samples: self.samples@ }
    }
}

impl GameBoy {
    /// Creates a console shell with empty output buffers.
    pub fn new() -> (gb: GameBoy)
        ensures
            gb@.frame == Seq::<u8>::empty(),
            gb@.samples == Seq::<i16>::empty(),
    {
        GameBoy { frame: Vec::new(), samples: Vec::new() }
    }

    /// Accepts a ROM image; rejects exactly the empty image.
    pub fn load_rom(&mut self, rom_data: &[u8]) -> (r: Result<(), EmulatorError>)
        ensures
            r is Err <==> rom_data@.len() == 0,
            r matches Err(e) ==> e is InvalidRom,
            final(self)@ == old(self)@,
    {
        if rom_data.len() == 0 {
            return Err(EmulatorError::InvalidRom);
        }
        Ok(())
    }

    /// Advances the console by one cycle.  The instruction engine is outside
    /// this core, so one cycle currently carries no observable effect.
    pub fn step(&mut self)
        ensures
            final(self)@ == old(self)@,
    {
    }

    /// The current frame buffer contents.
    pub fn get_frame_buffer(&self) -> (r: &[u8])
        ensures
            r@ == self@.frame,
    {
        self.frame.as_slice()
    }

    /// The audio samples produced since the last clear.
    pub fn get_audio_samples(&self) -> (r: &[i16])
        ensures
            r@ == self@.samples,
    {
        self.samples.as_slice()
    }
}

impl Default for GameBoy {
    fn default() -> (gb: GameBoy)
        ensures
            gb@.frame == Seq::<u8>::empty(),
            gb@.samples == Seq::<i16>::empty(),
    {
        GameBoy::new()
    }
}

} // verus!
