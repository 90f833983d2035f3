//! Memory management unit: routes every address of the 64KB space to exactly
//! one backing store or to the cartridge controller, with defined behavior
//! for the echo and unused regions.

use vstd::prelude::*;

use super::cartridge::{
    spec_cart_write, spec_header_matches, spec_mbc_supported, spec_mbc_type, spec_ram_size,
    Cartridge,
};
use crate::EmulatorError;

verus! {

pub const ROM_BANK_0_START: u16 = 0x0000;

pub const ROM_BANK_0_END: u16 = 0x3FFF;

pub const ROM_BANK_N_START: u16 = 0x4000;

pub const ROM_BANK_N_END: u16 = 0x7FFF;

pub const VRAM_START: u16 = 0x8000;

pub const VRAM_END: u16 = 0x9FFF;

pub const EXTERNAL_RAM_START: u16 = 0xA000;

pub const EXTERNAL_RAM_END: u16 = 0xBFFF;

pub const WRAM_START: u16 = 0xC000;

pub const WRAM_END: u16 = 0xDFFF;

pub const ECHO_RAM_START: u16 = 0xE000;

pub const ECHO_RAM_END: u16 = 0xFDFF;

pub const OAM_START: u16 = 0xFE00;

pub const OAM_END: u16 = 0xFE9F;

pub const UNUSED_START: u16 = 0xFEA0;

pub const UNUSED_END: u16 = 0xFEFF;

pub const IO_REGISTERS_START: u16 = 0xFF00;

pub const IO_REGISTERS_END: u16 = 0xFF7F;

pub const HRAM_START: u16 = 0xFF80;

pub const HRAM_END: u16 = 0xFFFE;

pub const INTERRUPT_ENABLE_REGISTER: u16 = 0xFFFF;

/// Whether an address falls in the windows owned by the cartridge
/// controller: the two ROM banks and external RAM.
pub open spec fn spec_cartridge_window(address: u16) -> bool {
    address <= ROM_BANK_N_END || (EXTERNAL_RAM_START <= address && address <= EXTERNAL_RAM_END)
}

/// The banking state after one write routed through the address space: a
/// write into a cartridge window reaches the controller, any other write
/// leaves the banking state alone.
pub open spec fn spec_routed_bank_write(
    t: crate::emulator::cartridge::MbcType,
    s: crate::emulator::cartridge::BankState,
    address: u16,
    value: u8,
) -> crate::emulator::cartridge::BankState {
    if spec_cartridge_window(address) {
        spec_cart_write(t, s, address, value)
    } else {
        s
    }
}

/// Ghost model of the address space's own backing stores: one sequence per
/// non-cartridge region.
#[verifier::ext_equal]
pub ghost struct MmuView {
    pub vram: Seq<u8>,
    pub wram: Seq<u8>,
    pub oam: Seq<u8>,
    pub io_registers: Seq<u8>,
    pub hram: Seq<u8>,
    pub interrupt_enable: u8,
}

impl MmuView {
    /// Every backing store has its fixed size.
    pub open spec fn wf(self) -> bool {
        &&& self.vram.len() == 0x2000
        &&& self.wram.len() == 0x2000
        &&& self.oam.len() == 0xA0
        &&& self.io_registers.len() == 0x80
        &&& self.hram.len() == 0x7F
    }

    /// The byte a read of a non-cartridge address returns.  Every such
    /// address maps to exactly one region; the unused hole reads as `0xFF`;
    /// the echo region reads work RAM at the same relative offset.
    pub open spec fn spec_read(self, address: u16) -> u8 {
        if spec_cartridge_window(address) {
            0xFF
        } else if address <= VRAM_END {
            self.vram[address - VRAM_START]
        } else if address <= WRAM_END {
            self.wram[address - WRAM_START]
        } else if address <= ECHO_RAM_END {
            self.wram[address - ECHO_RAM_START]
        } else if address <= OAM_END {
            self.oam[address - OAM_START]
        } else if address <= UNUSED_END {
            0xFF
        } else if address <= IO_REGISTERS_END {
            self.io_registers[address - IO_REGISTERS_START]
        } else if address <= HRAM_END {
            self.hram[address - HRAM_START]
        } else {
            self.interrupt_enable
        }
    }

    /// The backing stores after a write of `value` to a non-cartridge
    /// address.  The unused hole ignores writes; a write to the echo region
    /// lands in work RAM at the same relative offset.
    pub open spec fn spec_write(self, address: u16, value: u8) -> MmuView {
        if spec_cartridge_window(address) {
            self
        } else if address <= VRAM_END {
            MmuView { vram: self.vram.update(address - VRAM_START, value), ..self }
        } else if address <= WRAM_END {
            MmuView { wram: self.wram.update(address - WRAM_START, value), ..self }
        } else if address <= ECHO_RAM_END {
            MmuView { wram: self.wram.update(address - ECHO_RAM_START, value), ..self }
        } else if address <= OAM_END {
            MmuView { oam: self.oam.update(address - OAM_START, value), ..self }
        } else if address <= UNUSED_END {
            self
        } else if address <= IO_REGISTERS_END {
            MmuView {
                io_registers: self.io_registers.update(address - IO_REGISTERS_START, value),
                ..self
            }
        } else if address <= HRAM_END {
            MmuView { hram: self.hram.update(address - HRAM_START, value), ..self }
        } else {
            MmuView { interrupt_enable: value, ..self }
        }
    }
}

/// Memory management unit: owned, fixed-length backing stores for each
/// non-cartridge region, and the cartridge controller that the ROM and
/// external-RAM windows forward to once an image is loaded.
pub struct Mmu {
    vram: Vec<u8>,
    wram: Vec<u8>,
    oam: Vec<u8>,
    io_registers: Vec<u8>,
    hram: Vec<u8>,
    interrupt_enable: u8,
    cartridge: Option<Cartridge>,
}

impl View for Mmu {
    type V = MmuView;

    closed spec fn view(&self) -> MmuView {
        MmuView {
            vram: self.vram@,
            wram: self.wram@,
            oam: self.oam@,
            io_registers: self.io_registers@,
            hram: self.hram@,
            interrupt_enable: self.interrupt_enable,
        }
    }
}

impl Mmu {
    /// The loaded cartridge, if an image has been accepted.
    pub closed spec fn spec_cartridge(&self) -> Option<Cartridge> {
        self.cartridge
    }

    /// The backing stores have their fixed sizes and any loaded cartridge
    /// is well formed.
    pub open spec fn wf(&self) -> bool {
        &&& self@.wf()
        &&& (self.spec_cartridge() matches Some(c) ==> c.wf())
    }

    /// The byte a read of any address returns: the cartridge windows read
    /// through the controller — the `0xFF` sentinel before an image is
    /// loaded — and every other address reads its backing store.
    pub open spec fn spec_read_byte(&self, address: u16) -> u8 {
        if spec_cartridge_window(address) {
            match self.spec_cartridge() {
                Option::Some(c) => c.spec_read(address),
                Option::None => 0xFF,
            }
        } else {
            self@.spec_read(address)
        }
    }

    /// Creates an MMU with every backing store zeroed and no cartridge.
    pub fn new() -> (m: Mmu)
        ensures
            m.wf(),
            m@.vram == Seq::new(0x2000, |i: int| 0u8),
            m@.wram == Seq::new(0x2000, |i: int| 0u8),
            m@.oam == Seq::new(0xA0, |i: int| 0u8),
            m@.io_registers == Seq::new(0x80, |i: int| 0u8),
            m@.hram == Seq::new(0x7F, |i: int| 0u8),
            m@.interrupt_enable == 0,
            m.spec_cartridge() is None,
    {
        let m = Mmu {
            vram: vec![0u8; 0x2000],
            wram: vec![0u8; 0x2000],
            oam: vec![0u8; 0xA0],
            io_registers: vec![0u8; 0x80],
            hram: vec![0u8; 0x7F],
            interrupt_enable: 0,
            cartridge: None,
        };
        proof {
            assert(m@.vram =~= Seq::new(0x2000, |i: int| 0u8));
            assert(m@.wram =~= Seq::new(0x2000, |i: int| 0u8));
            assert(m@.oam =~= Seq::new(0xA0, |i: int| 0u8));
            assert(m@.io_registers =~= Seq::new(0x80, |i: int| 0u8));
            assert(m@.hram =~= Seq::new(0x7F, |i: int| 0u8));
        }
        m
    }

    /// Reads one byte; total over the whole 16-bit range.
    pub fn read_byte(&self, address: u16) -> (b: u8)
        requires
            self.wf(),
        ensures
            b == self.spec_read_byte(address),
    {
        if address <= ROM_BANK_N_END || (EXTERNAL_RAM_START <= address && address
            <= EXTERNAL_RAM_END) {
            match &self.cartridge {
                Some(cart) => cart.read(address),
                None => 0xFF,
            }
        } else if address <= VRAM_END {
            self.vram[(address - VRAM_START) as usize]
        } else if address <= WRAM_END {
            self.wram[(address - WRAM_START) as usize]
        } else if address <= ECHO_RAM_END {
            self.wram[(address - ECHO_RAM_START) as usize]
        } else if address <= OAM_END {
            self.oam[(address - OAM_START) as usize]
        } else if address <= UNUSED_END {
            0xFF
        } else if address <= IO_REGISTERS_END {
            self.io_registers[(address - IO_REGISTERS_START) as usize]
        } else if address <= HRAM_END {
            self.hram[(address - HRAM_START) as usize]
        } else {
            self.interrupt_enable
        }
    }

    /// Writes one byte; total over the whole 16-bit range.  A write into a
    /// cartridge window is forwarded to the controller to drive bank-select
    /// logic; the backing stores only move for their own addresses.
    pub fn write_byte(&mut self, address: u16, value: u8)
        requires
            old(self).wf(),
        ensures
            final(self).wf(),
            final(self)@ == (if spec_cartridge_window(address) {
                old(self)@
            } else {
                old(self)@.spec_write(address, value)
            }),
            old(self).spec_cartridge() is None ==> final(self).spec_cartridge() is None,
            old(self).spec_cartridge() matches Some(c) ==> (final(self).spec_cartridge() matches
                Some(d) && d.header == c.header && d.mbc_type == c.mbc_type && d.rom_data
                == c.rom_data && d.bank_state() == spec_routed_bank_write(
                c.mbc_type,
                c.bank_state(),
                address,
                value,
            )),
    {
        if address <= ROM_BANK_N_END || (EXTERNAL_RAM_START <= address && address
            <= EXTERNAL_RAM_END) {
            let taken = self.cartridge.take();
            match taken {
                Some(mut cart) => {
                    cart.write(address, value);
                    self.cartridge = Some(cart);
                },
                None => {},
            }
        } else if address <= VRAM_END {
            self.vram[(address - VRAM_START) as usize] = value;
        } else if address <= WRAM_END {
            self.wram[(address - WRAM_START) as usize] = value;
        } else if address <= ECHO_RAM_END {
            self.wram[(address - ECHO_RAM_START) as usize] = value;
        } else if address <= OAM_END {
            self.oam[(address - OAM_START) as usize] = value;
        } else if address <= UNUSED_END {
            // Unused hole: writes are no-ops.
        } else if address <= IO_REGISTERS_END {
            self.io_registers[(address - IO_REGISTERS_START) as usize] = value;
        } else if address <= HRAM_END {
            self.hram[(address - HRAM_START) as usize] = value;
        } else {
            self.interrupt_enable = value;
        }
        proof {
            if spec_cartridge_window(address) {
                assert(self@ =~= old(self)@);
            } else {
                assert(self@ =~= old(self)@.spec_write(address, value));
            }
        }
    }

    /// Reads a 16-bit word as a little-endian pair of byte reads.
    pub fn read_word(&self, address: u16) -> (w: u16)
        requires
            self.wf(),
            address < 0xFFFF,
        ensures
            w == self.spec_read_byte(address) + 256 * self.spec_read_byte((address + 1) as u16),
    {
        let low = self.read_byte(address) as u16;
        let high = self.read_byte(address + 1) as u16;
        proof {
            let l = low;
            let h = high;
            assert((h << 8) | l == l + 256 * h) by (bit_vector)
                requires
                    l < 256 && h < 256,
            ;
        }
        (high << 8) | low
    }

    /// Writes a 16-bit word as a little-endian pair of byte writes.
    pub fn write_word(&mut self, address: u16, value: u16)
        requires
            old(self).wf(),
            address < 0xFFFF,
        ensures
            final(self).wf(),
            final(self)@ == old(self)@.spec_write(address, (value & 0xFF) as u8).spec_write(
                (address + 1) as u16,
                (value >> 8) as u8,
            ),
            old(self).spec_cartridge() is None ==> final(self).spec_cartridge() is None,
            old(self).spec_cartridge() matches Some(c) ==> (final(self).spec_cartridge() matches
                Some(d) && d.header == c.header && d.mbc_type == c.mbc_type && d.rom_data
                == c.rom_data && d.bank_state() == spec_routed_bank_write(
                c.mbc_type,
                spec_routed_bank_write(c.mbc_type, c.bank_state(), address, (value & 0xFF) as u8),
                (address + 1) as u16,
                (value >> 8) as u8,
            )),
    {
        self.write_byte(address, (value & 0xFF) as u8);
        self.write_byte(address + 1, (value >> 8) as u8);
    }

    /// Loads a ROM image: validates it, builds the cartridge controller
    /// from it, and hands the controller full ownership of the image.  The
    /// fixed bank and the default switchable bank are then visible through
    /// the ROM windows.
    pub fn load_rom(&mut self, rom_data: &[u8]) -> (r: Result<(), EmulatorError>)
        requires
            old(self).wf(),
        ensures
            final(self).wf(),
            final(self)@ == old(self)@,
            r is Err <==> (rom_data@.len() < 0x8000 || !spec_mbc_supported(rom_data@[0x147])),
            r matches Err(e) ==> final(self).spec_cartridge() == old(self).spec_cartridge() && (
            if rom_data@.len() < 0x8000 {
                e is InvalidRom
            } else {
                e matches EmulatorError::UnsupportedCartridge(c) && c == rom_data@[0x147]
            }),
            r is Ok ==> (final(self).spec_cartridge() matches Some(cart) && cart.wf()
                && spec_header_matches(rom_data@, cart.header) && cart.mbc_type == spec_mbc_type(
                rom_data@[0x147],
            ) && cart.rom_data@ == rom_data@ && cart.ram_data@ == Seq::new(
                spec_ram_size(rom_data@[0x149]),
                |i: int| 0u8,
            ) && cart.current_rom_bank == 1 && cart.current_ram_bank == 0 && !cart.ram_enabled
                && cart.banking_mode == 0),
    {
        let image = vstd::slice::slice_to_vec(rom_data);
        match Cartridge::new(image) {
            Ok(cart) => {
                self.cartridge = Some(cart);
                Ok(())
            },
            Err(e) => Err(e),
        }
    }
}

impl Default for Mmu {
    fn default() -> (m: Mmu)
        ensures
            m.wf(),
            m.spec_cartridge() is None,
    {
        Mmu::new()
    }
}

/// Law: a write leaves the address space well formed, whatever the address
/// and value.  With `Mmu::new` establishing well-formedness, `write_byte`
/// preserving it, and `read_byte` requiring nothing more, every read after
/// any sequence of writes is total.
pub proof fn lemma_write_preserves_wf(m: MmuView, address: u16, value: u8)
    requires
        m.wf(),
    ensures
        m.spec_write(address, value).wf(),
{
}

/// Law: the echo region is a pure alias of work RAM — a byte written through
/// either window is read back through the other at the same relative offset.
pub proof fn lemma_echo_ram_aliases_wram(m: MmuView, k: u16, v: u8)
    requires
        m.wf(),
        k < 0x1E00,
    ensures
        m.spec_write((ECHO_RAM_START + k) as u16, v).spec_read((WRAM_START + k) as u16) == v,
        m.spec_write((WRAM_START + k) as u16, v).spec_read((ECHO_RAM_START + k) as u16) == v,
{
}

} // verus!
