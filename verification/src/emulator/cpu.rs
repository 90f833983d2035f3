//! Processor register file for the console's 8-bit CPU.
//!
//! The fetch-decode-execute engine is an external collaborator; this module
//! holds the register state and the paired 16-bit register views.

use vstd::prelude::*;

verus! {

/// Bit of the flags register set when a result is zero.
pub const FLAG_ZERO: u8 = 0x80;

/// Bit of the flags register set when the last operation subtracted.
pub const FLAG_NEGATIVE: u8 = 0x40;

/// Bit of the flags register set on a half-carry out of bit 3.
pub const FLAG_HALF_CARRY: u8 = 0x20;

/// Bit of the flags register set on a carry out of bit 7.
pub const FLAG_CARRY: u8 = 0x10;

/// CPU flags register.  Only the high four bits are defined; the low four
/// always read as zero.
#[derive(Clone, Copy, Debug, PartialEq, Eq, Structural)]
pub struct Flags {
    bits: u8,
}

impl Flags {
    /// The defined flag bits always sit in the high nibble.
    pub open spec fn wf(self) -> bool {
        self.spec_bits() & 0x0F == 0
    }

    /// The raw bit pattern of the flags.
    pub closed spec fn spec_bits(self) -> u8 {
        self.bits
    }

    /// Builds a flags value, discarding the undefined low bits.
    pub fn from_bits_truncate(bits: u8) -> (f: Flags)
        ensures
            f.spec_bits() == bits & 0xF0,
            f.wf(),
    {
        proof {
            let b = bits;
            assert((b & 0xF0) & 0x0F == 0) by (bit_vector);
        }
        Flags { bits: bits & 0xF0 }
    }

    /// The raw bit pattern of the flags.
    pub fn bits(&self) -> (b: u8)
        ensures
            b == self.spec_bits(),
    {
        self.bits
    }
}

/// CPU register state.
pub struct Cpu {
    pub a: u8,
    pub b: u8,
    pub c: u8,
    pub d: u8,
    pub e: u8,
    pub h: u8,
    pub l: u8,
    pub flags: Flags,
    /// Program counter.
    pub pc: u16,
    /// Stack pointer.
    pub sp: u16,
    /// Cycles executed so far.
    pub cycles: u64,
    pub halted: bool,
    /// Interrupt master enable.
    pub ime: bool,
}

impl Cpu {
    /// Creates a CPU with the post-boot register values.
    pub fn new() -> (cpu: Cpu)
        ensures
            cpu.a == 0x01,
            cpu.b == 0x00,
            cpu.c == 0x13,
            cpu.d == 0x00,
            cpu.e == 0xD8,
            cpu.h == 0x01,
            cpu.l == 0x4D,
            cpu.flags.spec_bits() == 0xB0,
            cpu.flags.wf(),
            cpu.pc == 0x0100,
            cpu.sp == 0xFFFE,
            cpu.cycles == 0,
            !cpu.halted,
            !cpu.ime,
    {
        proof {
            assert(0xB0u8 & 0xF0 == 0xB0) by (bit_vector);
        }
        Cpu {
            a: 0x01,
            b: 0x00,
            c: 0x13,
            d: 0x00,
            e: 0xD8,
            h: 0x01,
            l: 0x4D,
            flags: Flags::from_bits_truncate(0xB0),
            pc: 0x0100,
            sp: 0xFFFE,
            cycles: 0,
            halted: false,
            ime: false,
        }
    }

    /// Executes one instruction.  Instruction decoding belongs to the
    /// external instruction engine, so the register state is left unchanged.
    pub fn step(&mut self)
        ensures
            *final(self) == *old(self),
    {
        if self.halted {
            return ;
        }
    }

    /// The combined AF register pair.
    pub fn af(&self) -> (v: u16)
        ensures
            v == self.a * 256 + self.flags.spec_bits(),
    {
        proof {
            let a = self.a;
            let f = self.flags.spec_bits();
            assert(((a as u16) << 8) | (f as u16) == a * 256 + f) by (bit_vector);
        }
        (self.a as u16) << 8 | self.flags.bits() as u16
    }

    /// Sets the combined AF register pair; the undefined low flag bits are
    /// discarded.
    pub fn set_af(&mut self, value: u16)
        ensures
            final(self).a == value >> 8,
            final(self).flags.spec_bits() == (value as u8) & 0xF0,
            final(self).flags.wf(),
            *final(self) == (Cpu { a: final(self).a, flags: final(self).flags, ..*old(self) }),
    {
        proof {
            let v = value;
            assert(v >> 8 < 256) by (bit_vector);
        }
        self.a = (value >> 8) as u8;
        self.flags = Flags::from_bits_truncate(value as u8 & 0xF0);
        proof {
            let v = value;
            assert((v as u8 & 0xF0) & 0xF0 == v as u8 & 0xF0) by (bit_vector);
        }
    }

    /// The combined BC register pair.
    pub fn bc(&self) -> (v: u16)
        ensures
            v == self.b * 256 + self.c,
    {
        proof {
            let b = self.b;
            let c = self.c;
            assert(((b as u16) << 8) | (c as u16) == b * 256 + c) by (bit_vector);
        }
        (self.b as u16) << 8 | self.c as u16
    }

    /// Sets the combined BC register pair.
    pub fn set_bc(&mut self, value: u16)
        ensures
            final(self).b == value >> 8,
            final(self).c == value & 0xFF,
            *final(self) == (Cpu { b: final(self).b, c: final(self).c, ..*old(self) }),
    {
        proof {
            let v = value;
            assert(v >> 8 < 256 && v as u8 == v & 0xFF) by (bit_vector);
        }
        self.b = (value >> 8) as u8;
        self.c = value as u8;
    }

    /// The combined DE register pair.
    pub fn de(&self) -> (v: u16)
        ensures
            v == self.d * 256 + self.e,
    {
        proof {
            let d = self.d;
            let e = self.e;
            assert(((d as u16) << 8) | (e as u16) == d * 256 + e) by (bit_vector);
        }
        (self.d as u16) << 8 | self.e as u16
    }

    /// Sets the combined DE register pair.
    pub fn set_de(&mut self, value: u16)
        ensures
            final(self).d == value >> 8,
            final(self).e == value & 0xFF,
            *final(self) == (Cpu { d: final(self).d, e: final(self).e, ..*old(self) }),
    {
        proof {
            let v = value;
            assert(v >> 8 < 256 && v as u8 == v & 0xFF) by (bit_vector);
        }
        self.d = (value >> 8) as u8;
        self.e = value as u8;
    }

    /// The combined HL register pair.
    pub fn hl(&self) -> (v: u16)
        ensures
            v == self.h * 256 + self.l,
    {
        proof {
            let h = self.h;
            let l = self.l;
            assert(((h as u16) << 8) | (l as u16) == h * 256 + l) by (bit_vector);
        }
        (self.h as u16) << 8 | self.l as u16
    }

    /// Sets the combined HL register pair.
    pub fn set_hl(&mut self, value: u16)
        ensures
            final(self).h == value >> 8,
            final(self).l == value & 0xFF,
            *final(self) == (Cpu { h: final(self).h, l: final(self).l, ..*old(self) }),
    {
        proof {
            let v = value;
            assert(v >> 8 < 256 && v as u8 == v & 0xFF) by (bit_vector);
        }
        self.h = (value >> 8) as u8;
        self.l = value as u8;
    }
}

impl Default for Cpu {
    fn default() -> (cpu: Cpu)
        ensures
            cpu.pc == 0x0100,
            cpu.sp == 0xFFFE,
    {
        Cpu::new()
    }
}

} // verus!
