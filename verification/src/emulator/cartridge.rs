//! Cartridge and memory bank controller support: header parsing, controller
//! variant selection and bank-switching semantics.

use vstd::prelude::*;

use crate::EmulatorError;
use crate::text::{dec_str, u64_to_string};

verus! {

/// Cartridge header information, read once from the fixed header offsets of
/// the ROM image and immutable thereafter.
#[derive(Debug, Clone)]
pub struct CartridgeHeader {
    pub title: String,
    pub cartridge_type: u8,
    pub rom_size: u8,
    pub ram_size: u8,
    pub destination_code: u8,
    pub old_licensee_code: u8,
    pub mask_rom_version: u8,
    pub header_checksum: u8,
    pub global_checksum: u16,
}

/// Memory bank controller families.
#[derive(Debug, Clone, Copy, PartialEq, Eq, Structural)]
pub enum MbcType {
    NoMbc,
    Mbc1,
    Mbc2,
    Mbc3,
    Mbc5,
    Unsupported(u8),
}

/// The controller family selected by the header's cartridge-type byte, for
/// the type bytes this library understands.
pub open spec fn spec_mbc_type(code: u8) -> MbcType {
    if code == 0x00 {
        MbcType::NoMbc
    } else if 0x01 <= code && code <= 0x03 {
        MbcType::Mbc1
    } else if 0x05 <= code && code <= 0x06 {
        MbcType::Mbc2
    } else if 0x0F <= code && code <= 0x13 {
        MbcType::Mbc3
    } else if 0x19 <= code && code <= 0x1E {
        MbcType::Mbc5
    } else {
        MbcType::Unsupported(code)
    }
}

/// Whether the cartridge-type byte names an implemented controller family.
pub open spec fn spec_mbc_supported(code: u8) -> bool {
    !(spec_mbc_type(code) is Unsupported)
}

/// External-RAM size in bytes declared by the header's RAM-size code.
pub open spec fn spec_ram_size(code: u8) -> nat {
    if code == 0x01 {
        0x800
    } else if code == 0x02 {
        0x2000
    } else if code == 0x03 {
        0x8000
    } else if code == 0x04 {
        0x20000
    } else if code == 0x05 {
        0x10000
    } else {
        0
    }
}

/// Number of characters of the title field that precede its first NUL (the
/// whole field when no byte is zero).
pub open spec fn spec_title_end(bytes: Seq<u8>) -> nat
    decreases bytes.len(),
{
    if bytes.len() == 0 {
        0
    } else if bytes[0] == 0 {
        0
    } else {
        1 + spec_title_end(bytes.drop_first())
    }
}

proof fn lemma_title_end(bytes: Seq<u8>, i: nat)
    requires
        i <= bytes.len(),
        forall|j: int| 0 <= j < i ==> bytes[j] != 0,
        i == bytes.len() || bytes[i as int] == 0,
    ensures
        spec_title_end(bytes) == i,
    decreases bytes.len(),
{
    if bytes.len() == 0 {
    } else if bytes[0] == 0 {
        assert(i == 0);
    } else {
        assert(i >= 1);
        lemma_title_end(bytes.drop_first(), (i - 1) as nat);
    }
}

/// The NUL-truncated bytes of the title field of a ROM image.
pub open spec fn spec_title_bytes(rom: Seq<u8>) -> Seq<u8> {
    let t = rom.subrange(0x134, 0x144);
    t.subrange(0, spec_title_end(t) as int)
}

/// The title encoded in a ROM image: the bytes of the title field up to its
/// first NUL, decoded as UTF-8 with invalid sequences replaced.
pub open spec fn spec_title(rom: Seq<u8>) -> Seq<char> {
    crate::text::utf8_lossy(spec_title_bytes(rom))
}

/// One step of the header-checksum recurrence: subtract the byte, then one
/// more, both wrapping at 8 bits.
pub open spec fn spec_checksum_step(c: u8, b: u8) -> u8 {
    c.wrapping_sub(b).wrapping_sub(1)
}

/// The header checksum over the first `n` bytes of the checksummed header
/// span, which starts at offset `0x134`.
pub open spec fn spec_header_checksum_upto(rom: Seq<u8>, n: nat) -> u8
    decreases n,
{
    if n == 0 {
        0
    } else {
        spec_checksum_step(spec_header_checksum_upto(rom, (n - 1) as nat), rom[0x134 + n - 1])
    }
}

/// The header checksum of a ROM image, computed over offsets
/// `0x134..0x14D`.
pub open spec fn spec_header_checksum(rom: Seq<u8>) -> u8 {
    spec_header_checksum_upto(rom, 0x19)
}

/// Whether a header holds exactly the fields read from the fixed offsets of
/// a ROM image.
pub open spec fn spec_header_matches(rom: Seq<u8>, h: CartridgeHeader) -> bool {
    &&& h.title@ == spec_title(rom)
    &&& (crate::text::spec_all_ascii(spec_title_bytes(rom)) ==> h.title@ == spec_title_bytes(
        rom,
    ).map_values(|b: u8| b as char))
    &&& h.cartridge_type == rom[0x147]
    &&& h.rom_size == rom[0x148]
    &&& h.ram_size == rom[0x149]
    &&& h.destination_code == rom[0x14A]
    &&& h.old_licensee_code == rom[0x14B]
    &&& h.mask_rom_version == rom[0x14C]
    &&& h.header_checksum == rom[0x14D]
    &&& h.global_checksum == rom[0x14E] * 256 + rom[0x14F]
}

/// The mutable banking state of a cartridge: the selected banks, the gates,
/// and the external RAM contents.
#[verifier::ext_equal]
pub ghost struct BankState {
    pub rom_bank: usize,
    pub ram_bank: usize,
    pub ram_enabled: bool,
    pub banking_mode: u8,
    pub ram: Seq<u8>,
}

/// The index into external RAM that an access to `address` reaches: the
/// selected RAM bank is masked to the banks physically present, then offset
/// by the address within the RAM window.
pub open spec fn spec_ram_index(ram_len: int, ram_bank: usize, address: u16) -> int {
    let banks = ram_len / 0x2000;
    let bank: int = if banks > 0 {
        ram_bank as int % banks
    } else {
        0
    };
    bank * 0x2000 + (address - 0xA000)
}

/// Effect of a write into the external-RAM window: the byte lands in
/// enabled RAM through the masked bank, and is ignored when RAM is disabled,
/// absent, or the index falls outside what is present.
pub open spec fn spec_ram_write(s: BankState, address: u16, value: u8) -> BankState {
    if s.ram_enabled && s.ram.len() > 0 {
        let idx = spec_ram_index(s.ram.len() as int, s.ram_bank, address);
        if idx < s.ram.len() {
            BankState { ram: s.ram.update(idx, value), ..s }
        } else {
            s
        }
    } else {
        s
    }
}

/// Effect of a type-1 controller write.
pub open spec fn spec_mbc1_write(s: BankState, address: u16, value: u8) -> BankState {
    if address <= 0x1FFF {
        BankState { ram_enabled: value & 0x0F == 0x0A, ..s }
    } else if address <= 0x3FFF {
        let bank = (value & 0x1F) as usize;
        BankState { rom_bank: if bank == 0 { 1 } else { bank }, ..s }
    } else if 0x4000 <= address && address <= 0x5FFF {
        if s.banking_mode == 0 {
            BankState { rom_bank: (s.rom_bank & 0x1F) | (((value & 0x03) as usize) << 5), ..s }
        } else {
            BankState { ram_bank: (value & 0x03) as usize, ..s }
        }
    } else if 0x6000 <= address && address <= 0x7FFF {
        BankState { banking_mode: value & 0x01, ..s }
    } else if 0xA000 <= address && address <= 0xBFFF {
        spec_ram_write(s, address, value)
    } else {
        s
    }
}

/// Effect of a type-2 controller write.  The single low control window is
/// split by address bit 8; the built-in RAM holds only nibbles in its low
/// `0x200` bytes.
pub open spec fn spec_mbc2_write(s: BankState, address: u16, value: u8) -> BankState {
    if address <= 0x3FFF {
        if address & 0x100 == 0 {
            BankState { ram_enabled: value & 0x0F == 0x0A, ..s }
        } else {
            let bank = (value & 0x0F) as usize;
            BankState { rom_bank: if bank == 0 { 1 } else { bank }, ..s }
        }
    } else if 0xA000 <= address && address <= 0xBFFF {
        if s.ram_enabled && s.ram.len() > 0 {
            let idx = address - 0xA000;
            if idx < 0x200 && idx < s.ram.len() {
                BankState { ram: s.ram.update(idx as int, value & 0x0F), ..s }
            } else {
                s
            }
        } else {
            s
        }
    } else {
        s
    }
}

/// Effect of a type-3 controller write.  Real-time-clock register selection
/// and latching are out of scope, so those writes are no-ops.
pub open spec fn spec_mbc3_write(s: BankState, address: u16, value: u8) -> BankState {
    if address <= 0x1FFF {
        BankState { ram_enabled: value & 0x0F == 0x0A, ..s }
    } else if address <= 0x3FFF {
        let bank = (value & 0x7F) as usize;
        BankState { rom_bank: if bank == 0 { 1 } else { bank }, ..s }
    } else if 0x4000 <= address && address <= 0x5FFF {
        if value <= 0x03 {
            BankState { ram_bank: value as usize, ..s }
        } else {
            s
        }
    } else if 0xA000 <= address && address <= 0xBFFF {
        spec_ram_write(s, address, value)
    } else {
        s
    }
}

/// Effect of a type-5 controller write.  Bank `0` is honored as written; the
/// nine-bit ROM bank is assembled from two windows.
pub open spec fn spec_mbc5_write(s: BankState, address: u16, value: u8) -> BankState {
    if address <= 0x1FFF {
        BankState { ram_enabled: value & 0x0F == 0x0A, ..s }
    } else if address <= 0x2FFF {
        BankState { rom_bank: (s.rom_bank & 0x100) | (value as usize), ..s }
    } else if address <= 0x3FFF {
        BankState { rom_bank: (s.rom_bank & 0xFF) | (((value & 0x01) as usize) << 8), ..s }
    } else if 0x4000 <= address && address <= 0x5FFF {
        BankState { ram_bank: (value & 0x0F) as usize, ..s }
    } else if 0xA000 <= address && address <= 0xBFFF {
        spec_ram_write(s, address, value)
    } else {
        s
    }
}

/// Effect of a write for any controller family: the no-controller and
/// unsupported variants ignore every write.
pub open spec fn spec_cart_write(t: MbcType, s: BankState, address: u16, value: u8) -> BankState {
    match t {
        MbcType::NoMbc => s,
        MbcType::Mbc1 => spec_mbc1_write(s, address, value),
        MbcType::Mbc2 => spec_mbc2_write(s, address, value),
        MbcType::Mbc3 => spec_mbc3_write(s, address, value),
        MbcType::Mbc5 => spec_mbc5_write(s, address, value),
        MbcType::Unsupported(_) => s,
    }
}

/// Cartridge: the ROM image, the external RAM, and the live banking state of
/// its memory bank controller.
pub struct Cartridge {
    pub header: CartridgeHeader,
    pub mbc_type: MbcType,
    pub rom_data: Vec<u8>,
    pub ram_data: Vec<u8>,
    pub current_rom_bank: usize,
    pub current_ram_bank: usize,
    pub ram_enabled: bool,
    pub banking_mode: u8,
}

impl Cartridge {
    /// The image holds at least the two fixed banks, and the selected RAM
    /// bank stays within the four bits any controller can set.
    pub open spec fn wf(&self) -> bool {
        &&& self.rom_data@.len() >= 0x8000
        &&& self.current_ram_bank <= 0x0F
    }

    /// The mutable banking state of this cartridge.
    pub open spec fn bank_state(&self) -> BankState {
        BankState {
            rom_bank: self.current_rom_bank,
            ram_bank: self.current_ram_bank,
            ram_enabled: self.ram_enabled,
            banking_mode: self.banking_mode,
            ram: self.ram_data@,
        }
    }

    /// The ROM bank visible in the switchable window: the selected bank
    /// masked to the banks physically present in the image.
    pub open spec fn spec_effective_rom_bank(&self) -> int {
        self.current_rom_bank as int % (self.rom_data@.len() as int / 0x4000)
    }

    /// The byte returned by a read of `address` from cartridge space: the
    /// fixed first bank, the switchable bank, enabled external RAM, or the
    /// `0xFF` sentinel.
    pub open spec fn spec_read(&self, address: u16) -> u8 {
        if address <= 0x3FFF {
            self.rom_data@[address as int]
        } else if address <= 0x7FFF {
            self.rom_data@[self.spec_effective_rom_bank() * 0x4000 + (address - 0x4000)]
        } else if 0xA000 <= address && address <= 0xBFFF {
            if self.ram_enabled && self.ram_data@.len() > 0 {
                let idx = spec_ram_index(
                    self.ram_data@.len() as int,
                    self.current_ram_bank,
                    address,
                );
                if idx < self.ram_data@.len() {
                    self.ram_data@[idx]
                } else {
                    0xFF
                }
            } else {
                0xFF
            }
        } else {
            0xFF
        }
    }

    /// Creates a cartridge from a raw ROM image, parsing and validating its
    /// header and selecting the controller variant.
    pub fn new(rom_data: Vec<u8>) -> (r: Result<Cartridge, EmulatorError>)
        ensures
            r is Err <==> (rom_data@.len() < 0x8000 || !spec_mbc_supported(rom_data@[0x147])),
            r matches Err(e) ==> (if rom_data@.len() < 0x8000 {
                e is InvalidRom
            } else {
                e matches EmulatorError::UnsupportedCartridge(c) && c == rom_data@[0x147]
            }),
            r matches Ok(cart) ==> {
                &&& cart.wf()
                &&& spec_header_matches(rom_data@, cart.header)
                &&& cart.mbc_type == spec_mbc_type(rom_data@[0x147])
                &&& cart.rom_data@ == rom_data@
                &&& cart.ram_data@ == Seq::new(spec_ram_size(rom_data@[0x149]), |i: int| 0u8)
                &&& cart.current_rom_bank == 1
                &&& cart.current_ram_bank == 0
                &&& !cart.ram_enabled
                &&& cart.banking_mode == 0
            },
    {
        if rom_data.len() < 0x8000 {
            return Err(EmulatorError::InvalidRom);
        }
        let header = match Self::parse_header(rom_data.as_slice()) {
            Ok(h) => h,
            Err(e) => {
                return Err(e);
            },
        };
        let mbc_type = match Self::determine_mbc_type(header.cartridge_type) {
            Ok(t) => t,
            Err(e) => {
                return Err(e);
            },
        };
        let ram_size = Self::get_ram_size(header.ram_size);
        let ram_data = vec![0u8; ram_size];
        proof {
            assert(ram_data@ =~= Seq::new(spec_ram_size(rom_data@[0x149]), |i: int| 0u8));
        }
        Ok(
            Cartridge {
                header,
                mbc_type,
                rom_data,
                ram_data,
                current_rom_bank: 1,
                current_ram_bank: 0,
                ram_enabled: false,
                banking_mode: 0,
            },
        )
    }

    /// Parses the cartridge header from the fixed offsets of the image.
    fn parse_header(rom_data: &[u8]) -> (r: Result<CartridgeHeader, EmulatorError>)
        ensures
            r is Err <==> rom_data@.len() < 0x150,
            r matches Err(e) ==> e is InvalidRom,
            r matches Ok(h) ==> spec_header_matches(rom_data@, h),
    {
        if rom_data.len() < 0x150 {
            return Err(EmulatorError::InvalidRom);
        }
        let ghost t = rom_data@.subrange(0x134, 0x144);

        let mut end: usize = 0;
        while end < 0x10 && rom_data[0x134 + end] != 0
            invariant
                end <= 0x10,
                rom_data@.len() >= 0x150,
                t == rom_data@.subrange(0x134, 0x144),
                forall|j: int| 0 <= j < end ==> t[j] != 0,
            decreases 0x10 - end,
        {
            proof {
                assert(t[end as int] == rom_data@[0x134 + end]);
            }
            end = end + 1;
        }
        proof {
            lemma_title_end(t, end as nat);
        }

        let title_bytes = vstd::slice::slice_subrange(rom_data, 0x134, 0x134 + end);
        proof {
            assert(title_bytes@ =~= spec_title_bytes(rom_data@));
        }
        let title = crate::text::utf8_lossy_string(title_bytes);

        let header = CartridgeHeader {
            title,
            cartridge_type: rom_data[0x147],
            rom_size: rom_data[0x148],
            ram_size: rom_data[0x149],
            destination_code: rom_data[0x14A],
            old_licensee_code: rom_data[0x14B],
            mask_rom_version: rom_data[0x14C],
            header_checksum: rom_data[0x14D],
            global_checksum: ((rom_data[0x14E] as u16) << 8) | rom_data[0x14F] as u16,
        };
        proof {
            let hi = rom_data@[0x14E];
            let lo = rom_data@[0x14F];
            assert(((hi as u16) << 8) | (lo as u16) == hi * 256 + lo) by (bit_vector);
        }
        Ok(header)
    }

    /// Selects the controller family from the cartridge-type byte.
    fn determine_mbc_type(cartridge_type: u8) -> (r: Result<MbcType, EmulatorError>)
        ensures
            r is Ok <==> spec_mbc_supported(cartridge_type),
            r matches Ok(t) ==> t == spec_mbc_type(cartridge_type),
            r matches Err(e) ==> (e matches EmulatorError::UnsupportedCartridge(c) && c
                == cartridge_type),
    {
        if cartridge_type == 0x00 {
            Ok(MbcType::NoMbc)
        } else if 0x01 <= cartridge_type && cartridge_type <= 0x03 {
            Ok(MbcType::Mbc1)
        } else if 0x05 <= cartridge_type && cartridge_type <= 0x06 {
            Ok(MbcType::Mbc2)
        } else if 0x0F <= cartridge_type && cartridge_type <= 0x13 {
            Ok(MbcType::Mbc3)
        } else if 0x19 <= cartridge_type && cartridge_type <= 0x1E {
            Ok(MbcType::Mbc5)
        } else {
            Err(EmulatorError::UnsupportedCartridge(cartridge_type))
        }
    }

    /// External-RAM size in bytes for a RAM-size code.
    fn get_ram_size(ram_size_code: u8) -> (r: usize)
        ensures
            r == spec_ram_size(ram_size_code),
    {
        match ram_size_code {
            0x01 => 0x800,
            0x02 => 0x2000,
            0x03 => 0x8000,
            0x04 => 0x20000,
            0x05 => 0x10000,
            _ => 0,
        }
    }

    /// Recomputes the header checksum over the image and compares it with
    /// the checksum byte the header declares.  A mismatch never rejects a
    /// cartridge; callers may surface it as a warning.
    pub fn header_checksum_matches(&self) -> (r: bool)
        requires
            self.wf(),
        ensures
            r == (spec_header_checksum(self.rom_data@) == self.header.header_checksum),
    {
        let mut checksum: u8 = 0;
        let mut i: usize = 0x134;
        while i < 0x14D
            invariant
                0x134 <= i <= 0x14D,
                self.rom_data@.len() >= 0x8000,
                checksum == spec_header_checksum_upto(self.rom_data@, (i - 0x134) as nat),
            decreases 0x14D - i,
        {
            checksum = checksum.wrapping_sub(self.rom_data[i]).wrapping_sub(1);
            i = i + 1;
        }
        checksum == self.header.header_checksum
    }

    /// Reads from cartridge memory space; total over the 16-bit range, with
    /// the selected banks masked to what is physically present.
    pub fn read(&self, address: u16) -> (b: u8)
        requires
            self.wf(),
        ensures
            b == self.spec_read(address),
    {
        if address <= 0x3FFF {
            self.rom_data[address as usize]
        } else if address <= 0x7FFF {
            let banks = self.rom_data.len() / 0x4000;
            let bank = self.current_rom_bank % banks;
            let local = (address - 0x4000) as usize;
            proof {
                let len = self.rom_data@.len() as int;
                assert(len / 0x4000 * 0x4000 <= len) by (nonlinear_arith)
                    requires
                        len >= 0,
                ;
                assert((bank + 1) * 0x4000 <= len / 0x4000 * 0x4000) by (nonlinear_arith)
                    requires
                        bank < len / 0x4000,
                ;
            }
            self.rom_data[bank * 0x4000 + local]
        } else if 0xA000 <= address && address <= 0xBFFF {
            if self.ram_enabled && self.ram_data.len() > 0 {
                let ram_banks = self.ram_data.len() / 0x2000;
                let bank = if ram_banks > 0 {
                    self.current_ram_bank % ram_banks
                } else {
                    0
                };
                let idx = bank * 0x2000 + (address - 0xA000) as usize;
                proof {
                    let len = self.ram_data@.len() as int;
                    if len / 0x2000 > 0 {
                        assert(len / 0x2000 * 0x2000 <= len) by (nonlinear_arith)
                            requires
                                len >= 0,
                        ;
                        assert((bank + 1) * 0x2000 <= len / 0x2000 * 0x2000) by (nonlinear_arith)
                            requires
                                bank < len / 0x2000,
                        ;
                    }
                }
                if idx < self.ram_data.len() {
                    self.ram_data[idx]
                } else {
                    0xFF
                }
            } else {
                0xFF
            }
        } else {
            0xFF
        }
    }

    /// Writes to cartridge memory space, dispatching on the controller
    /// family; reads are never affected by anything but the banking state.
    pub fn write(&mut self, address: u16, value: u8)
        requires
            old(self).wf(),
        ensures
            final(self).wf(),
            final(self).bank_state() == spec_cart_write(
                old(self).mbc_type,
                old(self).bank_state(),
                address,
                value,
            ),
            final(self).header == old(self).header,
            final(self).mbc_type == old(self).mbc_type,
            final(self).rom_data == old(self).rom_data,
    {
        match self.mbc_type {
            MbcType::NoMbc => {
                // No controller: writes into the ROM and RAM windows are
                // no-ops.
            },
            MbcType::Mbc1 => {
                self.handle_mbc1_write(address, value);
            },
            MbcType::Mbc2 => {
                self.handle_mbc2_write(address, value);
            },
            MbcType::Mbc3 => {
                self.handle_mbc3_write(address, value);
            },
            MbcType::Mbc5 => {
                self.handle_mbc5_write(address, value);
            },
            MbcType::Unsupported(_) => {
                // Unknown controller: writes are ignored.
            },
        }
    }

    /// Applies a type-1 controller write.
    fn handle_mbc1_write(&mut self, address: u16, value: u8)
        requires
            old(self).wf(),
        ensures
            final(self).wf(),
            final(self).bank_state() == spec_mbc1_write(old(self).bank_state(), address, value),
            final(self).header == old(self).header,
            final(self).mbc_type == old(self).mbc_type,
            final(self).rom_data == old(self).rom_data,
    {
        if address <= 0x1FFF {
            self.ram_enabled = (value & 0x0F) == 0x0A;
        } else if address <= 0x3FFF {
            let bank = (value & 0x1F) as usize;
            self.current_rom_bank = if bank == 0 {
                1
            } else {
                bank
            };
        } else if 0x4000 <= address && address <= 0x5FFF {
            if self.banking_mode == 0 {
                let upper_bits = ((value & 0x03) as usize) << 5;
                self.current_rom_bank = (self.current_rom_bank & 0x1F) | upper_bits;
            } else {
                self.current_ram_bank = (value & 0x03) as usize;
                proof {
                    let v = value;
                    assert((v & 0x03) <= 0x0F) by (bit_vector);
                }
            }
        } else if 0x6000 <= address && address <= 0x7FFF {
            self.banking_mode = value & 0x01;
        } else if 0xA000 <= address && address <= 0xBFFF {
            self.write_ram_byte(address, value);
        }
        proof {
            assert(self.bank_state() =~= spec_mbc1_write(old(self).bank_state(), address, value));
        }
    }

    /// Applies a type-2 controller write.
    fn handle_mbc2_write(&mut self, address: u16, value: u8)
        requires
            old(self).wf(),
        ensures
            final(self).wf(),
            final(self).bank_state() == spec_mbc2_write(old(self).bank_state(), address, value),
            final(self).header == old(self).header,
            final(self).mbc_type == old(self).mbc_type,
            final(self).rom_data == old(self).rom_data,
    {
        if address <= 0x3FFF {
            if address & 0x100 == 0 {
                self.ram_enabled = (value & 0x0F) == 0x0A;
            } else {
                let bank = (value & 0x0F) as usize;
                self.current_rom_bank = if bank == 0 {
                    1
                } else {
                    bank
                };
            }
        } else if 0xA000 <= address && address <= 0xBFFF {
            if self.ram_enabled && self.ram_data.len() > 0 {
                let local = (address - 0xA000) as usize;
                if local < 0x200 && local < self.ram_data.len() {
                    self.ram_data[local] = value & 0x0F;
                }
            }
        }
        proof {
            assert(self.bank_state() =~= spec_mbc2_write(old(self).bank_state(), address, value));
        }
    }

    /// Applies a type-3 controller write.
    fn handle_mbc3_write(&mut self, address: u16, value: u8)
        requires
            old(self).wf(),
        ensures
            final(self).wf(),
            final(self).bank_state() == spec_mbc3_write(old(self).bank_state(), address, value),
            final(self).header == old(self).header,
            final(self).mbc_type == old(self).mbc_type,
            final(self).rom_data == old(self).rom_data,
    {
        if address <= 0x1FFF {
            self.ram_enabled = (value & 0x0F) == 0x0A;
        } else if address <= 0x3FFF {
            let bank = (value & 0x7F) as usize;
            self.current_rom_bank = if bank == 0 {
                1
            } else {
                bank
            };
        } else if 0x4000 <= address && address <= 0x5FFF {
            if value <= 0x03 {
                self.current_ram_bank = value as usize;
            }
            // Register-select values above 0x03 would address the
            // real-time clock, which is out of scope.
        } else if 0x6000 <= address && address <= 0x7FFF {
            // Real-time-clock latching is out of scope.
        } else if 0xA000 <= address && address <= 0xBFFF {
            self.write_ram_byte(address, value);
        }
        proof {
            assert(self.bank_state() =~= spec_mbc3_write(old(self).bank_state(), address, value));
        }
    }

    /// Applies a type-5 controller write.
    fn handle_mbc5_write(&mut self, address: u16, value: u8)
        requires
            old(self).wf(),
        ensures
            final(self).wf(),
            final(self).bank_state() == spec_mbc5_write(old(self).bank_state(), address, value),
            final(self).header == old(self).header,
            final(self).mbc_type == old(self).mbc_type,
            final(self).rom_data == old(self).rom_data,
    {
        if address <= 0x1FFF {
            self.ram_enabled = (value & 0x0F) == 0x0A;
        } else if address <= 0x2FFF {
            self.current_rom_bank = (self.current_rom_bank & 0x100) | (value as usize);
        } else if address <= 0x3FFF {
            self.current_rom_bank = (self.current_rom_bank & 0xFF) | (((value & 0x01) as usize)
                << 8);
        } else if 0x4000 <= address && address <= 0x5FFF {
            self.current_ram_bank = (value & 0x0F) as usize;
            proof {
                let v = value;
                assert((v & 0x0F) <= 0x0F) by (bit_vector);
            }
        } else if 0xA000 <= address && address <= 0xBFFF {
            self.write_ram_byte(address, value);
        }
        proof {
            assert(self.bank_state() =~= spec_mbc5_write(old(self).bank_state(), address, value));
        }
    }

    /// Stores one byte into enabled external RAM through the selected bank,
    /// masked to the banks physically present; disabled or absent RAM
    /// ignores the write.
    fn write_ram_byte(&mut self, address: u16, value: u8)
        requires
            old(self).wf(),
            0xA000 <= address <= 0xBFFF,
        ensures
            final(self).wf(),
            final(self).bank_state() == spec_ram_write(old(self).bank_state(), address, value),
            final(self).header == old(self).header,
            final(self).mbc_type == old(self).mbc_type,
            final(self).rom_data == old(self).rom_data,
    {
        if self.ram_enabled && self.ram_data.len() > 0 {
            let ram_banks = self.ram_data.len() / 0x2000;
            let bank = if ram_banks > 0 {
                self.current_ram_bank % ram_banks
            } else {
                0
            };
            let idx = bank * 0x2000 + (address - 0xA000) as usize;
            proof {
                let len = self.ram_data@.len() as int;
                if len / 0x2000 > 0 {
                    assert(len / 0x2000 * 0x2000 <= len) by (nonlinear_arith)
                        requires
                            len >= 0,
                    ;
                    assert((bank + 1) * 0x2000 <= len / 0x2000 * 0x2000) by (nonlinear_arith)
                        requires
                            bank < len / 0x2000,
                    ;
                }
            }
            if idx < self.ram_data.len() {
                self.ram_data[idx] = value;
            }
        }
        proof {
            assert(self.bank_state() =~= spec_ram_write(old(self).bank_state(), address, value));
        }
    }

    /// Builds the textual cartridge report: title, controller family, and
    /// the ROM and RAM sizes in whole kilobytes.
    pub fn get_info(&self) -> (s: String)
        ensures
            s@ == spec_info(self),
    {
        let mut s = String::from_str("Title: ");
        s.append(self.header.title.as_str());
        s.append("\nType: ");
        let name = mbc_type_name(self.mbc_type);
        s.append(name.as_str());
        s.append("\nROM Size: ");
        let rom_kb = u64_to_string((self.rom_data.len() / 1024) as u64);
        s.append(rom_kb.as_str());
        s.append("KB\nRAM Size: ");
        let ram_kb = u64_to_string((self.ram_data.len() / 1024) as u64);
        s.append(ram_kb.as_str());
        s.append("KB");
        proof {
            assert(s@ =~= spec_info(self));
        }
        s
    }
}

/// The name of a controller family as the cartridge report prints it.
pub open spec fn spec_mbc_name(t: MbcType) -> Seq<char> {
    match t {
        MbcType::NoMbc => "None"@,
        MbcType::Mbc1 => "Mbc1"@,
        MbcType::Mbc2 => "Mbc2"@,
        MbcType::Mbc3 => "Mbc3"@,
        MbcType::Mbc5 => "Mbc5"@,
        MbcType::Unsupported(code) => "Unsupported("@ + dec_str(code as nat) + ")"@,
    }
}

/// The textual cartridge report.
pub open spec fn spec_info(c: &Cartridge) -> Seq<char> {
    "Title: "@ + c.header.title@ + "\nType: "@ + spec_mbc_name(c.mbc_type) + "\nROM Size: "@
        + dec_str((c.rom_data@.len() / 1024) as nat) + "KB\nRAM Size: "@ + dec_str(
        (c.ram_data@.len() / 1024) as nat,
    ) + "KB"@
}

/// Renders the name of a controller family.
fn mbc_type_name(t: MbcType) -> (s: String)
    ensures
        s@ == spec_mbc_name(t),
{
    match t {
        MbcType::NoMbc => String::from_str("None"),
        MbcType::Mbc1 => String::from_str("Mbc1"),
        MbcType::Mbc2 => String::from_str("Mbc2"),
        MbcType::Mbc3 => String::from_str("Mbc3"),
        MbcType::Mbc5 => String::from_str("Mbc5"),
        MbcType::Unsupported(code) => {
            let mut s = String::from_str("Unsupported(");
            let num = u64_to_string(code as u64);
            s.append(num.as_str());
            s.append(")");
            proof {
                assert(s@ =~= spec_mbc_name(t));
            }
            s
        },
    }
}

/// Law: a type-1 controller never exposes bank 0 in the switchable window.
/// A bank-select write stores the low five bits of the value, with zero
/// coerced to bank 1.
pub proof fn lemma_mbc1_bank_zero_coerced(s: BankState, address: u16, value: u8)
    requires
        0x2000 <= address <= 0x3FFF,
    ensures
        spec_mbc1_write(s, address, value).rom_bank == (if value & 0x1F == 0 {
            1usize
        } else {
            (value & 0x1F) as usize
        }),
        spec_mbc1_write(s, address, value).rom_bank != 0,
{
}

/// Law: a type-5 controller honors bank 0 as written.  A low-byte
/// bank-select write of zero, with the ninth bank bit clear, selects bank 0
/// exactly.
pub proof fn lemma_mbc5_bank_zero_honored(s: BankState, address: u16)
    requires
        0x2000 <= address <= 0x2FFF,
        s.rom_bank & 0x100 == 0,
    ensures
        spec_mbc5_write(s, address, 0).rom_bank == 0,
{
    let b = s.rom_bank;
    assert(((b & 0x100) | 0usize) == 0) by (bit_vector)
        requires
            b & 0x100 == 0usize,
    ;
}

/// Law: reads of the external-RAM window return the `0xFF` sentinel whenever
/// RAM is not enabled, for every controller variant.
pub proof fn lemma_ram_read_disabled(c: Cartridge, address: u16)
    requires
        0xA000 <= address <= 0xBFFF,
        !c.ram_enabled,
    ensures
        c.spec_read(address) == 0xFF,
{
}

/// Law: with RAM enabled and the accessed cell physically present, a write
/// into the external-RAM window of a type-1, type-3 or type-5 controller is
/// read back unchanged at the same address.  (The type-2 controller stores
/// only the low nibble; see `lemma_mbc2_ram_round_trip`.)
pub proof fn lemma_ram_round_trip(pre: Cartridge, post: Cartridge, address: u16, value: u8)
    requires
        0xA000 <= address <= 0xBFFF,
        pre.ram_enabled,
        pre.ram_data@.len() > 0,
        pre.mbc_type is Mbc1 || pre.mbc_type is Mbc3 || pre.mbc_type is Mbc5,
        spec_ram_index(pre.ram_data@.len() as int, pre.current_ram_bank, address)
            < pre.ram_data@.len(),
        post.bank_state() == spec_cart_write(pre.mbc_type, pre.bank_state(), address, value),
    ensures
        post.spec_read(address) == value,
{
    let idx = spec_ram_index(pre.ram_data@.len() as int, pre.current_ram_bank, address);
    assert(post.ram_data@ == pre.ram_data@.update(idx, value));
    assert(post.ram_data@.len() == pre.ram_data@.len());
}

/// Law: with RAM enabled, the cell present, and the masked RAM bank landing
/// on the low bank, a write into the low `0x200` bytes of the RAM window of
/// a type-2 controller is read back with the value masked to its low nibble.
pub proof fn lemma_mbc2_ram_round_trip(pre: Cartridge, post: Cartridge, address: u16, value: u8)
    requires
        0xA000 <= address <= 0xBFFF,
        address - 0xA000 < 0x200,
        pre.ram_enabled,
        pre.ram_data@.len() > 0,
        address - 0xA000 < pre.ram_data@.len(),
        pre.mbc_type is Mbc2,
        spec_ram_index(pre.ram_data@.len() as int, pre.current_ram_bank, address) == address
            - 0xA000,
        post.bank_state() == spec_cart_write(pre.mbc_type, pre.bank_state(), address, value),
    ensures
        post.spec_read(address) == value & 0x0F,
{
    let idx = address - 0xA000;
    assert(post.ram_data@ == pre.ram_data@.update(idx as int, value & 0x0F));
}

} // verus!
