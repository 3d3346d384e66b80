//! The cartridge view of the bus: memory-bank controllers that multiplex
//! the ROM image and optional external RAM into the fixed address
//! windows. Two variants: no banking, and ROM/RAM bank select with a
//! mode flag.

use vstd::prelude::*;
use vstd::pervasive::VecAdditionalExecFns;

verus! {

/// Why a cartridge image is rejected at startup.
#[derive(Debug, Clone, Copy, PartialEq, Eq, Structural)]
pub enum CartError {
    /// The image is smaller than the 32 KiB direct address window.
    TooSmall,
    /// Header byte 0x147 names a mapper other than the two supported.
    UnsupportedMbc,
    /// Header byte 0x149 names a RAM size other than the four defined.
    UnsupportedRamSize,
}

/// External RAM size selected by header byte 0x149.
pub open spec fn ram_size_spec(value: u8) -> u32 {
    if value == 0 {
        0u32
    } else if value == 1 {
        0x800u32
    } else if value == 2 {
        0x2000u32
    } else {
        0x8000u32
    }
}

/// External RAM size selected by header byte 0x149.
pub fn ram_size(value: u8) -> (r: u32)
    requires
        value <= 3,
    ensures
        r == ram_size_spec(value),
{
    match value {
        0 => 0,
        1 => 0x800,
        2 => 0x2000,
        _ => 0x8000,
    }
}

/// ROM-only cartridge: no banking, no external RAM.
pub struct MBC0 {
    pub rom: Vec<u8>,
}

impl MBC0 {
    pub fn new(rom: Vec<u8>) -> (r: MBC0)
        requires
            rom@.len() >= 0x8000,
        ensures
            r.rom == rom,
    {
        MBC0 { rom }
    }
}

/// Banking cartridge: 5 + 2 bits of ROM bank, 2 bits of RAM bank, and a
/// mode flag that assigns the 2-bit group to one or the other.
pub struct MBC1 {
    pub ram_enabled: bool,
    pub ram_mode: bool,
    pub rom: Vec<u8>,
    pub ram: Vec<u8>,
    pub rom_bank: u8,
    pub ram_bank: u8,
}

impl MBC1 {
    pub fn new(rom: Vec<u8>) -> (r: MBC1)
        requires
            rom@.len() >= 0x8000,
            rom@[0x149] <= 3,
        ensures
            !r.ram_enabled,
            !r.ram_mode,
            r.rom == rom,
            r.rom_bank == 1,
            r.ram_bank == 0,
            r.ram@ == Seq::new(ram_size_spec(rom@[0x149]) as nat, |i: int| 0u8),
    {
        let size = ram_size(rom[0x149]);
        MBC1 {
            ram_enabled: false,
            ram_mode: false,
            rom,
            ram: crate::bits::filled_vec(size as usize, 0u8),
            rom_bank: 1,
            ram_bank: 0,
        }
    }
}

/// The mathematical state of the mapper.
#[verifier::ext_equal]
pub enum MbcV {
    Mbc0 { rom: Seq<u8> },
    Mbc1 {
        ram_enabled: bool,
        ram_mode: bool,
        rom: Seq<u8>,
        ram: Seq<u8>,
        rom_bank: u8,
        ram_bank: u8,
    },
}

impl MbcV {
    pub open spec fn wf(self) -> bool {
        match self {
            MbcV::Mbc0 { rom } => rom.len() >= 0x8000,
            MbcV::Mbc1 { rom, rom_bank, ram_bank, .. } => {
                &&& rom.len() >= 0x8000
                &&& rom_bank < 0x80
                &&& rom_bank & 0x1f != 0
                &&& ram_bank < 4
            },
        }
    }

    /// The byte a ROM-window read (0x0000-0x7fff) returns: bank 0 below
    /// 0x4000, the selected bank above; a read past the image returns 0.
    pub open spec fn read_rom(self, address: u16) -> u8 {
        match self {
            MbcV::Mbc0 { rom } => rom[address as int],
            MbcV::Mbc1 { rom, rom_bank, .. } => {
                if address < 0x4000 {
                    rom[address as int]
                } else {
                    let idx = rom_bank * 0x4000 + (address - 0x4000);
                    if idx < rom.len() {
                        rom[idx]
                    } else {
                        0u8
                    }
                }
            },
        }
    }

    /// The mapper state after a bank-control write to the ROM window.
    pub open spec fn write_rom(self, address: u16, value: u8) -> MbcV {
        match self {
            MbcV::Mbc0 { .. } => self,
            MbcV::Mbc1 { ram_enabled, ram_mode, rom, ram, rom_bank, ram_bank } => {
                if address < 0x2000 {
                    MbcV::Mbc1 { ram_enabled: value & 0x0f == 0x0a, ram_mode, rom, ram, rom_bank, ram_bank }
                } else if address < 0x4000 {
                    let low = if value & 0x1f == 0 {
                        1u8
                    } else {
                        value & 0x1f
                    };
                    MbcV::Mbc1 {
                        ram_enabled,
                        ram_mode,
                        rom,
                        ram,
                        rom_bank: (rom_bank & 0x60) | low,
                        ram_bank,
                    }
                } else if address < 0x6000 {
                    if ram_mode {
                        MbcV::Mbc1 { ram_enabled, ram_mode, rom, ram, rom_bank, ram_bank: value & 0x3 }
                    } else {
                        MbcV::Mbc1 {
                            ram_enabled,
                            ram_mode,
                            rom,
                            ram,
                            rom_bank: (rom_bank & 0x1f) | ((value & 0x3) << 5),
                            ram_bank,
                        }
                    }
                } else {
                    MbcV::Mbc1 { ram_enabled, ram_mode: value & 0x1 == 1, rom, ram, rom_bank, ram_bank }
                }
            },
        }
    }

    /// The RAM bank an external-RAM access uses.
    pub open spec fn ram_bank_used(self) -> u8 {
        match self {
            MbcV::Mbc0 { .. } => 0u8,
            MbcV::Mbc1 { ram_mode, ram_bank, .. } => if ram_mode {
                ram_bank
            } else {
                0u8
            },
        }
    }

    /// The byte an external-RAM read (0xa000-0xbfff) returns: 0 when RAM
    /// is disabled or the index falls past the allocated size.
    pub open spec fn read_ram(self, address: u16) -> u8 {
        match self {
            MbcV::Mbc0 { .. } => 0u8,
            MbcV::Mbc1 { ram_enabled, ram, .. } => {
                if ram_enabled {
                    let idx = self.ram_bank_used() * 0x2000 + (address - 0xa000);
                    if idx < ram.len() {
                        ram[idx]
                    } else {
                        0u8
                    }
                } else {
                    0u8
                }
            },
        }
    }

    /// The mapper state after an external-RAM write: dropped when RAM is
    /// disabled or the index falls past the allocated size.
    pub open spec fn write_ram(self, address: u16, value: u8) -> MbcV {
        match self {
            MbcV::Mbc0 { .. } => self,
            MbcV::Mbc1 { ram_enabled, ram_mode, rom, ram, rom_bank, ram_bank } => {
                if ram_enabled {
                    let idx = self.ram_bank_used() * 0x2000 + (address - 0xa000);
                    if idx < ram.len() {
                        MbcV::Mbc1 {
                            ram_enabled,
                            ram_mode,
                            rom,
                            ram: ram.update(idx, value),
                            rom_bank,
                            ram_bank,
                        }
                    } else {
                        self
                    }
                } else {
                    self
                }
            },
        }
    }
}

/// The mapper in the cartridge slot.
pub enum Mbc {
    Mbc0(MBC0),
    Mbc1(MBC1),
}

/// The mathematical state of a mapper value.
pub open spec fn mbc_view(mbc: Mbc) -> MbcV {
    match mbc {
        Mbc::Mbc0(m) => MbcV::Mbc0 { rom: m.rom@ },
        Mbc::Mbc1(m) => MbcV::Mbc1 {
            ram_enabled: m.ram_enabled,
            ram_mode: m.ram_mode,
            rom: m.rom@,
            ram: m.ram@,
            rom_bank: m.rom_bank,
            ram_bank: m.ram_bank,
        },
    }
}

impl View for Mbc {
    type V = MbcV;

    open spec fn view(&self) -> MbcV {
        mbc_view(*self)
    }
}

impl Mbc {
    pub fn read_rom(&self, address: u16) -> (r: u8)
        requires
            self@.wf(),
            address < 0x8000,
        ensures
            r == self@.read_rom(address),
    {
        match self {
            Mbc::Mbc0(m) => m.rom[address as usize],
            Mbc::Mbc1(m) => {
                if address < 0x4000 {
                    m.rom[address as usize]
                } else {
                    let idx: usize = (m.rom_bank as usize) * 0x4000 + (address as usize - 0x4000);
                    if idx < m.rom.len() {
                        m.rom[idx]
                    } else {
                        0
                    }
                }
            },
        }
    }

    pub fn write_rom(&mut self, address: u16, value: u8)
        requires
            old(self)@.wf(),
            address < 0x8000,
        ensures
            final(self)@.wf(),
            final(self)@ == old(self)@.write_rom(address, value),
    {
        match self {
            Mbc::Mbc0(_) => (),
            Mbc::Mbc1(m) => {
                if address < 0x2000 {
                    m.ram_enabled = value & 0x0f == 0x0a;
                } else if address < 0x4000 {
                    let low = if value & 0x1f == 0 {
                        1u8
                    } else {
                        value & 0x1f
                    };
                    let bank = (m.rom_bank & 0x60) | low;
                    proof {
                        let b = m.rom_bank;
                        let v = value;
                        assert(((b & 0x60) | (if v & 0x1f == 0 {
                            1u8
                        } else {
                            v & 0x1f
                        })) < 0x80 && ((b & 0x60) | (if v & 0x1f == 0 {
                            1u8
                        } else {
                            v & 0x1f
                        })) & 0x1f != 0) by (bit_vector)
                            requires
                                b < 0x80,
                        ;
                    }
                    m.rom_bank = bank;
                } else if address < 0x6000 {
                    if m.ram_mode {
                        proof {
                            crate::bits::lemma_u8_and_le(value, 0x3);
                        }
                        m.ram_bank = value & 0x3;
                    } else {
                        let bank = (m.rom_bank & 0x1f) | ((value & 0x3) << 5);
                        proof {
                            let b = m.rom_bank;
                            let v = value;
                            assert(((b & 0x1f) | ((v & 0x3) << 5)) < 0x80 && (b & 0x1f != 0 ==> ((b
                                & 0x1f) | ((v & 0x3) << 5)) & 0x1f != 0)) by (bit_vector);
                        }
                        m.rom_bank = bank;
                    }
                } else {
                    m.ram_mode = value & 0x1 == 1;
                }
            },
        }
    }

    pub fn read_ram(&self, address: u16) -> (r: u8)
        requires
            self@.wf(),
            0xa000 <= address <= 0xbfff,
        ensures
            r == self@.read_ram(address),
    {
        match self {
            Mbc::Mbc0(_) => 0,
            Mbc::Mbc1(m) => {
                if m.ram_enabled {
                    let bank: usize = if m.ram_mode {
                        m.ram_bank as usize
                    } else {
                        0
                    };
                    let idx: usize = bank * 0x2000 + (address as usize - 0xa000);
                    if idx < m.ram.len() {
                        m.ram[idx]
                    } else {
                        0
                    }
                } else {
                    0
                }
            },
        }
    }

    pub fn write_ram(&mut self, address: u16, value: u8)
        requires
            old(self)@.wf(),
            0xa000 <= address <= 0xbfff,
        ensures
            final(self)@.wf(),
            final(self)@ == old(self)@.write_ram(address, value),
    {
        match self {
            Mbc::Mbc0(_) => (),
            Mbc::Mbc1(m) => {
                if m.ram_enabled {
                    let bank: usize = if m.ram_mode {
                        m.ram_bank as usize
                    } else {
                        0
                    };
                    let idx: usize = bank * 0x2000 + (address as usize - 0xa000);
                    if idx < m.ram.len() {
                        m.ram.set(idx, value);
                    }
                }
            },
        }
    }
}

/// Build the mapper the cartridge header selects; startup failures per
/// the three rejection reasons.
pub fn create_mbc(cart: Vec<u8>) -> (r: Result<Mbc, CartError>)
    ensures
        cart@.len() < 0x8000 ==> r == Err::<Mbc, CartError>(CartError::TooSmall),
        cart@.len() >= 0x8000 && cart@[0x147] == 0 ==> (r matches Ok(m) && m@ == (MbcV::Mbc0 {
            rom: cart@,
        })),
        cart@.len() >= 0x8000 && cart@[0x147] == 1 && cart@[0x149] > 3 ==> r == Err::<
            Mbc,
            CartError,
        >(CartError::UnsupportedRamSize),
        cart@.len() >= 0x8000 && cart@[0x147] == 1 && cart@[0x149] <= 3 ==> (r matches Ok(m) && m@
            == (MbcV::Mbc1 {
            ram_enabled: false,
            ram_mode: false,
            rom: cart@,
            ram: Seq::new(ram_size_spec(cart@[0x149]) as nat, |i: int| 0u8),
            rom_bank: 1,
            ram_bank: 0,
        })),
        cart@.len() >= 0x8000 && cart@[0x147] > 1 ==> r == Err::<Mbc, CartError>(
            CartError::UnsupportedMbc,
        ),
        r matches Ok(m) ==> m@.wf(),
{
    proof {
        assert(1u8 & 0x1f == 1) by (bit_vector);
    }
    if cart.len() < 0x8000 {
        return Err(CartError::TooSmall);
    }
    let mbc_type = cart[0x147];
    match mbc_type {
        0 => Ok(Mbc::Mbc0(MBC0::new(cart))),
        1 => {
            if cart[0x149] > 3 {
                Err(CartError::UnsupportedRamSize)
            } else {
                Ok(Mbc::Mbc1(MBC1::new(cart)))
            }
        },
        _ => Err(CartError::UnsupportedMbc),
    }
}

} // verus!
