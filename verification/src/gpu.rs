//! A plain store for the video memories and display registers: 8 KiB of
//! VRAM, the 160-byte sprite table, and the memory-mapped register file.

use vstd::prelude::*;
use vstd::pervasive::VecAdditionalExecFns;

verus! {

pub struct GPU {
    pub vram: Vec<u8>,
    pub oam_ram: Vec<u8>,
    pub lcdc: u8,
    pub lcds: u8,
    pub scy: u8,
    pub scx: u8,
    pub ly: u8,
    pub lyc: u8,
    pub wy: u8,
    pub wx: u8,
    pub bgp: u8,
    pub obp0: u8,
    pub obp1: u8,
    pub dma: u8,
}

impl GPU {
    pub open spec fn wf(self) -> bool {
        &&& self.vram@.len() == 0x2000
        &&& self.oam_ram@.len() == 0xa0
    }

    /// Whether `address` falls in VRAM, the sprite table, or the
    /// register file this store handles.
    pub open spec fn handles(address: u16) -> bool {
        ||| 0x8000 <= address <= 0x9fff
        ||| 0xfe00 <= address <= 0xfe9f
        ||| 0xff40 <= address <= 0xff4b
    }

    pub fn new() -> (r: GPU)
        ensures
            r.wf(),
            r.vram@ == Seq::new(0x2000, |i: int| 0u8),
            r.oam_ram@ == Seq::new(0xa0, |i: int| 0u8),
            r.lcdc == 0 && r.lcds == 0 && r.scy == 0 && r.scx == 0 && r.ly == 0 && r.lyc == 0
                && r.wy == 0 && r.wx == 0 && r.bgp == 0 && r.obp0 == 0 && r.obp1 == 0 && r.dma
                == 0,
    {
        let vram: Vec<u8> = crate::bits::filled_vec(0x2000, 0u8);
        let oam_ram: Vec<u8> = crate::bits::filled_vec(0xa0, 0u8);
        GPU {
            vram,
            oam_ram,
            lcdc: 0,
            lcds: 0,
            scy: 0,
            scx: 0,
            ly: 0,
            lyc: 0,
            wy: 0,
            wx: 0,
            bgp: 0,
            obp0: 0,
            obp1: 0,
            dma: 0,
        }
    }

    /// The byte a read of `address` returns.
    pub open spec fn spec_read(self, address: u16) -> u8 {
        if 0x8000 <= address <= 0x9fff {
            self.vram@[address - 0x8000]
        } else if 0xfe00 <= address <= 0xfe9f {
            self.oam_ram@[address - 0xfe00]
        } else if address == 0xff40 {
            self.lcdc
        } else if address == 0xff41 {
            self.lcds
        } else if address == 0xff42 {
            self.scy
        } else if address == 0xff43 {
            self.scx
        } else if address == 0xff44 {
            self.ly
        } else if address == 0xff45 {
            self.lyc
        } else if address == 0xff46 {
            self.dma
        } else if address == 0xff47 {
            self.bgp
        } else if address == 0xff48 {
            self.obp0
        } else if address == 0xff49 {
            self.obp1
        } else if address == 0xff4a {
            self.wy
        } else {
            self.wx
        }
    }

    pub fn read_byte(&self, address: u16) -> (r: u8)
        requires
            self.wf(),
            GPU::handles(address),
        ensures
            r == self.spec_read(address),
    {
        match address {
            0x8000..=0x9fff => self.vram[(address - 0x8000) as usize],
            0xfe00..=0xfe9f => self.oam_ram[(address - 0xfe00) as usize],
            0xff40 => self.lcdc,
            0xff41 => self.lcds,
            0xff42 => self.scy,
            0xff43 => self.scx,
            0xff44 => self.ly,
            0xff45 => self.lyc,
            0xff46 => self.dma,
            0xff47 => self.bgp,
            0xff48 => self.obp0,
            0xff49 => self.obp1,
            0xff4a => self.wy,
            _ => self.wx,
        }
    }

    pub fn write_byte(&mut self, address: u16, value: u8)
        requires
            old(self).wf(),
            GPU::handles(address),
        ensures
            final(self).wf(),
            forall|a: u16| GPU::handles(a) ==> final(self).spec_read(a) == (if a == address {
                value
            } else {
                old(self).spec_read(a)
            }),
    {
        match address {
            0x8000..=0x9fff => self.vram.set((address - 0x8000) as usize, value),
            0xfe00..=0xfe9f => self.oam_ram.set((address - 0xfe00) as usize, value),
            0xff40 => self.lcdc = value,
            0xff41 => self.lcds = value,
            0xff42 => self.scy = value,
            0xff43 => self.scx = value,
            0xff44 => self.ly = value,
            0xff45 => self.lyc = value,
            0xff46 => self.dma = value,
            0xff47 => self.bgp = value,
            0xff48 => self.obp0 = value,
            0xff49 => self.obp1 = value,
            0xff4a => self.wy = value,
            _ => self.wx = value,
        }
    }
}

} // verus!
