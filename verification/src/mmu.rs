//! The memory bus: a strict decoder over the 16-bit address space that
//! routes byte and word accesses to the cartridge mapper, video unit,
//! work and high RAM, and the I/O devices, aggregates their interrupt
//! bits, triggers OAM DMA, and establishes the post-boot register state.

use vstd::prelude::*;
use vstd::pervasive::VecAdditionalExecFns;
use crate::mbc::Mbc;
use crate::mbc::MbcV;
use crate::mbc::CartError;
use crate::mbc::create_mbc;
use crate::ppu::PPU;
use crate::ppu::PpuView;
use crate::timer::Timer;
use crate::joypad::Joypad;
use crate::serial::Serial;
use crate::serial::SerialView;

verus! {

pub struct MMU {
    pub wram: Vec<u8>,
    pub hram: Vec<u8>,
    pub interrupt_enable: u8,
    pub interrupt_flag: u8,
    pub mbc: Mbc,
    pub ppu: PPU,
    pub timer: Timer,
    pub joypad: Joypad,
    pub serial: Serial,
}

/// The mathematical state of the bus and every device behind it.
#[verifier::ext_equal]
pub struct MmuView {
    pub wram: Seq<u8>,
    pub hram: Seq<u8>,
    pub interrupt_enable: u8,
    pub interrupt_flag: u8,
    pub mbc: MbcV,
    pub ppu: PpuView,
    pub timer: Timer,
    pub joypad: Joypad,
    pub serial: SerialView,
}

impl View for MMU {
    type V = MmuView;

    open spec fn view(&self) -> MmuView {
        MmuView {
            wram: self.wram@,
            hram: self.hram@,
            interrupt_enable: self.interrupt_enable,
            interrupt_flag: self.interrupt_flag,
            mbc: self.mbc@,
            ppu: self.ppu@,
            timer: self.timer,
            joypad: self.joypad,
            serial: self.serial@,
        }
    }
}

impl MmuView {
    pub open spec fn wf(self) -> bool {
        &&& self.wram.len() == 0x2000
        &&& self.hram.len() == 0x7f
        &&& self.mbc.wf()
        &&& self.ppu.wf()
        &&& self.timer.wf()
    }

    /// The byte a read of `address` returns, by the address map:
    /// cartridge ROM, VRAM, cartridge RAM, work RAM, its echo, the
    /// sprite table, then the device registers; unmapped and sound
    /// addresses read 0.
    pub open spec fn read_byte_v(self, address: u16) -> u8 {
        if address < 0x8000 {
            self.mbc.read_rom(address)
        } else if address <= 0x9fff {
            self.ppu.read(address)
        } else if address <= 0xbfff {
            self.mbc.read_ram(address)
        } else if address <= 0xdfff {
            self.wram[address - 0xc000]
        } else if address <= 0xfdff {
            self.wram[address - 0xe000]
        } else if address <= 0xfe9f {
            self.ppu.read(address)
        } else if address <= 0xfeff {
            0u8
        } else if address == 0xff00 {
            self.joypad.data
        } else if address <= 0xff02 {
            self.serial.read(address)
        } else if address == 0xff03 {
            0u8
        } else if address <= 0xff07 {
            self.timer.spec_read(address)
        } else if address <= 0xff0e {
            0u8
        } else if address == 0xff0f {
            self.interrupt_flag
        } else if address <= 0xff3f {
            0u8
        } else if address <= 0xff4b {
            self.ppu.read(address)
        } else if address <= 0xff7f {
            0u8
        } else if address <= 0xfffe {
            self.hram[address - 0xff80]
        } else {
            self.interrupt_enable
        }
    }

    /// The little-endian word two byte reads at `address` return.
    pub open spec fn read_word_v(self, address: u16) -> u16 {
        (self.read_byte_v(address) + 256 * self.read_byte_v((address + 1) as u16)) as u16
    }

    /// The bus after an OAM DMA triggered by writing `value` to the DMA
    /// register: the 160 bytes starting at `value * 256` land in the
    /// sprite table.
    pub open spec fn dma(self, value: u8) -> MmuView {
        MmuView {
            ppu: PpuView {
                oam_ram: Seq::new(0xa0, |i: int| self.read_byte_v((value * 256 + i) as u16)),
                ..self.ppu
            },
            ..self
        }
    }

    /// The bus after a byte write, by the same address map; writes to
    /// unmapped and sound addresses are dropped.
    pub open spec fn write_byte_v(self, address: u16, value: u8) -> MmuView {
        if address < 0x8000 {
            MmuView { mbc: self.mbc.write_rom(address, value), ..self }
        } else if address <= 0x9fff {
            MmuView { ppu: self.ppu.write(address, value), ..self }
        } else if address <= 0xbfff {
            MmuView { mbc: self.mbc.write_ram(address, value), ..self }
        } else if address <= 0xdfff {
            MmuView { wram: self.wram.update(address - 0xc000, value), ..self }
        } else if address <= 0xfdff {
            MmuView { wram: self.wram.update(address - 0xe000, value), ..self }
        } else if address <= 0xfe9f {
            MmuView { ppu: self.ppu.write(address, value), ..self }
        } else if address <= 0xfeff {
            self
        } else if address == 0xff00 {
            MmuView {
                joypad: Joypad {
                    data: (self.joypad.data & 0xcf) | (value & 0x30),
                    ..self.joypad
                },
                ..self
            }
        } else if address <= 0xff02 {
            MmuView { serial: self.serial.write(address, value), ..self }
        } else if address == 0xff03 {
            self
        } else if address <= 0xff07 {
            MmuView { timer: self.timer.spec_wb(address, value), ..self }
        } else if address <= 0xff0e {
            self
        } else if address == 0xff0f {
            MmuView { interrupt_flag: value, ..self }
        } else if address <= 0xff3f {
            self
        } else if address == 0xff46 {
            self.dma(value)
        } else if address <= 0xff4b {
            MmuView { ppu: self.ppu.write(address, value), ..self }
        } else if address <= 0xff7f {
            self
        } else if address <= 0xfffe {
            MmuView { hram: self.hram.update(address - 0xff80, value), ..self }
        } else {
            MmuView { interrupt_enable: value, ..self }
        }
    }

    /// The bus after `tick(clocks)`: the video unit and the timer each
    /// advance by exactly `clocks`, every device's pending interrupt
    /// byte is folded into the interrupt-flag register (bits are only
    /// ever added), and the joypad's pending byte is consumed.
    pub open spec fn tick_v(self, clocks: u32) -> MmuView {
        let ppu2 = crate::ppu::ppu_tick_v(self.ppu, clocks);
        let timer2 = self.timer.spec_tick(clocks);
        MmuView {
            ppu: ppu2,
            timer: timer2,
            joypad: (Joypad { interrupt: 0, ..self.joypad }),
            interrupt_flag: self.interrupt_flag | ppu2.vblank_interrupt | ppu2.status_interrupt
                | timer2.interrupt | self.joypad.interrupt,
            ..self
        }
    }

    /// The bus after a little-endian word write: low byte first.
    pub open spec fn write_word_v(self, address: u16, value: u16) -> MmuView {
        self.write_byte_v(address, (value % 256) as u8).write_byte_v(
            (address + 1) as u16,
            (value / 256) as u8,
        )
    }
}

impl MMU {
    /// Build the bus around a raw cartridge image and set the post-boot
    /// register defaults (display on with the standard control value,
    /// background and sprite palettes).
    pub fn new(cart: Vec<u8>) -> (r: Result<MMU, CartError>)
        ensures
            cart@.len() < 0x8000 ==> r == Err::<MMU, CartError>(CartError::TooSmall),
            cart@.len() >= 0x8000 && cart@[0x147] == 1 && cart@[0x149] > 3 ==> r == Err::<
                MMU,
                CartError,
            >(CartError::UnsupportedRamSize),
            cart@.len() >= 0x8000 && cart@[0x147] > 1 ==> r == Err::<MMU, CartError>(
                CartError::UnsupportedMbc,
            ),
            cart@.len() >= 0x8000 && cart@[0x147] == 0 ==> (r matches Ok(m) && m@.mbc
                == (MbcV::Mbc0 { rom: cart@ })),
            cart@.len() >= 0x8000 && cart@[0x147] == 1 && cart@[0x149] <= 3 ==> (r matches Ok(m)
                && m@.mbc == (MbcV::Mbc1 {
                ram_enabled: false,
                ram_mode: false,
                rom: cart@,
                ram: Seq::new(crate::mbc::ram_size_spec(cart@[0x149]) as nat, |i: int| 0u8),
                rom_bank: 1,
                ram_bank: 0,
            })),
            r matches Ok(m) ==> {
                &&& m@.wf()
                &&& m@.wram == Seq::new(0x2000, |i: int| 0u8)
                &&& m@.hram == Seq::new(0x7f, |i: int| 0u8)
                &&& m@.interrupt_enable == 0
                &&& m@.interrupt_flag == 0
                &&& m@.timer == Timer::initial()
                &&& m@.joypad == (Joypad { button_state: 0xff, data: 0xff, interrupt: 0 })
                &&& m@.serial == (SerialView { sb: 0, sc: 0, output: Seq::<u8>::empty() })
                &&& m@.ppu == (PpuView {
                    bgp: 0xfc,
                    obp0: 0xff,
                    obp1: 0xff,
                    display_enabled: true,
                    window_tilemap: 0x1800,
                    window_enabled: false,
                    tilebase: 0,
                    background_tilemap: 0x1800,
                    sprite_size: 8,
                    sprites_enabled: false,
                    bg_win_priority: true,
                    ..PpuView::initial()
                })
            },
    {
        let mbc = match create_mbc(cart) {
            Ok(m) => m,
            Err(e) => {
                return Err(e);
            },
        };
        let mut mmu = MMU {
            wram: crate::bits::filled_vec(0x2000, 0u8),
            hram: crate::bits::filled_vec(0x7f, 0u8),
            interrupt_enable: 0,
            interrupt_flag: 0,
            mbc,
            ppu: PPU::new(),
            timer: Timer::new(),
            joypad: Joypad::new(),
            serial: Serial::new(),
        };
        mmu.initialize_memory();
        proof {
            assert(0x91u8 & 0x80 == 0x80 && 0x91u8 & 0x40 != 0x40 && 0x91u8 & 0x20 != 0x20
                && 0x91u8 & 0x10 == 0x10 && 0x91u8 & 0x08 != 0x08 && 0x91u8 & 0x04 != 0x04
                && 0x91u8 & 0x02 != 0x02 && 0x91u8 & 0x01 == 0x01) by (bit_vector);
        }
        Ok(mmu)
    }

    /// Post-boot register defaults. The sound range is unmodeled (reads
    /// 0, writes dropped), so only the display registers need setting.
    fn initialize_memory(&mut self)
        requires
            old(self)@.wf(),
        ensures
            final(self)@.wf(),
            final(self)@ == old(self)@.write_byte_v(0xff40, 0x91).write_byte_v(
                0xff47,
                0xfc,
            ).write_byte_v(0xff48, 0xff).write_byte_v(0xff49, 0xff),
    {
        self.write_byte(0xff40, 0x91);  // display control
        self.write_byte(0xff47, 0xfc);  // background palette
        self.write_byte(0xff48, 0xff);  // sprite palette 0
        self.write_byte(0xff49, 0xff);  // sprite palette 1
    }

    pub fn read_byte(&self, address: u16) -> (r: u8)
        requires
            self@.wf(),
        ensures
            r == self@.read_byte_v(address),
    {
        match address {
            0x0000..=0x7fff => self.mbc.read_rom(address),
            0x8000..=0x9fff => self.ppu.read_byte(address),
            0xa000..=0xbfff => self.mbc.read_ram(address),
            0xc000..=0xdfff => self.wram[(address - 0xc000) as usize],
            0xe000..=0xfdff => self.wram[(address - 0xe000) as usize],
            0xfe00..=0xfe9f => self.ppu.read_byte(address),
            0xfea0..=0xfeff => 0,
            0xff00 => self.joypad.read_byte(),
            0xff01..=0xff02 => self.serial.read_byte(address),
            0xff03 => 0,
            0xff04..=0xff07 => self.timer.rb(address),
            0xff08..=0xff0e => 0,
            0xff0f => self.interrupt_flag,
            0xff10..=0xff3f => 0,
            0xff40..=0xff4b => self.ppu.read_byte(address),
            0xff4c..=0xff7f => 0,
            0xff80..=0xfffe => self.hram[(address - 0xff80) as usize],
            0xffff => self.interrupt_enable,
        }
    }

    pub fn write_byte(&mut self, address: u16, value: u8)
        requires
            old(self)@.wf(),
        ensures
            final(self)@.wf(),
            final(self)@ == old(self)@.write_byte_v(address, value),
    {
        match address {
            0x0000..=0x7fff => self.mbc.write_rom(address, value),
            0x8000..=0x9fff => self.ppu.write_byte(address, value),
            0xa000..=0xbfff => self.mbc.write_ram(address, value),
            0xc000..=0xdfff => self.wram.set((address - 0xc000) as usize, value),
            0xe000..=0xfdff => self.wram.set((address - 0xe000) as usize, value),
            0xfe00..=0xfe9f => self.ppu.write_byte(address, value),
            0xfea0..=0xfeff => (),
            0xff00 => self.joypad.write_byte(value),
            0xff01..=0xff02 => self.serial.write_byte(address, value),
            0xff03 => (),
            0xff04..=0xff07 => self.timer.wb(address, value),
            0xff08..=0xff0e => (),
            0xff0f => self.interrupt_flag = value,
            0xff10..=0xff3f => (),
            0xff40..=0xff45 => self.ppu.write_byte(address, value),
            0xff46 => self.dma_transfer(value),
            0xff47..=0xff4b => self.ppu.write_byte(address, value),
            0xff4c..=0xff7f => (),
            0xff80..=0xfffe => self.hram.set((address - 0xff80) as usize, value),
            0xffff => self.interrupt_enable = value,
        }
    }

    pub fn read_word(&self, address: u16) -> (r: u16)
        requires
            self@.wf(),
            address < 0xffff,
        ensures
            r == self@.read_word_v(address),
    {
        self.read_byte(address) as u16 + 256 * (self.read_byte(address + 1) as u16)
    }

    pub fn write_word(&mut self, address: u16, value: u16)
        requires
            old(self)@.wf(),
            address < 0xffff,
        ensures
            final(self)@.wf(),
            final(self)@ == old(self)@.write_word_v(address, value),
    {
        self.write_byte(address, (value % 256) as u8);
        self.write_byte(address + 1, (value / 256) as u8);
    }

    /// Copy 160 bytes starting at `data * 256` into the sprite table.
    fn dma_transfer(&mut self, data: u8)
        requires
            old(self)@.wf(),
        ensures
            final(self)@.wf(),
            final(self)@ == old(self)@.dma(data),
    {
        let address: u16 = data as u16 * 256;
        let mut i: u16 = 0;
        while i < 0xa0
            invariant
                i <= 0xa0,
                address == data as u16 * 256,
                self@.wf(),
                self@ == (MmuView {
                    ppu: PpuView { oam_ram: self@.ppu.oam_ram, ..old(self)@.ppu },
                    ..old(self)@
                }),
                forall|j: int|
                    0 <= j < i ==> self@.ppu.oam_ram[j] == old(self)@.read_byte_v(
                        (data * 256 + j) as u16,
                    ),
                forall|j: int| i <= j < 0xa0 ==> self@.ppu.oam_ram[j] == old(self)@.ppu.oam_ram[j],
            decreases 0xa0 - i,
        {
            let b = self.read_byte(address + i);
            proof {
                if 0xfe00 <= address + i <= 0xfe9f {
                    assert(self@.ppu.oam_ram[address + i - 0xfe00] == old(self)@.ppu.oam_ram[
                        address + i - 0xfe00]);
                }
                assert(self@.read_byte_v((address + i) as u16) == old(self)@.read_byte_v(
                    (address + i) as u16,
                ));
            }
            self.ppu.dma_transfer(i, b);
            i = i + 1;
        }
        proof {
            assert(self@.ppu.oam_ram =~= Seq::new(
                0xa0,
                |j: int| old(self)@.read_byte_v((data * 256 + j) as u16),
            ));
            assert(self@ =~= old(self)@.dma(data));
        }
    }

    /// Advance the video unit and the timer by `clocks` machine clocks,
    /// then fold every device's pending interrupt byte into the
    /// interrupt-flag register; the joypad's is consumed. `tick_v` pins
    /// the whole effect.
    pub fn tick(&mut self, clocks: u32)
        requires
            old(self)@.wf(),
            clocks <= 1000000,
        ensures
            final(self)@.wf(),
            final(self)@ == old(self)@.tick_v(clocks),
            final(self)@.wram == old(self)@.wram,
            final(self)@.hram == old(self)@.hram,
            final(self)@.mbc == old(self)@.mbc,
            final(self)@.serial == old(self)@.serial,
            final(self).interrupt_enable == old(self).interrupt_enable,
            final(self).timer == old(self).timer.spec_tick(clocks),
            final(self).joypad == (Joypad { interrupt: 0, ..old(self).joypad }),
            final(self)@.ppu.vram == old(self)@.ppu.vram,
            final(self)@.ppu.oam_ram == old(self)@.ppu.oam_ram,
            final(self)@.ppu.screen_data.len() == old(self)@.ppu.screen_data.len(),
            final(self).interrupt_flag == old(self).interrupt_flag
                | final(self).ppu.vblank_interrupt | final(self).ppu.status_interrupt
                | final(self).timer.interrupt | old(self).joypad.interrupt,
    {
        self.ppu.tick(clocks);
        self.timer.tick(clocks);
        self.interrupt_flag = self.interrupt_flag | self.ppu.vblank_interrupt
            | self.ppu.status_interrupt | self.timer.interrupt | self.joypad.interrupt;
        self.joypad.interrupt = 0;
    }
}

/// Echo RAM mirrors work RAM: a read anywhere in the echo range returns
/// the work-RAM byte 0x2000 below it, bit for bit.
pub proof fn lemma_echo_ram(m: MmuView, address: u16)
    requires
        0xe000 <= address <= 0xfdff,
    ensures
        m.read_byte_v(address) == m.read_byte_v((address - 0x2000) as u16),
{
}

/// Both bytes of the word lie inside one writable RAM region (VRAM,
/// work RAM, its echo, the sprite table, or high RAM).
pub open spec fn writable_word(address: u16) -> bool {
    ||| (0x8000 <= address && address + 1 <= 0x9fff)
    ||| (0xc000 <= address && address + 1 <= 0xdfff)
    ||| (0xe000 <= address && address + 1 <= 0xfdff)
    ||| (0xfe00 <= address && address + 1 <= 0xfe9f)
    ||| (0xff80 <= address && address + 1 <= 0xfffe)
}

/// Writing a word to any writable region and reading it back returns
/// the word unchanged.
pub proof fn lemma_write_read_word(m: MmuView, address: u16, value: u16)
    requires
        m.wf(),
        writable_word(address),
    ensures
        m.write_word_v(address, value).read_word_v(address) == value,
{
    assert(m.write_word_v(address, value).read_byte_v(address) == value % 256);
    assert(m.write_word_v(address, value).read_byte_v((address + 1) as u16) == value / 256);
}

/// After a DMA write of `k` to the DMA register, the sprite table holds
/// exactly the 160 bytes of memory starting at `k * 256`.
pub proof fn lemma_dma(m: MmuView, k: u8)
    requires
        m.wf(),
    ensures
        forall|i: int|
            0 <= i < 0xa0 ==> m.write_byte_v(0xff46, k).ppu.oam_ram[i] == m.read_byte_v(
                (k * 256 + i) as u16,
            ),
{
}

} // verus!
