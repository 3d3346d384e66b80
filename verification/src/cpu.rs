//! The processor: the eight-register file with its flag algebra, the
//! instruction interpreter over the primary and prefixed opcode tables,
//! interrupt dispatch, and cycle accounting. Every instruction returns
//! its cost in machine clocks and the bus is advanced by that amount.

use vstd::prelude::*;
use crate::mmu::MMU;
use crate::mmu::MmuView;
use crate::mbc::CartError;

verus! {

#[derive(Debug, Clone, Copy, PartialEq, Eq, Structural)]
pub enum Flag {
    Z,
    N,
    H,
    C,
}

pub open spec fn flag_z(f: u8) -> bool {
    f & 0x80 == 0x80
}

pub open spec fn flag_n(f: u8) -> bool {
    f & 0x40 == 0x40
}

pub open spec fn flag_h(f: u8) -> bool {
    f & 0x20 == 0x20
}

pub open spec fn flag_c(f: u8) -> bool {
    f & 0x10 == 0x10
}

/// The flag register's invariant: its low nibble is always zero.
pub open spec fn f_wf(f: u8) -> bool {
    f & 0x0f == 0
}

/// The flag register assembled from the four flags.
pub open spec fn flags_byte(z: bool, n: bool, h: bool, c: bool) -> u8 {
    ((if z {
        0x80u8
    } else {
        0u8
    }) + (if n {
        0x40u8
    } else {
        0u8
    }) + (if h {
        0x20u8
    } else {
        0u8
    }) + (if c {
        0x10u8
    } else {
        0u8
    })) as u8
}

/// Each flag reads back from the assembled register, and its low
/// nibble is zero.
pub proof fn lemma_flags_byte(z: bool, n: bool, h: bool, c: bool)
    ensures
        flag_z(flags_byte(z, n, h, c)) == z,
        flag_n(flags_byte(z, n, h, c)) == n,
        flag_h(flags_byte(z, n, h, c)) == h,
        flag_c(flags_byte(z, n, h, c)) == c,
        f_wf(flags_byte(z, n, h, c)),
{
    let zb: u8 = if z {
        1
    } else {
        0
    };
    let nb: u8 = if n {
        1
    } else {
        0
    };
    let hb: u8 = if h {
        1
    } else {
        0
    };
    let cb: u8 = if c {
        1
    } else {
        0
    };
    assert(zb <= 1 && nb <= 1 && hb <= 1 && cb <= 1 ==> {
        let fb = (zb * 0x80 + nb * 0x40 + hb * 0x20 + cb * 0x10) as u8;
        &&& (fb & 0x80 == 0x80) == (zb == 1)
        &&& (fb & 0x40 == 0x40) == (nb == 1)
        &&& (fb & 0x20 == 0x20) == (hb == 1)
        &&& (fb & 0x10 == 0x10) == (cb == 1)
        &&& fb & 0x0f == 0
    }) by (bit_vector);
    assert(flags_byte(z, n, h, c) == (zb * 0x80 + nb * 0x40 + hb * 0x20 + cb * 0x10) as u8);
}

/// A signed 8-bit offset, sign-extended to 16 bits as the unsigned
/// value two's complement gives it.
pub open spec fn sign_ext16(b: u8) -> u16 {
    if b < 0x80 {
        b as u16
    } else {
        (b + 0xff00) as u16
    }
}

/// 16-bit wrapping addition.
pub open spec fn wrap_add16(a: u16, b: u16) -> u16 {
    ((a + b) % 0x10000) as u16
}

/// 16-bit wrapping subtraction.
pub open spec fn wrap_sub16(a: u16, b: u16) -> u16 {
    ((a + 0x10000 - b) % 0x10000) as u16
}

/// The 16-bit value a register pair holds: high register, low register.
pub open spec fn pair(hi: u8, lo: u8) -> u16 {
    (hi as u16) << 8 | (lo as u16)
}

#[verifier::ext_equal]
pub struct CPU {
    pub a: u8,
    pub f: u8,
    pub b: u8,
    pub c: u8,
    pub d: u8,
    pub e: u8,
    pub h: u8,
    pub l: u8,
    pub sp: u16,
    pub pc: u16,
    /// Interrupt master enable.
    pub ime: bool,
    /// Idling after HALT until an interrupt is pending.
    pub halted: bool,
    /// An EI was executed and IME turns on after the next instruction.
    pub ei_delay: bool,
    /// The last undefined opcode executed and the address it was
    /// fetched from, recorded for the host to report; the instruction
    /// itself acts as a 4-clock NOP.
    pub last_unknown_opcode: Option<(u8, u16)>,
    pub mmu: MMU,
}

/// The AF pair: the flag register's low nibble reads as zero.
pub open spec fn spec_read_af(c: CPU) -> u16 {
    (c.a as u16) << 8 | ((c.f & 0xf0) as u16)
}

pub open spec fn spec_write_af(c: CPU, val: u16) -> CPU {
    CPU { a: (val >> 8) as u8, f: (val & 0xf0) as u8, ..c }
}

pub open spec fn spec_read_bc(c: CPU) -> u16 {
    pair(c.b, c.c)
}

pub open spec fn spec_write_bc(c: CPU, val: u16) -> CPU {
    CPU { b: (val >> 8) as u8, c: (val & 0xff) as u8, ..c }
}

pub open spec fn spec_read_de(c: CPU) -> u16 {
    pair(c.d, c.e)
}

pub open spec fn spec_write_de(c: CPU, val: u16) -> CPU {
    CPU { d: (val >> 8) as u8, e: (val & 0xff) as u8, ..c }
}

pub open spec fn spec_read_hl(c: CPU) -> u16 {
    pair(c.h, c.l)
}

pub open spec fn spec_write_hl(c: CPU, val: u16) -> CPU {
    CPU { h: (val >> 8) as u8, l: (val & 0xff) as u8, ..c }
}

/// Splitting a 16-bit value into a register pair and reading the pair
/// back returns the value; reading a pair and writing the value back
/// leaves the processor bit-identical, for AF included, thanks to the
/// flag register's zero low nibble.
pub proof fn lemma_register_pair_roundtrip(c: CPU, val: u16)
    requires
        f_wf(c.f),
    ensures
        spec_write_af(c, spec_read_af(c)) == c,
        spec_write_bc(c, spec_read_bc(c)) == c,
        spec_write_de(c, spec_read_de(c)) == c,
        spec_write_hl(c, spec_read_hl(c)) == c,
        spec_read_bc(spec_write_bc(c, val)) == val,
        spec_read_de(spec_write_de(c, val)) == val,
        spec_read_hl(spec_write_hl(c, val)) == val,
        spec_read_af(spec_write_af(c, val)) == val & 0xfff0,
{
    let a = c.a;
    let f = c.f;
    assert(f & 0x0f == 0 ==> (((a as u16) << 8 | ((f & 0xf0) as u16)) >> 8) as u8 == a && ((((a
        as u16) << 8 | ((f & 0xf0) as u16)) & 0xf0) as u8) == f) by (bit_vector);
    let hi = c.b;
    let lo = c.c;
    assert((((hi as u16) << 8 | (lo as u16)) >> 8) as u8 == hi && ((((hi as u16) << 8 | (lo
        as u16)) & 0xff) as u8) == lo) by (bit_vector);
    let hi2 = c.d;
    let lo2 = c.e;
    assert((((hi2 as u16) << 8 | (lo2 as u16)) >> 8) as u8 == hi2 && ((((hi2 as u16) << 8 | (lo2
        as u16)) & 0xff) as u8) == lo2) by (bit_vector);
    let hi3 = c.h;
    let lo3 = c.l;
    assert((((hi3 as u16) << 8 | (lo3 as u16)) >> 8) as u8 == hi3 && ((((hi3 as u16) << 8 | (lo3
        as u16)) & 0xff) as u8) == lo3) by (bit_vector);
    assert(((val >> 8) as u8 as u16) << 8 | ((val & 0xff) as u8 as u16) == val && ((val >> 8) as u8
        as u16) << 8 | (((val & 0xf0) as u8 & 0xf0) as u16) == val & 0xfff0 && ((val & 0xf0) as u8)
        & 0x0f == 0) by (bit_vector);
    assert(spec_write_af(c, spec_read_af(c)) =~= c);
    assert(spec_write_bc(c, spec_read_bc(c)) =~= c);
    assert(spec_write_de(c, spec_read_de(c)) =~= c);
    assert(spec_write_hl(c, spec_read_hl(c)) =~= c);
}

impl CPU {
    /// The flag register keeps its zero low nibble and every device
    /// behind the bus is well-formed.
    pub open spec fn wf(self) -> bool {
        &&& f_wf(self.f)
        &&& self.mmu@.wf()
    }

    /// Build a machine around a raw cartridge image, with the
    /// post-boot register state.
    pub fn new(cart: Vec<u8>) -> (r: Result<CPU, CartError>)
        ensures
            cart@.len() < 0x8000 ==> r == Err::<CPU, CartError>(CartError::TooSmall),
            cart@.len() >= 0x8000 && cart@[0x147] == 1 && cart@[0x149] > 3 ==> r == Err::<
                CPU,
                CartError,
            >(CartError::UnsupportedRamSize),
            cart@.len() >= 0x8000 && cart@[0x147] > 1 ==> r == Err::<CPU, CartError>(
                CartError::UnsupportedMbc,
            ),
            cart@.len() >= 0x8000 && cart@[0x147] == 0 ==> r is Ok,
            cart@.len() >= 0x8000 && cart@[0x147] == 1 && cart@[0x149] <= 3 ==> r is Ok,
            r matches Ok(c) ==> ((cart@.len() >= 0x8000 && cart@[0x147] == 1 && cart@[0x149] <= 3)
                ==> c.mmu@.mbc == (crate::mbc::MbcV::Mbc1 {
                ram_enabled: false,
                ram_mode: false,
                rom: cart@,
                ram: Seq::new(crate::mbc::ram_size_spec(cart@[0x149]) as nat, |i: int| 0u8),
                rom_bank: 1,
                ram_bank: 0,
            })),
            r matches Ok(c) ==> {
                &&& c.wf()
                &&& c.a == 0x01
                &&& c.f == 0xb0
                &&& c.b == 0x00
                &&& c.c == 0x13
                &&& c.d == 0x00
                &&& c.e == 0xd8
                &&& c.h == 0x01
                &&& c.l == 0x4d
                &&& c.sp == 0xfffe
                &&& c.pc == 0x0100
                &&& !c.ime
                &&& !c.halted
                &&& !c.ei_delay
                &&& c.last_unknown_opcode is None
                &&& c.mmu@.wram == Seq::new(0x2000, |i: int| 0u8)
                &&& c.mmu@.hram == Seq::new(0x7f, |i: int| 0u8)
                &&& c.mmu@.interrupt_enable == 0
                &&& c.mmu@.interrupt_flag == 0
                &&& c.mmu@.timer == crate::timer::Timer::initial()
                &&& c.mmu@.joypad == (crate::joypad::Joypad {
                    button_state: 0xff,
                    data: 0xff,
                    interrupt: 0,
                })
                &&& c.mmu@.serial == (crate::serial::SerialView {
                    sb: 0,
                    sc: 0,
                    output: Seq::<u8>::empty(),
                })
                &&& c.mmu@.ppu == (crate::ppu::PpuView {
                    bgp: 0xfc,
                    obp0: 0xff,
                    obp1: 0xff,
                    display_enabled: true,
                    window_tilemap: 0x1800,
                    window_enabled: false,
                    tilebase: 0,
                    background_tilemap: 0x1800,
                    sprite_size: 8,
                    sprites_enabled: false,
                    bg_win_priority: true,
                    ..crate::ppu::PpuView::initial()
                })
            },
            r matches Ok(m) ==> ((cart@.len() >= 0x8000 && cart@[0x147] == 0) ==> m.mmu@.mbc
                == (crate::mbc::MbcV::Mbc0 { rom: cart@ })),
    {
        let mmu = match MMU::new(cart) {
            Ok(m) => m,
            Err(e) => {
                return Err(e);
            },
        };
        proof {
            assert(0xb0u8 & 0x0f == 0) by (bit_vector);
        }
        Ok(
            CPU {
                a: 0x01,
                f: 0xb0,
                b: 0x00,
                c: 0x13,
                d: 0x00,
                e: 0xd8,
                h: 0x01,
                l: 0x4d,
                sp: 0xfffe,
                pc: 0x0100,
                ime: false,
                halted: false,
                ei_delay: false,
                last_unknown_opcode: None,
                mmu,
            },
        )
    }

    pub fn read_af(&self) -> (r: u16)
        ensures
            r == spec_read_af(*self),
    {
        (self.a as u16) << 8 | ((self.f & 0xf0) as u16)
    }

    pub fn read_bc(&self) -> (r: u16)
        ensures
            r == spec_read_bc(*self),
    {
        (self.b as u16) << 8 | (self.c as u16)
    }

    pub fn read_de(&self) -> (r: u16)
        ensures
            r == spec_read_de(*self),
    {
        (self.d as u16) << 8 | (self.e as u16)
    }

    pub fn read_hl(&self) -> (r: u16)
        ensures
            r == spec_read_hl(*self),
    {
        (self.h as u16) << 8 | (self.l as u16)
    }

    pub fn write_af(&mut self, val: u16)
        ensures
            *final(self) == spec_write_af(*old(self), val),
            f_wf(final(self).f),
    {
        self.a = (val >> 8) as u8;
        self.f = (val & 0xf0) as u8;
        proof {
            assert(((val & 0xf0) as u8) & 0x0f == 0) by (bit_vector);
        }
    }

    pub fn write_bc(&mut self, val: u16)
        ensures
            *final(self) == spec_write_bc(*old(self), val),
    {
        self.b = (val >> 8) as u8;
        self.c = (val & 0xff) as u8;
    }

    pub fn write_de(&mut self, val: u16)
        ensures
            *final(self) == spec_write_de(*old(self), val),
    {
        self.d = (val >> 8) as u8;
        self.e = (val & 0xff) as u8;
    }

    pub fn write_hl(&mut self, val: u16)
        ensures
            *final(self) == spec_write_hl(*old(self), val),
    {
        self.h = (val >> 8) as u8;
        self.l = (val & 0xff) as u8;
    }

    /// HL, post-incremented (the load-and-increment addressing form).
    pub fn hli(&mut self) -> (r: u16)
        ensures
            r == spec_read_hl(*old(self)),
            *final(self) == spec_write_hl(*old(self), wrap_add16(spec_read_hl(*old(self)), 1)),
    {
        let hl = self.read_hl();
        let next = if hl == 0xffff {
            0
        } else {
            hl + 1
        };
        self.write_hl(next);
        hl
    }

    /// HL, post-decremented.
    pub fn hld(&mut self) -> (r: u16)
        ensures
            r == spec_read_hl(*old(self)),
            *final(self) == spec_write_hl(*old(self), wrap_sub16(spec_read_hl(*old(self)), 1)),
    {
        let hl = self.read_hl();
        let next = if hl == 0 {
            0xffff
        } else {
            hl - 1
        };
        self.write_hl(next);
        hl
    }

    pub fn read_flag(&self, flag: Flag) -> (r: bool)
        ensures
            r == (match flag {
                Flag::Z => flag_z(self.f),
                Flag::N => flag_n(self.f),
                Flag::H => flag_h(self.f),
                Flag::C => flag_c(self.f),
            }),
    {
        match flag {
            Flag::Z => self.f & 0x80 == 0x80,
            Flag::N => self.f & 0x40 == 0x40,
            Flag::H => self.f & 0x20 == 0x20,
            Flag::C => self.f & 0x10 == 0x10,
        }
    }

    /// Replace all four flags atomically.
    pub fn set_flags(&mut self, z: bool, n: bool, h: bool, c: bool)
        ensures
            *final(self) == (CPU { f: flags_byte(z, n, h, c), ..*old(self) }),
            f_wf(final(self).f),
    {
        let mut f: u8 = 0;
        if z {
            f = f + 0x80;
        }
        if n {
            f = f + 0x40;
        }
        if h {
            f = f + 0x20;
        }
        if c {
            f = f + 0x10;
        }
        self.f = f;
        proof {
            lemma_flags_byte(z, n, h, c);
        }
    }

    /// Fetch the byte at PC and step past it.
    pub fn fetch_byte(&mut self) -> (r: u8)
        requires
            old(self).wf(),
        ensures
            final(self).wf(),
            r == old(self).mmu@.read_byte_v(old(self).pc),
            *final(self) == (CPU { pc: wrap_add16(old(self).pc, 1), ..*old(self) }),
    {
        let byte = self.mmu.read_byte(self.pc);
        self.pc = if self.pc == 0xffff {
            0
        } else {
            self.pc + 1
        };
        byte
    }

    /// Fetch the little-endian word at PC and step past it.
    pub fn fetch_word(&mut self) -> (r: u16)
        requires
            old(self).wf(),
        ensures
            final(self).wf(),
            r == old(self).mmu@.read_byte_v(old(self).pc) + 256 * old(self).mmu@.read_byte_v(
                wrap_add16(old(self).pc, 1),
            ),
            *final(self) == (CPU { pc: wrap_add16(old(self).pc, 2), ..*old(self) }),
    {
        let lo = self.fetch_byte();
        let hi = self.fetch_byte();
        lo as u16 + 256 * (hi as u16)
    }

    /// ADD or ADC: per the flag table, H is the low-nibble carry and C
    /// the byte carry of A + v + carry-in.
    pub fn alu_add(&mut self, val: u8, with_carry: bool)
        requires
            old(self).wf(),
        ensures
            final(self).wf(),
            ({
                let cin: u8 = if with_carry && flag_c(old(self).f) {
                    1u8
                } else {
                    0u8
                };
                let sum = ((old(self).a + val + cin) % 256) as u8;
                *final(self) == (CPU {
                    a: sum,
                    f: flags_byte(
                        sum == 0,
                        false,
                        (old(self).a & 0xf) + (val & 0xf) + cin > 0xf,
                        old(self).a + val + cin > 0xff,
                    ),
                    ..*old(self)
                })
            }),
    {
        let a = self.a;
        let cin: u8 = if with_carry && self.read_flag(Flag::C) {
            1
        } else {
            0
        };
        let sum16: u16 = a as u16 + val as u16 + cin as u16;
        let sum: u8 = (sum16 % 256) as u8;
        proof {
            crate::bits::lemma_u8_and_le(a, 0xf);
            crate::bits::lemma_u8_and_le(val, 0xf);
        }
        let half = (a & 0xf) + (val & 0xf) + cin > 0xf;
        let carry = sum16 > 0xff;
        self.a = sum;
        self.set_flags(sum == 0, false, half, carry);
    }

    /// SUB or SBC: per the flag table, H is the low-nibble borrow and C
    /// the byte borrow of A - v - carry-in.
    pub fn alu_sub(&mut self, val: u8, with_carry: bool)
        requires
            old(self).wf(),
        ensures
            final(self).wf(),
            ({
                let cin: u8 = if with_carry && flag_c(old(self).f) {
                    1u8
                } else {
                    0u8
                };
                let diff = ((old(self).a + 256 - val - cin) % 256) as u8;
                *final(self) == (CPU {
                    a: diff,
                    f: flags_byte(
                        diff == 0,
                        true,
                        (old(self).a & 0xf) < (val & 0xf) + cin,
                        (old(self).a as int) < val + cin,
                    ),
                    ..*old(self)
                })
            }),
    {
        let a = self.a;
        let cin: u8 = if with_carry && self.read_flag(Flag::C) {
            1
        } else {
            0
        };
        let diff16: u16 = a as u16 + 256 - val as u16 - cin as u16;
        let diff: u8 = (diff16 % 256) as u8;
        proof {
            crate::bits::lemma_u8_and_le(a, 0xf);
            crate::bits::lemma_u8_and_le(val, 0xf);
        }
        let half = (a & 0xf) < (val & 0xf) + cin;
        let borrow = (a as u16) < val as u16 + cin as u16;
        self.a = diff;
        self.set_flags(diff == 0, true, half, borrow);
    }

    /// CP: the flags of SUB with A left unchanged.
    pub fn alu_cp(&mut self, val: u8)
        requires
            old(self).wf(),
        ensures
            final(self).wf(),
            ({
                let diff = ((old(self).a + 256 - val) % 256) as u8;
                *final(self) == (CPU {
                    f: flags_byte(
                        diff == 0,
                        true,
                        (old(self).a & 0xf) < (val & 0xf),
                        (old(self).a as int) < val,
                    ),
                    ..*old(self)
                })
            }),
    {
        let a = self.a;
        self.alu_sub(val, false);
        self.a = a;
    }

    /// AND: Z from the result, H always set, N and C clear.
    pub fn alu_and(&mut self, val: u8)
        requires
            old(self).wf(),
        ensures
            final(self).wf(),
            *final(self) == (CPU {
                a: old(self).a & val,
                f: flags_byte(old(self).a & val == 0, false, true, false),
                ..*old(self)
            }),
    {
        self.a = self.a & val;
        let z = self.a == 0;
        self.set_flags(z, false, true, false);
    }

    /// OR: Z from the result, the other flags clear.
    pub fn alu_or(&mut self, val: u8)
        requires
            old(self).wf(),
        ensures
            final(self).wf(),
            *final(self) == (CPU {
                a: old(self).a | val,
                f: flags_byte(old(self).a | val == 0, false, false, false),
                ..*old(self)
            }),
    {
        self.a = self.a | val;
        let z = self.a == 0;
        self.set_flags(z, false, false, false);
    }

    /// XOR: Z from the result, the other flags clear.
    pub fn alu_xor(&mut self, val: u8)
        requires
            old(self).wf(),
        ensures
            final(self).wf(),
            *final(self) == (CPU {
                a: old(self).a ^ val,
                f: flags_byte(old(self).a ^ val == 0, false, false, false),
                ..*old(self)
            }),
    {
        self.a = self.a ^ val;
        let z = self.a == 0;
        self.set_flags(z, false, false, false);
    }

    /// INC on an 8-bit operand: wraps, sets Z and the low-nibble carry,
    /// clears N, and leaves C untouched.
    pub fn alu_inc(&mut self, val: u8) -> (r: u8)
        requires
            old(self).wf(),
        ensures
            final(self).wf(),
            r == ((val + 1) % 256) as u8,
            *final(self) == (CPU {
                f: flags_byte(
                    ((val + 1) % 256) as u8 == 0,
                    false,
                    (val & 0xf) + 1 > 0xf,
                    flag_c(old(self).f),
                ),
                ..*old(self)
            }),
    {
        let incremented = if val == 255 {
            0
        } else {
            val + 1
        };
        proof {
            crate::bits::lemma_u8_and_le(val, 0xf);
        }
        let half = (val & 0xf) + 1 > 0xf;
        let c = self.read_flag(Flag::C);
        self.set_flags(incremented == 0, false, half, c);
        incremented
    }

    /// DEC on an 8-bit operand: wraps, sets Z and the low-nibble
    /// borrow, sets N, and leaves C untouched.
    pub fn alu_dec(&mut self, val: u8) -> (r: u8)
        requires
            old(self).wf(),
        ensures
            final(self).wf(),
            r == ((val + 255) % 256) as u8,
            *final(self) == (CPU {
                f: flags_byte(
                    ((val + 255) % 256) as u8 == 0,
                    true,
                    (val & 0xf) == 0,
                    flag_c(old(self).f),
                ),
                ..*old(self)
            }),
    {
        let decremented = if val == 0 {
            255
        } else {
            val - 1
        };
        let half = (val & 0xf) == 0;
        let c = self.read_flag(Flag::C);
        self.set_flags(decremented == 0, true, half, c);
        decremented
    }

    /// ADD HL,rr: Z untouched, H and C from the 12- and 16-bit carries.
    pub fn alu_add16(&mut self, val: u16)
        requires
            old(self).wf(),
        ensures
            final(self).wf(),
            ({
                let hl = spec_read_hl(*old(self));
                let sum = wrap_add16(hl, val);
                *final(self) == (CPU {
                    h: (sum >> 8) as u8,
                    l: (sum & 0xff) as u8,
                    f: flags_byte(
                        flag_z(old(self).f),
                        false,
                        (hl & 0xfff) + (val & 0xfff) > 0xfff,
                        hl + val > 0xffff,
                    ),
                    ..*old(self)
                })
            }),
    {
        let hl = self.read_hl();
        let sum32: u32 = hl as u32 + val as u32;
        let sum: u16 = (sum32 % 0x10000) as u16;
        proof {
            assert(hl & 0xfff <= 0xfff && val & 0xfff <= 0xfff) by (bit_vector);
        }
        let half = (hl & 0xfff) + (val & 0xfff) > 0xfff;
        let carry = sum32 > 0xffff;
        let z = self.read_flag(Flag::Z);
        self.set_flags(z, false, half, carry);
        self.write_hl(sum);
    }

    /// The shared core of ADD SP,r8 and LD HL,SP+r8: fetches the signed
    /// offset and returns SP plus it, with H and C computed from the
    /// unsigned low-nibble and low-byte sums exactly as tabulated.
    pub fn add_sp_r8(&mut self) -> (r: u16)
        requires
            old(self).wf(),
        ensures
            final(self).wf(),
            ({
                let b = old(self).mmu@.read_byte_v(old(self).pc);
                &&& r == wrap_add16(old(self).sp, sign_ext16(b))
                &&& *final(self) == (CPU {
                    pc: wrap_add16(old(self).pc, 1),
                    f: flags_byte(
                        false,
                        false,
                        (old(self).sp & 0xf) + (b & 0xf) > 0xf,
                        (old(self).sp & 0xff) + b > 0xff,
                    ),
                    ..*old(self)
                })
            }),
    {
        let sp = self.sp;
        let b = self.fetch_byte();
        let ext: u16 = if b < 0x80 {
            b as u16
        } else {
            b as u16 + 0xff00
        };
        let r: u16 = ((sp as u32 + ext as u32) % 0x10000) as u16;
        proof {
            assert(sp & 0xf <= 0xf && sp & 0xff <= 0xff) by (bit_vector);
            crate::bits::lemma_u8_and_le(b, 0xf);
        }
        let half = (sp & 0xf) + ((b & 0xf) as u16) > 0xf;
        let carry = (sp & 0xff) + b as u16 > 0xff;
        self.set_flags(false, false, half, carry);
        r
    }

    /// DAA: decimal-adjust A after a BCD addition or subtraction.
    #[verifier::rlimit(60)]
    pub fn alu_daa(&mut self)
        requires
            old(self).wf(),
        ensures
            final(self).wf(),
            ({
                let (a2, c2) = spec_daa(
                    old(self).a,
                    flag_n(old(self).f),
                    flag_h(old(self).f),
                    flag_c(old(self).f),
                );
                *final(self) == (CPU {
                    a: a2,
                    f: flags_byte(a2 == 0, flag_n(old(self).f), false, c2),
                    ..*old(self)
                })
            }),
    {
        let mut a = self.a;
        let n = self.read_flag(Flag::N);
        let h = self.read_flag(Flag::H);
        let mut c = self.read_flag(Flag::C);
        if !n {
            if c || a > 0x99 {
                a = if a <= 0x9f {
                    a + 0x60
                } else {
                    a - 0xa0
                };
                c = true;
            }
            proof {
                crate::bits::lemma_u8_and_le(a, 0xf);
            }
            if h || a & 0xf > 9 {
                a = if a <= 0xf9 {
                    a + 0x6
                } else {
                    a - 0xfa
                };
            }
        } else {
            if c {
                a = if a >= 0x60 {
                    a - 0x60
                } else {
                    a + 0xa0
                };
            }
            if h {
                a = if a >= 0x6 {
                    a - 0x6
                } else {
                    a + 0xfa
                };
            }
        }
        self.a = a;
        let z = a == 0;
        self.set_flags(z, n, false, c);
    }

    /// JR: fetch the signed offset and move PC by it.
    pub fn jr(&mut self)
        requires
            old(self).wf(),
        ensures
            final(self).wf(),
            *final(self) == (CPU {
                pc: wrap_add16(
                    wrap_add16(old(self).pc, 1),
                    sign_ext16(old(self).mmu@.read_byte_v(old(self).pc)),
                ),
                ..*old(self)
            }),
    {
        let b = self.fetch_byte();
        let ext: u16 = if b < 0x80 {
            b as u16
        } else {
            b as u16 + 0xff00
        };
        self.pc = ((self.pc as u32 + ext as u32) % 0x10000) as u16;
    }

    /// Push a word: SP moves down by two first, then the word lands at
    /// the new SP, low byte first.
    pub fn push(&mut self, val: u16)
        requires
            old(self).wf(),
        ensures
            final(self).wf(),
            ({
                let lo_addr = wrap_sub16(old(self).sp, 2);
                let hi_addr = wrap_sub16(old(self).sp, 1);
                &&& final(self).mmu@ == old(self).mmu@.write_byte_v(
                    lo_addr,
                    (val % 256) as u8,
                ).write_byte_v(hi_addr, (val / 256) as u8)
                &&& *final(self) == (CPU {
                    sp: lo_addr,
                    mmu: final(self).mmu,
                    ..*old(self)
                })
            }),
    {
        let lo_addr: u16 = if self.sp >= 2 {
            self.sp - 2
        } else {
            (0x10000u32 + self.sp as u32 - 2) as u16
        };
        let hi_addr: u16 = if self.sp >= 1 {
            self.sp - 1
        } else {
            0xffff
        };
        self.sp = lo_addr;
        self.mmu.write_byte(lo_addr, (val % 256) as u8);
        self.mmu.write_byte(hi_addr, (val / 256) as u8);
    }

    /// Pop a word: read at SP, low byte first, then SP moves up by two.
    pub fn pop(&mut self) -> (r: u16)
        requires
            old(self).wf(),
        ensures
            final(self).wf(),
            r == old(self).mmu@.read_byte_v(old(self).sp) + 256 * old(self).mmu@.read_byte_v(
                wrap_add16(old(self).sp, 1),
            ),
            *final(self) == (CPU { sp: wrap_add16(old(self).sp, 2), ..*old(self) }),
    {
        let lo = self.mmu.read_byte(self.sp);
        let hi_addr: u16 = if self.sp <= 0xfffe {
            self.sp + 1
        } else {
            0
        };
        let hi = self.mmu.read_byte(hi_addr);
        self.sp = if self.sp <= 0xfffd {
            self.sp + 2
        } else {
            (self.sp as u32 + 2 - 0x10000) as u16
        };
        lo as u16 + 256 * (hi as u16)
    }
}

/// DAA's result and carry: below 0x100 arithmetic stated with wrapping.
pub open spec fn spec_daa(a: u8, n: bool, h: bool, c: bool) -> (u8, bool) {
    if !n {
        let a1 = if c || a > 0x99 {
            ((a + 0x60) % 256) as u8
        } else {
            a
        };
        let c1 = if c || a > 0x99 {
            true
        } else {
            c
        };
        let a2 = if h || a1 & 0xf > 9 {
            ((a1 + 0x6) % 256) as u8
        } else {
            a1
        };
        (a2, c1)
    } else {
        let a1 = if c {
            ((a + 256 - 0x60) % 256) as u8
        } else {
            a
        };
        let a2 = if h {
            ((a1 + 256 - 0x6) % 256) as u8
        } else {
            a1
        };
        (a2, c)
    }
}

/// An 8-bit operand by its index in the instruction encoding: B, C, D,
/// E, H, L, then A (index 6 is the memory operand and is handled at
/// each use site).
pub open spec fn spec_r8(c: CPU, idx: u8) -> u8 {
    if idx == 0 {
        c.b
    } else if idx == 1 {
        c.c
    } else if idx == 2 {
        c.d
    } else if idx == 3 {
        c.e
    } else if idx == 4 {
        c.h
    } else if idx == 5 {
        c.l
    } else {
        c.a
    }
}

/// The processor with the indexed 8-bit register replaced.
pub open spec fn spec_w8(c: CPU, idx: u8, v: u8) -> CPU {
    if idx == 0 {
        CPU { b: v, ..c }
    } else if idx == 1 {
        CPU { c: v, ..c }
    } else if idx == 2 {
        CPU { d: v, ..c }
    } else if idx == 3 {
        CPU { e: v, ..c }
    } else if idx == 4 {
        CPU { h: v, ..c }
    } else if idx == 5 {
        CPU { l: v, ..c }
    } else {
        CPU { a: v, ..c }
    }
}

/// The lowest set interrupt bit: the five sources in priority order.
pub open spec fn lowest_pending(p: u8) -> u8 {
    if p & 0x01 != 0 {
        0x01u8
    } else if p & 0x02 != 0 {
        0x02u8
    } else if p & 0x04 != 0 {
        0x04u8
    } else if p & 0x08 != 0 {
        0x08u8
    } else {
        0x10u8
    }
}

/// The service vector of an interrupt source bit.
pub open spec fn vector_of(bit: u8) -> u16 {
    if bit == 0x01 {
        0x40u16
    } else if bit == 0x02 {
        0x48u16
    } else if bit == 0x04 {
        0x50u16
    } else if bit == 0x08 {
        0x58u16
    } else {
        0x60u16
    }
}

impl CPU {
    /// RLC: rotate left, old bit 7 into both bit 0 and carry.
    pub fn rlc(&mut self, val: u8) -> (r: u8)
        requires
            old(self).wf(),
        ensures
            final(self).wf(),
            r == (val << 1) | (val >> 7),
            *final(self) == (CPU {
                f: flags_byte((val << 1) | (val >> 7) == 0, false, false, val >= 0x80),
                ..*old(self)
            }),
    {
        let r = (val << 1) | (val >> 7);
        self.set_flags(r == 0, false, false, val >= 0x80);
        r
    }

    /// RL: rotate left through carry.
    pub fn rl(&mut self, val: u8) -> (r: u8)
        requires
            old(self).wf(),
        ensures
            final(self).wf(),
            r == (val << 1) | (if flag_c(old(self).f) {
                1u8
            } else {
                0u8
            }),
            *final(self) == (CPU { f: flags_byte(r == 0, false, false, val >= 0x80), ..*old(self) }),
    {
        let cin: u8 = if self.read_flag(Flag::C) {
            1
        } else {
            0
        };
        let r = (val << 1) | cin;
        self.set_flags(r == 0, false, false, val >= 0x80);
        r
    }

    /// RRC: rotate right, old bit 0 into both bit 7 and carry.
    pub fn rrc(&mut self, val: u8) -> (r: u8)
        requires
            old(self).wf(),
        ensures
            final(self).wf(),
            r == (val >> 1) | (val << 7),
            *final(self) == (CPU {
                f: flags_byte((val >> 1) | (val << 7) == 0, false, false, val & 1 == 1),
                ..*old(self)
            }),
    {
        let r = (val >> 1) | (val << 7);
        self.set_flags(r == 0, false, false, val & 1 == 1);
        r
    }

    /// RR: rotate right through carry.
    pub fn rr(&mut self, val: u8) -> (r: u8)
        requires
            old(self).wf(),
        ensures
            final(self).wf(),
            r == (val >> 1) | (if flag_c(old(self).f) {
                0x80u8
            } else {
                0u8
            }),
            *final(self) == (CPU { f: flags_byte(r == 0, false, false, val & 1 == 1), ..*old(self) }),
    {
        let cin: u8 = if self.read_flag(Flag::C) {
            0x80
        } else {
            0
        };
        let r = (val >> 1) | cin;
        self.set_flags(r == 0, false, false, val & 1 == 1);
        r
    }

    /// SLA: shift left, bit 7 to carry.
    pub fn sla(&mut self, val: u8) -> (r: u8)
        requires
            old(self).wf(),
        ensures
            final(self).wf(),
            r == val << 1,
            *final(self) == (CPU {
                f: flags_byte(val << 1 == 0, false, false, val >= 0x80),
                ..*old(self)
            }),
    {
        let r = val << 1;
        self.set_flags(r == 0, false, false, val >= 0x80);
        r
    }

    /// SRA: shift right keeping the sign bit, bit 0 to carry.
    pub fn sra(&mut self, val: u8) -> (r: u8)
        requires
            old(self).wf(),
        ensures
            final(self).wf(),
            r == (val >> 1) | (val & 0x80),
            *final(self) == (CPU {
                f: flags_byte((val >> 1) | (val & 0x80) == 0, false, false, val & 1 == 1),
                ..*old(self)
            }),
    {
        let r = (val >> 1) | (val & 0x80);
        self.set_flags(r == 0, false, false, val & 1 == 1);
        r
    }

    /// SRL: shift right, bit 0 to carry.
    pub fn srl(&mut self, val: u8) -> (r: u8)
        requires
            old(self).wf(),
        ensures
            final(self).wf(),
            r == val >> 1,
            *final(self) == (CPU {
                f: flags_byte(val >> 1 == 0, false, false, val & 1 == 1),
                ..*old(self)
            }),
    {
        let r = val >> 1;
        self.set_flags(r == 0, false, false, val & 1 == 1);
        r
    }

    /// SWAP: exchange the nibbles, all flags but Z clear.
    pub fn swap(&mut self, val: u8) -> (r: u8)
        requires
            old(self).wf(),
        ensures
            final(self).wf(),
            r == (val >> 4) | (val << 4),
            *final(self) == (CPU {
                f: flags_byte((val >> 4) | (val << 4) == 0, false, false, false),
                ..*old(self)
            }),
    {
        let r = (val >> 4) | (val << 4);
        self.set_flags(r == 0, false, false, false);
        r
    }

    /// BIT: Z reports the complement of the tested bit, C untouched.
    pub fn bit(&mut self, val: u8, bit: u8)
        requires
            old(self).wf(),
            bit < 8,
        ensures
            final(self).wf(),
            *final(self) == (CPU {
                f: flags_byte(
                    !crate::bits::spec_bit_set(val, bit),
                    false,
                    true,
                    flag_c(old(self).f),
                ),
                ..*old(self)
            }),
    {
        let set = crate::bits::check_bit(val, bit);
        let c = self.read_flag(Flag::C);
        self.set_flags(!set, false, true, c);
    }

    pub fn read_r8(&self, idx: u8) -> (r: u8)
        requires
            idx < 8,
            idx != 6,
        ensures
            r == spec_r8(*self, idx),
    {
        match idx {
            0 => self.b,
            1 => self.c,
            2 => self.d,
            3 => self.e,
            4 => self.h,
            5 => self.l,
            _ => self.a,
        }
    }

    pub fn write_r8(&mut self, idx: u8, v: u8)
        requires
            idx < 8,
            idx != 6,
        ensures
            *final(self) == spec_w8(*old(self), idx, v),
    {
        match idx {
            0 => self.b = v,
            1 => self.c = v,
            2 => self.d = v,
            3 => self.e = v,
            4 => self.h = v,
            5 => self.l = v,
            _ => self.a = v,
        }
    }

    /// JP: fetch the target and jump.
    pub fn jp(&mut self)
        requires
            old(self).wf(),
        ensures
            final(self).wf(),
            *final(self) == (CPU {
                pc: (old(self).mmu@.read_byte_v(old(self).pc) + 256 * old(self).mmu@.read_byte_v(
                    wrap_add16(old(self).pc, 1),
                )) as u16,
                ..*old(self)
            }),
    {
        let target = self.fetch_word();
        self.pc = target;
    }

    /// CALL: fetch the target, push the address of the next
    /// instruction, and jump.
    pub fn call(&mut self)
        requires
            old(self).wf(),
        ensures
            final(self).wf(),
            final(self).pc == old(self).mmu@.read_byte_v(old(self).pc) + 256 * old(
                self,
            ).mmu@.read_byte_v(wrap_add16(old(self).pc, 1)),
            final(self).sp == wrap_sub16(old(self).sp, 2),
            final(self).mmu@ == old(self).mmu@.write_byte_v(
                wrap_sub16(old(self).sp, 2),
                (wrap_add16(old(self).pc, 2) % 256) as u8,
            ).write_byte_v(wrap_sub16(old(self).sp, 1), (wrap_add16(old(self).pc, 2) / 256) as u8),
            *final(self) == (CPU {
                pc: final(self).pc,
                sp: final(self).sp,
                mmu: final(self).mmu,
                ..*old(self)
            }),
    {
        let target = self.fetch_word();
        let ret_addr = self.pc;
        self.push(ret_addr);
        self.pc = target;
    }

    /// RST: push the address of the next instruction and jump to the
    /// fixed vector.
    pub fn rst(&mut self, vector: u16)
        requires
            old(self).wf(),
        ensures
            final(self).wf(),
            final(self).pc == vector,
            final(self).sp == wrap_sub16(old(self).sp, 2),
            final(self).mmu@ == old(self).mmu@.write_byte_v(
                wrap_sub16(old(self).sp, 2),
                (old(self).pc % 256) as u8,
            ).write_byte_v(wrap_sub16(old(self).sp, 1), (old(self).pc / 256) as u8),
            *final(self) == (CPU {
                pc: vector,
                sp: final(self).sp,
                mmu: final(self).mmu,
                ..*old(self)
            }),
    {
        let pc = self.pc;
        self.push(pc);
        self.pc = vector;
    }

    /// RET: pop the return address into PC.
    pub fn ret(&mut self)
        requires
            old(self).wf(),
        ensures
            final(self).wf(),
            *final(self) == (CPU {
                pc: (old(self).mmu@.read_byte_v(old(self).sp) + 256 * old(self).mmu@.read_byte_v(
                    wrap_add16(old(self).sp, 1),
                )) as u16,
                sp: wrap_add16(old(self).sp, 2),
                ..*old(self)
            }),
    {
        let target = self.pop();
        self.pc = target;
    }

    /// Clear IME, acknowledge the lowest pending enabled source, push
    /// PC and jump to the source's vector; 20 clocks. `service_ok` pins
    /// the whole effect, the stacked PC and the cleared IF bit included.
    fn service_interrupt(&mut self) -> (cycles: u32)
        requires
            old(self).wf(),
            old(self).mmu@.interrupt_enable & old(self).mmu@.interrupt_flag & 0x1f != 0,
        ensures
            final(self).wf(),
            service_ok(*old(self), *final(self), cycles),
    {
        let pending = self.mmu.interrupt_enable & self.mmu.interrupt_flag & 0x1f;
        let (bit, vector): (u8, u16) = if pending & 0x01 != 0 {
            (0x01, 0x40)
        } else if pending & 0x02 != 0 {
            (0x02, 0x48)
        } else if pending & 0x04 != 0 {
            (0x04, 0x50)
        } else if pending & 0x08 != 0 {
            (0x08, 0x58)
        } else {
            (0x10, 0x60)
        };
        self.ime = false;
        self.halted = false;
        self.mmu.interrupt_flag = self.mmu.interrupt_flag & !bit;
        let pc = self.pc;
        self.push(pc);
        self.pc = vector;
        20
    }

    /// One machine step: service a pending enabled interrupt, idle in
    /// HALT, or execute the instruction at PC; a delayed EI takes
    /// effect after that instruction. Returns the clocks consumed;
    /// `step_ok` pins the whole effect.
    fn step(&mut self) -> (cycles: u32)
        requires
            old(self).wf(),
        ensures
            final(self).wf(),
            4 <= cycles <= 24,
            cycles % 4 == 0,
            step_ok(*old(self), *final(self), cycles),
    {
        let pending = self.mmu.interrupt_enable & self.mmu.interrupt_flag & 0x1f;
        if self.halted {
            if pending == 0 {
                return 4;
            }
            self.halted = false;
        }
        if self.ime && pending != 0 {
            return self.service_interrupt();
        }
        let ghost woken = *self;
        let delayed = self.ei_delay;
        let cycles = self.execute_opcode();
        let ghost mid = *self;
        if delayed && self.ei_delay {
            self.ime = true;
            self.ei_delay = false;
        }
        proof {
            assert(exec_step_ok(woken, mid, cycles));
        }
        cycles
    }

    /// One machine step plus the broadcast of its cost to the devices
    /// behind the bus; `do_cycle_ok` pins the whole effect.
    pub fn do_cycle(&mut self) -> (cycles: u32)
        requires
            old(self).wf(),
        ensures
            final(self).wf(),
            4 <= cycles <= 24,
            cycles % 4 == 0,
            do_cycle_ok(*old(self), *final(self), cycles),
            ({
                let pending = old(self).mmu@.interrupt_enable & old(self).mmu@.interrupt_flag
                    & 0x1f;
                &&& ((old(self).halted && pending == 0) ==> cycles == 4 && final(self).halted
                    && final(self).pc == old(self).pc)
                &&& ((!old(self).halted && old(self).ime && pending != 0) ==> cycles == 20
                    && !final(self).ime && final(self).pc == vector_of(lowest_pending(pending)))
            }),
    {
        let cycles = self.step();
        let ghost mid = *self;
        self.mmu.tick(cycles);
        proof {
            assert(step_ok(*old(self), mid, cycles));
        }
        cycles
    }

    /// Decode and execute the instruction at PC; returns its cost in
    /// machine clocks, the documented lower cost when a conditional
    /// branch is not taken. An undefined opcode costs 4 clocks and only
    /// records itself for the host. `exec_step_ok` pins every opcode's
    /// exact effect, the prefixed table included, and the flag
    /// register's zero low nibble afterwards.
    pub fn execute_opcode(&mut self) -> (cycles: u32)
        requires
            old(self).wf(),
        ensures
            final(self).wf(),
            f_wf(final(self).f),
            4 <= cycles <= 24,
            cycles % 4 == 0,
            exec_step_ok(*old(self), *final(self), cycles),
    {
        let opcode = self.fetch_byte();
        if opcode < 0x40 {
            self.op_misc(opcode)
        } else if opcode < 0x80 {
            self.op_ld(opcode)
        } else if opcode < 0xc0 {
            self.op_alu(opcode)
        } else {
            self.op_ctrl(opcode)
        }
    }

    /// The 8-bit register-to-register load block, 0x40-0x7f, with the
    /// memory operand at index 6 and HALT in the slot a memory-to-
    /// memory load would occupy.
    fn op_ld(&mut self, opcode: u8) -> (cycles: u32)
        requires
            old(self).wf(),
            0x40 <= opcode < 0x80,
        ensures
            final(self).wf(),
            4 <= cycles <= 8,
            cycles % 4 == 0,
            ld_step_ok(*old(self), *final(self), cycles, opcode),
    {
        if opcode == 0x76 {
            self.halted = true;
            return 4;
        }
        let src = opcode & 7;
        let dst = (opcode >> 3) & 7;
        proof {
            crate::bits::lemma_u8_and_le(opcode, 7);
            crate::bits::lemma_u8_and_le(opcode >> 3, 7);
        }
        let v = if src == 6 {
            self.mmu.read_byte(self.read_hl())
        } else {
            self.read_r8(src)
        };
        if dst == 6 {
            let addr = self.read_hl();
            self.mmu.write_byte(addr, v);
            8
        } else {
            self.write_r8(dst, v);
            if src == 6 {
                8
            } else {
                4
            }
        }
    }

    /// The 8-bit arithmetic block, 0x80-0xbf: ADD, ADC, SUB, SBC, AND,
    /// XOR, OR, CP against a register or the memory operand. Only A and
    /// the flags change, exactly as `alu_step_ok` lays out.
    #[verifier::rlimit(100)]
    fn op_alu(&mut self, opcode: u8) -> (cycles: u32)
        requires
            old(self).wf(),
            0x80 <= opcode < 0xc0,
        ensures
            final(self).wf(),
            cycles == (if opcode & 7 == 6 {
                8u32
            } else {
                4u32
            }),
            *final(self) == (CPU { a: final(self).a, f: final(self).f, ..*old(self) }),
            alu_step_ok(*old(self), *final(self), cycles, opcode),
    {
        let src = opcode & 7;
        proof {
            crate::bits::lemma_u8_and_le(opcode, 7);
            crate::bits::lemma_u8_and_le(opcode >> 3, 7);
        }
        let v = if src == 6 {
            self.mmu.read_byte(self.read_hl())
        } else {
            self.read_r8(src)
        };
        match (opcode >> 3) & 7 {
            0 => self.alu_add(v, false),
            1 => self.alu_add(v, true),
            2 => self.alu_sub(v, false),
            3 => self.alu_sub(v, true),
            4 => self.alu_and(v),
            5 => self.alu_xor(v),
            6 => self.alu_or(v),
            _ => self.alu_cp(v),
        }
        if src == 6 {
            8
        } else {
            4
        }
    }
}

/// The exact effect of servicing an interrupt: IME cleared, HALT left,
/// the lowest pending enabled source's bit cleared in IF, PC pushed at
/// SP-2 (after the IF clear, so a stack top at the IF register takes
/// the pushed byte), and control at the source's vector; 20 clocks.
pub open spec fn service_ok(pre: CPU, post: CPU, cycles: u32) -> bool {
    let pending = pre.mmu@.interrupt_enable & pre.mmu@.interrupt_flag & 0x1f;
    let bit = lowest_pending(pending);
    &&& cycles == 20
    &&& post == (CPU {
        ime: false,
        halted: false,
        pc: vector_of(bit),
        sp: wrap_sub16(pre.sp, 2),
        mmu: post.mmu,
        ..pre
    })
    &&& post.mmu@ == (MmuView {
        interrupt_flag: pre.mmu@.interrupt_flag & !bit,
        ..pre.mmu@
    }).write_byte_v(wrap_sub16(pre.sp, 2), (pre.pc % 256) as u8).write_byte_v(
        wrap_sub16(pre.sp, 1),
        (pre.pc / 256) as u8,
    )
}

/// The exact effect of an opcode of the load block 0x40-0x7f: a plain
/// register move, a load from or store to memory at HL, or HALT in the
/// slot a memory-to-memory load would occupy.
pub open spec fn ld_step_ok(pre: CPU, post: CPU, cycles: u32, op: u8) -> bool {
    if op == 0x76 {
        cycles == 4 && post == (CPU { halted: true, ..pre })
    } else {
        let src = op & 7;
        let dst = (op >> 3) & 7;
        let v = if src == 6 {
            pre.mmu@.read_byte_v(spec_read_hl(pre))
        } else {
            spec_r8(pre, src)
        };
        &&& (dst == 6 ==> cycles == 8 && post == (CPU { mmu: post.mmu, ..pre }) && post.mmu@
            == pre.mmu@.write_byte_v(spec_read_hl(pre), v))
        &&& (dst != 6 ==> cycles == (if src == 6 {
            8u32
        } else {
            4u32
        }) && post == spec_w8(pre, dst, v))
    }
}

/// The exact effect of executing the instruction at PC: the opcode is
/// fetched and its block's step predicate pins the outcome; the cost is
/// a multiple of 4 between 4 and 24 and the flag register keeps its
/// zero low nibble.
pub open spec fn exec_step_ok(pre: CPU, post: CPU, cycles: u32) -> bool {
    let op = pre.mmu@.read_byte_v(pre.pc);
    let fetched = (CPU { pc: wrap_add16(pre.pc, 1), ..pre });
    &&& 4 <= cycles <= 24
    &&& cycles % 4 == 0
    &&& f_wf(post.f)
    &&& (op < 0x40 ==> misc_step_ok(fetched, post, cycles, op))
    &&& (0x40 <= op < 0x80 ==> ld_step_ok(fetched, post, cycles, op))
    &&& (0x80 <= op < 0xc0 ==> alu_step_ok(fetched, post, cycles, op))
    &&& (op >= 0xc0 ==> ctrl_step_ok(fetched, post, cycles, op))
}

/// The exact effect of one processor step before the bus broadcast:
/// idle in HALT when nothing is pending, service a pending enabled
/// interrupt, or execute the instruction at PC with a delayed EI taking
/// effect after it.
pub open spec fn step_ok(pre: CPU, post: CPU, cycles: u32) -> bool {
    let pending = pre.mmu@.interrupt_enable & pre.mmu@.interrupt_flag & 0x1f;
    if pre.halted && pending == 0 {
        post == pre && cycles == 4
    } else {
        let woken = (CPU { halted: false, ..pre });
        if pre.ime && pending != 0 {
            service_ok(woken, post, cycles)
        } else {
            exists|mid: CPU|
                #[trigger] exec_step_ok(woken, mid, cycles) && post == (if woken.ei_delay
                    && mid.ei_delay {
                    CPU { ime: true, ei_delay: false, ..mid }
                } else {
                    mid
                })
        }
    }
}

/// The exact effect of one whole machine cycle: a processor step
/// (`step_ok`), then the bus broadcast of its cost to the devices
/// (`MmuView::tick_v`).
pub open spec fn do_cycle_ok(pre: CPU, post: CPU, cycles: u32) -> bool {
    exists|mid: CPU|
        #[trigger] step_ok(pre, mid, cycles) && post == (CPU { mmu: post.mmu, ..mid })
            && post.mmu@ == mid.mmu@.tick_v(cycles)
}

/// INC on the 8-bit register the opcode names: the register takes the
/// wrapped successor and the flag table of INC is applied.
pub open spec fn inc_r_ok(pre: CPU, post: CPU, cycles: u32, op: u8) -> bool {
    let dst = ((op - 4) / 8) as u8;
    let v = spec_r8(pre, dst);
    let r = ((v + 1) % 256) as u8;
    cycles == 4 && post == spec_w8(
        (CPU { f: flags_byte(r == 0, false, (v & 0xf) + 1 > 0xf, flag_c(pre.f)), ..pre }),
        dst,
        r,
    )
}

/// DEC on the 8-bit register the opcode names.
pub open spec fn dec_r_ok(pre: CPU, post: CPU, cycles: u32, op: u8) -> bool {
    let dst = ((op - 5) / 8) as u8;
    let v = spec_r8(pre, dst);
    let r = ((v + 255) % 256) as u8;
    cycles == 4 && post == spec_w8(
        (CPU { f: flags_byte(r == 0, true, v & 0xf == 0, flag_c(pre.f)), ..pre }),
        dst,
        r,
    )
}

/// LD of the immediate byte into the register the opcode names.
pub open spec fn ld_r_d8_ok(pre: CPU, post: CPU, cycles: u32, op: u8) -> bool {
    cycles == 8 && post == spec_w8(
        (CPU { pc: wrap_add16(pre.pc, 1), ..pre }),
        ((op - 6) / 8) as u8,
        pre.mmu@.read_byte_v(pre.pc),
    )
}

/// ADD HL,rr with operand value `v`: HL takes the wrapped sum, Z is
/// untouched, H and C come from the 12- and 16-bit carries.
pub open spec fn add_hl_ok(pre: CPU, post: CPU, cycles: u32, v: u16) -> bool {
    let hl = spec_read_hl(pre);
    cycles == 8 && post == spec_write_hl(
        (CPU {
            f: flags_byte(flag_z(pre.f), false, (hl & 0xfff) + (v & 0xfff) > 0xfff, hl + v
                > 0xffff),
            ..pre
        }),
        wrap_add16(hl, v),
    )
}

/// A taken relative jump: PC steps past the offset byte and then moves
/// by it, sign-extended.
pub open spec fn jr_taken_ok(pre: CPU, post: CPU, cycles: u32) -> bool {
    cycles == 12 && post == (CPU {
        pc: wrap_add16(wrap_add16(pre.pc, 1), sign_ext16(pre.mmu@.read_byte_v(pre.pc))),
        ..pre
    })
}

/// A relative jump not taken: PC steps past the offset byte, 8 clocks.
pub open spec fn jr_skip_ok(pre: CPU, post: CPU, cycles: u32) -> bool {
    cycles == 8 && post == (CPU { pc: wrap_add16(pre.pc, 1), ..pre })
}

/// The exact effects of opcodes 0x00-0x0f, `pre` being the state with
/// the opcode already fetched.
pub open spec fn misc0_step_ok(pre: CPU, post: CPU, cycles: u32, op: u8) -> bool {
    let imm8 = pre.mmu@.read_byte_v(pre.pc);
    let imm16 = (pre.mmu@.read_byte_v(pre.pc) + 256 * pre.mmu@.read_byte_v(
        wrap_add16(pre.pc, 1),
    )) as u16;
    let stepped2 = (CPU { pc: wrap_add16(pre.pc, 2), ..pre });
    &&& (op == 0x00 ==> cycles == 4 && post == pre)  // NOP
    &&& (op == 0x01 ==> cycles == 12 && post == spec_write_bc(stepped2, imm16))
    &&& (op == 0x02 ==> cycles == 8 && post == (CPU { mmu: post.mmu, ..pre }) && post.mmu@
        == pre.mmu@.write_byte_v(spec_read_bc(pre), pre.a))
    &&& (op == 0x03 ==> cycles == 8 && post == spec_write_bc(
        pre,
        wrap_add16(spec_read_bc(pre), 1),
    ))
    &&& ((op == 0x04 || op == 0x0c) ==> inc_r_ok(pre, post, cycles, op))
    &&& ((op == 0x05 || op == 0x0d) ==> dec_r_ok(pre, post, cycles, op))
    &&& ((op == 0x06 || op == 0x0e) ==> ld_r_d8_ok(pre, post, cycles, op))
    &&& (op == 0x07 ==> cycles == 4 && post == (CPU {
        a: (pre.a << 1) | (pre.a >> 7),
        f: flags_byte(false, false, false, pre.a >= 0x80),
        ..pre
    }))
    &&& (op == 0x08 ==> cycles == 20 && post == (CPU { mmu: post.mmu, ..stepped2 }) && post.mmu@
        == pre.mmu@.write_byte_v(imm16, (pre.sp % 256) as u8).write_byte_v(
        wrap_add16(imm16, 1),
        (pre.sp / 256) as u8,
    ))
    &&& (op == 0x09 ==> add_hl_ok(pre, post, cycles, spec_read_bc(pre)))
    &&& (op == 0x0a ==> cycles == 8 && post == (CPU {
        a: pre.mmu@.read_byte_v(spec_read_bc(pre)),
        ..pre
    }))
    &&& (op == 0x0b ==> cycles == 8 && post == spec_write_bc(
        pre,
        wrap_sub16(spec_read_bc(pre), 1),
    ))
    &&& (op == 0x0f ==> cycles == 4 && post == (CPU {
        a: (pre.a >> 1) | (pre.a << 7),
        f: flags_byte(false, false, false, pre.a & 1 == 1),
        ..pre
    }))
}

/// The exact effects of opcodes 0x10-0x1f.
pub open spec fn misc1_step_ok(pre: CPU, post: CPU, cycles: u32, op: u8) -> bool {
    let imm16 = (pre.mmu@.read_byte_v(pre.pc) + 256 * pre.mmu@.read_byte_v(
        wrap_add16(pre.pc, 1),
    )) as u16;
    let stepped2 = (CPU { pc: wrap_add16(pre.pc, 2), ..pre });
    &&& (op == 0x10 ==> cycles == 4 && post == pre)  // STOP, treated as NOP
    &&& (op == 0x11 ==> cycles == 12 && post == spec_write_de(stepped2, imm16))
    &&& (op == 0x12 ==> cycles == 8 && post == (CPU { mmu: post.mmu, ..pre }) && post.mmu@
        == pre.mmu@.write_byte_v(spec_read_de(pre), pre.a))
    &&& (op == 0x13 ==> cycles == 8 && post == spec_write_de(
        pre,
        wrap_add16(spec_read_de(pre), 1),
    ))
    &&& ((op == 0x14 || op == 0x1c) ==> inc_r_ok(pre, post, cycles, op))
    &&& ((op == 0x15 || op == 0x1d) ==> dec_r_ok(pre, post, cycles, op))
    &&& ((op == 0x16 || op == 0x1e) ==> ld_r_d8_ok(pre, post, cycles, op))
    &&& (op == 0x17 ==> cycles == 4 && post == (CPU {
        a: (pre.a << 1) | (if flag_c(pre.f) {
            1u8
        } else {
            0u8
        }),
        f: flags_byte(false, false, false, pre.a >= 0x80),
        ..pre
    }))
    &&& (op == 0x18 ==> jr_taken_ok(pre, post, cycles))
    &&& (op == 0x19 ==> add_hl_ok(pre, post, cycles, spec_read_de(pre)))
    &&& (op == 0x1a ==> cycles == 8 && post == (CPU {
        a: pre.mmu@.read_byte_v(spec_read_de(pre)),
        ..pre
    }))
    &&& (op == 0x1b ==> cycles == 8 && post == spec_write_de(
        pre,
        wrap_sub16(spec_read_de(pre), 1),
    ))
    &&& (op == 0x1f ==> cycles == 4 && post == (CPU {
        a: (pre.a >> 1) | (if flag_c(pre.f) {
            0x80u8
        } else {
            0u8
        }),
        f: flags_byte(false, false, false, pre.a & 1 == 1),
        ..pre
    }))
}

/// The exact effects of opcodes 0x20-0x2f.
pub open spec fn misc2_step_ok(pre: CPU, post: CPU, cycles: u32, op: u8) -> bool {
    let imm16 = (pre.mmu@.read_byte_v(pre.pc) + 256 * pre.mmu@.read_byte_v(
        wrap_add16(pre.pc, 1),
    )) as u16;
    let stepped2 = (CPU { pc: wrap_add16(pre.pc, 2), ..pre });
    &&& ((op == 0x20 && !flag_z(pre.f)) ==> jr_taken_ok(pre, post, cycles))
    &&& ((op == 0x20 && flag_z(pre.f)) ==> jr_skip_ok(pre, post, cycles))
    &&& (op == 0x21 ==> cycles == 12 && post == spec_write_hl(stepped2, imm16))
    &&& (op == 0x22 ==> cycles == 8 && post == (CPU {
        mmu: post.mmu,
        ..spec_write_hl(pre, wrap_add16(spec_read_hl(pre), 1))
    }) && post.mmu@ == pre.mmu@.write_byte_v(spec_read_hl(pre), pre.a))
    &&& (op == 0x23 ==> cycles == 8 && post == spec_write_hl(
        pre,
        wrap_add16(spec_read_hl(pre), 1),
    ))
    &&& ((op == 0x24 || op == 0x2c) ==> inc_r_ok(pre, post, cycles, op))
    &&& ((op == 0x25 || op == 0x2d) ==> dec_r_ok(pre, post, cycles, op))
    &&& ((op == 0x26 || op == 0x2e) ==> ld_r_d8_ok(pre, post, cycles, op))
    &&& (op == 0x27 ==> {
        let (a2, c2) = spec_daa(pre.a, flag_n(pre.f), flag_h(pre.f), flag_c(pre.f));
        cycles == 4 && post == (CPU {
            a: a2,
            f: flags_byte(a2 == 0, flag_n(pre.f), false, c2),
            ..pre
        })
    })
    &&& ((op == 0x28 && flag_z(pre.f)) ==> jr_taken_ok(pre, post, cycles))
    &&& ((op == 0x28 && !flag_z(pre.f)) ==> jr_skip_ok(pre, post, cycles))
    &&& (op == 0x29 ==> add_hl_ok(pre, post, cycles, spec_read_hl(pre)))
    &&& (op == 0x2a ==> cycles == 8 && post == (CPU {
        a: pre.mmu@.read_byte_v(spec_read_hl(pre)),
        ..spec_write_hl(pre, wrap_add16(spec_read_hl(pre), 1))
    }))
    &&& (op == 0x2b ==> cycles == 8 && post == spec_write_hl(
        pre,
        wrap_sub16(spec_read_hl(pre), 1),
    ))
    &&& (op == 0x2f ==> cycles == 4 && post == (CPU {
        a: !pre.a,
        f: flags_byte(flag_z(pre.f), true, true, flag_c(pre.f)),
        ..pre
    }))
}

/// The exact effects of opcodes 0x30-0x3f.
pub open spec fn misc3_step_ok(pre: CPU, post: CPU, cycles: u32, op: u8) -> bool {
    let imm8 = pre.mmu@.read_byte_v(pre.pc);
    let imm16 = (pre.mmu@.read_byte_v(pre.pc) + 256 * pre.mmu@.read_byte_v(
        wrap_add16(pre.pc, 1),
    )) as u16;
    let stepped1 = (CPU { pc: wrap_add16(pre.pc, 1), ..pre });
    let stepped2 = (CPU { pc: wrap_add16(pre.pc, 2), ..pre });
    &&& ((op == 0x30 && !flag_c(pre.f)) ==> jr_taken_ok(pre, post, cycles))
    &&& ((op == 0x30 && flag_c(pre.f)) ==> jr_skip_ok(pre, post, cycles))
    &&& (op == 0x31 ==> cycles == 12 && post == (CPU { sp: imm16, ..stepped2 }))
    &&& (op == 0x32 ==> cycles == 8 && post == (CPU {
        mmu: post.mmu,
        ..spec_write_hl(pre, wrap_sub16(spec_read_hl(pre), 1))
    }) && post.mmu@ == pre.mmu@.write_byte_v(spec_read_hl(pre), pre.a))
    &&& (op == 0x33 ==> cycles == 8 && post == (CPU { sp: wrap_add16(pre.sp, 1), ..pre }))
    &&& (op == 0x34 ==> {
        let v = pre.mmu@.read_byte_v(spec_read_hl(pre));
        let r = ((v + 1) % 256) as u8;
        cycles == 12 && post == (CPU {
            f: flags_byte(r == 0, false, (v & 0xf) + 1 > 0xf, flag_c(pre.f)),
            mmu: post.mmu,
            ..pre
        }) && post.mmu@ == pre.mmu@.write_byte_v(spec_read_hl(pre), r)
    })
    &&& (op == 0x35 ==> {
        let v = pre.mmu@.read_byte_v(spec_read_hl(pre));
        let r = ((v + 255) % 256) as u8;
        cycles == 12 && post == (CPU {
            f: flags_byte(r == 0, true, v & 0xf == 0, flag_c(pre.f)),
            mmu: post.mmu,
            ..pre
        }) && post.mmu@ == pre.mmu@.write_byte_v(spec_read_hl(pre), r)
    })
    &&& (op == 0x36 ==> cycles == 12 && post == (CPU { mmu: post.mmu, ..stepped1 }) && post.mmu@
        == pre.mmu@.write_byte_v(spec_read_hl(pre), imm8))
    &&& (op == 0x37 ==> cycles == 4 && post == (CPU {
        f: flags_byte(flag_z(pre.f), false, false, true),
        ..pre
    }))
    &&& ((op == 0x38 && flag_c(pre.f)) ==> jr_taken_ok(pre, post, cycles))
    &&& ((op == 0x38 && !flag_c(pre.f)) ==> jr_skip_ok(pre, post, cycles))
    &&& (op == 0x39 ==> add_hl_ok(pre, post, cycles, pre.sp))
    &&& (op == 0x3a ==> cycles == 8 && post == (CPU {
        a: pre.mmu@.read_byte_v(spec_read_hl(pre)),
        ..spec_write_hl(pre, wrap_sub16(spec_read_hl(pre), 1))
    }))
    &&& (op == 0x3b ==> cycles == 8 && post == (CPU { sp: wrap_sub16(pre.sp, 1), ..pre }))
    &&& (op == 0x3c ==> inc_r_ok(pre, post, cycles, op))
    &&& (op == 0x3d ==> dec_r_ok(pre, post, cycles, op))
    &&& (op == 0x3e ==> ld_r_d8_ok(pre, post, cycles, op))
    &&& (op == 0x3f ==> cycles == 4 && post == (CPU {
        f: flags_byte(flag_z(pre.f), false, false, !flag_c(pre.f)),
        ..pre
    }))
}

/// The immediate byte at PC.
pub open spec fn imm8_of(pre: CPU) -> u8 {
    pre.mmu@.read_byte_v(pre.pc)
}

/// The little-endian immediate word at PC.
pub open spec fn imm16_of(pre: CPU) -> u16 {
    (pre.mmu@.read_byte_v(pre.pc) + 256 * pre.mmu@.read_byte_v(wrap_add16(pre.pc, 1))) as u16
}

/// The word on top of the stack.
pub open spec fn popped_word(pre: CPU) -> u16 {
    (pre.mmu@.read_byte_v(pre.sp) + 256 * pre.mmu@.read_byte_v(wrap_add16(pre.sp, 1))) as u16
}

/// The bus after `val` is pushed: SP has moved down two and the word
/// sits at the new SP, low byte first.
pub open spec fn pushed_mmu(pre: CPU, val: u16) -> MmuView {
    pre.mmu@.write_byte_v(wrap_sub16(pre.sp, 2), (val % 256) as u8).write_byte_v(
        wrap_sub16(pre.sp, 1),
        (val / 256) as u8,
    )
}

/// A taken return: PC comes off the stack.
pub open spec fn ret_taken_ok(pre: CPU, post: CPU, cycles: u32, cost: u32) -> bool {
    cycles == cost && post == (CPU { pc: popped_word(pre), sp: wrap_add16(pre.sp, 2), ..pre })
}

/// A taken absolute jump to the immediate target.
pub open spec fn jp_taken_ok(pre: CPU, post: CPU, cycles: u32) -> bool {
    cycles == 16 && post == (CPU { pc: imm16_of(pre), ..pre })
}

/// A conditional jump or call not taken: PC steps past the word, 12
/// clocks.
pub open spec fn skip_word_ok(pre: CPU, post: CPU, cycles: u32) -> bool {
    cycles == 12 && post == (CPU { pc: wrap_add16(pre.pc, 2), ..pre })
}

/// A taken call: the address past the operand is pushed and PC takes
/// the immediate target.
pub open spec fn call_taken_ok(pre: CPU, post: CPU, cycles: u32) -> bool {
    cycles == 24 && post == (CPU {
        pc: imm16_of(pre),
        sp: wrap_sub16(pre.sp, 2),
        mmu: post.mmu,
        ..pre
    }) && post.mmu@ == pushed_mmu(pre, wrap_add16(pre.pc, 2))
}

/// PUSH of a 16-bit value.
pub open spec fn push_ok(pre: CPU, post: CPU, cycles: u32, v: u16) -> bool {
    cycles == 16 && post == (CPU { sp: wrap_sub16(pre.sp, 2), mmu: post.mmu, ..pre })
        && post.mmu@ == pushed_mmu(pre, v)
}

/// RST: PC is pushed and control moves to the fixed vector.
pub open spec fn rst_ok(pre: CPU, post: CPU, cycles: u32, vector: u16) -> bool {
    cycles == 16 && post == (CPU {
        pc: vector,
        sp: wrap_sub16(pre.sp, 2),
        mmu: post.mmu,
        ..pre
    }) && post.mmu@ == pushed_mmu(pre, pre.pc)
}

/// ADD or ADC of the immediate byte, per the flag table.
pub open spec fn add_imm_ok(pre: CPU, post: CPU, cycles: u32, with_carry: bool) -> bool {
    let v = imm8_of(pre);
    let cin: u8 = if with_carry && flag_c(pre.f) {
        1u8
    } else {
        0u8
    };
    let sum = ((pre.a + v + cin) % 256) as u8;
    cycles == 8 && post == (CPU {
        a: sum,
        f: flags_byte(
            sum == 0,
            false,
            (pre.a & 0xf) + (v & 0xf) + cin > 0xf,
            pre.a + v + cin > 0xff,
        ),
        pc: wrap_add16(pre.pc, 1),
        ..pre
    })
}

/// SUB or SBC of the immediate byte, per the flag table.
pub open spec fn sub_imm_ok(pre: CPU, post: CPU, cycles: u32, with_carry: bool) -> bool {
    let v = imm8_of(pre);
    let cin: u8 = if with_carry && flag_c(pre.f) {
        1u8
    } else {
        0u8
    };
    let diff = ((pre.a + 256 - v - cin) % 256) as u8;
    cycles == 8 && post == (CPU {
        a: diff,
        f: flags_byte(diff == 0, true, (pre.a & 0xf) < (v & 0xf) + cin, (pre.a as int) < v + cin),
        pc: wrap_add16(pre.pc, 1),
        ..pre
    })
}

/// The shared effect of ADD SP,r8 and LD HL,SP+r8: the wrapped signed
/// sum and the flags of the unsigned low-nibble and low-byte sums.
pub open spec fn sp_plus_imm(pre: CPU) -> u16 {
    wrap_add16(pre.sp, sign_ext16(imm8_of(pre)))
}

pub open spec fn sp_plus_imm_flags(pre: CPU) -> u8 {
    flags_byte(
        false,
        false,
        (pre.sp & 0xf) + (imm8_of(pre) & 0xf) > 0xf,
        (pre.sp & 0xff) + imm8_of(pre) > 0xff,
    )
}

/// The exact effects of opcodes 0xc0-0xcf.
pub open spec fn ctrl0_step_ok(pre: CPU, post: CPU, cycles: u32, op: u8) -> bool {
    &&& ((op == 0xc0 && !flag_z(pre.f)) ==> ret_taken_ok(pre, post, cycles, 20))
    &&& ((op == 0xc0 && flag_z(pre.f)) ==> cycles == 8 && post == pre)
    &&& (op == 0xc1 ==> cycles == 12 && post == spec_write_bc(
        (CPU { sp: wrap_add16(pre.sp, 2), ..pre }),
        popped_word(pre),
    ))
    &&& ((op == 0xc2 && !flag_z(pre.f)) ==> jp_taken_ok(pre, post, cycles))
    &&& ((op == 0xc2 && flag_z(pre.f)) ==> skip_word_ok(pre, post, cycles))
    &&& (op == 0xc3 ==> jp_taken_ok(pre, post, cycles))
    &&& ((op == 0xc4 && !flag_z(pre.f)) ==> call_taken_ok(pre, post, cycles))
    &&& ((op == 0xc4 && flag_z(pre.f)) ==> skip_word_ok(pre, post, cycles))
    &&& (op == 0xc5 ==> push_ok(pre, post, cycles, spec_read_bc(pre)))
    &&& (op == 0xc6 ==> add_imm_ok(pre, post, cycles, false))
    &&& (op == 0xc7 ==> rst_ok(pre, post, cycles, 0x00))
    &&& ((op == 0xc8 && flag_z(pre.f)) ==> ret_taken_ok(pre, post, cycles, 20))
    &&& ((op == 0xc8 && !flag_z(pre.f)) ==> cycles == 8 && post == pre)
    &&& (op == 0xc9 ==> ret_taken_ok(pre, post, cycles, 16))
    &&& (op == 0xcb ==> prefixed_step_ok(
        (CPU { pc: wrap_add16(pre.pc, 1), ..pre }),
        post,
        cycles,
        imm8_of(pre),
    ))
    &&& ((op == 0xca && flag_z(pre.f)) ==> jp_taken_ok(pre, post, cycles))
    &&& ((op == 0xca && !flag_z(pre.f)) ==> skip_word_ok(pre, post, cycles))
    &&& ((op == 0xcc && flag_z(pre.f)) ==> call_taken_ok(pre, post, cycles))
    &&& ((op == 0xcc && !flag_z(pre.f)) ==> skip_word_ok(pre, post, cycles))
    &&& (op == 0xcd ==> call_taken_ok(pre, post, cycles))
    &&& (op == 0xce ==> add_imm_ok(pre, post, cycles, true))
    &&& (op == 0xcf ==> rst_ok(pre, post, cycles, 0x08))
}

/// The exact effects of opcodes 0xd0-0xdf; the undefined slots act as
/// NOP.
pub open spec fn ctrl1_step_ok(pre: CPU, post: CPU, cycles: u32, op: u8) -> bool {
    &&& ((op == 0xd0 && !flag_c(pre.f)) ==> ret_taken_ok(pre, post, cycles, 20))
    &&& ((op == 0xd0 && flag_c(pre.f)) ==> cycles == 8 && post == pre)
    &&& (op == 0xd1 ==> cycles == 12 && post == spec_write_de(
        (CPU { sp: wrap_add16(pre.sp, 2), ..pre }),
        popped_word(pre),
    ))
    &&& ((op == 0xd2 && !flag_c(pre.f)) ==> jp_taken_ok(pre, post, cycles))
    &&& ((op == 0xd2 && flag_c(pre.f)) ==> skip_word_ok(pre, post, cycles))
    &&& ((op == 0xd4 && !flag_c(pre.f)) ==> call_taken_ok(pre, post, cycles))
    &&& ((op == 0xd4 && flag_c(pre.f)) ==> skip_word_ok(pre, post, cycles))
    &&& (op == 0xd5 ==> push_ok(pre, post, cycles, spec_read_de(pre)))
    &&& (op == 0xd6 ==> sub_imm_ok(pre, post, cycles, false))
    &&& (op == 0xd7 ==> rst_ok(pre, post, cycles, 0x10))
    &&& ((op == 0xd8 && flag_c(pre.f)) ==> ret_taken_ok(pre, post, cycles, 20))
    &&& ((op == 0xd8 && !flag_c(pre.f)) ==> cycles == 8 && post == pre)
    &&& (op == 0xd9 ==> cycles == 16 && post == (CPU {
        pc: popped_word(pre),
        sp: wrap_add16(pre.sp, 2),
        ime: true,
        ..pre
    }))
    &&& ((op == 0xda && flag_c(pre.f)) ==> jp_taken_ok(pre, post, cycles))
    &&& ((op == 0xda && !flag_c(pre.f)) ==> skip_word_ok(pre, post, cycles))
    &&& ((op == 0xdc && flag_c(pre.f)) ==> call_taken_ok(pre, post, cycles))
    &&& ((op == 0xdc && !flag_c(pre.f)) ==> skip_word_ok(pre, post, cycles))
    &&& (op == 0xde ==> sub_imm_ok(pre, post, cycles, true))
    &&& (op == 0xdf ==> rst_ok(pre, post, cycles, 0x18))
    &&& ((op == 0xd3 || op == 0xdb || op == 0xdd) ==> cycles == 4 && post == (CPU {
        last_unknown_opcode: Some((op, wrap_sub16(pre.pc, 1))),
        ..pre
    }))
}

/// The exact effects of opcodes 0xe0-0xef; the undefined slots act as
/// NOP.
pub open spec fn ctrl2_step_ok(pre: CPU, post: CPU, cycles: u32, op: u8) -> bool {
    &&& (op == 0xe0 ==> cycles == 12 && post == (CPU {
        pc: wrap_add16(pre.pc, 1),
        mmu: post.mmu,
        ..pre
    }) && post.mmu@ == pre.mmu@.write_byte_v((0xff00 + imm8_of(pre)) as u16, pre.a))
    &&& (op == 0xe1 ==> cycles == 12 && post == spec_write_hl(
        (CPU { sp: wrap_add16(pre.sp, 2), ..pre }),
        popped_word(pre),
    ))
    &&& (op == 0xe2 ==> cycles == 8 && post == (CPU { mmu: post.mmu, ..pre }) && post.mmu@
        == pre.mmu@.write_byte_v((0xff00 + pre.c) as u16, pre.a))
    &&& (op == 0xe5 ==> push_ok(pre, post, cycles, spec_read_hl(pre)))
    &&& (op == 0xe6 ==> {
        let v = imm8_of(pre);
        cycles == 8 && post == (CPU {
            a: pre.a & v,
            f: flags_byte(pre.a & v == 0, false, true, false),
            pc: wrap_add16(pre.pc, 1),
            ..pre
        })
    })
    &&& (op == 0xe7 ==> rst_ok(pre, post, cycles, 0x20))
    &&& (op == 0xe8 ==> cycles == 16 && post == (CPU {
        sp: sp_plus_imm(pre),
        f: sp_plus_imm_flags(pre),
        pc: wrap_add16(pre.pc, 1),
        ..pre
    }))
    &&& (op == 0xe9 ==> cycles == 4 && post == (CPU { pc: spec_read_hl(pre), ..pre }))
    &&& (op == 0xea ==> cycles == 16 && post == (CPU {
        pc: wrap_add16(pre.pc, 2),
        mmu: post.mmu,
        ..pre
    }) && post.mmu@ == pre.mmu@.write_byte_v(imm16_of(pre), pre.a))
    &&& (op == 0xee ==> {
        let v = imm8_of(pre);
        cycles == 8 && post == (CPU {
            a: pre.a ^ v,
            f: flags_byte(pre.a ^ v == 0, false, false, false),
            pc: wrap_add16(pre.pc, 1),
            ..pre
        })
    })
    &&& (op == 0xef ==> rst_ok(pre, post, cycles, 0x28))
    &&& ((op == 0xe3 || op == 0xe4 || op == 0xeb || op == 0xec || op == 0xed) ==> cycles == 4
        && post == (CPU { last_unknown_opcode: Some((op, wrap_sub16(pre.pc, 1))), ..pre }))
}

/// The exact effects of opcodes 0xf0-0xff; the undefined slots act as
/// NOP.
pub open spec fn ctrl3_step_ok(pre: CPU, post: CPU, cycles: u32, op: u8) -> bool {
    &&& (op == 0xf0 ==> cycles == 12 && post == (CPU {
        a: pre.mmu@.read_byte_v((0xff00 + imm8_of(pre)) as u16),
        pc: wrap_add16(pre.pc, 1),
        ..pre
    }))
    &&& (op == 0xf1 ==> cycles == 12 && post == spec_write_af(
        (CPU { sp: wrap_add16(pre.sp, 2), ..pre }),
        popped_word(pre),
    ))
    &&& (op == 0xf2 ==> cycles == 8 && post == (CPU {
        a: pre.mmu@.read_byte_v((0xff00 + pre.c) as u16),
        ..pre
    }))
    &&& (op == 0xf3 ==> cycles == 4 && post == (CPU { ime: false, ei_delay: false, ..pre }))
    &&& (op == 0xf5 ==> push_ok(pre, post, cycles, spec_read_af(pre)))
    &&& (op == 0xf6 ==> {
        let v = imm8_of(pre);
        cycles == 8 && post == (CPU {
            a: pre.a | v,
            f: flags_byte(pre.a | v == 0, false, false, false),
            pc: wrap_add16(pre.pc, 1),
            ..pre
        })
    })
    &&& (op == 0xf7 ==> rst_ok(pre, post, cycles, 0x30))
    &&& (op == 0xf8 ==> cycles == 12 && post == spec_write_hl(
        (CPU { f: sp_plus_imm_flags(pre), pc: wrap_add16(pre.pc, 1), ..pre }),
        sp_plus_imm(pre),
    ))
    &&& (op == 0xf9 ==> cycles == 8 && post == (CPU { sp: spec_read_hl(pre), ..pre }))
    &&& (op == 0xfa ==> cycles == 16 && post == (CPU {
        a: pre.mmu@.read_byte_v(imm16_of(pre)),
        pc: wrap_add16(pre.pc, 2),
        ..pre
    }))
    &&& (op == 0xfb ==> cycles == 4 && post == (CPU { ei_delay: true, ..pre }))
    &&& (op == 0xfe ==> {
        let v = imm8_of(pre);
        let diff = ((pre.a + 256 - v) % 256) as u8;
        cycles == 8 && post == (CPU {
            f: flags_byte(diff == 0, true, (pre.a & 0xf) < (v & 0xf), (pre.a as int) < v),
            pc: wrap_add16(pre.pc, 1),
            ..pre
        })
    })
    &&& (op == 0xff ==> rst_ok(pre, post, cycles, 0x38))
    &&& ((op == 0xf4 || op == 0xfc || op == 0xfd) ==> cycles == 4 && post == (CPU {
        last_unknown_opcode: Some((op, wrap_sub16(pre.pc, 1))),
        ..pre
    }))
}

/// The exact effect of an opcode of the arithmetic block 0x80-0xbf:
/// ADD, ADC, SUB, SBC, AND, XOR, OR or CP of the named operand against
/// A, with the operation's flag table applied.
pub open spec fn alu_step_ok(pre: CPU, post: CPU, cycles: u32, op: u8) -> bool {
    let src = op & 7;
    let v = if src == 6 {
        pre.mmu@.read_byte_v(spec_read_hl(pre))
    } else {
        spec_r8(pre, src)
    };
    let kind = (op >> 3) & 7;
    let cin: u8 = if flag_c(pre.f) {
        1u8
    } else {
        0u8
    };
    let sum = ((pre.a + v) % 256) as u8;
    let sumc = ((pre.a + v + cin) % 256) as u8;
    let diff = ((pre.a + 256 - v) % 256) as u8;
    let diffc = ((pre.a + 256 - v - cin) % 256) as u8;
    &&& cycles == (if src == 6 {
        8u32
    } else {
        4u32
    })
    &&& (kind == 0 ==> post == (CPU {
        a: sum,
        f: flags_byte(sum == 0, false, (pre.a & 0xf) + (v & 0xf) > 0xf, pre.a + v > 0xff),
        ..pre
    }))
    &&& (kind == 1 ==> post == (CPU {
        a: sumc,
        f: flags_byte(
            sumc == 0,
            false,
            (pre.a & 0xf) + (v & 0xf) + cin > 0xf,
            pre.a + v + cin > 0xff,
        ),
        ..pre
    }))
    &&& (kind == 2 ==> post == (CPU {
        a: diff,
        f: flags_byte(diff == 0, true, (pre.a & 0xf) < (v & 0xf), (pre.a as int) < v),
        ..pre
    }))
    &&& (kind == 3 ==> post == (CPU {
        a: diffc,
        f: flags_byte(diffc == 0, true, (pre.a & 0xf) < (v & 0xf) + cin, (pre.a as int) < v + cin),
        ..pre
    }))
    &&& (kind == 4 ==> post == (CPU {
        a: pre.a & v,
        f: flags_byte(pre.a & v == 0, false, true, false),
        ..pre
    }))
    &&& (kind == 5 ==> post == (CPU {
        a: pre.a ^ v,
        f: flags_byte(pre.a ^ v == 0, false, false, false),
        ..pre
    }))
    &&& (kind == 6 ==> post == (CPU {
        a: pre.a | v,
        f: flags_byte(pre.a | v == 0, false, false, false),
        ..pre
    }))
    &&& (kind == 7 ==> post == (CPU {
        f: flags_byte(diff == 0, true, (pre.a & 0xf) < (v & 0xf), (pre.a as int) < v),
        ..pre
    }))
}

/// The result and carry-out of a prefixed rotate, shift or SWAP on `v`:
/// `kind` is the operation index from the encoding (RLC, RRC, RL, RR,
/// SLA, SRA, SWAP, SRL) and `cin` the carry flag going in.
pub open spec fn cb_rot(v: u8, kind: u8, cin: bool) -> (u8, bool) {
    if kind == 0 {
        ((v << 1) | (v >> 7), v >= 0x80)
    } else if kind == 1 {
        ((v >> 1) | (v << 7), v & 1 == 1)
    } else if kind == 2 {
        ((v << 1) | (if cin {
            1u8
        } else {
            0u8
        }), v >= 0x80)
    } else if kind == 3 {
        ((v >> 1) | (if cin {
            0x80u8
        } else {
            0u8
        }), v & 1 == 1)
    } else if kind == 4 {
        (v << 1, v >= 0x80)
    } else if kind == 5 {
        ((v >> 1) | (v & 0x80), v & 1 == 1)
    } else if kind == 6 {
        ((v >> 4) | (v << 4), false)
    } else {
        (v >> 1, v & 1 == 1)
    }
}

/// The exact effect of a prefixed opcode, `pre` being the state with
/// both the prefix and the opcode already fetched: rotates, shifts and
/// SWAP write their result and the table's flags; BIT reports the
/// complement of the tested bit; RES and SET clear or set it; the
/// memory operand costs the higher tabulated count.
pub open spec fn prefixed_step_ok(pre: CPU, post: CPU, cycles: u32, op: u8) -> bool {
    let src = op & 7;
    let bit = (op >> 3) & 7;
    let v = if src == 6 {
        pre.mmu@.read_byte_v(spec_read_hl(pre))
    } else {
        spec_r8(pre, src)
    };
    if op < 0x40 {
        let (r, carry) = cb_rot(v, bit, flag_c(pre.f));
        let flagged = (CPU { f: flags_byte(r == 0, false, false, carry), ..pre });
        &&& (src == 6 ==> cycles == 16 && post == (CPU { mmu: post.mmu, ..flagged }) && post.mmu@
            == pre.mmu@.write_byte_v(spec_read_hl(pre), r))
        &&& (src != 6 ==> cycles == 8 && post == spec_w8(flagged, src, r))
    } else if op < 0x80 {
        &&& cycles == (if src == 6 {
            12u32
        } else {
            8u32
        })
        &&& post == (CPU {
            f: flags_byte(!crate::bits::spec_bit_set(v, bit), false, true, flag_c(pre.f)),
            ..pre
        })
    } else {
        let r = if op < 0xc0 {
            v & !(1u8 << bit)
        } else {
            v | (1u8 << bit)
        };
        &&& (src == 6 ==> cycles == 16 && post == (CPU { mmu: post.mmu, ..pre }) && post.mmu@
            == pre.mmu@.write_byte_v(spec_read_hl(pre), r))
        &&& (src != 6 ==> cycles == 8 && post == spec_w8(pre, src, r))
    }
}

/// The exact effect of an opcode of the control block 0xc0-0xff, the
/// prefixed table aside: `pre` is the state with the opcode already
/// fetched, `post` the state after the instruction.
pub open spec fn ctrl_step_ok(pre: CPU, post: CPU, cycles: u32, op: u8) -> bool {
    if op < 0xd0 {
        ctrl0_step_ok(pre, post, cycles, op)
    } else if op < 0xe0 {
        ctrl1_step_ok(pre, post, cycles, op)
    } else if op < 0xf0 {
        ctrl2_step_ok(pre, post, cycles, op)
    } else {
        ctrl3_step_ok(pre, post, cycles, op)
    }
}

/// The exact effect of an opcode of the mixed block 0x00-0x3f: `pre` is
/// the state with the opcode already fetched, `post` the state after
/// the instruction. Each clause follows the reference tables: operand
/// fetches step PC, 16-bit arithmetic wraps, and the flag table of the
/// operation is applied.
pub open spec fn misc_step_ok(pre: CPU, post: CPU, cycles: u32, op: u8) -> bool {
    if op < 0x10 {
        misc0_step_ok(pre, post, cycles, op)
    } else if op < 0x20 {
        misc1_step_ok(pre, post, cycles, op)
    } else if op < 0x30 {
        misc2_step_ok(pre, post, cycles, op)
    } else {
        misc3_step_ok(pre, post, cycles, op)
    }
}

impl CPU {
    /// The mixed block 0x00-0x3f: 16-bit loads and arithmetic, 8-bit
    /// immediate loads, INC/DEC, the accumulator rotates, relative
    /// jumps, DAA, CPL, SCF and CCF; exactly as `misc_step_ok` lays out.
    fn op_misc(&mut self, opcode: u8) -> (cycles: u32)
        requires
            old(self).wf(),
            opcode < 0x40,
        ensures
            final(self).wf(),
            4 <= cycles <= 20,
            cycles % 4 == 0,
            misc_step_ok(*old(self), *final(self), cycles, opcode),
    {
        if opcode < 0x10 {
            self.op_misc_0x(opcode)
        } else if opcode < 0x20 {
            self.op_misc_1x(opcode)
        } else if opcode < 0x30 {
            self.op_misc_2x(opcode)
        } else {
            self.op_misc_3x(opcode)
        }
    }

    /// Opcodes 0x00-0x0f of the mixed block.
    fn op_misc_0x(&mut self, opcode: u8) -> (cycles: u32)
        requires
            old(self).wf(),
            0x00 <= opcode < 0x10,
        ensures
            final(self).wf(),
            4 <= cycles <= 20,
            cycles % 4 == 0,
            misc_step_ok(*old(self), *final(self), cycles, opcode),
    {
        if opcode < 0x08 {
            self.op_misc_0a(opcode)
        } else {
            self.op_misc_0b(opcode)
        }
    }

    /// Opcodes 0x00-0x07 of the mixed block.
    #[verifier::rlimit(100)]
    fn op_misc_0a(&mut self, opcode: u8) -> (cycles: u32)
        requires
            old(self).wf(),
            0x00 <= opcode < 0x08,
        ensures
            final(self).wf(),
            4 <= cycles <= 20,
            cycles % 4 == 0,
            misc_step_ok(*old(self), *final(self), cycles, opcode),
    {
        match opcode {
            0x00 => 4,  // NOP
            0x01 => {
                let d16 = self.fetch_word();
                self.write_bc(d16);
                12
            },
            0x02 => {
                let addr = self.read_bc();
                let v = self.a;
                self.mmu.write_byte(addr, v);
                8
            },
            0x03 => {
                let v = self.read_bc();
                self.write_bc(
                    if v == 0xffff {
                        0
                    } else {
                        v + 1
                    },
                );
                8
            },
            0x04 => {
                let v = self.b;
                self.b = self.alu_inc(v);
                4
            },
            0x05 => {
                let v = self.b;
                self.b = self.alu_dec(v);
                4
            },
            0x06 => {
                self.b = self.fetch_byte();
                8
            },
            0x07 => {
                // RLCA: like RLC A with Z forced clear
                let a = self.a;
                self.a = (a << 1) | (a >> 7);
                self.set_flags(false, false, false, a >= 0x80);
                4
            },
            _ => 4,
        }
    }

    /// Opcodes 0x08-0x0f of the mixed block.
    #[verifier::rlimit(100)]
    fn op_misc_0b(&mut self, opcode: u8) -> (cycles: u32)
        requires
            old(self).wf(),
            0x08 <= opcode < 0x10,
        ensures
            final(self).wf(),
            4 <= cycles <= 20,
            cycles % 4 == 0,
            misc_step_ok(*old(self), *final(self), cycles, opcode),
    {
        match opcode {
            0x08 => {
                // LD (a16),SP
                let a16 = self.fetch_word();
                let sp = self.sp;
                self.mmu.write_byte(a16, (sp % 256) as u8);
                let hi_addr = if a16 == 0xffff {
                    0
                } else {
                    a16 + 1
                };
                self.mmu.write_byte(hi_addr, (sp / 256) as u8);
                20
            },
            0x09 => {
                let v = self.read_bc();
                self.alu_add16(v);
                8
            },
            0x0a => {
                let addr = self.read_bc();
                self.a = self.mmu.read_byte(addr);
                8
            },
            0x0b => {
                let v = self.read_bc();
                self.write_bc(
                    if v == 0 {
                        0xffff
                    } else {
                        v - 1
                    },
                );
                8
            },
            0x0c => {
                let v = self.c;
                self.c = self.alu_inc(v);
                4
            },
            0x0d => {
                let v = self.c;
                self.c = self.alu_dec(v);
                4
            },
            0x0e => {
                self.c = self.fetch_byte();
                8
            },
            _ => {
                // RRCA
                let a = self.a;
                self.a = (a >> 1) | (a << 7);
                self.set_flags(false, false, false, a & 1 == 1);
                4
            },
        }
    }

    /// Opcodes 0x10-0x1f of the mixed block.
    #[verifier::rlimit(100)]
    fn op_misc_1x(&mut self, opcode: u8) -> (cycles: u32)
        requires
            old(self).wf(),
            0x10 <= opcode < 0x20,
        ensures
            final(self).wf(),
            4 <= cycles <= 20,
            cycles % 4 == 0,
            misc_step_ok(*old(self), *final(self), cycles, opcode),
    {
        match opcode {
            0x10 => 4,  // STOP, treated as NOP
            0x11 => {
                let d16 = self.fetch_word();
                self.write_de(d16);
                12
            },
            0x12 => {
                let addr = self.read_de();
                let v = self.a;
                self.mmu.write_byte(addr, v);
                8
            },
            0x13 => {
                let v = self.read_de();
                self.write_de(
                    if v == 0xffff {
                        0
                    } else {
                        v + 1
                    },
                );
                8
            },
            0x14 => {
                let v = self.d;
                self.d = self.alu_inc(v);
                4
            },
            0x15 => {
                let v = self.d;
                self.d = self.alu_dec(v);
                4
            },
            0x16 => {
                self.d = self.fetch_byte();
                8
            },
            0x17 => {
                // RLA
                let a = self.a;
                let cin: u8 = if self.read_flag(Flag::C) {
                    1
                } else {
                    0
                };
                self.a = (a << 1) | cin;
                self.set_flags(false, false, false, a >= 0x80);
                4
            },
            0x18 => {
                self.jr();
                12
            },
            0x19 => {
                let v = self.read_de();
                self.alu_add16(v);
                8
            },
            0x1a => {
                let addr = self.read_de();
                self.a = self.mmu.read_byte(addr);
                8
            },
            0x1b => {
                let v = self.read_de();
                self.write_de(
                    if v == 0 {
                        0xffff
                    } else {
                        v - 1
                    },
                );
                8
            },
            0x1c => {
                let v = self.e;
                self.e = self.alu_inc(v);
                4
            },
            0x1d => {
                let v = self.e;
                self.e = self.alu_dec(v);
                4
            },
            0x1e => {
                self.e = self.fetch_byte();
                8
            },
            0x1f => {
                // RRA
                let a = self.a;
                let cin: u8 = if self.read_flag(Flag::C) {
                    0x80
                } else {
                    0
                };
                self.a = (a >> 1) | cin;
                self.set_flags(false, false, false, a & 1 == 1);
                4
            },
            _ => 4,
        }
    }

    /// Opcodes 0x20-0x2f of the mixed block.
    #[verifier::rlimit(100)]
    fn op_misc_2x(&mut self, opcode: u8) -> (cycles: u32)
        requires
            old(self).wf(),
            0x20 <= opcode < 0x30,
        ensures
            final(self).wf(),
            4 <= cycles <= 20,
            cycles % 4 == 0,
            misc_step_ok(*old(self), *final(self), cycles, opcode),
    {
        match opcode {
            0x20 => {
                if !self.read_flag(Flag::Z) {
                    self.jr();
                    12
                } else {
                    let _ = self.fetch_byte();
                    8
                }
            },
            0x21 => {
                let d16 = self.fetch_word();
                self.write_hl(d16);
                12
            },
            0x22 => {
                let addr = self.hli();
                let v = self.a;
                self.mmu.write_byte(addr, v);
                8
            },
            0x23 => {
                let v = self.read_hl();
                self.write_hl(
                    if v == 0xffff {
                        0
                    } else {
                        v + 1
                    },
                );
                8
            },
            0x24 => {
                let v = self.h;
                self.h = self.alu_inc(v);
                4
            },
            0x25 => {
                let v = self.h;
                self.h = self.alu_dec(v);
                4
            },
            0x26 => {
                self.h = self.fetch_byte();
                8
            },
            0x27 => {
                self.alu_daa();
                4
            },
            0x28 => {
                if self.read_flag(Flag::Z) {
                    self.jr();
                    12
                } else {
                    let _ = self.fetch_byte();
                    8
                }
            },
            0x29 => {
                let v = self.read_hl();
                self.alu_add16(v);
                8
            },
            0x2a => {
                let addr = self.hli();
                self.a = self.mmu.read_byte(addr);
                8
            },
            0x2b => {
                let v = self.read_hl();
                self.write_hl(
                    if v == 0 {
                        0xffff
                    } else {
                        v - 1
                    },
                );
                8
            },
            0x2c => {
                let v = self.l;
                self.l = self.alu_inc(v);
                4
            },
            0x2d => {
                let v = self.l;
                self.l = self.alu_dec(v);
                4
            },
            0x2e => {
                self.l = self.fetch_byte();
                8
            },
            0x2f => {
                // CPL: complement A, set N and H, keep Z and C
                let z = self.read_flag(Flag::Z);
                let c = self.read_flag(Flag::C);
                self.a = !self.a;
                self.set_flags(z, true, true, c);
                4
            },
            _ => 4,
        }
    }

    /// Opcodes 0x30-0x3f of the mixed block.
    fn op_misc_3x(&mut self, opcode: u8) -> (cycles: u32)
        requires
            old(self).wf(),
            0x30 <= opcode < 0x40,
        ensures
            final(self).wf(),
            4 <= cycles <= 20,
            cycles % 4 == 0,
            misc_step_ok(*old(self), *final(self), cycles, opcode),
    {
        if opcode < 0x38 {
            self.op_misc_3a(opcode)
        } else {
            self.op_misc_3b(opcode)
        }
    }

    /// Opcodes 0x30-0x37 of the mixed block.
    #[verifier::rlimit(100)]
    fn op_misc_3a(&mut self, opcode: u8) -> (cycles: u32)
        requires
            old(self).wf(),
            0x30 <= opcode < 0x38,
        ensures
            final(self).wf(),
            4 <= cycles <= 20,
            cycles % 4 == 0,
            misc_step_ok(*old(self), *final(self), cycles, opcode),
    {
        match opcode {
            0x30 => {
                if !self.read_flag(Flag::C) {
                    self.jr();
                    12
                } else {
                    let _ = self.fetch_byte();
                    8
                }
            },
            0x31 => {
                self.sp = self.fetch_word();
                12
            },
            0x32 => {
                let addr = self.hld();
                let v = self.a;
                self.mmu.write_byte(addr, v);
                8
            },
            0x33 => {
                self.sp = if self.sp == 0xffff {
                    0
                } else {
                    self.sp + 1
                };
                8
            },
            0x34 => {
                let addr = self.read_hl();
                let v = self.mmu.read_byte(addr);
                let incremented = self.alu_inc(v);
                self.mmu.write_byte(addr, incremented);
                12
            },
            0x35 => {
                let addr = self.read_hl();
                let v = self.mmu.read_byte(addr);
                let decremented = self.alu_dec(v);
                self.mmu.write_byte(addr, decremented);
                12
            },
            0x36 => {
                let d8 = self.fetch_byte();
                let addr = self.read_hl();
                self.mmu.write_byte(addr, d8);
                12
            },
            0x37 => {
                // SCF
                let z = self.read_flag(Flag::Z);
                self.set_flags(z, false, false, true);
                4
            },
            _ => 4,
        }
    }

    /// Opcodes 0x38-0x3f of the mixed block.
    #[verifier::rlimit(100)]
    fn op_misc_3b(&mut self, opcode: u8) -> (cycles: u32)
        requires
            old(self).wf(),
            0x38 <= opcode < 0x40,
        ensures
            final(self).wf(),
            4 <= cycles <= 20,
            cycles % 4 == 0,
            misc_step_ok(*old(self), *final(self), cycles, opcode),
    {
        match opcode {
            0x38 => {
                if self.read_flag(Flag::C) {
                    self.jr();
                    12
                } else {
                    let _ = self.fetch_byte();
                    8
                }
            },
            0x39 => {
                let v = self.sp;
                self.alu_add16(v);
                8
            },
            0x3a => {
                let addr = self.hld();
                self.a = self.mmu.read_byte(addr);
                8
            },
            0x3b => {
                self.sp = if self.sp == 0 {
                    0xffff
                } else {
                    self.sp - 1
                };
                8
            },
            0x3c => {
                let v = self.a;
                self.a = self.alu_inc(v);
                4
            },
            0x3d => {
                let v = self.a;
                self.a = self.alu_dec(v);
                4
            },
            0x3e => {
                self.a = self.fetch_byte();
                8
            },
            _ => {
                // CCF
                let z = self.read_flag(Flag::Z);
                let c = self.read_flag(Flag::C);
                self.set_flags(z, false, false, !c);
                4
            },
                    }
    }

    /// The control block 0xc0-0xff: jumps, calls, returns, restarts,
    /// stack loads, the immediate arithmetic forms, IME control, the
    /// prefixed table, and the stack-pointer arithmetic loads; exactly
    /// as `ctrl_step_ok` lays out. Undefined opcodes act as NOP and
    /// cost 4 clocks.
    fn op_ctrl(&mut self, opcode: u8) -> (cycles: u32)
        requires
            old(self).wf(),
            0xc0 <= opcode,
        ensures
            final(self).wf(),
            4 <= cycles <= 24,
            cycles % 4 == 0,
            ctrl_step_ok(*old(self), *final(self), cycles, opcode),
    {
        if opcode < 0xd0 {
            self.op_ctrl_cx(opcode)
        } else if opcode < 0xe0 {
            self.op_ctrl_dx(opcode)
        } else if opcode < 0xf0 {
            self.op_ctrl_ex(opcode)
        } else {
            self.op_ctrl_fx(opcode)
        }
    }

    /// Opcodes 0xc0-0xcf of the control block.
    #[verifier::rlimit(100)]
    fn op_ctrl_cx(&mut self, opcode: u8) -> (cycles: u32)
        requires
            old(self).wf(),
            0xc0 <= opcode < 0xd0,
        ensures
            final(self).wf(),
            4 <= cycles <= 24,
            cycles % 4 == 0,
            ctrl0_step_ok(*old(self), *final(self), cycles, opcode),
    {
        match opcode {
            0xc0 => {
                if !self.read_flag(Flag::Z) {
                    self.ret();
                    20
                } else {
                    8
                }
            },
            0xc1 => {
                let v = self.pop();
                self.write_bc(v);
                12
            },
            0xc2 => {
                if !self.read_flag(Flag::Z) {
                    self.jp();
                    16
                } else {
                    let _ = self.fetch_word();
                    12
                }
            },
            0xc3 => {
                self.jp();
                16
            },
            0xc4 => {
                if !self.read_flag(Flag::Z) {
                    self.call();
                    24
                } else {
                    let _ = self.fetch_word();
                    12
                }
            },
            0xc5 => {
                let v = self.read_bc();
                self.push(v);
                16
            },
            0xc6 => {
                let d8 = self.fetch_byte();
                self.alu_add(d8, false);
                8
            },
            0xc7 => {
                self.rst(0x00);
                16
            },
            0xc8 => {
                if self.read_flag(Flag::Z) {
                    self.ret();
                    20
                } else {
                    8
                }
            },
            0xc9 => {
                self.ret();
                16
            },
            0xca => {
                if self.read_flag(Flag::Z) {
                    self.jp();
                    16
                } else {
                    let _ = self.fetch_word();
                    12
                }
            },
            0xcb => self.execute_prefixed_opcode(),
            0xcc => {
                if self.read_flag(Flag::Z) {
                    self.call();
                    24
                } else {
                    let _ = self.fetch_word();
                    12
                }
            },
            0xcd => {
                self.call();
                24
            },
            0xce => {
                let d8 = self.fetch_byte();
                self.alu_add(d8, true);
                8
            },
            0xcf => {
                self.rst(0x08);
                16
            },
            _ => {
                // undefined opcode: record it and act as a 4-clock NOP
                let addr = if self.pc == 0 {
                    0xffffu16
                } else {
                    self.pc - 1
                };
                self.last_unknown_opcode = Some((opcode, addr));
                4
            },
        }
    }

    /// Opcodes 0xd0-0xdf of the control block.
    #[verifier::rlimit(100)]
    fn op_ctrl_dx(&mut self, opcode: u8) -> (cycles: u32)
        requires
            old(self).wf(),
            0xd0 <= opcode < 0xe0,
        ensures
            final(self).wf(),
            4 <= cycles <= 24,
            cycles % 4 == 0,
            ctrl1_step_ok(*old(self), *final(self), cycles, opcode),
    {
        match opcode {
            0xd0 => {
                if !self.read_flag(Flag::C) {
                    self.ret();
                    20
                } else {
                    8
                }
            },
            0xd1 => {
                let v = self.pop();
                self.write_de(v);
                12
            },
            0xd2 => {
                if !self.read_flag(Flag::C) {
                    self.jp();
                    16
                } else {
                    let _ = self.fetch_word();
                    12
                }
            },
            0xd4 => {
                if !self.read_flag(Flag::C) {
                    self.call();
                    24
                } else {
                    let _ = self.fetch_word();
                    12
                }
            },
            0xd5 => {
                let v = self.read_de();
                self.push(v);
                16
            },
            0xd6 => {
                let d8 = self.fetch_byte();
                self.alu_sub(d8, false);
                8
            },
            0xd7 => {
                self.rst(0x10);
                16
            },
            0xd8 => {
                if self.read_flag(Flag::C) {
                    self.ret();
                    20
                } else {
                    8
                }
            },
            0xd9 => {
                // RETI: return and enable interrupts at once
                self.ret();
                self.ime = true;
                16
            },
            0xda => {
                if self.read_flag(Flag::C) {
                    self.jp();
                    16
                } else {
                    let _ = self.fetch_word();
                    12
                }
            },
            0xdc => {
                if self.read_flag(Flag::C) {
                    self.call();
                    24
                } else {
                    let _ = self.fetch_word();
                    12
                }
            },
            0xde => {
                let d8 = self.fetch_byte();
                self.alu_sub(d8, true);
                8
            },
            0xdf => {
                self.rst(0x18);
                16
            },
            _ => {
                // undefined opcode: record it and act as a 4-clock NOP
                let addr = if self.pc == 0 {
                    0xffffu16
                } else {
                    self.pc - 1
                };
                self.last_unknown_opcode = Some((opcode, addr));
                4
            },
        }
    }

    /// Opcodes 0xe0-0xef of the control block.
    #[verifier::rlimit(100)]
    fn op_ctrl_ex(&mut self, opcode: u8) -> (cycles: u32)
        requires
            old(self).wf(),
            0xe0 <= opcode < 0xf0,
        ensures
            final(self).wf(),
            4 <= cycles <= 24,
            cycles % 4 == 0,
            ctrl2_step_ok(*old(self), *final(self), cycles, opcode),
    {
        match opcode {
            0xe0 => {
                let a8 = self.fetch_byte();
                let addr = 0xff00 + a8 as u16;
                let v = self.a;
                self.mmu.write_byte(addr, v);
                12
            },
            0xe1 => {
                let v = self.pop();
                self.write_hl(v);
                12
            },
            0xe2 => {
                let addr = 0xff00 + self.c as u16;
                let v = self.a;
                self.mmu.write_byte(addr, v);
                8
            },
            0xe5 => {
                let v = self.read_hl();
                self.push(v);
                16
            },
            0xe6 => {
                let d8 = self.fetch_byte();
                self.alu_and(d8);
                8
            },
            0xe7 => {
                self.rst(0x20);
                16
            },
            0xe8 => {
                self.sp = self.add_sp_r8();
                16
            },
            0xe9 => {
                self.pc = self.read_hl();
                4
            },
            0xea => {
                let a16 = self.fetch_word();
                let v = self.a;
                self.mmu.write_byte(a16, v);
                16
            },
            0xee => {
                let d8 = self.fetch_byte();
                self.alu_xor(d8);
                8
            },
            0xef => {
                self.rst(0x28);
                16
            },
            _ => {
                // undefined opcode: record it and act as a 4-clock NOP
                let addr = if self.pc == 0 {
                    0xffffu16
                } else {
                    self.pc - 1
                };
                self.last_unknown_opcode = Some((opcode, addr));
                4
            },
        }
    }

    /// Opcodes 0xf0-0xff of the control block.
    fn op_ctrl_fx(&mut self, opcode: u8) -> (cycles: u32)
        requires
            old(self).wf(),
            0xf0 <= opcode,
        ensures
            final(self).wf(),
            4 <= cycles <= 24,
            cycles % 4 == 0,
            ctrl3_step_ok(*old(self), *final(self), cycles, opcode),
    {
        if opcode < 0xf8 {
            self.op_ctrl_fa(opcode)
        } else {
            self.op_ctrl_fb(opcode)
        }
    }

    /// Opcodes 0xf0-0xf7 of the control block.
    #[verifier::rlimit(100)]
    fn op_ctrl_fa(&mut self, opcode: u8) -> (cycles: u32)
        requires
            old(self).wf(),
            0xf0 <= opcode < 0xf8,
        ensures
            final(self).wf(),
            4 <= cycles <= 24,
            cycles % 4 == 0,
            ctrl3_step_ok(*old(self), *final(self), cycles, opcode),
    {
        match opcode {
            0xf0 => {
                let a8 = self.fetch_byte();
                self.a = self.mmu.read_byte(0xff00 + a8 as u16);
                12
            },
            0xf1 => {
                let v = self.pop();
                self.write_af(v);
                12
            },
            0xf2 => {
                self.a = self.mmu.read_byte(0xff00 + self.c as u16);
                8
            },
            0xf3 => {
                // DI
                self.ime = false;
                self.ei_delay = false;
                4
            },
            0xf5 => {
                let v = self.read_af();
                self.push(v);
                16
            },
            0xf6 => {
                let d8 = self.fetch_byte();
                self.alu_or(d8);
                8
            },
            0xf7 => {
                self.rst(0x30);
                16
            },
            _ => {
                // undefined opcode: record it and act as a 4-clock NOP
                let addr = if self.pc == 0 {
                    0xffffu16
                } else {
                    self.pc - 1
                };
                self.last_unknown_opcode = Some((opcode, addr));
                4
            },
        }
    }

    /// Opcodes 0xf8-0xff of the control block.
    #[verifier::rlimit(100)]
    fn op_ctrl_fb(&mut self, opcode: u8) -> (cycles: u32)
        requires
            old(self).wf(),
            0xf8 <= opcode,
        ensures
            final(self).wf(),
            4 <= cycles <= 24,
            cycles % 4 == 0,
            ctrl3_step_ok(*old(self), *final(self), cycles, opcode),
    {
        match opcode {
            0xf8 => {
                let v = self.add_sp_r8();
                self.write_hl(v);
                12
            },
            0xf9 => {
                self.sp = self.read_hl();
                8
            },
            0xfa => {
                let a16 = self.fetch_word();
                self.a = self.mmu.read_byte(a16);
                16
            },
            0xfb => {
                // EI: IME turns on after the next instruction
                self.ei_delay = true;
                4
            },
            0xfe => {
                let d8 = self.fetch_byte();
                self.alu_cp(d8);
                8
            },
            0xff => {
                self.rst(0x38);
                16
            },
            _ => {
                // undefined opcode: record it and act as a 4-clock NOP
                let addr = if self.pc == 0 {
                    0xffffu16
                } else {
                    self.pc - 1
                };
                self.last_unknown_opcode = Some((opcode, addr));
                4
            },
        }
    }

    /// The prefixed table: rotates, shifts and SWAP, then BIT, RES and
    /// SET over each 8-bit operand including memory at HL; exactly as
    /// `prefixed_step_ok` lays out.
    fn execute_prefixed_opcode(&mut self) -> (cycles: u32)
        requires
            old(self).wf(),
        ensures
            final(self).wf(),
            cycles == 8 || cycles == 12 || cycles == 16,
            prefixed_step_ok(
                (CPU { pc: wrap_add16(old(self).pc, 1), ..*old(self) }),
                *final(self),
                cycles,
                old(self).mmu@.read_byte_v(old(self).pc),
            ),
    {
        let opcode = self.fetch_byte();
        if opcode < 0x40 {
            self.cb_rotate(opcode)
        } else if opcode < 0x80 {
            self.cb_bit(opcode)
        } else if opcode < 0xc0 {
            self.cb_res(opcode)
        } else {
            self.cb_set(opcode)
        }
    }

    /// The prefixed rotate, shift and SWAP family.
    #[verifier::rlimit(100)]
    fn cb_rotate(&mut self, opcode: u8) -> (cycles: u32)
        requires
            old(self).wf(),
            opcode < 0x40,
        ensures
            final(self).wf(),
            cycles == 8 || cycles == 16,
            prefixed_step_ok(*old(self), *final(self), cycles, opcode),
    {
        let src = opcode & 7;
        proof {
            crate::bits::lemma_u8_and_le(opcode, 7);
            crate::bits::lemma_u8_and_le(opcode >> 3, 7);
        }
        let v = if src == 6 {
            self.mmu.read_byte(self.read_hl())
        } else {
            self.read_r8(src)
        };
        let r = match (opcode >> 3) & 7 {
            0 => self.rlc(v),
            1 => self.rrc(v),
            2 => self.rl(v),
            3 => self.rr(v),
            4 => self.sla(v),
            5 => self.sra(v),
            6 => self.swap(v),
            _ => self.srl(v),
        };
        if src == 6 {
            let addr = self.read_hl();
            self.mmu.write_byte(addr, r);
            16
        } else {
            self.write_r8(src, r);
            8
        }
    }

    /// The prefixed BIT family: test a bit, leave the operand alone.
    fn cb_bit(&mut self, opcode: u8) -> (cycles: u32)
        requires
            old(self).wf(),
            0x40 <= opcode < 0x80,
        ensures
            final(self).wf(),
            cycles == 8 || cycles == 12,
            prefixed_step_ok(*old(self), *final(self), cycles, opcode),
    {
        let src = opcode & 7;
        proof {
            crate::bits::lemma_u8_and_le(opcode, 7);
            crate::bits::lemma_u8_and_le(opcode >> 3, 7);
        }
        let v = if src == 6 {
            self.mmu.read_byte(self.read_hl())
        } else {
            self.read_r8(src)
        };
        let bit = (opcode >> 3) & 7;
        self.bit(v, bit);
        if src == 6 {
            12
        } else {
            8
        }
    }

    /// The prefixed RES family: clear a bit of the operand.
    fn cb_res(&mut self, opcode: u8) -> (cycles: u32)
        requires
            old(self).wf(),
            0x80 <= opcode < 0xc0,
        ensures
            final(self).wf(),
            cycles == 8 || cycles == 16,
            prefixed_step_ok(*old(self), *final(self), cycles, opcode),
    {
        let src = opcode & 7;
        proof {
            crate::bits::lemma_u8_and_le(opcode, 7);
            crate::bits::lemma_u8_and_le(opcode >> 3, 7);
        }
        let v = if src == 6 {
            self.mmu.read_byte(self.read_hl())
        } else {
            self.read_r8(src)
        };
        let bit = (opcode >> 3) & 7;
        let r = crate::bits::reset_bit(v, bit);
        if src == 6 {
            let addr = self.read_hl();
            self.mmu.write_byte(addr, r);
            16
        } else {
            self.write_r8(src, r);
            8
        }
    }

    /// The prefixed SET family: set a bit of the operand.
    fn cb_set(&mut self, opcode: u8) -> (cycles: u32)
        requires
            old(self).wf(),
            0xc0 <= opcode,
        ensures
            final(self).wf(),
            cycles == 8 || cycles == 16,
            prefixed_step_ok(*old(self), *final(self), cycles, opcode),
    {
        let src = opcode & 7;
        proof {
            crate::bits::lemma_u8_and_le(opcode, 7);
            crate::bits::lemma_u8_and_le(opcode >> 3, 7);
        }
        let v = if src == 6 {
            self.mmu.read_byte(self.read_hl())
        } else {
            self.read_r8(src)
        };
        let bit = (opcode >> 3) & 7;
        let r = crate::bits::set_bit(v, bit);
        if src == 6 {
            let addr = self.read_hl();
            self.mmu.write_byte(addr, r);
            16
        } else {
            self.write_r8(src, r);
            8
        }
    }
}

/// Pushing a word and popping it returns the value unchanged, and SP
/// ends where it began: the push writes the word at SP-2 and the pop
/// reads it back, which the bus round-trip law guarantees whenever the
/// stack top sits in a writable region.
pub proof fn lemma_push_pop(m: MmuView, sp: u16, val: u16)
    requires
        m.wf(),
        sp >= 2,
        crate::mmu::writable_word((sp - 2) as u16),
    ensures
        ({
            let pushed = m.write_byte_v((sp - 2) as u16, (val % 256) as u8).write_byte_v(
                (sp - 1) as u16,
                (val / 256) as u8,
            );
            &&& pushed.read_byte_v((sp - 2) as u16) + 256 * pushed.read_byte_v((sp - 1) as u16)
                == val
            &&& wrap_add16(wrap_sub16(sp, 2), 2) == sp
        }),
{
    crate::mmu::lemma_write_read_word(m, (sp - 2) as u16, val);
}

} // verus!
