//! A flat store for the 0xff00 register page, kept for bus experiments:
//! reads and writes land in a 128-byte array with no device behavior.

use vstd::prelude::*;
use vstd::pervasive::VecAdditionalExecFns;

verus! {

pub struct IO {
    pub registers: Vec<u8>,
}

impl IO {
    pub open spec fn wf(self) -> bool {
        self.registers@.len() == 0x80
    }

    pub fn new() -> (r: IO)
        ensures
            r.wf(),
            r.registers@ == Seq::new(0x80, |i: int| 0u8),
    {
        IO { registers: crate::bits::filled_vec(0x80, 0u8) }
    }

    pub fn read_byte(&self, addr: u16) -> (r: u8)
        requires
            self.wf(),
            0xff00 <= addr < 0xff80,
        ensures
            r == self.registers@[addr - 0xff00],
    {
        self.registers[(addr - 0xff00) as usize]
    }

    pub fn write_byte(&mut self, addr: u16, val: u8)
        requires
            old(self).wf(),
            0xff00 <= addr < 0xff80,
        ensures
            final(self).wf(),
            final(self).registers@ == old(self).registers@.update(addr - 0xff00, val),
    {
        self.registers.set((addr - 0xff00) as usize, val);
    }
}

} // verus!
