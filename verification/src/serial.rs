//! The two-register serial debug port. A write of 0x81 to the control
//! register emits the byte held in the data register; emitted bytes are
//! collected in `output`, and the host drains and prints them.

use vstd::prelude::*;

verus! {

pub struct Serial {
    pub sb: u8,
    pub sc: u8,
    /// Bytes emitted so far, oldest first.
    pub output: Vec<u8>,
}

/// The mathematical state of the serial port.
#[verifier::ext_equal]
pub struct SerialView {
    pub sb: u8,
    pub sc: u8,
    pub output: Seq<u8>,
}

impl View for Serial {
    type V = SerialView;

    open spec fn view(&self) -> SerialView {
        SerialView { sb: self.sb, sc: self.sc, output: self.output@ }
    }
}

impl SerialView {
    /// The byte a read of `address` returns.
    pub open spec fn read(self, address: u16) -> u8 {
        if address == 0xff01 {
            self.sb
        } else {
            self.sc
        }
    }

    /// The port after a write: a control write of 0x81 emits the byte
    /// held in the data register.
    pub open spec fn write(self, address: u16, value: u8) -> SerialView {
        if address == 0xff01 {
            SerialView { sb: value, ..self }
        } else if value == 0x81 {
            SerialView { sc: value, output: self.output.push(self.sb), ..self }
        } else {
            SerialView { sc: value, ..self }
        }
    }
}

impl Serial {
    pub fn new() -> (r: Serial)
        ensures
            r@ == (SerialView { sb: 0, sc: 0, output: Seq::<u8>::empty() }),
    {
        Serial { sb: 0, sc: 0, output: Vec::new() }
    }

    pub fn read_byte(&self, address: u16) -> (r: u8)
        requires
            0xff01 <= address <= 0xff02,
        ensures
            r == self@.read(address),
    {
        if address == 0xff01 {
            self.sb
        } else {
            self.sc
        }
    }

    pub fn write_byte(&mut self, address: u16, value: u8)
        requires
            0xff01 <= address <= 0xff02,
        ensures
            final(self)@ == old(self)@.write(address, value),
    {
        if address == 0xff02 && value == 0x81 {
            let emitted = self.sb;
            self.output.push(emitted);
        }
        if address == 0xff01 {
            self.sb = value;
        } else {
            self.sc = value;
        }
    }
}

} // verus!
