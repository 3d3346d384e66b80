//! The joypad register: an 8-bit shadow of the eight button states
//! (bit = 0 when pressed), and the memory-mapped register whose bits
//! 4-5 select which button row is reported in bits 0-3. A press that
//! newly pulls a reported bit low raises the joypad interrupt.

use vstd::prelude::*;
use crate::bits::check_bit;
use crate::bits::spec_bit_set;

verus! {

#[derive(Debug, Clone, Copy, PartialEq, Eq, Structural)]
pub enum Button {
    Down,
    Up,
    Left,
    Right,
    Start,
    Select,
    B,
    A,
}

/// The button-state mask a button occupies: directions in the high
/// nibble, actions in the low nibble.
pub open spec fn button_mask(button: Button) -> u8 {
    match button {
        Button::Down => 0x80,
        Button::Up => 0x40,
        Button::Left => 0x20,
        Button::Right => 0x10,
        Button::Start => 0x08,
        Button::Select => 0x04,
        Button::B => 0x02,
        Button::A => 0x01,
    }
}

#[verifier::ext_equal]
pub struct Joypad {
    /// One bit per button, 0 when held down.
    pub button_state: u8,
    /// The memory-mapped register: selection bits 4-5, row report in 0-3.
    pub data: u8,
    /// Pending-interrupt byte the bus samples after each tick.
    pub interrupt: u8,
}

/// The row report for the current selection: bits 0-3 of `data`
/// recomputed from `button_state`, 0xf when no row is selected.
pub open spec fn selected_row(data: u8, button_state: u8) -> u8 {
    if spec_bit_set(data, 4) {
        0xf & (button_state >> 4)
    } else if spec_bit_set(data, 5) {
        0xf & button_state
    } else {
        0xf
    }
}

/// The register value after the selected row is refreshed.
pub open spec fn refreshed_data(data: u8, button_state: u8) -> u8 {
    (data & 0xf0) | selected_row(data, button_state)
}

/// Whether refreshing the row raises the joypad interrupt: a reported
/// bit newly becomes 0 while all four were 1 before.
pub open spec fn press_interrupt(data: u8, button_state: u8) -> bool {
    selected_row(data, button_state) != 0xf && data & 0xf == 0xf
}

impl Joypad {
    pub fn new() -> (r: Joypad)
        ensures
            r.button_state == 0xff,
            r.data == 0xff,
            r.interrupt == 0,
    {
        Joypad { button_state: 0xff, data: 0xff, interrupt: 0 }
    }

    pub fn read_byte(&self) -> (r: u8)
        ensures
            r == self.data,
    {
        self.data
    }

    /// Only the two selection bits of a written value are kept.
    pub fn write_byte(&mut self, value: u8)
        ensures
            *final(self) == (Joypad {
                data: (old(self).data & 0xcf) | (value & 0x30),
                ..*old(self)
            }),
    {
        self.data = (self.data & 0xcf) | (value & 0x30);
    }

    pub fn button_up(&mut self, button: Button)
        ensures
            final(self).button_state == old(self).button_state | button_mask(button),
            final(self).data == refreshed_data(old(self).data, final(self).button_state),
            final(self).interrupt == (if press_interrupt(old(self).data, final(self).button_state) {
                0x10u8
            } else {
                old(self).interrupt
            }),
    {
        let mask = button_mask_value(button);
        self.button_state = self.button_state | mask;
        self.update();
    }

    pub fn button_down(&mut self, button: Button)
        ensures
            final(self).button_state == old(self).button_state & !button_mask(button),
            final(self).data == refreshed_data(old(self).data, final(self).button_state),
            final(self).interrupt == (if press_interrupt(old(self).data, final(self).button_state) {
                0x10u8
            } else {
                old(self).interrupt
            }),
    {
        let mask = button_mask_value(button);
        self.button_state = self.button_state & !mask;
        self.update();
    }

    /// Refresh the reported row from the button states, raising the
    /// interrupt on a fresh press in the selected row.
    fn update(&mut self)
        ensures
            final(self).button_state == old(self).button_state,
            final(self).data == refreshed_data(old(self).data, old(self).button_state),
            final(self).interrupt == (if press_interrupt(old(self).data, old(self).button_state) {
                0x10u8
            } else {
                old(self).interrupt
            }),
    {
        let old_button_data = self.data & 0xf;
        let mut new_button_data: u8 = 0xf;
        if check_bit(self.data, 4) {
            new_button_data = new_button_data & (self.button_state >> 4);
        } else if check_bit(self.data, 5) {
            new_button_data = new_button_data & self.button_state;
        }
        if new_button_data != 0xf && old_button_data == 0xf {
            self.interrupt = 0x10;
        }
        self.data = (self.data & 0xf0) | new_button_data;
    }
}

/// The executable mask for a button; agrees with `button_mask`.
pub fn button_mask_value(button: Button) -> (r: u8)
    ensures
        r == button_mask(button),
{
    match button {
        Button::Down => 0x80,
        Button::Up => 0x40,
        Button::Left => 0x20,
        Button::Right => 0x10,
        Button::Start => 0x08,
        Button::Select => 0x04,
        Button::B => 0x02,
        Button::A => 0x01,
    }
}

} // verus!
