//! The timer device: DIV increments every 256 clocks, TIMA every
//! `speed` clocks while enabled. When TIMA overflows it reads 0 for one
//! increment period, then is reloaded from TMA and the timer interrupt
//! is raised.

use vstd::prelude::*;

verus! {

#[verifier::ext_equal]
pub struct Timer {
    pub div: u8,
    pub tima: u8,
    pub tma: u8,
    pub tac: u8,
    pub clocks_since_div_inc: u32,
    pub clocks_since_tima_inc: u32,
    pub enabled: bool,
    pub speed: u32,
    /// Set when TIMA has overflowed and the reload from TMA is still owed.
    pub reload_pending: bool,
    /// Pending-interrupt byte the bus samples after each tick.
    pub interrupt: u8,
}

/// TIMA and the reload-pending flag after `n` increment events, starting
/// from `tima` with reload flag `pending`. An increment event either
/// performs the owed reload from `tma`, or steps TIMA, recording an
/// overflow as a newly owed reload.
pub open spec fn tima_after(tima: u8, tma: u8, pending: bool, n: nat) -> (u8, bool)
    decreases n,
{
    if n == 0 {
        (tima, pending)
    } else {
        let (t, p) = tima_after(tima, tma, pending, (n - 1) as nat);
        if p {
            (tma, false)
        } else if t == 255 {
            (0u8, true)
        } else {
            ((t + 1) as u8, false)
        }
    }
}

/// Whether any of the first `n` increment events performed a reload
/// (the moment the timer interrupt is raised).
pub open spec fn tima_reloaded(tima: u8, tma: u8, pending: bool, n: nat) -> bool
    decreases n,
{
    if n == 0 {
        false
    } else {
        tima_reloaded(tima, tma, pending, (n - 1) as nat) || tima_after(
            tima,
            tma,
            pending,
            (n - 1) as nat,
        ).1
    }
}

impl Timer {
    /// The accumulators stay below their periods and the period is one
    /// of the four selectable clock divisors.
    pub open spec fn wf(self) -> bool {
        &&& (self.speed == 16 || self.speed == 64 || self.speed == 256 || self.speed == 1024)
        &&& self.clocks_since_div_inc < 256
        &&& self.clocks_since_tima_inc < 1024
    }

    /// The timer at power-on: everything clear, the slowest period.
    pub open spec fn initial() -> Timer {
        Timer {
            div: 0,
            tima: 0,
            tma: 0,
            tac: 0,
            clocks_since_div_inc: 0,
            clocks_since_tima_inc: 0,
            enabled: false,
            speed: 1024,
            reload_pending: false,
            interrupt: 0,
        }
    }

    pub fn new() -> (r: Timer)
        ensures
            r.wf(),
            r == Timer::initial(),
    {
        Timer {
            div: 0,
            tima: 0,
            tma: 0,
            tac: 0,
            clocks_since_div_inc: 0,
            clocks_since_tima_inc: 0,
            enabled: false,
            speed: 1024,
            reload_pending: false,
            interrupt: 0,
        }
    }

    /// The byte a read of `address` returns.
    pub open spec fn spec_read(self, address: u16) -> u8 {
        if address == 0xff04 {
            self.div
        } else if address == 0xff05 {
            self.tima
        } else if address == 0xff06 {
            self.tma
        } else {
            self.tac
        }
    }

    pub fn rb(&self, address: u16) -> (r: u8)
        requires
            0xff04 <= address <= 0xff07,
        ensures
            r == self.spec_read(address),
    {
        match address {
            0xff04 => self.div,
            0xff05 => self.tima,
            0xff06 => self.tma,
            _ => self.tac,
        }
    }

    /// The period selected by the low two bits of a TAC value.
    pub open spec fn spec_speed(value: u8) -> u32 {
        if value & 0x3 == 0 {
            1024u32
        } else if value & 0x3 == 1 {
            16u32
        } else if value & 0x3 == 2 {
            64u32
        } else {
            256u32
        }
    }

    /// The timer after a register write; a DIV write always resets it,
    /// a control write decodes the enable bit and the period.
    pub open spec fn spec_wb(self, address: u16, value: u8) -> Timer {
        if address == 0xff04 {
            Timer { div: 0, ..self }
        } else if address == 0xff05 {
            Timer { tima: value, ..self }
        } else if address == 0xff06 {
            Timer { tma: value, ..self }
        } else {
            Timer {
                tac: value,
                enabled: value & 0x4 == 0x4,
                speed: Timer::spec_speed(value),
                ..self
            }
        }
    }

    pub fn wb(&mut self, address: u16, value: u8)
        requires
            old(self).wf(),
            0xff04 <= address <= 0xff07,
        ensures
            final(self).wf(),
            *final(self) == old(self).spec_wb(address, value),
    {
        match address {
            0xff04 => self.div = 0,  // DIV is reset by any write
            0xff05 => self.tima = value,
            0xff06 => self.tma = value,
            _ => {
                self.enabled = value & 0x4 == 0x4;
                self.speed = if value & 0x3 == 0 {
                    1024
                } else if value & 0x3 == 1 {
                    16
                } else if value & 0x3 == 2 {
                    64
                } else {
                    256
                };
                self.tac = value;
            },
        }
    }

    /// The timer after `clocks` machine clocks: DIV steps once per 256
    /// clocks, and while enabled TIMA sees one increment event per
    /// elapsed period.
    pub open spec fn spec_tick(self, clocks: u32) -> Timer {
        let div_total = self.clocks_since_div_inc + clocks;
        let base = Timer {
            div: ((self.div + div_total / 256) % 256) as u8,
            clocks_since_div_inc: (div_total % 256) as u32,
            interrupt: 0,
            ..self
        };
        if self.enabled {
            let total = self.clocks_since_tima_inc + clocks;
            let n = (total / (self.speed as int)) as nat;
            Timer {
                tima: tima_after(self.tima, self.tma, self.reload_pending, n).0,
                reload_pending: tima_after(self.tima, self.tma, self.reload_pending, n).1,
                clocks_since_tima_inc: (total % (self.speed as int)) as u32,
                interrupt: if tima_reloaded(self.tima, self.tma, self.reload_pending, n) {
                    4u8
                } else {
                    0u8
                },
                ..base
            }
        } else {
            base
        }
    }

    /// Advance the timer by `clocks` machine clocks.
    pub fn tick(&mut self, clocks: u32)
        requires
            old(self).wf(),
            clocks <= 1000000,
        ensures
            final(self).wf(),
            *final(self) == old(self).spec_tick(clocks),
    {
        self.interrupt = 0;
        let div_total: u64 = self.clocks_since_div_inc as u64 + clocks as u64;
        self.div = ((self.div as u64 + div_total / 256) % 256) as u8;
        self.clocks_since_div_inc = (div_total % 256) as u32;
        if self.enabled {
            let total: u64 = self.clocks_since_tima_inc as u64 + clocks as u64;
            let speed: u64 = self.speed as u64;
            let n: u64 = total / speed;
            self.clocks_since_tima_inc = (total % speed) as u32;
            let ghost t0 = old(self).tima;
            let ghost m0 = old(self).tma;
            let ghost p0 = old(self).reload_pending;
            let ghost pre_loop = *self;
            let mut k: u64 = 0;
            while k < n
                invariant
                    k <= n,
                    self.div == pre_loop.div,
                    self.tma == pre_loop.tma,
                    self.tac == pre_loop.tac,
                    self.enabled == pre_loop.enabled,
                    self.speed == pre_loop.speed,
                    self.clocks_since_div_inc == pre_loop.clocks_since_div_inc,
                    self.clocks_since_tima_inc == pre_loop.clocks_since_tima_inc,
                    m0 == pre_loop.tma,
                    (self.tima, self.reload_pending) == tima_after(t0, m0, p0, k as nat),
                    self.interrupt == (if tima_reloaded(t0, m0, p0, k as nat) {
                        4u8
                    } else {
                        0u8
                    }),
                decreases n - k,
            {
                if self.reload_pending {
                    self.tima = self.tma;
                    self.reload_pending = false;
                    self.interrupt = 4;
                } else if self.tima == 255 {
                    self.tima = 0;
                    self.reload_pending = true;
                } else {
                    self.tima = self.tima + 1;
                }
                k = k + 1;
            }
        }
    }
}

} // verus!
