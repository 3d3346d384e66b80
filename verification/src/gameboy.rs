//! The machine: the processor (which owns the bus and every device)
//! plus the frame loop. The host calls `run_one_frame`, blits the
//! framebuffer when a frame has completed, feeds button events in, and
//! drains the serial debug output.

use vstd::prelude::*;
use crate::cpu::CPU;
use crate::mbc::CartError;
use crate::joypad::Button;

verus! {

/// One frame of emulation in machine clocks.
pub const CLOCKS_PER_FRAME: u32 = 70224;

/// The machine `post` is reached from `pre` by a chain of whole machine
/// cycles (`do_cycle_ok` each) whose costs sum to exactly `total`
/// clocks.
pub open spec fn machine_run_ok(pre: CPU, post: CPU, total: int) -> bool
    decreases total,
{
    if total <= 0 {
        post == pre
    } else {
        exists|mid: CPU, c: u32|
            4 <= c <= total && #[trigger] crate::cpu::do_cycle_ok(pre, mid, c) && machine_run_ok(
                mid,
                post,
                total - c,
            )
    }
}

/// A chain of machine cycles extends by one more cycle at its end.
pub proof fn lemma_machine_run_extend(a: CPU, b: CPU, c: CPU, n: int, k: u32)
    requires
        0 <= n,
        machine_run_ok(a, b, n),
        crate::cpu::do_cycle_ok(b, c, k),
        4 <= k,
    ensures
        machine_run_ok(a, c, n + k),
    decreases n,
{
    if n <= 0 {
        assert(machine_run_ok(c, c, 0));
        assert(crate::cpu::do_cycle_ok(a, c, k));
    } else {
        let (mid, c1): (CPU, u32) = choose|mid: CPU, c1: u32|
            4 <= c1 <= n && #[trigger] crate::cpu::do_cycle_ok(a, mid, c1) && machine_run_ok(
                mid,
                b,
                n - c1,
            );
        lemma_machine_run_extend(mid, b, c, n - c1, k);
        assert(crate::cpu::do_cycle_ok(a, mid, c1));
        assert(machine_run_ok(mid, c, n + k - c1));
    }
}

pub struct Gameboy {
    pub cpu: CPU,
}

impl Gameboy {
    pub fn new(cart: Vec<u8>) -> (r: Result<Gameboy, CartError>)
        ensures
            cart@.len() < 0x8000 ==> r == Err::<Gameboy, CartError>(CartError::TooSmall),
            cart@.len() >= 0x8000 && cart@[0x147] == 1 && cart@[0x149] > 3 ==> r == Err::<
                Gameboy,
                CartError,
            >(CartError::UnsupportedRamSize),
            cart@.len() >= 0x8000 && cart@[0x147] > 1 ==> r == Err::<Gameboy, CartError>(
                CartError::UnsupportedMbc,
            ),
            cart@.len() >= 0x8000 && cart@[0x147] == 0 ==> r is Ok,
            cart@.len() >= 0x8000 && cart@[0x147] == 1 && cart@[0x149] <= 3 ==> r is Ok,
            r matches Ok(gb) ==> {
                &&& gb.cpu.wf()
                &&& gb.cpu.a == 0x01
                &&& gb.cpu.f == 0xb0
                &&& gb.cpu.b == 0x00
                &&& gb.cpu.c == 0x13
                &&& gb.cpu.d == 0x00
                &&& gb.cpu.e == 0xd8
                &&& gb.cpu.h == 0x01
                &&& gb.cpu.l == 0x4d
                &&& gb.cpu.sp == 0xfffe
                &&& gb.cpu.pc == 0x0100
                &&& !gb.cpu.ime
                &&& !gb.cpu.halted
                &&& !gb.cpu.ei_delay
                &&& gb.cpu.last_unknown_opcode is None
                &&& gb.cpu.mmu@.wram == Seq::new(0x2000, |i: int| 0u8)
                &&& gb.cpu.mmu@.hram == Seq::new(0x7f, |i: int| 0u8)
                &&& gb.cpu.mmu@.interrupt_enable == 0
                &&& gb.cpu.mmu@.interrupt_flag == 0
                &&& gb.cpu.mmu@.timer == crate::timer::Timer::initial()
                &&& gb.cpu.mmu@.joypad == (crate::joypad::Joypad {
                    button_state: 0xff,
                    data: 0xff,
                    interrupt: 0,
                })
                &&& gb.cpu.mmu@.serial == (crate::serial::SerialView {
                    sb: 0,
                    sc: 0,
                    output: Seq::<u8>::empty(),
                })
                &&& gb.cpu.mmu@.ppu == (crate::ppu::PpuView {
                    bgp: 0xfc,
                    obp0: 0xff,
                    obp1: 0xff,
                    display_enabled: true,
                    window_tilemap: 0x1800,
                    window_enabled: false,
                    tilebase: 0,
                    background_tilemap: 0x1800,
                    sprite_size: 8,
                    sprites_enabled: false,
                    bg_win_priority: true,
                    ..crate::ppu::PpuView::initial()
                })
                &&& (cart@.len() >= 0x8000 && cart@[0x147] == 0 ==> gb.cpu.mmu@.mbc
                    == (crate::mbc::MbcV::Mbc0 { rom: cart@ }))
                &&& ((cart@.len() >= 0x8000 && cart@[0x147] == 1 && cart@[0x149] <= 3)
                    ==> gb.cpu.mmu@.mbc == (crate::mbc::MbcV::Mbc1 {
                    ram_enabled: false,
                    ram_mode: false,
                    rom: cart@,
                    ram: Seq::new(
                        crate::mbc::ram_size_spec(cart@[0x149]) as nat,
                        |i: int| 0u8,
                    ),
                    rom_bank: 1,
                    ram_bank: 0,
                }))
            },
    {
        let cpu = match CPU::new(cart) {
            Ok(c) => c,
            Err(e) => {
                return Err(e);
            },
        };
        Ok(Gameboy { cpu })
    }

    /// Whether the video unit has completed a frame since the last ask;
    /// asking consumes the mark and changes nothing else.
    pub fn ppu_updated(&mut self) -> (r: bool)
        ensures
            r == old(self).cpu.mmu.ppu.updated,
            final(self).cpu == (CPU { mmu: final(self).cpu.mmu, ..old(self).cpu }),
            final(self).cpu.mmu@ == (crate::mmu::MmuView {
                ppu: (crate::ppu::PpuView { updated: false, ..old(self).cpu.mmu@.ppu }),
                ..old(self).cpu.mmu@
            }),
            final(self).cpu.wf() == old(self).cpu.wf(),
    {
        let updated = self.cpu.mmu.ppu.updated;
        self.cpu.mmu.ppu.updated = false;
        updated
    }

    /// Execute instructions until one frame's worth of machine clocks
    /// has been consumed, advancing the devices in step; returns the
    /// clocks consumed, which overshoot the frame by at most the last
    /// instruction. The machine ends exactly where that many clocks of
    /// chained machine cycles take it.
    pub fn run_one_frame(&mut self) -> (clocks: u32)
        requires
            old(self).cpu.wf(),
        ensures
            final(self).cpu.wf(),
            CLOCKS_PER_FRAME <= clocks <= CLOCKS_PER_FRAME + 23,
            machine_run_ok(old(self).cpu, final(self).cpu, clocks as int),
    {
        let mut clocks: u32 = 0;
        while clocks < CLOCKS_PER_FRAME
            invariant
                self.cpu.wf(),
                clocks <= CLOCKS_PER_FRAME + 23,
                machine_run_ok(old(self).cpu, self.cpu, clocks as int),
            decreases CLOCKS_PER_FRAME + 24 - clocks,
        {
            let ghost prev = self.cpu;
            let ghost so_far = clocks as int;
            let step_clocks = self.cpu.do_cycle();
            proof {
                lemma_machine_run_extend(
                    old(self).cpu,
                    prev,
                    self.cpu,
                    so_far,
                    step_clocks,
                );
            }
            clocks = clocks + step_clocks;
        }
        clocks
    }

    /// The framebuffer, 160x144 host colors, row-major.
    pub fn screen(&self) -> (r: &Vec<u32>)
        ensures
            r == self.cpu.mmu.ppu.screen_data,
    {
        &self.cpu.mmu.ppu.screen_data
    }

    /// The serial debug bytes emitted so far.
    pub fn serial_output(&self) -> (r: &Vec<u8>)
        ensures
            r == self.cpu.mmu.serial.output,
    {
        &self.cpu.mmu.serial.output
    }

    /// A key went down: mark it pressed in the joypad, which refreshes
    /// the reported row and may raise the joypad interrupt.
    pub fn button_down(&mut self, button: Button)
        ensures
            final(self).cpu == (CPU { mmu: final(self).cpu.mmu, ..old(self).cpu }),
            final(self).cpu.mmu@ == (crate::mmu::MmuView {
                joypad: final(self).cpu.mmu.joypad,
                ..old(self).cpu.mmu@
            }),
            final(self).cpu.mmu.joypad.button_state == old(self).cpu.mmu.joypad.button_state
                & !crate::joypad::button_mask(button),
            final(self).cpu.wf() == old(self).cpu.wf(),
    {
        self.cpu.mmu.joypad.button_down(button);
    }

    /// A key went up: mark it released in the joypad.
    pub fn button_up(&mut self, button: Button)
        ensures
            final(self).cpu == (CPU { mmu: final(self).cpu.mmu, ..old(self).cpu }),
            final(self).cpu.mmu@ == (crate::mmu::MmuView {
                joypad: final(self).cpu.mmu.joypad,
                ..old(self).cpu.mmu@
            }),
            final(self).cpu.mmu.joypad.button_state == old(self).cpu.mmu.joypad.button_state
                | crate::joypad::button_mask(button),
            final(self).cpu.wf() == old(self).cpu.wf(),
    {
        self.cpu.mmu.joypad.button_up(button);
    }
}

} // verus!
