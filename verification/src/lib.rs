//! A cycle-counting emulator core for the original monochrome handheld
//! game console: CPU interpreter with exact flag algebra, memory bus,
//! cartridge mappers, pixel-processing unit, timer, joypad and serial
//! debug port. The host window, file loading and frame pacing live
//! outside this crate; the core works on plain byte images and exposes
//! a framebuffer of 32-bit colors.

pub mod bits;
pub mod serial;
pub mod timer;
pub mod joypad;
pub mod gpu;
pub mod io;
pub mod mbc;
pub mod ppu;
pub mod mmu;
pub mod cpu;
pub mod gameboy;
