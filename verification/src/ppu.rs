//! The pixel-processing unit: VRAM and the sprite table, the display
//! register file, the four-mode scanline state machine, and the
//! renderer that fills the 160x144 framebuffer.

use vstd::prelude::*;
use vstd::pervasive::VecAdditionalExecFns;
use crate::bits::check_bit;
use crate::bits::get_bit_value;

verus! {

pub const SCREEN_WIDTH: usize = 160;
pub const SCREEN_HEIGHT: usize = 144;

/// The four shades as 32-bit host colors, lightest first.
pub const SHADE_WHITE: u32 = 0x9bbc0f;
pub const SHADE_LIGHT_GREY: u32 = 0x8bac0f;
pub const SHADE_DARK_GREY: u32 = 0x306230;
pub const SHADE_BLACK: u32 = 0x0f380f;

#[derive(Debug, Clone, Copy, PartialEq, Eq, Structural)]
pub enum Mode {
    HBlank,
    VBlank,
    OamSearch,
    PixelTransfer,
}

/// The mode number reported in the low two bits of the status register.
pub open spec fn mode_bits(mode: Mode) -> u8 {
    match mode {
        Mode::HBlank => 0u8,
        Mode::VBlank => 1u8,
        Mode::OamSearch => 2u8,
        Mode::PixelTransfer => 3u8,
    }
}

/// How many clocks each mode lasts; one scanline is 456.
pub open spec fn spec_threshold(mode: Mode) -> u32 {
    match mode {
        Mode::OamSearch => 80u32,
        Mode::PixelTransfer => 172u32,
        Mode::HBlank => 204u32,
        Mode::VBlank => 456u32,
    }
}

/// Whether the status register enables a STAT interrupt on entering
/// `mode` (bits 3, 4, 5 for HBlank, VBlank, OAM-search).
pub open spec fn stat_mode_enabled(lcds: u8, mode: Mode) -> bool {
    match mode {
        Mode::HBlank => crate::bits::spec_bit_set(lcds, 3),
        Mode::VBlank => crate::bits::spec_bit_set(lcds, 4),
        Mode::OamSearch => crate::bits::spec_bit_set(lcds, 5),
        Mode::PixelTransfer => false,
    }
}

/// The 2-bit shade a palette byte assigns to a 2-bit color index.
pub open spec fn spec_palette_shade(color_number: u8, palette: u8) -> u8 {
    (palette >> (2 * color_number)) & 3
}

pub fn palette_shade(color_number: u8, palette: u8) -> (r: u8)
    requires
        color_number < 4,
    ensures
        r == spec_palette_shade(color_number, palette),
        r < 4,
{
    let r = (palette >> (2 * color_number)) & 3;
    proof {
        crate::bits::lemma_u8_and_le(palette >> (2 * color_number), 3);
    }
    r
}

/// The host color of a 2-bit shade.
pub open spec fn spec_shade_color(shade: u8) -> u32 {
    if shade == 0 {
        SHADE_WHITE
    } else if shade == 1 {
        SHADE_LIGHT_GREY
    } else if shade == 2 {
        SHADE_DARK_GREY
    } else {
        SHADE_BLACK
    }
}

pub fn shade_color(shade: u8) -> (r: u32)
    ensures
        r == spec_shade_color(shade),
{
    match shade {
        0 => SHADE_WHITE,
        1 => SHADE_LIGHT_GREY,
        2 => SHADE_DARK_GREY,
        _ => SHADE_BLACK,
    }
}

/// The 2-bit color index the background or window lookup yields for
/// column `pixel` of the current scanline: pick the map and the
/// map-relative coordinates, look the tile number up, resolve the tile
/// data address (unsigned from 0x8000 or signed from 0x9000), and read
/// the pixel's bit out of the row's two bitplanes.
pub open spec fn bg_pixel_index(p: PpuView, pixel: int) -> u8 {
    let use_window = p.window_enabled && p.wy <= p.ly && pixel + 7 >= p.wx;
    let x: u8 = if use_window {
        (pixel + 7 - p.wx) as u8
    } else {
        ((p.scx + pixel) % 256) as u8
    };
    let y: u8 = if use_window {
        (p.ly - p.wy) as u8
    } else {
        ((p.scy + p.ly) % 256) as u8
    };
    let map_base: u16 = if use_window {
        p.window_tilemap
    } else {
        p.background_tilemap
    };
    let tile_num = p.vram[map_base + (y / 8) * 32 + (x / 8)];
    let data_address: int = if p.tilebase == 0 {
        tile_num * 16
    } else {
        if tile_num < 128 {
            0x1000 + tile_num * 16
        } else {
            0x1000 - (256 - tile_num) * 16
        }
    };
    let line = (y % 8) * 2;
    let b1 = p.vram[data_address + line];
    let b2 = p.vram[data_address + line + 1];
    let color_bit: u8 = (7 - (x % 8)) as u8;
    ((if crate::bits::spec_bit_set(b2, color_bit) {
        2u8
    } else {
        0u8
    }) + (if crate::bits::spec_bit_set(b1, color_bit) {
        1u8
    } else {
        0u8
    })) as u8
}

/// Whether sprite `i` of the table intersects the current scanline:
/// its stored Y is the top row plus 16, its height 8 or 16.
pub open spec fn sprite_visible(p: PpuView, i: int) -> bool {
    let sy = p.oam_ram[4 * i];
    &&& p.ly + 16 >= sy
    &&& p.ly + 16 < sy + p.sprite_size
}

/// The framebuffer after the first `px` pixels of sprite `i` are
/// overlaid onto `screen`: color index 0 is transparent, columns
/// outside the display are dropped, a sprite marked behind the
/// background shows only where the background color index of the
/// column is 0, the X/Y flips mirror the tile row and column, and the
/// attribute's palette bit picks the sprite palette.
pub open spec fn sprite_pixels(p: PpuView, screen: Seq<u32>, i: int, px: int) -> Seq<u32>
    decreases px,
{
    if px <= 0 {
        screen
    } else {
        let s = sprite_pixels(p, screen, i, px - 1);
        let q = px - 1;
        let sy = p.oam_ram[4 * i];
        let sx = p.oam_ram[4 * i + 1];
        let tile = p.oam_ram[4 * i + 2];
        let attrs = p.oam_ram[4 * i + 3];
        let line0 = p.ly + 16 - sy;
        let line = (if crate::bits::spec_bit_set(attrs, 6) {
            p.sprite_size - 1 - line0
        } else {
            line0
        }) * 2;
        let d1 = p.vram[tile * 16 + line];
        let d2 = p.vram[tile * 16 + line + 1];
        let tp = (if crate::bits::spec_bit_set(attrs, 5) {
            q
        } else {
            7 - q
        }) as u8;
        let color_number = ((if crate::bits::spec_bit_set(d2, tp) {
            2u8
        } else {
            0u8
        }) + (if crate::bits::spec_bit_set(d1, tp) {
            1u8
        } else {
            0u8
        })) as u8;
        let xpos = sx + q;
        let palette = if crate::bits::spec_bit_set(attrs, 4) {
            p.obp1
        } else {
            p.obp0
        };
        if color_number != 0 && 8 <= xpos < 168 && (!crate::bits::spec_bit_set(attrs, 7)
            || p.line_index[xpos - 8] == 0) {
            s.update(
                p.ly * 160 + (xpos - 8),
                spec_shade_color(spec_palette_shade(color_number, palette)),
            )
        } else {
            s
        }
    }
}

/// The framebuffer after the sprite pass has scanned table entries
/// `i..40` with `drawn` sprites already drawn: entries are taken in
/// table order, each visible one is overlaid, and the pass stops after
/// the tenth.
pub open spec fn spec_sprites_from(p: PpuView, screen: Seq<u32>, i: int, drawn: int) -> Seq<u32>
    decreases 40 - i,
{
    if i < 0 || i >= 40 || drawn >= 10 {
        screen
    } else if sprite_visible(p, i) {
        spec_sprites_from(p, sprite_pixels(p, screen, i, 8), i + 1, drawn + 1)
    } else {
        spec_sprites_from(p, screen, i + 1, drawn)
    }
}

/// The framebuffer after the whole sprite pass of the current scanline.
pub open spec fn spec_sprites(p: PpuView) -> Seq<u32> {
    spec_sprites_from(p, p.screen_data, 0, 0)
}

/// The unit on entering `mode`: the low two bits of the status register
/// report it, and a STAT interrupt is raised when the status register
/// enables one for this mode.
pub open spec fn set_mode_v(p: PpuView, mode: Mode) -> PpuView {
    PpuView {
        mode: mode,
        lcds: (p.lcds & 0xfc) | mode_bits(mode),
        status_interrupt: if stat_mode_enabled(p.lcds, mode) {
            2u8
        } else {
            p.status_interrupt
        },
        ..p
    }
}

/// The unit after stepping to the next scanline: LY wraps, the
/// coincidence bit tracks LY == LYC, and the coincidence STAT interrupt
/// is raised when enabled.
pub open spec fn update_ly_v(p: PpuView) -> PpuView {
    let ly = ((p.ly + 1) % 256) as u8;
    PpuView {
        ly: ly,
        lcds: if ly == p.lyc {
            p.lcds | 0x4
        } else {
            p.lcds & 0xfb
        },
        status_interrupt: if ly == p.lyc && crate::bits::spec_bit_set(p.lcds, 6) {
            2u8
        } else {
            p.status_interrupt
        },
        ..p
    }
}

/// The unit after the current scanline is rendered: the background and
/// window pixels of the line, then the sprite overlay; lines outside
/// the visible 144 are ignored.
pub open spec fn rendered_line_v(p: PpuView) -> PpuView {
    if p.ly >= 144 {
        p
    } else {
        let bg = if p.display_enabled {
            PpuView {
                line_index: Seq::new(160, |j: int| bg_pixel_index(p, j)),
                screen_data: Seq::new(
                    160 * 144,
                    |k: int|
                        if p.ly * 160 <= k < p.ly * 160 + 160 {
                            spec_shade_color(
                                spec_palette_shade(bg_pixel_index(p, k - p.ly * 160), p.bgp),
                            )
                        } else {
                            p.screen_data[k]
                        },
                ),
                ..p
            }
        } else {
            p
        };
        if bg.sprites_enabled {
            PpuView { screen_data: spec_sprites(bg), ..bg }
        } else {
            bg
        }
    }
}

/// One mode-boundary transition: the current mode's duration is taken
/// off the clock accumulator and the machine moves on — OAM-search to
/// pixel transfer, pixel transfer to HBlank with the line rendered,
/// HBlank to the next line's OAM-search or, at line 144, to VBlank with
/// the VBlank interrupt raised and the frame marked complete, and
/// VBlank through lines 145-153 before LY wraps to 0.
pub open spec fn ppu_step_v(p: PpuView) -> PpuView {
    let q = PpuView { clocks: (p.clocks - spec_threshold(p.mode)) as u32, ..p };
    match p.mode {
        Mode::OamSearch => set_mode_v(q, Mode::PixelTransfer),
        Mode::PixelTransfer => rendered_line_v(set_mode_v(q, Mode::HBlank)),
        Mode::HBlank => {
            let r = update_ly_v(q);
            if r.ly == 144 {
                PpuView { vblank_interrupt: 1, updated: true, ..set_mode_v(r, Mode::VBlank) }
            } else {
                set_mode_v(r, Mode::OamSearch)
            }
        },
        Mode::VBlank => {
            let r = update_ly_v(q);
            if r.ly > 153 {
                set_mode_v(PpuView { ly: 0, ..r }, Mode::OamSearch)
            } else {
                r
            }
        },
    }
}

/// Boundary transitions until the accumulated clocks no longer cover
/// the current mode's duration.
pub open spec fn spec_run(p: PpuView) -> PpuView
    decreases p.clocks,
{
    if p.clocks < spec_threshold(p.mode) {
        p
    } else {
        spec_run(ppu_step_v(p))
    }
}

/// The unit after a whole `tick(clocks)` call: the pending interrupts
/// are reset, and with the display enabled the added clocks drive the
/// mode machine through every boundary they cover.
pub open spec fn ppu_tick_v(p: PpuView, clocks: u32) -> PpuView {
    let cleared = PpuView { status_interrupt: 0, vblank_interrupt: 0, ..p };
    if !p.display_enabled {
        cleared
    } else {
        spec_run(PpuView { clocks: (p.clocks + clocks) as u32, ..cleared })
    }
}

pub struct PPU {
    pub vram: Vec<u8>,
    pub oam_ram: Vec<u8>,
    /// 160x144 host colors, row-major, top to bottom.
    pub screen_data: Vec<u32>,
    /// Background color index of each pixel of the scanline last
    /// rendered, for sprite-behind-background priority.
    pub line_index: Vec<u8>,
    pub lcds: u8,
    pub scy: u8,
    pub scx: u8,
    pub ly: u8,
    pub lyc: u8,
    pub wy: u8,
    pub wx: u8,
    pub bgp: u8,
    pub obp0: u8,
    pub obp1: u8,
    pub mode: Mode,
    pub clocks: u32,
    /// Pending STAT interrupt byte the bus samples after each tick.
    pub status_interrupt: u8,
    /// Pending VBlank interrupt byte the bus samples after each tick.
    pub vblank_interrupt: u8,
    /// Set when a frame has been completed (VBlank entered).
    pub updated: bool,
    pub display_enabled: bool,
    /// Window tile-map base, relative to VRAM: 0x1800 or 0x1c00.
    pub window_tilemap: u16,
    pub window_enabled: bool,
    /// Tile-data base, relative to VRAM: 0 (unsigned index) or 0x1000
    /// (signed index).
    pub tilebase: u16,
    /// Background tile-map base, relative to VRAM: 0x1800 or 0x1c00.
    pub background_tilemap: u16,
    /// Sprite height: 8 or 16.
    pub sprite_size: u8,
    pub sprites_enabled: bool,
    pub bg_win_priority: bool,
}

/// The mathematical state of the pixel-processing unit.
#[verifier::ext_equal]
pub struct PpuView {
    pub vram: Seq<u8>,
    pub oam_ram: Seq<u8>,
    pub screen_data: Seq<u32>,
    pub line_index: Seq<u8>,
    pub lcds: u8,
    pub scy: u8,
    pub scx: u8,
    pub ly: u8,
    pub lyc: u8,
    pub wy: u8,
    pub wx: u8,
    pub bgp: u8,
    pub obp0: u8,
    pub obp1: u8,
    pub mode: Mode,
    pub clocks: u32,
    pub status_interrupt: u8,
    pub vblank_interrupt: u8,
    pub updated: bool,
    pub display_enabled: bool,
    pub window_tilemap: u16,
    pub window_enabled: bool,
    pub tilebase: u16,
    pub background_tilemap: u16,
    pub sprite_size: u8,
    pub sprites_enabled: bool,
    pub bg_win_priority: bool,
}

impl View for PPU {
    type V = PpuView;

    open spec fn view(&self) -> PpuView {
        PpuView {
            vram: self.vram@,
            oam_ram: self.oam_ram@,
            screen_data: self.screen_data@,
            line_index: self.line_index@,
            lcds: self.lcds,
            scy: self.scy,
            scx: self.scx,
            ly: self.ly,
            lyc: self.lyc,
            wy: self.wy,
            wx: self.wx,
            bgp: self.bgp,
            obp0: self.obp0,
            obp1: self.obp1,
            mode: self.mode,
            clocks: self.clocks,
            status_interrupt: self.status_interrupt,
            vblank_interrupt: self.vblank_interrupt,
            updated: self.updated,
            display_enabled: self.display_enabled,
            window_tilemap: self.window_tilemap,
            window_enabled: self.window_enabled,
            tilebase: self.tilebase,
            background_tilemap: self.background_tilemap,
            sprite_size: self.sprite_size,
            sprites_enabled: self.sprites_enabled,
            bg_win_priority: self.bg_win_priority,
        }
    }
}

impl PpuView {
    /// The memories have their fixed sizes.
    pub open spec fn sizes_wf(self) -> bool {
        &&& self.vram.len() == 0x2000
        &&& self.oam_ram.len() == 0xa0
        &&& self.screen_data.len() == 160 * 144
        &&& self.line_index.len() == 160
    }

    /// The decoded control fields hold one of their two legal values.
    pub open spec fn regs_wf(self) -> bool {
        &&& (self.window_tilemap == 0x1800 || self.window_tilemap == 0x1c00)
        &&& (self.background_tilemap == 0x1800 || self.background_tilemap == 0x1c00)
        &&& (self.tilebase == 0 || self.tilebase == 0x1000)
        &&& (self.sprite_size == 8 || self.sprite_size == 16)
    }

    pub open spec fn wf(self) -> bool {
        &&& self.sizes_wf()
        &&& self.regs_wf()
        &&& self.clocks < 456
    }

    /// The unit at power-on: cleared memories, display off, OAM-search.
    pub open spec fn initial() -> PpuView {
        PpuView {
            vram: Seq::new(0x2000, |i: int| 0u8),
            oam_ram: Seq::new(0xa0, |i: int| 0u8),
            screen_data: Seq::new(160 * 144, |i: int| 0u32),
            line_index: Seq::new(160, |i: int| 0u8),
            lcds: 0,
            scy: 0,
            scx: 0,
            ly: 0,
            lyc: 0,
            wy: 0,
            wx: 0,
            bgp: 0,
            obp0: 0,
            obp1: 0,
            mode: Mode::OamSearch,
            clocks: 0,
            status_interrupt: 0,
            vblank_interrupt: 0,
            updated: false,
            display_enabled: false,
            window_tilemap: 0x1c00,
            window_enabled: false,
            tilebase: 0,
            background_tilemap: 0x1c00,
            sprite_size: 8,
            sprites_enabled: false,
            bg_win_priority: false,
        }
    }

    /// The control register byte reassembled from the decoded fields.
    pub open spec fn lcdc(self) -> u8 {
        (if self.display_enabled {
            0x80u8
        } else {
            0u8
        }) | (if self.window_tilemap == 0x1c00 {
            0x40u8
        } else {
            0u8
        }) | (if self.window_enabled {
            0x20u8
        } else {
            0u8
        }) | (if self.tilebase == 0 {
            0x10u8
        } else {
            0u8
        }) | (if self.background_tilemap == 0x1c00 {
            0x08u8
        } else {
            0u8
        }) | (if self.sprite_size == 16 {
            0x04u8
        } else {
            0u8
        }) | (if self.sprites_enabled {
            0x02u8
        } else {
            0u8
        }) | (if self.bg_win_priority {
            0x01u8
        } else {
            0u8
        })
    }

    /// Whether `address` falls in VRAM, the sprite table, or the
    /// register range the unit itself decodes (the DMA register is
    /// handled by the bus).
    pub open spec fn handles(address: u16) -> bool {
        ||| 0x8000 <= address <= 0x9fff
        ||| 0xfe00 <= address <= 0xfe9f
        ||| (0xff40 <= address <= 0xff4b && address != 0xff46)
    }

    /// The byte a read of `address` returns; the write-only DMA
    /// register reads 0.
    pub open spec fn read(self, address: u16) -> u8 {
        if 0x8000 <= address <= 0x9fff {
            self.vram[address - 0x8000]
        } else if 0xfe00 <= address <= 0xfe9f {
            self.oam_ram[address - 0xfe00]
        } else if address == 0xff40 {
            self.lcdc()
        } else if address == 0xff41 {
            self.lcds
        } else if address == 0xff42 {
            self.scy
        } else if address == 0xff43 {
            self.scx
        } else if address == 0xff44 {
            self.ly
        } else if address == 0xff45 {
            self.lyc
        } else if address == 0xff46 {
            0u8
        } else if address == 0xff47 {
            self.bgp
        } else if address == 0xff48 {
            self.obp0
        } else if address == 0xff49 {
            self.obp1
        } else if address == 0xff4a {
            self.wy
        } else {
            self.wx
        }
    }

    /// The unit after the control register is written: the bits are
    /// decoded into the named fields; clearing the display-enable bit
    /// resets the scanline counter and parks the unit in HBlank.
    pub open spec fn write_lcdc(self, value: u8) -> PpuView {
        let enabled = value & 0x80 == 0x80;
        let decoded = PpuView {
            display_enabled: enabled,
            window_tilemap: if value & 0x40 == 0x40 {
                0x1c00u16
            } else {
                0x1800u16
            },
            window_enabled: value & 0x20 == 0x20,
            tilebase: if value & 0x10 == 0x10 {
                0u16
            } else {
                0x1000u16
            },
            background_tilemap: if value & 0x08 == 0x08 {
                0x1c00u16
            } else {
                0x1800u16
            },
            sprite_size: if value & 0x04 == 0x04 {
                16u8
            } else {
                8u8
            },
            sprites_enabled: value & 0x02 == 0x02,
            bg_win_priority: value & 0x01 == 0x01,
            ..self
        };
        if enabled {
            decoded
        } else {
            PpuView {
                ly: 0,
                clocks: 0,
                mode: Mode::HBlank,
                lcds: decoded.lcds & 0xfc,
                ..decoded
            }
        }
    }

    /// The unit after a write of `value` to `address`.
    pub open spec fn write(self, address: u16, value: u8) -> PpuView {
        if 0x8000 <= address <= 0x9fff {
            PpuView { vram: self.vram.update(address - 0x8000, value), ..self }
        } else if 0xfe00 <= address <= 0xfe9f {
            PpuView { oam_ram: self.oam_ram.update(address - 0xfe00, value), ..self }
        } else if address == 0xff40 {
            self.write_lcdc(value)
        } else if address == 0xff41 {
            PpuView { lcds: value, ..self }
        } else if address == 0xff42 {
            PpuView { scy: value, ..self }
        } else if address == 0xff43 {
            PpuView { scx: value, ..self }
        } else if address == 0xff44 {
            PpuView { ly: value, ..self }
        } else if address == 0xff45 {
            PpuView { lyc: value, ..self }
        } else if address == 0xff47 {
            PpuView { bgp: value, ..self }
        } else if address == 0xff48 {
            PpuView { obp0: value, ..self }
        } else if address == 0xff49 {
            PpuView { obp1: value, ..self }
        } else {
            if address == 0xff4a {
                PpuView { wy: value, ..self }
            } else {
                PpuView { wx: value, ..self }
            }
        }
    }
}

impl PPU {
    pub fn new() -> (r: PPU)
        ensures
            r@.wf(),
            r@ == PpuView::initial(),
    {
        PPU {
            vram: crate::bits::filled_vec(0x2000, 0u8),
            oam_ram: crate::bits::filled_vec(0xa0, 0u8),
            screen_data: crate::bits::filled_vec(160 * 144, 0u32),
            line_index: crate::bits::filled_vec(160, 0u8),
            lcds: 0,
            scy: 0,
            scx: 0,
            ly: 0,
            lyc: 0,
            wy: 0,
            wx: 0,
            bgp: 0,
            obp0: 0,
            obp1: 0,
            mode: Mode::OamSearch,
            clocks: 0,
            status_interrupt: 0,
            vblank_interrupt: 0,
            updated: false,
            display_enabled: false,
            window_tilemap: 0x1c00,
            window_enabled: false,
            tilebase: 0,
            background_tilemap: 0x1c00,
            sprite_size: 8,
            sprites_enabled: false,
            bg_win_priority: false,
        }
    }

    pub fn read_byte(&self, address: u16) -> (r: u8)
        requires
            self@.wf(),
            PpuView::handles(address) || address == 0xff46,
        ensures
            r == self@.read(address),
    {
        match address {
            0x8000..=0x9fff => self.vram[(address - 0x8000) as usize],
            0xfe00..=0xfe9f => self.oam_ram[(address - 0xfe00) as usize],
            0xff40 => (if self.display_enabled {
                0x80u8
            } else {
                0u8
            }) | (if self.window_tilemap == 0x1c00 {
                0x40u8
            } else {
                0u8
            }) | (if self.window_enabled {
                0x20u8
            } else {
                0u8
            }) | (if self.tilebase == 0 {
                0x10u8
            } else {
                0u8
            }) | (if self.background_tilemap == 0x1c00 {
                0x08u8
            } else {
                0u8
            }) | (if self.sprite_size == 16 {
                0x04u8
            } else {
                0u8
            }) | (if self.sprites_enabled {
                0x02u8
            } else {
                0u8
            }) | (if self.bg_win_priority {
                0x01u8
            } else {
                0u8
            }),
            0xff41 => self.lcds,
            0xff42 => self.scy,
            0xff43 => self.scx,
            0xff44 => self.ly,
            0xff45 => self.lyc,
            0xff46 => 0,
            0xff47 => self.bgp,
            0xff48 => self.obp0,
            0xff49 => self.obp1,
            0xff4a => self.wy,
            _ => self.wx,
        }
    }

    #[verifier::rlimit(60)]
    pub fn write_byte(&mut self, address: u16, value: u8)
        requires
            old(self)@.wf(),
            PpuView::handles(address),
        ensures
            final(self)@.wf(),
            final(self)@ == old(self)@.write(address, value),
    {
        match address {
            0x8000..=0x9fff => self.vram.set((address - 0x8000) as usize, value),
            0xfe00..=0xfe9f => self.oam_ram.set((address - 0xfe00) as usize, value),
            0xff40 => {
                self.display_enabled = value & 0x80 == 0x80;
                self.window_tilemap = if value & 0x40 == 0x40 {
                    0x1c00
                } else {
                    0x1800
                };
                self.window_enabled = value & 0x20 == 0x20;
                self.tilebase = if value & 0x10 == 0x10 {
                    0
                } else {
                    0x1000
                };
                self.background_tilemap = if value & 0x08 == 0x08 {
                    0x1c00
                } else {
                    0x1800
                };
                self.sprite_size = if value & 0x04 == 0x04 {
                    16
                } else {
                    8
                };
                self.sprites_enabled = value & 0x02 == 0x02;
                self.bg_win_priority = value & 0x01 == 0x01;
                if !self.display_enabled {
                    self.ly = 0;
                    self.clocks = 0;
                    self.mode = Mode::HBlank;
                    self.lcds = self.lcds & 0xfc;
                }
            },
            0xff41 => self.lcds = value,
            0xff42 => self.scy = value,
            0xff43 => self.scx = value,
            0xff44 => self.ly = value,
            0xff45 => self.lyc = value,
            0xff47 => self.bgp = value,
            0xff48 => self.obp0 = value,
            0xff49 => self.obp1 = value,
            0xff4a => self.wy = value,
            _ => self.wx = value,
        }
    }

    /// Advance the scanline state machine by `clocks` machine clocks.
    /// Rendering and the mode registers are untouched while the display
    /// is disabled; otherwise the machine walks OAM-search, pixel
    /// transfer (the scanline is rendered on its completion) and HBlank
    /// through lines 0-143, then ten VBlank lines, raising the VBlank
    /// and STAT interrupts the status register enables; `ppu_tick_v`
    /// pins the whole effect.
    #[verifier::rlimit(100)]
    pub fn tick(&mut self, clocks: u32)
        requires
            old(self)@.wf(),
            clocks <= 1000000,
        ensures
            final(self)@.wf(),
            final(self)@.vram == old(self)@.vram,
            final(self)@.oam_ram == old(self)@.oam_ram,
            final(self)@.screen_data.len() == old(self)@.screen_data.len(),
            final(self).scy == old(self).scy,
            final(self).scx == old(self).scx,
            final(self).lyc == old(self).lyc,
            final(self).wy == old(self).wy,
            final(self).wx == old(self).wx,
            final(self).bgp == old(self).bgp,
            final(self).obp0 == old(self).obp0,
            final(self).obp1 == old(self).obp1,
            final(self).display_enabled == old(self).display_enabled,
            final(self).window_tilemap == old(self).window_tilemap,
            final(self).window_enabled == old(self).window_enabled,
            final(self).tilebase == old(self).tilebase,
            final(self).background_tilemap == old(self).background_tilemap,
            final(self).sprite_size == old(self).sprite_size,
            final(self).sprites_enabled == old(self).sprites_enabled,
            final(self).bg_win_priority == old(self).bg_win_priority,
            final(self).vblank_interrupt == 0 || final(self).vblank_interrupt == 1,
            final(self).status_interrupt == 0 || final(self).status_interrupt == 2,
            final(self)@ == ppu_tick_v(old(self)@, clocks),
    {
        self.status_interrupt = 0;
        self.vblank_interrupt = 0;
        if !self.display_enabled {
            return ;
        }
        self.clocks = self.clocks + clocks;
        let ghost start = self@;
        let mut t = self.threshold();
        if self.clocks < t {
            return ;
        }
        while self.clocks >= t
            invariant
                self@.sizes_wf(),
                self@.regs_wf(),
                t == spec_threshold(self.mode),
                80 <= t <= 456,
                self@.vram == old(self)@.vram,
                self@.oam_ram == old(self)@.oam_ram,
                self@.screen_data.len() == old(self)@.screen_data.len(),
                self.scy == old(self).scy,
                self.scx == old(self).scx,
                self.lyc == old(self).lyc,
                self.wy == old(self).wy,
                self.wx == old(self).wx,
                self.bgp == old(self).bgp,
                self.obp0 == old(self).obp0,
                self.obp1 == old(self).obp1,
                self.display_enabled == old(self).display_enabled,
                self.window_tilemap == old(self).window_tilemap,
                self.window_enabled == old(self).window_enabled,
                self.tilebase == old(self).tilebase,
                self.background_tilemap == old(self).background_tilemap,
                self.sprite_size == old(self).sprite_size,
                self.sprites_enabled == old(self).sprites_enabled,
                self.bg_win_priority == old(self).bg_win_priority,
                self.vblank_interrupt == 0 || self.vblank_interrupt == 1,
                self.status_interrupt == 0 || self.status_interrupt == 2,
                spec_run(start) == spec_run(self@),
            decreases self.clocks,
        {
            let ghost before = self@;
            proof {
                assert(spec_run(before) == spec_run(ppu_step_v(before)));
            }
            self.clocks = self.clocks - t;
            match self.mode {
                Mode::OamSearch => {
                    self.set_mode(Mode::PixelTransfer);
                },
                Mode::PixelTransfer => {
                    self.set_mode(Mode::HBlank);
                    self.buffer_scanline();
                },
                Mode::HBlank => {
                    self.update_ly();
                    if self.ly == 144 {
                        self.set_mode(Mode::VBlank);
                        self.vblank_interrupt = 0x1;
                        self.updated = true;
                    } else {
                        self.set_mode(Mode::OamSearch);
                    }
                },
                Mode::VBlank => {
                    self.update_ly();
                    if self.ly > 153 {
                        self.ly = 0;
                        self.set_mode(Mode::OamSearch);
                    }
                },
            }
            proof {
                assert(self@ =~= ppu_step_v(before));
            }
            t = self.threshold();
        }
    }

    /// How many clocks the current mode lasts.
    fn threshold(&self) -> (t: u32)
        ensures
            t == spec_threshold(self.mode),
            80 <= t <= 456,
    {
        match self.mode {
            Mode::OamSearch => 80,
            Mode::PixelTransfer => 172,
            Mode::HBlank => 204,
            Mode::VBlank => 456,
        }
    }

    /// Enter `mode`: report it in the low two bits of the status
    /// register and raise a STAT interrupt when the mode's enable bit
    /// is set.
    fn set_mode(&mut self, mode: Mode)
        ensures
            final(self)@ == set_mode_v(old(self)@, mode),
    {
        let raise = match mode {
            Mode::HBlank => check_bit(self.lcds, 3),
            Mode::VBlank => check_bit(self.lcds, 4),
            Mode::OamSearch => check_bit(self.lcds, 5),
            Mode::PixelTransfer => false,
        };
        let bits: u8 = match mode {
            Mode::HBlank => 0,
            Mode::VBlank => 1,
            Mode::OamSearch => 2,
            Mode::PixelTransfer => 3,
        };
        self.mode = mode;
        self.lcds = (self.lcds & 0xfc) | bits;
        if raise {
            self.status_interrupt = 2;
        }
    }

    /// Step to the next scanline, maintaining the LY==LYC coincidence
    /// flag and its STAT interrupt.
    fn update_ly(&mut self)
        ensures
            final(self)@ == update_ly_v(old(self)@),
    {
        let coincidence_enabled = check_bit(self.lcds, 6);
        self.ly = if self.ly == 255 {
            0
        } else {
            self.ly + 1
        };
        if self.ly == self.lyc {
            self.lcds = self.lcds | 0x4;
            if coincidence_enabled {
                self.status_interrupt = 0x2;
            }
        } else {
            self.lcds = self.lcds & 0xfb;
        }
    }

    /// Render the current scanline into the framebuffer: background and
    /// window, then sprites. Lines outside the visible 144 are ignored.
    /// With sprites disabled, the line is exactly the background
    /// lookup mapped through the background palette.
    fn buffer_scanline(&mut self)
        requires
            old(self)@.sizes_wf(),
            old(self)@.regs_wf(),
        ensures
            final(self)@.sizes_wf(),
            final(self)@.regs_wf(),
            final(self)@ == rendered_line_v(old(self)@),
    {
        if self.ly <= 143 {
            let ghost p = old(self)@;
            self.scanline_background();
            proof {
                if p.display_enabled {
                    assert(self@.line_index =~= Seq::new(160, |j: int| bg_pixel_index(p, j)));
                    assert(self@.screen_data =~= Seq::new(
                        160 * 144,
                        |k: int|
                            if p.ly * 160 <= k < p.ly * 160 + 160 {
                                spec_shade_color(
                                    spec_palette_shade(bg_pixel_index(p, k - p.ly * 160), p.bgp),
                                )
                            } else {
                                p.screen_data[k]
                            },
                    ));
                    assert(self@ =~= (PpuView {
                        line_index: Seq::new(160, |j: int| bg_pixel_index(p, j)),
                        screen_data: Seq::new(
                            160 * 144,
                            |k: int|
                                if p.ly * 160 <= k < p.ly * 160 + 160 {
                                    spec_shade_color(
                                        spec_palette_shade(
                                            bg_pixel_index(p, k - p.ly * 160),
                                            p.bgp,
                                        ),
                                    )
                                } else {
                                    p.screen_data[k]
                                },
                        ),
                        ..p
                    }));
                }
            }
            self.scanline_sprites();
            proof {
                assert(self@ =~= rendered_line_v(p));
            }
        }
    }

    /// Render the background (and, where enabled and reached, the
    /// window) pixels of the current scanline, recording each pixel's
    /// 2-bit color index for sprite priority: each framebuffer pixel of
    /// the line becomes its looked-up color index mapped through the
    /// background palette, and no other pixel moves.
    #[verifier::loop_isolation(false)]
    #[verifier::rlimit(100)]
    fn scanline_background(&mut self)
        requires
            old(self)@.sizes_wf(),
            old(self)@.regs_wf(),
            old(self).ly < 144,
        ensures
            final(self)@.sizes_wf(),
            final(self)@.regs_wf(),
            final(self)@ == (PpuView {
                screen_data: final(self)@.screen_data,
                line_index: final(self)@.line_index,
                ..old(self)@
            }),
            !old(self).display_enabled ==> final(self)@ == old(self)@,
            old(self).display_enabled ==> ({
                let row = old(self).ly * 160;
                &&& (forall|j: int|
                    0 <= j < 160 ==> final(self)@.line_index[j] == bg_pixel_index(old(self)@, j))
                &&& (forall|j: int|
                    0 <= j < 160 ==> final(self)@.screen_data[row + j] == spec_shade_color(
                        spec_palette_shade(bg_pixel_index(old(self)@, j), old(self).bgp),
                    ))
                &&& (forall|k: int|
                    0 <= k < 160 * 144 && !(row <= k < row + 160) ==> final(self)@.screen_data[k]
                        == old(self)@.screen_data[k])
            }),
    {
        if !self.display_enabled {
            return ;
        }
        let ly = self.ly;
        let bg_y: u8 = ((self.scy as u16 + ly as u16) % 256) as u8;
        let mut pixel: usize = 0;
        while pixel < 160
            invariant
                pixel <= 160,
                self@.sizes_wf(),
                self@.regs_wf(),
                self.ly == ly,
                ly < 144,
                self@ == (PpuView {
                    screen_data: self@.screen_data,
                    line_index: self@.line_index,
                    ..old(self)@
                }),
                forall|j: int|
                    0 <= j < pixel ==> self@.line_index[j] == bg_pixel_index(old(self)@, j),
                forall|j: int|
                    pixel <= j < 160 ==> self@.line_index[j] == old(self)@.line_index[j],
                forall|j: int|
                    0 <= j < pixel ==> self@.screen_data[ly * 160 + j] == spec_shade_color(
                        spec_palette_shade(bg_pixel_index(old(self)@, j), old(self).bgp),
                    ),
                forall|k: int|
                    0 <= k < 160 * 144 && !(ly * 160 <= k < ly * 160 + pixel)
                        ==> self@.screen_data[k] == old(self)@.screen_data[k],
            decreases 160 - pixel,
        {
            let x: u8;
            let y: u8;
            let map_base: u16;
            if self.window_enabled && self.wy <= ly && pixel + 7 >= self.wx as usize {
                map_base = self.window_tilemap;
                x = (pixel + 7 - self.wx as usize) as u8;
                y = ly - self.wy;
            } else {
                map_base = self.background_tilemap;
                x = ((self.scx as u16 + pixel as u16) % 256) as u8;
                y = bg_y;
            }
            let tile_row: u16 = (y / 8) as u16 * 32;
            let tile_col: u16 = (x / 8) as u16;
            let tile_num: u8 = self.vram[(map_base + tile_row + tile_col) as usize];
            let data_address: u16 = if self.tilebase == 0 {
                (tile_num as u16) * 16
            } else {
                if tile_num < 128 {
                    0x1000 + (tile_num as u16) * 16
                } else {
                    0x1000 - (256 - tile_num as u16) * 16
                }
            };
            let line: u16 = ((y % 8) as u16) * 2;
            let b1 = self.vram[(data_address + line) as usize];
            let b2 = self.vram[(data_address + line + 1) as usize];
            let color_bit: u8 = 7 - (x % 8);
            let color_number: u8 = get_bit_value(b2, color_bit) * 2 + get_bit_value(b1, color_bit);
            let shade = palette_shade(color_number, self.bgp);
            let color = shade_color(shade);
            self.line_index.set(pixel, color_number);
            self.screen_data.set(ly as usize * 160 + pixel, color);
            pixel = pixel + 1;
        }
    }

    /// Overlay the sprites that intersect the current scanline, at most
    /// ten of them in table order: color index 0 is transparent, and a
    /// sprite marked behind the background shows only where the
    /// background pixel has color index 0.
    #[verifier::loop_isolation(false)]
    fn scanline_sprites(&mut self)
        requires
            old(self)@.sizes_wf(),
            old(self)@.regs_wf(),
            old(self).ly < 144,
        ensures
            final(self)@.sizes_wf(),
            final(self)@.regs_wf(),
            final(self)@ == (PpuView { screen_data: final(self)@.screen_data, ..old(self)@ }),
            !old(self).sprites_enabled ==> final(self)@ == old(self)@,
            old(self).sprites_enabled ==> final(self)@.screen_data == spec_sprites(old(self)@),
            forall|k: int|
                0 <= k < 160 * 144 && !(old(self).ly * 160 <= k < old(self).ly * 160 + 160)
                    ==> final(self)@.screen_data[k] == old(self)@.screen_data[k],
    {
        if !self.sprites_enabled {
            return ;
        }
        let ly16: u16 = self.ly as u16;
        let h: u16 = self.sprite_size as u16;
        let mut i: usize = 0;
        let mut drawn: u8 = 0;
        while i < 40 && drawn < 10
            invariant
                i <= 40,
                drawn <= 10,
                self@.sizes_wf(),
                self@.regs_wf(),
                ly16 == self.ly as u16,
                self.ly < 144,
                h == self.sprite_size as u16,
                self@ == (PpuView { screen_data: self@.screen_data, ..old(self)@ }),
                spec_sprites(old(self)@) == spec_sprites_from(
                    old(self)@,
                    self@.screen_data,
                    i as int,
                    drawn as int,
                ),
                forall|k: int|
                    0 <= k < 160 * 144 && !(old(self).ly * 160 <= k < old(self).ly * 160 + 160)
                        ==> self@.screen_data[k] == old(self)@.screen_data[k],
            decreases 40 - i,
        {
            let sy: u16 = self.oam_ram[i * 4] as u16;
            let sx: u16 = self.oam_ram[i * 4 + 1] as u16;
            let tile: u16 = self.oam_ram[i * 4 + 2] as u16;
            let attrs: u8 = self.oam_ram[i * 4 + 3];
            if ly16 + 16 >= sy && ly16 + 16 < sy + h {
                let ghost drawn0 = drawn as int;
                let ghost s0 = self@.screen_data;
                proof {
                    assert(sprite_visible(old(self)@, i as int));
                    assert(spec_sprites_from(old(self)@, s0, i as int, drawn0)
                        == spec_sprites_from(
                        old(self)@,
                        sprite_pixels(old(self)@, s0, i as int, 8),
                        i as int + 1,
                        drawn0 + 1,
                    ));
                }
                drawn = drawn + 1;
                let y_flip = check_bit(attrs, 6);
                let x_flip = check_bit(attrs, 5);
                let palette = if check_bit(attrs, 4) {
                    self.obp1
                } else {
                    self.obp0
                };
                let behind_bg = check_bit(attrs, 7);
                let mut line: u16 = ly16 + 16 - sy;
                if y_flip {
                    line = (h - 1) - line;
                }
                line = line * 2;
                let d1 = self.vram[(tile * 16 + line) as usize];
                let d2 = self.vram[(tile * 16 + line + 1) as usize];
                let mut px: u8 = 0;
                while px < 8
                    invariant
                        px <= 8,
                        self@.sizes_wf(),
                        self@.regs_wf(),
                        ly16 == self.ly as u16,
                        self.ly < 144,
                        self@ == (PpuView { screen_data: self@.screen_data, ..old(self)@ }),
                        self@.screen_data == sprite_pixels(old(self)@, s0, i as int, px as int),
                        forall|k: int|
                            0 <= k < 160 * 144 && !(old(self).ly * 160 <= k < old(self).ly * 160
                                + 160) ==> self@.screen_data[k] == old(self)@.screen_data[k],
                    decreases 8 - px,
                {
                    let tp: u8 = if x_flip {
                        px
                    } else {
                        7 - px
                    };
                    let color_number: u8 = get_bit_value(d2, tp) * 2 + get_bit_value(d1, tp);
                    if color_number != 0 {
                        let xpos: u16 = sx + px as u16;
                        if xpos >= 8 && xpos < 168 {
                            let col: usize = (xpos - 8) as usize;
                            let visible = !behind_bg || self.line_index[col] == 0;
                            if visible {
                                let shade = palette_shade(color_number, palette);
                                let color = shade_color(shade);
                                self.screen_data.set(self.ly as usize * 160 + col, color);
                            }
                        }
                    }
                    proof {
                        assert(self@.screen_data =~= sprite_pixels(
                            old(self)@,
                            s0,
                            i as int,
                            px as int + 1,
                        ));
                    }
                    px = px + 1;
                }
            }
            i = i + 1;
        }
    }

    /// The bus deposits one DMA byte into the sprite table.
    pub fn dma_transfer(&mut self, address: u16, value: u8)
        requires
            old(self)@.wf(),
            address < 0xa0,
        ensures
            final(self)@.wf(),
            final(self)@ == (PpuView {
                oam_ram: old(self)@.oam_ram.update(address as int, value),
                ..old(self)@
            }),
    {
        self.oam_ram.set(address as usize, value);
    }
}

} // verus!
