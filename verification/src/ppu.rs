//! Pixel processing unit.
//!
//! A scanline is 456 T-cycles; a frame is 154 scanlines (70 224 T-cycles),
//! LY counting 0..=153.  Drawing lines pass through OAM scan (dots 0..=79),
//! Drawing (80..=251 here, a fixed-length first-order pipeline) and HBlank;
//! lines 144..=153 are VBlank, entered with exactly one VBlank interrupt
//! request per frame.  The renderer selects up to ten sprites per line,
//! then merges background or window pixels with sprite pixels through two
//! small FIFOs into a 160x144 RGBA framebuffer.

use vstd::prelude::*;

use crate::util::spec_bit8;
use crate::util::bit8;

verus! {

#[derive(Clone, Copy, Debug, PartialEq, Eq, Structural)]
pub enum Mode {
    OamScan,
    Drawing,
    HBlank,
    VBlank,
}

impl Default for Mode {
    fn default() -> (r: Self)
        ensures
            r == Mode::OamScan,
    {
        Mode::OamScan
    }
}

/// One sprite descriptor of the 40 in OAM.
#[derive(Clone, Copy, Debug, PartialEq, Eq, Structural, Default)]
pub struct OAM {
    pub y_position: u8,
    pub x_position: u8,
    pub tile_number: u8,
    pub sprite_flags: u8,
}

impl OAM {
    /// The byte the given OAM address reads inside this 4-byte entry.
    pub open spec fn spec_get(self, address: u16) -> u8 {
        let idx = address % 4;
        if idx == 0 {
            self.y_position
        } else if idx == 1 {
            self.x_position
        } else if idx == 2 {
            self.tile_number
        } else {
            self.sprite_flags
        }
    }

    pub fn get(&self, address: u16) -> (r: u8)
        ensures
            r == self.spec_get(address),
    {
        let idx = address % 4;
        if idx == 0 {
            self.y_position
        } else if idx == 1 {
            self.x_position
        } else if idx == 2 {
            self.tile_number
        } else {
            self.sprite_flags
        }
    }

    pub open spec fn spec_set(self, address: u16, data: u8) -> OAM {
        let idx = address % 4;
        if idx == 0 {
            OAM { y_position: data, ..self }
        } else if idx == 1 {
            OAM { x_position: data, ..self }
        } else if idx == 2 {
            OAM { tile_number: data, ..self }
        } else {
            OAM { sprite_flags: data, ..self }
        }
    }

    pub fn set(&mut self, address: u16, data: u8)
        ensures
            *final(self) == old(self).spec_set(address, data),
    {
        let idx = address % 4;
        if idx == 0 {
            self.y_position = data;
        } else if idx == 1 {
            self.x_position = data;
        } else if idx == 2 {
            self.tile_number = data;
        } else {
            self.sprite_flags = data;
        }
    }
}

/// One entry of a pixel FIFO: a 2-bit color, the sprite palette choice, and
/// the background-priority attribute.
#[derive(Clone, Copy, Debug, PartialEq, Eq, Structural)]
pub struct PixelData {
    pub color: u8,
    pub palette: u8,
    pub sprite_priority: u8,
    pub background_priority: u8,
}

/// The four monochrome shades.
#[derive(Clone, Copy, Debug, PartialEq, Eq, Structural)]
pub enum Color {
    White,
    LightGray,
    DarkGray,
    Black,
}

/// A palette maps the four 2-bit indices to shades.
#[derive(Clone, Copy, Debug)]
pub struct Palette(pub [Color; 4]);

impl Default for Palette {
    fn default() -> (r: Self)
        ensures
            r == Palette([Color::White, Color::LightGray, Color::DarkGray, Color::Black]),
    {
        Palette([Color::White, Color::LightGray, Color::DarkGray, Color::Black])
    }
}

/// The shade a palette register byte assigns to a 2-bit color index:
/// bits `2i+1..=2i` of the register pick the shade of index `i`.
pub open spec fn spec_shade_of(reg: u8, idx: int) -> Color {
    let v = (reg as int / crate::util::spec_pow2(2 * idx)) % 4;
    if v == 0 {
        Color::White
    } else if v == 1 {
        Color::LightGray
    } else if v == 2 {
        Color::DarkGray
    } else {
        Color::Black
    }
}

/// The fixed RGBA bytes of each shade, at offset `k` (0..=3).
pub open spec fn spec_rgba(c: Color, k: int) -> u8 {
    match c {
        Color::White => if k == 3 {
            0xFF
        } else {
            0xFF
        },
        Color::LightGray => if k == 0 {
            0xD8
        } else if k == 1 {
            0xE9
        } else if k == 2 {
            0xA8
        } else {
            0xFF
        },
        Color::DarkGray => if k == 0 {
            0x1E
        } else if k == 1 {
            0x51
        } else if k == 2 {
            0x28
        } else {
            0xFF
        },
        Color::Black => if k == 3 {
            0xFF
        } else {
            0x00
        },
    }
}

pub struct Ppu {
    pub vram: [u8; 8192],
    pub oam: [OAM; 40],
    pub lcd_control: u8,
    /// STAT interrupt source enables, bits 3..=6 as written.
    pub lcd_stat_enable: u8,
    pub scy: u8,
    pub scx: u8,
    pub ly: u8,
    pub lyc: u8,
    pub wy: u8,
    pub wx: u8,
    pub bgp: u8,
    pub obp: [u8; 2],
    pub window_line_counter: u8,
    pub bg_fifo: Vec<PixelData>,
    pub sprite_fifo: Vec<PixelData>,
    /// Selected sprites for the current line, with their OAM index.
    pub sprite_buffer: Vec<(OAM, usize)>,
    pub bg_color_palette: Palette,
    pub obp_color_palette: [Palette; 2],
    /// 160x144 RGBA pixels, row-major, 4 bytes each.
    pub frame_buffer: [u8; 92160],
    /// Dot inside the current scanline, 0..=455.
    pub current_cycle: u16,
    pub mode: Mode,
    /// VBlank interrupt request, consumed by the interrupt collector.
    pub int_vblank: bool,
    /// STAT interrupt request, consumed by the interrupt collector.
    pub int_lcd_stat: bool,
    /// Total VBlank interrupts ever raised: exactly one per frame.
    pub vblank_count: u64,
}

impl Ppu {
    /// The mode the dot position dictates: VBlank on lines 144..=153; on
    /// drawing lines, OAM scan for the first 80 dots, then a fixed-length
    /// Drawing window, then HBlank.
    pub open spec fn spec_mode_of(ly: u8, cc: u16) -> Mode {
        if ly >= 144 {
            Mode::VBlank
        } else if cc < 80 {
            Mode::OamScan
        } else if cc < 252 {
            Mode::Drawing
        } else {
            Mode::HBlank
        }
    }

    /// The data part of well-formedness: counters inside their ranges and
    /// the line buffers inside their fixed capacities.  It holds even
    /// between the sub-steps of a dot, before the mode is recomputed.
    pub open spec fn wf_data(self) -> bool {
        &&& self.ly < 154
        &&& self.current_cycle < 456
        &&& self.sprite_buffer@.len() <= 10
        &&& self.bg_fifo@.len() <= 16
        &&& self.sprite_fifo@.len() <= 16
    }

    pub open spec fn wf(self) -> bool {
        &&& self.wf_data()
        &&& self.mode == Self::spec_mode_of(self.ly, self.current_cycle)
    }

    /// The dot position inside the 70 224-dot frame.
    pub open spec fn spec_pos(self) -> int {
        self.ly * 456 + self.current_cycle
    }

    /// LCDC bit `bit`.
    pub open spec fn spec_lcd_bit(self, bit: int) -> bool {
        spec_bit8(self.lcd_control, bit)
    }

    pub fn read_lcd_bit(&self, bit: u8) -> (r: bool)
        requires
            bit < 8,
        ensures
            r == self.spec_lcd_bit(bit as int),
    {
        bit8(self.lcd_control, bit)
    }

    pub fn lcd_control_write(&mut self, data: u8)
        ensures
            *final(self) == (Ppu { lcd_control: data, ..*old(self) }),
    {
        self.lcd_control = data;
    }

    pub fn lcd_control_read(&self) -> (r: u8)
        ensures
            r == self.lcd_control,
    {
        self.lcd_control
    }

    /// What a STAT read returns: bit 7 high, the enable bits as written,
    /// the LY = LYC coincidence bit, and the mode code in bits 0..=1.
    pub open spec fn spec_stat_read(self) -> u8 {
        (128 + (self.lcd_stat_enable as int / 8) % 16 * 8 + (if self.ly == self.lyc {
            4int
        } else {
            0int
        }) + match self.mode {
            Mode::HBlank => 0int,
            Mode::VBlank => 1int,
            Mode::OamScan => 2int,
            Mode::Drawing => 3int,
        }) as u8
    }

    pub fn read_lcd_stat(&self) -> (r: u8)
        ensures
            r == self.spec_stat_read(),
    {
        128 + (self.lcd_stat_enable / 8) % 16 * 8 + (if self.ly == self.lyc {
            4
        } else {
            0
        }) + match self.mode {
            Mode::HBlank => 0,
            Mode::VBlank => 1,
            Mode::OamScan => 2,
            Mode::Drawing => 3,
        }
    }

    /// A STAT write latches only the interrupt source enables.
    pub fn write_lcd_stat(&mut self, data: u8)
        ensures
            *final(self) == (Ppu { lcd_stat_enable: data, ..*old(self) }),
    {
        self.lcd_stat_enable = data;
    }

    pub fn scy_write(&mut self, data: u8)
        ensures
            *final(self) == (Ppu { scy: data, ..*old(self) }),
    {
        self.scy = data;
    }

    pub fn scy_read(&self) -> (r: u8)
        ensures
            r == self.scy,
    {
        self.scy
    }

    pub fn scx_write(&mut self, data: u8)
        ensures
            *final(self) == (Ppu { scx: data, ..*old(self) }),
    {
        self.scx = data;
    }

    pub fn scx_read(&self) -> (r: u8)
        ensures
            r == self.scx,
    {
        self.scx
    }

    /// LY is the line counter the unit itself drives; writes are dropped.
    pub fn ly_write(&mut self, data: u8)
        ensures
            *final(self) == *old(self),
    {
        let _ = data;
    }

    pub fn ly_read(&self) -> (r: u8)
        ensures
            r == self.ly,
    {
        self.ly
    }

    pub fn lyc_write(&mut self, data: u8)
        ensures
            *final(self) == (Ppu { lyc: data, ..*old(self) }),
    {
        self.lyc = data;
    }

    pub fn lyc_read(&self) -> (r: u8)
        ensures
            r == self.lyc,
    {
        self.lyc
    }

    pub fn wy_write(&mut self, data: u8)
        ensures
            *final(self) == (Ppu { wy: data, ..*old(self) }),
    {
        self.wy = data;
    }

    pub fn wy_read(&self) -> (r: u8)
        ensures
            r == self.wy,
    {
        self.wy
    }

    pub fn wx_write(&mut self, data: u8)
        ensures
            *final(self) == (Ppu { wx: data, ..*old(self) }),
    {
        self.wx = data;
    }

    pub fn wx_read(&self) -> (r: u8)
        ensures
            r == self.wx,
    {
        self.wx
    }

    pub fn bgp_read(&self) -> (r: u8)
        ensures
            r == self.bgp,
    {
        self.bgp
    }

    pub fn bgp_write(&mut self, data: u8)
        ensures
            *final(self) == (Ppu { bgp: data, ..*old(self) }),
    {
        self.bgp = data;
    }

    /// OBP0 at 0xFF48, OBP1 at 0xFF49.
    pub fn read_obp(&self, address: u16) -> (r: u8)
        requires
            0xFF48 <= address <= 0xFF49,
        ensures
            r == self.obp@[address - 0xFF48],
    {
        self.obp[(address - 0xFF48) as usize]
    }

    pub fn write_obp(&mut self, address: u16, data: u8)
        requires
            0xFF48 <= address <= 0xFF49,
        ensures
            *final(self) == (Ppu { obp: final(self).obp, ..*old(self) }),
            final(self).obp@ == old(self).obp@.update(address - 0xFF48, data),
    {
        self.obp[(address - 0xFF48) as usize] = data;
    }

    /// VRAM write, at a VRAM-relative address.
    pub fn write(&mut self, address: u16, data: u8)
        requires
            address < 8192,
        ensures
            *final(self) == (Ppu { vram: final(self).vram, ..*old(self) }),
            final(self).vram@ == old(self).vram@.update(address as int, data),
    {
        self.vram[address as usize] = data;
    }

    /// VRAM read, at a VRAM-relative address.
    pub fn read(&self, address: u16) -> (r: u8)
        requires
            address < 8192,
        ensures
            r == self.vram@[address as int],
    {
        self.vram[address as usize]
    }

    #[allow(non_snake_case)]
    pub fn write_OAM(&mut self, address: u16, data: u8)
        requires
            address < 160,
        ensures
            *final(self) == (Ppu { oam: final(self).oam, ..*old(self) }),
            final(self).oam@ == old(self).oam@.update(
                address as int / 4,
                old(self).oam@[address as int / 4].spec_set(address, data),
            ),
    {
        let idx = (address / 4) as usize;
        let mut entry = self.oam[idx];
        entry.set(address, data);
        self.oam[idx] = entry;
    }

    #[allow(non_snake_case)]
    pub fn read_OAM(&self, address: u16) -> (r: u8)
        requires
            address < 160,
        ensures
            r == self.oam@[address as int / 4].spec_get(address),
    {
        self.oam[(address / 4) as usize].get(address)
    }

    /// Decode BGP into the background palette.
    pub fn assign_bg_palette(&mut self)
        ensures
            *final(self) == (Ppu { bg_color_palette: final(self).bg_color_palette, ..*old(self) }),
            forall|i: int|
                0 <= i < 4 ==> final(self).bg_color_palette.0@[i] == spec_shade_of(
                    old(self).bgp,
                    i,
                ),
    {
        let c0 = shade_of(self.bgp, 0);
        let c1 = shade_of(self.bgp, 1);
        let c2 = shade_of(self.bgp, 2);
        let c3 = shade_of(self.bgp, 3);
        self.bg_color_palette = Palette([c0, c1, c2, c3]);
        proof {
            assert(self.bg_color_palette.0@[0] == spec_shade_of(old(self).bgp, 0));
            assert(self.bg_color_palette.0@[1] == spec_shade_of(old(self).bgp, 1));
            assert(self.bg_color_palette.0@[2] == spec_shade_of(old(self).bgp, 2));
            assert(self.bg_color_palette.0@[3] == spec_shade_of(old(self).bgp, 3));
        }
    }

    /// Decode OBP0 and OBP1 into the two sprite palettes.
    pub fn assign_sprite_palette(&mut self)
        ensures
            *final(self) == (Ppu {
                obp_color_palette: final(self).obp_color_palette,
                ..*old(self)
            }),
            forall|p: int, i: int|
                0 <= p < 2 && 0 <= i < 4 ==> final(self).obp_color_palette@[p].0@[i]
                    == spec_shade_of(old(self).obp@[p], i),
    {
        let p0 = Palette(
            [
                shade_of(self.obp[0], 0),
                shade_of(self.obp[0], 1),
                shade_of(self.obp[0], 2),
                shade_of(self.obp[0], 3),
            ],
        );
        let p1 = Palette(
            [
                shade_of(self.obp[1], 0),
                shade_of(self.obp[1], 1),
                shade_of(self.obp[1], 2),
                shade_of(self.obp[1], 3),
            ],
        );
        self.obp_color_palette = [p0, p1];
        proof {
            assert forall|p: int, i: int| 0 <= p < 2 && 0 <= i < 4 implies self.obp_color_palette@[
                p
            ].0@[i] == spec_shade_of(old(self).obp@[p], i) by {
                assert(self.obp_color_palette@[0] == p0);
                assert(self.obp_color_palette@[1] == p1);
                assert(p0.0@[0] == spec_shade_of(old(self).obp@[0], 0));
                assert(p0.0@[1] == spec_shade_of(old(self).obp@[0], 1));
                assert(p0.0@[2] == spec_shade_of(old(self).obp@[0], 2));
                assert(p0.0@[3] == spec_shade_of(old(self).obp@[0], 3));
                assert(p1.0@[0] == spec_shade_of(old(self).obp@[1], 0));
                assert(p1.0@[1] == spec_shade_of(old(self).obp@[1], 1));
                assert(p1.0@[2] == spec_shade_of(old(self).obp@[1], 2));
                assert(p1.0@[3] == spec_shade_of(old(self).obp@[1], 3));
            }
        }
    }

    /// The RGBA bytes of a background pixel with the given 2-bit color.
    pub fn apply_bg_pixel_color(&self, color_idx: u8) -> (r: [u8; 4])
        requires
            color_idx < 4,
        ensures
            forall|k: int| 0 <= k < 4 ==> r@[k] == spec_rgba(self.bg_color_palette.0@[color_idx as int], k),
    {
        rgba_of(self.bg_color_palette.0[color_idx as usize])
    }

    /// The RGBA bytes of a sprite pixel with the given color and palette.
    pub fn apply_sprite_pixel_color(&self, color_idx: u8, palette: u8) -> (r: [u8; 4])
        requires
            color_idx < 4,
            palette < 2,
        ensures
            forall|k: int|
                0 <= k < 4 ==> r@[k] == spec_rgba(
                    self.obp_color_palette@[palette as int].0@[color_idx as int],
                    k,
                ),
    {
        rgba_of(self.obp_color_palette[palette as usize].0[color_idx as usize])
    }

    /// Post-reset unit: cleared memories and registers, the LCD enabled,
    /// the frame position at the top-left.
    pub fn new() -> (r: Ppu)
        ensures
            r.wf(),
            r.lcd_control == 0x80,
            r.ly == 0,
            r.current_cycle == 0,
            r.vblank_count == 0,
            !r.int_vblank,
            !r.int_lcd_stat,
            forall|k: int| 0 <= k < 8192 ==> r.vram@[k] == 0u8,
            forall|k: int| 0 <= k < 92160 ==> r.frame_buffer@[k] == 0u8,
            r.bg_fifo@.len() == 0,
            r.sprite_fifo@.len() == 0,
            r.sprite_buffer@.len() == 0,
    {
        Ppu {
            vram: [0u8; 8192],
            oam: [OAM {
                y_position: 0,
                x_position: 0,
                tile_number: 0,
                sprite_flags: 0,
            }; 40],
            lcd_control: 0x80,
            lcd_stat_enable: 0,
            scy: 0,
            scx: 0,
            ly: 0,
            lyc: 0,
            wy: 0,
            wx: 0,
            bgp: 0,
            obp: [0u8; 2],
            window_line_counter: 0,
            bg_fifo: Vec::new(),
            sprite_fifo: Vec::new(),
            sprite_buffer: Vec::new(),
            bg_color_palette: Palette(
                [Color::White, Color::LightGray, Color::DarkGray, Color::Black],
            ),
            obp_color_palette: [
                Palette([Color::White, Color::LightGray, Color::DarkGray, Color::Black]),
                Palette([Color::White, Color::LightGray, Color::DarkGray, Color::Black]),
            ],
            frame_buffer: [0u8; 92160],
            current_cycle: 0,
            mode: Mode::OamScan,
            int_vblank: false,
            int_lcd_stat: false,
            vblank_count: 0,
        }
    }

    /// Copy the most recent completed framebuffer out to the host's RGBA
    /// surface.
    pub fn render(&self, frame: &mut Vec<u8>)
        requires
            old(frame)@.len() == 92160,
        ensures
            final(frame)@ == self.frame_buffer@,
    {
        let mut i: usize = 0;
        while i < 92160
            invariant
                i <= 92160,
                frame@.len() == 92160,
                forall|k: int| 0 <= k < i ==> frame@[k] == self.frame_buffer@[k],
            decreases 92160 - i,
        {
            frame[i] = self.frame_buffer[i];
            i = i + 1;
        }
        proof {
            assert(frame@ =~= self.frame_buffer@);
        }
    }
}

impl Ppu {
    /// Whether a sprite covers the given scanline: on screen horizontally,
    /// and the line inside its 8- or 16-row box.
    pub open spec fn spec_sprite_on_line(sp: OAM, ly: u8, height: int) -> bool {
        &&& sp.x_position > 0
        &&& ly + 16 >= sp.y_position
        &&& ly + 16 < sp.y_position + height
    }

    /// The sprite height LCDC bit 2 selects.
    pub open spec fn spec_sprite_height(self) -> int {
        if self.spec_lcd_bit(2) {
            16
        } else {
            8
        }
    }

    /// Select the sprites of the current line: walk all 40 OAM entries in
    /// order, keep those covering the line (at most ten), then order the
    /// kept ones by X coordinate, ties kept in OAM order.
    fn oam_scan(&mut self)
        requires
            old(self).wf_data(),
        ensures
            final(self).wf_data(),
            *final(self) == (Ppu { sprite_buffer: final(self).sprite_buffer, ..*old(self) }),
            final(self).sprite_buffer@.len() <= 10,
            forall|k: int|
                0 <= k < final(self).sprite_buffer@.len() ==> Self::spec_sprite_on_line(
                    #[trigger] final(self).sprite_buffer@[k].0,
                    old(self).ly,
                    old(self).spec_sprite_height(),
                ),
    {
        self.sprite_buffer.clear();
        let sprite_height: u16 = if self.read_lcd_bit(2) {
            16
        } else {
            8
        };
        let ghost ly0 = self.ly;
        let ghost h0 = self.spec_sprite_height();
        let mut i: usize = 0;
        while i < 40
            invariant
                old(self).wf_data(),
                i <= 40,
                *self == (Ppu { sprite_buffer: self.sprite_buffer, ..*old(self) }),
                ly0 == self.ly,
                sprite_height == h0,
                h0 == self.spec_sprite_height(),
                self.sprite_buffer@.len() <= 10,
                forall|k: int|
                    0 <= k < self.sprite_buffer@.len() ==> Self::spec_sprite_on_line(
                        #[trigger] self.sprite_buffer@[k].0,
                        ly0,
                        h0,
                    ),
            decreases 40 - i,
        {
            let sp = self.oam[i];
            if sp.x_position > 0 && self.ly as u16 + 16 >= sp.y_position as u16 && (self.ly as u16
                + 16) < sp.y_position as u16 + sprite_height && self.sprite_buffer.len() < 10 {
                self.sprite_buffer.push((sp, i));
            }
            i = i + 1;
        }

        // Order by X, ties by OAM index: selection by repeated minimum.
        let n = self.sprite_buffer.len();
        let mut a: usize = 0;
        while a < n
            invariant
                old(self).wf_data(),
                n == self.sprite_buffer@.len(),
                a <= n,
                *self == (Ppu { sprite_buffer: self.sprite_buffer, ..*old(self) }),
                ly0 == self.ly,
                h0 == self.spec_sprite_height(),
                self.sprite_buffer@.len() <= 10,
                forall|k: int|
                    0 <= k < self.sprite_buffer@.len() ==> Self::spec_sprite_on_line(
                        #[trigger] self.sprite_buffer@[k].0,
                        ly0,
                        h0,
                    ),
            decreases n - a,
        {
            let mut best: usize = a;
            let mut b: usize = a + 1;
            while b < n
                invariant
                    n == self.sprite_buffer@.len(),
                    a < n,
                    a <= best < n,
                    a < b <= n,
                decreases n - b,
            {
                let cand = self.sprite_buffer[b];
                let cur = self.sprite_buffer[best];
                if cand.0.x_position < cur.0.x_position || (cand.0.x_position == cur.0.x_position
                    && cand.1 < cur.1) {
                    best = b;
                }
                b = b + 1;
            }
            if best != a {
                let x = self.sprite_buffer[a];
                let y = self.sprite_buffer[best];
                self.sprite_buffer[a] = y;
                self.sprite_buffer[best] = x;
                proof {
                    assert(forall|k: int|
                        0 <= k < self.sprite_buffer@.len() ==> Self::spec_sprite_on_line(
                            #[trigger] self.sprite_buffer@[k].0,
                            ly0,
                            h0,
                        ));
                }
            }
            a = a + 1;
        }
    }

    /// The tile map base (VRAM-relative) the given LCDC bit selects.
    pub open spec fn spec_tilemap_base(self, bit: int) -> int {
        if self.spec_lcd_bit(bit) {
            0x1C00
        } else {
            0x1800
        }
    }

    /// The VRAM-relative address of a tile's data, under the LCDC bit 4
    /// addressing mode: unsigned from 0x0000, or signed around 0x1000.
    pub open spec fn spec_tile_data_base(self, tile_number: u8) -> int {
        if self.spec_lcd_bit(4) {
            tile_number * 16
        } else if tile_number < 128 {
            0x1000 + tile_number * 16
        } else {
            0x800 + (tile_number - 128) * 16
        }
    }

    /// The tile-map index of the background pixel column `x` on the line
    /// `y` (both including scroll), wrapped inside the 32x32 map.
    pub open spec fn spec_bg_tile_index(self, y: int, x: u8) -> int {
        (((self.scx + x) as int / 8) % 32 + (y / 8) * 32) % 1024
    }

    /// The 2-bit color of background pixel `j` (0 leftmost) of the 8-pixel
    /// group fetched for column `x` on scanline `scan_line`.
    pub open spec fn spec_bg_pixel_color(self, scan_line: u8, x: u8, j: int) -> u8 {
        let y = scan_line + self.scy;
        let tn = self.vram@[self.spec_tilemap_base(3) + self.spec_bg_tile_index(y as int, x)];
        let addr = self.spec_tile_data_base(tn) + (y as int % 8) * 2;
        let lo = self.vram@[addr];
        let hi = self.vram@[addr + 1];
        ((if spec_bit8(hi, 7 - j) {
            2int
        } else {
            0int
        }) + (if spec_bit8(lo, 7 - j) {
            1int
        } else {
            0int
        })) as u8
    }

    /// A fetched pixel group entry: colors only, background pixels carry no
    /// palette or priority attributes.
    pub open spec fn spec_bg_pixel(self, scan_line: u8, x: u8, j: int) -> PixelData {
        PixelData {
            color: self.spec_bg_pixel_color(scan_line, x, j),
            palette: 0,
            sprite_priority: 0,
            background_priority: 0,
        }
    }

    /// Fetch one 8-pixel background group for column `x` of `scan_line`
    /// into the background FIFO, leftmost pixel first.
    fn bg_fetch(&mut self, scan_line: u8, x_coordinate: u8)
        requires
            old(self).wf_data(),
            old(self).bg_fifo@.len() <= 8,
        ensures
            final(self).wf_data(),
            *final(self) == (Ppu { bg_fifo: final(self).bg_fifo, ..*old(self) }),
            final(self).bg_fifo@ == old(self).bg_fifo@ + Seq::new(
                8,
                |j: int| old(self).spec_bg_pixel(scan_line, x_coordinate, j),
            ),
    {
        let lcd3 = self.read_lcd_bit(3);
        let bg_tile_map_address: usize = if lcd3 {
            0x1C00
        } else {
            0x1800
        };

        let y: usize = scan_line as usize + self.scy as usize;
        let x_offset: usize = ((self.scx as usize + x_coordinate as usize) / 8) % 32;
        let y_offset: usize = (y / 8) * 32;
        let tile_map_idx: usize = (x_offset + y_offset) % 1024;
        let tile_number = self.vram[bg_tile_map_address + tile_map_idx];

        let tile_address = self.tile_data_address(tile_number, (y % 8) as u8);
        let lower_tile_data = self.vram[tile_address];
        let higher_tile_data = self.vram[tile_address + 1];

        let ghost pre = *self;
        let ghost added = Seq::new(8, |j: int| pre.spec_bg_pixel(scan_line, x_coordinate, j));
        let mut j: u8 = 0;
        while j < 8
            invariant
                0 <= j <= 8,
                *self == (Ppu { bg_fifo: self.bg_fifo, ..pre }),
                pre.wf_data(),
                pre.bg_fifo@.len() <= 8,
                lower_tile_data == pre.vram@[pre.spec_tile_data_base(tile_number) + (
                (scan_line + pre.scy) as int % 8) * 2],
                higher_tile_data == pre.vram@[pre.spec_tile_data_base(tile_number) + (
                (scan_line + pre.scy) as int % 8) * 2 + 1],
                tile_number == pre.vram@[pre.spec_tilemap_base(3) + pre.spec_bg_tile_index(
                    (scan_line + pre.scy) as int,
                    x_coordinate,
                )],
                added == Seq::new(8, |j: int| pre.spec_bg_pixel(scan_line, x_coordinate, j)),
                self.bg_fifo@ == pre.bg_fifo@ + added.take(j as int),
            decreases 8 - j,
        {
            let top = if bit8(higher_tile_data, 7 - j) {
                2u8
            } else {
                0u8
            };
            let bottom = if bit8(lower_tile_data, 7 - j) {
                1u8
            } else {
                0u8
            };
            let pixel_data = PixelData {
                color: top + bottom,
                palette: 0,
                sprite_priority: 0,
                background_priority: 0,
            };
            self.bg_fifo.push(pixel_data);
            proof {
                assert(added[j as int] == pixel_data);
                assert(self.bg_fifo@ =~= pre.bg_fifo@ + added.take(j as int + 1));
            }
            j = j + 1;
        }
        proof {
            assert(added.take(8) =~= added);
        }
    }

    /// The VRAM-relative address of row `row` of a tile under the LCDC
    /// bit 4 addressing mode.
    fn tile_data_address(&self, tile_number: u8, row: u8) -> (r: usize)
        requires
            row < 8,
        ensures
            r == self.spec_tile_data_base(tile_number) + row * 2,
            r + 1 < 8192,
    {
        let base: usize = if self.read_lcd_bit(4) {
            tile_number as usize * 16
        } else if tile_number < 128 {
            0x1000 + tile_number as usize * 16
        } else {
            0x800 + (tile_number as usize - 128) * 16
        };
        base + row as usize * 2
    }

    /// The window-relative column of screen column `x`: `x - wx`, wrapped
    /// as the 8-bit hardware subtraction.
    pub open spec fn spec_window_x(self, x: u8) -> int {
        (x - self.wx) % 256
    }

    /// The 2-bit color of window pixel `j` of the group fetched at screen
    /// column `x`; the window row is the window line counter.
    pub open spec fn spec_window_pixel_color(self, x: u8, j: int) -> u8 {
        let wxv = self.spec_window_x(x);
        let idx = ((wxv / 8) % 32 + (self.window_line_counter as int / 8) * 32) % 1024;
        let tn = self.vram@[self.spec_tilemap_base(6) + idx];
        let addr = self.spec_tile_data_base(tn) + (self.window_line_counter as int % 8) * 2;
        let lo = self.vram@[addr];
        let hi = self.vram@[addr + 1];
        ((if spec_bit8(hi, 7 - j) {
            2int
        } else {
            0int
        }) + (if spec_bit8(lo, 7 - j) {
            1int
        } else {
            0int
        })) as u8
    }

    pub open spec fn spec_window_pixel(self, x: u8, j: int) -> PixelData {
        PixelData {
            color: self.spec_window_pixel_color(x, j),
            palette: 0,
            sprite_priority: 0,
            background_priority: 0,
        }
    }

    /// Fetch one 8-pixel window group at screen column `x` into the
    /// background FIFO; the tile map comes from LCDC bit 6 and the row from
    /// the window line counter.
    fn window_fetch(&mut self, x_coordinate: u8)
        requires
            old(self).wf_data(),
            old(self).bg_fifo@.len() <= 8,
        ensures
            final(self).wf_data(),
            *final(self) == (Ppu { bg_fifo: final(self).bg_fifo, ..*old(self) }),
            final(self).bg_fifo@ == old(self).bg_fifo@ + Seq::new(
                8,
                |j: int| old(self).spec_window_pixel(x_coordinate, j),
            ),
    {
        let lcd6 = self.read_lcd_bit(6);
        let window_tile_map_address: usize = if lcd6 {
            0x1C00
        } else {
            0x1800
        };

        let window_x: usize = if x_coordinate >= self.wx {
            (x_coordinate - self.wx) as usize
        } else {
            x_coordinate as usize + 256 - self.wx as usize
        };
        proof {
            assert(window_x == (x_coordinate - self.wx) % 256) by (nonlinear_arith)
                requires
                    window_x == if x_coordinate >= self.wx {
                        (x_coordinate - self.wx) as int
                    } else {
                        x_coordinate + 256 - self.wx
                    },
                    0 <= x_coordinate < 256,
                    0 <= self.wx < 256,
            ;
        }
        let x_offset: usize = (window_x / 8) % 32;
        let y_offset: usize = (self.window_line_counter as usize / 8) * 32;
        let tile_map_idx: usize = (x_offset + y_offset) % 1024;
        let tile_number = self.vram[window_tile_map_address + tile_map_idx];

        let tile_address = self.tile_data_address(tile_number, self.window_line_counter % 8);
        let lower_tile_data = self.vram[tile_address];
        let higher_tile_data = self.vram[tile_address + 1];

        let ghost pre = *self;
        let ghost added = Seq::new(8, |j: int| pre.spec_window_pixel(x_coordinate, j));
        let mut j: u8 = 0;
        while j < 8
            invariant
                0 <= j <= 8,
                *self == (Ppu { bg_fifo: self.bg_fifo, ..pre }),
                pre.wf_data(),
                pre.bg_fifo@.len() <= 8,
                lower_tile_data == pre.vram@[pre.spec_tile_data_base(tile_number) + (
                pre.window_line_counter as int % 8) * 2],
                higher_tile_data == pre.vram@[pre.spec_tile_data_base(tile_number) + (
                pre.window_line_counter as int % 8) * 2 + 1],
                tile_number == pre.vram@[pre.spec_tilemap_base(6) + ((pre.spec_window_x(
                    x_coordinate,
                ) / 8) % 32 + (pre.window_line_counter as int / 8) * 32) % 1024],
                added == Seq::new(8, |j: int| pre.spec_window_pixel(x_coordinate, j)),
                self.bg_fifo@ == pre.bg_fifo@ + added.take(j as int),
            decreases 8 - j,
        {
            let top = if bit8(higher_tile_data, 7 - j) {
                2u8
            } else {
                0u8
            };
            let bottom = if bit8(lower_tile_data, 7 - j) {
                1u8
            } else {
                0u8
            };
            let pixel_data = PixelData {
                color: top + bottom,
                palette: 0,
                sprite_priority: 0,
                background_priority: 0,
            };
            self.bg_fifo.push(pixel_data);
            proof {
                assert(added[j as int] == pixel_data);
                assert(self.bg_fifo@ =~= pre.bg_fifo@ + added.take(j as int + 1));
            }
            j = j + 1;
        }
        proof {
            assert(added.take(8) =~= added);
        }
    }

    /// Whether the window owns the pixel at screen column `x`: enabled by
    /// LCDC bit 5, its top line reached, and `x + 7 >= WX`.
    pub open spec fn spec_is_window_rendering(self, x: u8) -> bool {
        &&& self.spec_lcd_bit(5)
        &&& self.ly >= self.wy
        &&& x + 7 >= self.wx
    }

    fn is_window_rendering(&self, x_coordinate: u8) -> (r: bool)
        ensures
            r == self.spec_is_window_rendering(x_coordinate),
    {
        let lcd5 = self.read_lcd_bit(5);
        let is_window_line = self.ly >= self.wy;
        let is_window_x_pos = x_coordinate as u16 + 7 >= self.wx as u16;
        lcd5 && is_window_line && is_window_x_pos
    }

    /// Fill the whole scanline `ly` of the framebuffer: per pixel, refill
    /// the background FIFO from the window or background fetcher as
    /// needed, fetch sprite pixels for sprites starting here, drop the
    /// fine-scroll remainder at the left edge, then merge one background
    /// and one sprite pixel by the priority rule and write the palette
    /// color.  The window line counter steps when the window was drawn.
    /// Both FIFOs end the line empty.
    #[verifier::rlimit(100)]
    fn fetch(&mut self)
        requires
            old(self).wf_data(),
            old(self).ly < 144,
        ensures
            final(self).wf_data(),
            *final(self) == (Ppu {
                bg_fifo: final(self).bg_fifo,
                sprite_fifo: final(self).sprite_fifo,
                frame_buffer: final(self).frame_buffer,
                window_line_counter: final(self).window_line_counter,
                ..*old(self)
            }),
            final(self).bg_fifo@.len() == 0,
            final(self).sprite_fifo@.len() == 0,
            forall|k: int|
                0 <= k < 92160 && !(old(self).ly * 640 <= k < old(self).ly * 640 + 640)
                    ==> final(self).frame_buffer@[k] == old(self).frame_buffer@[k],
    {
        self.bg_fifo.clear();
        self.sprite_fifo.clear();
        let scan_line = self.ly;
        let ghost pre = *self;
        let mut window_drawn = false;

        let mut x: u8 = 0;
        while x < 160
            invariant
                pre.wf_data(),
                pre.ly < 144,
                x <= 160,
                scan_line == pre.ly,
                *self == (Ppu {
                    bg_fifo: self.bg_fifo,
                    sprite_fifo: self.sprite_fifo,
                    frame_buffer: self.frame_buffer,
                    ..pre
                }),
                self.bg_fifo@.len() <= 8,
                self.sprite_fifo@.len() <= 8,
                x == 0 ==> self.bg_fifo@.len() == 0,
                forall|k: int|
                    0 <= k < 92160 && !(pre.ly * 640 <= k < pre.ly * 640 + 640)
                        ==> self.frame_buffer@[k] == pre.frame_buffer@[k],
            decreases 160 - x,
        {
            if self.is_window_rendering(x) {
                self.bg_fifo.clear();
                self.window_fetch(x);
                window_drawn = true;
            }

            if self.bg_fifo.len() == 0 {
                self.bg_fetch(scan_line, x);
            }

            if self.sprite_fifo.len() == 0 {
                self.oam_fetch(x);
            }

            if x == 0 {
                let discard = self.scx % 8;
                let ghost pd = *self;
                let mut d: u8 = 0;
                while d < discard
                    invariant
                        d <= discard,
                        discard < 8,
                        *self == (Ppu { bg_fifo: self.bg_fifo, ..pd }),
                        self.bg_fifo@.len() + d == pd.bg_fifo@.len(),
                        pd.bg_fifo@.len() == 8,
                    decreases discard - d,
                {
                    let _ = self.bg_fifo.remove(0);
                    d = d + 1;
                }
            }

            let bg_pixel = self.bg_fifo.remove(0);
            let sprite_pixel = if self.sprite_fifo.len() > 0 {
                self.sprite_fifo.remove(0)
            } else {
                PixelData { color: 0, palette: 0, sprite_priority: 0, background_priority: 0 }
            };

            let bg_color_idx = bg_pixel.color % 4;
            let color: [u8; 4] = if sprite_pixel.color == 0 {
                self.apply_bg_pixel_color(bg_color_idx)
            } else if sprite_pixel.background_priority > 0 && bg_color_idx != 0 {
                self.apply_bg_pixel_color(bg_color_idx)
            } else {
                self.apply_sprite_pixel_color(sprite_pixel.color % 4, sprite_pixel.palette % 2)
            };

            let base: usize = (scan_line as usize * 160 + x as usize) * 4;
            self.frame_buffer[base] = color[0];
            self.frame_buffer[base + 1] = color[1];
            self.frame_buffer[base + 2] = color[2];
            self.frame_buffer[base + 3] = color[3];

            x = x + 1;
        }

        self.bg_fifo.clear();
        self.sprite_fifo.clear();

        if window_drawn {
            if self.window_line_counter == 255 {
                self.window_line_counter = 0;
            } else {
                self.window_line_counter = self.window_line_counter + 1;
            }
        }
    }

    /// Fetch the pixels of the first selected sprite that starts at screen
    /// column `x` into the (empty) sprite FIFO, honouring the X/Y flips,
    /// the 8x16 tile-pair selection, the palette bit and the
    /// background-priority bit.
    fn oam_fetch(&mut self, x_coordinate: u8)
        requires
            old(self).wf_data(),
            old(self).sprite_fifo@.len() == 0,
        ensures
            final(self).wf_data(),
            *final(self) == (Ppu { sprite_fifo: final(self).sprite_fifo, ..*old(self) }),
            final(self).sprite_fifo@.len() <= 8,
    {
        // Find the first sprite whose box covers this column.
        let mut found: usize = self.sprite_buffer.len();
        let mut i: usize = 0;
        while i < self.sprite_buffer.len()
            invariant_except_break
                i <= self.sprite_buffer@.len(),
                found == self.sprite_buffer@.len(),
            ensures
                found <= self.sprite_buffer@.len(),
                found < self.sprite_buffer@.len() ==> self.sprite_buffer@.len() > 0,
            decreases self.sprite_buffer@.len() - i,
        {
            let sp = self.sprite_buffer[i].0;
            if sp.x_position as u16 <= x_coordinate as u16 + 8 && x_coordinate <= sp.x_position {
                found = i;
                break ;
            }
            i = i + 1;
        }
        if found >= self.sprite_buffer.len() {
            return;
        }

        let target = self.sprite_buffer[found].0;
        let y_position = target.y_position;
        let x_position = target.x_position;
        let tile_number = target.tile_number;
        let sprite_flags = target.sprite_flags;

        let palette_number: u8 = if bit8(sprite_flags, 4) {
            1
        } else {
            0
        };
        let x_flip = bit8(sprite_flags, 5);
        let y_flip = bit8(sprite_flags, 6);
        let priority: u8 = if bit8(sprite_flags, 7) {
            1
        } else {
            0
        };
        let scan_line = self.ly;

        let sprite_size: u8 = if self.read_lcd_bit(2) {
            16
        } else {
            8
        };
        let x_limit: u8 = if x_position >= x_coordinate {
            x_position - x_coordinate
        } else {
            0
        };

        let row: u16 = (scan_line as u16 + 16 + 256 - y_position as u16) % 256;

        let tile_address: usize = if sprite_size == 8 {
            let mut tile_vertical_offset: u8 = (2 * (row % 8)) as u8;
            if y_flip {
                tile_vertical_offset = 14 - tile_vertical_offset;
            }
            tile_number as usize * 16 + tile_vertical_offset as usize
        } else {
            let mut tile_vertical_offset: u8 = (2 * (row % 16)) as u8;
            if y_flip {
                tile_vertical_offset = 30 - tile_vertical_offset;
            }
            if tile_vertical_offset >= 16 {
                let bottom_tile_number = tile_number | 1;
                bottom_tile_number as usize * 16 + (tile_vertical_offset as usize - 16)
            } else {
                let top_tile_number = tile_number & 0xFE;
                top_tile_number as usize * 16 + tile_vertical_offset as usize
            }
        };
        proof {
            assert(tile_address + 1 < 8192);
        }

        let lower_tile_data = self.vram[tile_address];
        let higher_tile_data = self.vram[tile_address + 1];

        let mut i: u8 = 0;
        while i < 8
            invariant_except_break
                i <= 8,
                self.sprite_fifo@.len() == i,
            invariant
                *self == (Ppu { sprite_fifo: self.sprite_fifo, ..*old(self) }),
                old(self).wf_data(),
            ensures
                self.sprite_fifo@.len() <= 8,
            decreases 8 - i,
        {
            let bit: u8 = if x_flip {
                7 - i
            } else {
                i
            };
            let top = if bit8(higher_tile_data, bit) {
                2u8
            } else {
                0u8
            };
            let bottom = if bit8(lower_tile_data, bit) {
                1u8
            } else {
                0u8
            };

            let pixel_data = PixelData {
                color: top + bottom,
                background_priority: priority,
                palette: palette_number,
                sprite_priority: 0,
            };
            self.sprite_fifo.push(pixel_data);

            if self.sprite_fifo.len() >= x_limit as usize {
                break ;
            }
            i = i + 1;
        }
    }
}

impl Ppu {
    /// Whether the PPU's externally visible configuration is untouched: two
    /// states that agree on everything the CPU programs (memories,
    /// registers, palettes in their raw form).
    pub open spec fn same_config(self, other: Ppu) -> bool {
        &&& other.vram == self.vram
        &&& other.oam == self.oam
        &&& other.lcd_control == self.lcd_control
        &&& other.lcd_stat_enable == self.lcd_stat_enable
        &&& other.scy == self.scy
        &&& other.scx == self.scx
        &&& other.lyc == self.lyc
        &&& other.wy == self.wy
        &&& other.wx == self.wx
        &&& other.bgp == self.bgp
        &&& other.obp == self.obp
    }

    /// The dot position at which the frame enters VBlank (line 144).
    pub open spec fn spec_vblank_pos() -> int {
        144int * 456
    }

    /// How many times an advance of `t` dots from position `pos` crosses
    /// the VBlank boundary: the frame position shifted so the boundary sits
    /// at the wrap point, advanced by `t`, divided by the frame length.
    pub open spec fn spec_crossings(pos: int, t: int) -> int {
        ((pos + 70224 - Self::spec_vblank_pos()) % 70224 + t) / 70224
    }

    /// One dot: advance the scanline dot counter, wrapping through lines
    /// and frames; run the per-line work at the mode boundaries (sprite
    /// scan and palettes entering Drawing, the line render entering
    /// HBlank); raise the VBlank interrupt exactly at the frame position
    /// where line 144 begins, and STAT interrupts for the enabled sources.
    fn tick_dot(&mut self)
        requires
            old(self).wf(),
        ensures
            final(self).wf(),
            old(self).same_config(*final(self)),
            final(self).spec_pos() == (old(self).spec_pos() + 1) % 70224,
            old(self).vblank_count < 0xFFFF_FFFF_FFFF_FFFF ==> final(self).vblank_count == old(
                self,
            ).vblank_count + (if old(self).spec_pos() == Self::spec_vblank_pos() - 1 {
                1int
            } else {
                0int
            }),
            final(self).int_vblank == (old(self).int_vblank || old(self).spec_pos()
                == Self::spec_vblank_pos() - 1),
            final(self).vblank_count >= old(self).vblank_count,
    {
        if self.current_cycle == 455 {
            self.current_cycle = 0;
            let new_ly: u8 = if self.ly == 153 {
                0
            } else {
                self.ly + 1
            };
            self.ly = new_ly;
            if new_ly == 144 {
                self.int_vblank = true;
                if self.vblank_count < 0xFFFF_FFFF_FFFF_FFFF {
                    self.vblank_count = self.vblank_count + 1;
                }
                self.window_line_counter = 0;
                if bit8(self.lcd_stat_enable, 4) {
                    self.int_lcd_stat = true;
                }
            }
            if new_ly < 144 && bit8(self.lcd_stat_enable, 5) {
                self.int_lcd_stat = true;
            }
            if new_ly == self.lyc && bit8(self.lcd_stat_enable, 6) {
                self.int_lcd_stat = true;
            }
        } else {
            self.current_cycle = self.current_cycle + 1;
            if self.ly < 144 {
                if self.current_cycle == 80 {
                    self.oam_scan();
                    self.assign_bg_palette();
                    self.assign_sprite_palette();
                } else if self.current_cycle == 252 {
                    self.fetch();
                    if bit8(self.lcd_stat_enable, 3) {
                        self.int_lcd_stat = true;
                    }
                }
            }
        }
        self.mode = if self.ly >= 144 {
            Mode::VBlank
        } else if self.current_cycle < 80 {
            Mode::OamScan
        } else if self.current_cycle < 252 {
            Mode::Drawing
        } else {
            Mode::HBlank
        };
    }

    /// Advance the pixel pipeline by the given number of T-cycles.  With
    /// the LCD enabled the frame position moves forward by exactly that
    /// many dots (modulo the 70 224-dot frame), the VBlank interrupt and
    /// counter rise exactly at each crossing of the line-144 boundary, and
    /// nothing the CPU programs is touched.  With the LCD off the unit is
    /// inert.
    pub fn tick(&mut self, cycles: u8)
        requires
            old(self).wf(),
        ensures
            final(self).wf(),
            !old(self).spec_lcd_bit(7) ==> *final(self) == *old(self),
            old(self).spec_lcd_bit(7) ==> ({
                &&& old(self).same_config(*final(self))
                &&& final(self).spec_pos() == (old(self).spec_pos() + cycles) % 70224
                &&& (old(self).vblank_count < 0xFFFF_FFFF_FFFF_0000 ==> final(self).vblank_count
                    == old(self).vblank_count + Self::spec_crossings(
                    old(self).spec_pos(),
                    cycles as int,
                ))
                &&& final(self).int_vblank == (old(self).int_vblank || Self::spec_crossings(
                    old(self).spec_pos(),
                    cycles as int,
                ) > 0)
            }),
            final(self).vblank_count >= old(self).vblank_count,
    {
        if !self.read_lcd_bit(7) {
            return;
        }

        let ghost pos0 = old(self).spec_pos();
        let ghost s0 = (pos0 + 70224 - Self::spec_vblank_pos()) % 70224;
        proof {
            vstd::arithmetic::div_mod::lemma_fundamental_div_mod(
                pos0 + 70224 - Self::spec_vblank_pos(),
                70224,
            );
        }

        let mut i: u8 = 0;
        while i < cycles
            invariant
                i <= cycles,
                self.wf(),
                old(self).wf(),
                old(self).spec_lcd_bit(7),
                old(self).same_config(*self),
                pos0 == old(self).spec_pos(),
                s0 == (pos0 + 70224 - Self::spec_vblank_pos()) % 70224,
                0 <= s0 < 70224,
                self.spec_pos() == (pos0 + i) % 70224,
                old(self).vblank_count < 0xFFFF_FFFF_FFFF_0000 ==> self.vblank_count == old(
                    self,
                ).vblank_count + (s0 + i) / 70224,
                self.vblank_count >= old(self).vblank_count,
                self.int_vblank == (old(self).int_vblank || (s0 + i) / 70224 > 0),
            decreases cycles - i,
        {
            let ghost pre_pos = self.spec_pos();
            proof {
                lemma_pos_step(pos0, s0, i as int);
            }
            self.tick_dot();
            i = i + 1;
        }
    }
}

/// The bridge for one dot of frame-position arithmetic: stepping from
/// position `(pos0 + i) % 70224` by one dot lands on `(pos0 + i + 1) %
/// 70224`, and the step crosses the VBlank boundary exactly when the
/// shifted position `s0 + i` completes a multiple of the frame length.
proof fn lemma_pos_step(pos0: int, s0: int, i: int)
    requires
        0 <= pos0 < 70224,
        s0 == (pos0 + 70224 - Ppu::spec_vblank_pos()) % 70224,
        0 <= i < 70224,
    ensures
        ((pos0 + i) % 70224 + 1) % 70224 == (pos0 + i + 1) % 70224,
        ((pos0 + i) % 70224 == Ppu::spec_vblank_pos() - 1) <==> ((s0 + i) % 70224 == 70223),
        (s0 + i + 1) / 70224 == (s0 + i) / 70224 + (if (s0 + i) % 70224 == 70223 {
            1int
        } else {
            0int
        }),
{
    let d = 70224int;
    let v = Ppu::spec_vblank_pos();

    vstd::arithmetic::div_mod::lemma_fundamental_div_mod(pos0 + i, d);
    let r = (pos0 + i) % d;
    let q = (pos0 + i) / d;
    vstd::arithmetic::div_mod::lemma_mod_bound(pos0 + i, d);
    if r == d - 1 {
        vstd::arithmetic::div_mod::lemma_fundamental_div_mod_converse(pos0 + i + 1, d, q + 1, 0);
        vstd::arithmetic::div_mod::lemma_fundamental_div_mod_converse(r + 1, d, 1, 0);
    } else {
        vstd::arithmetic::div_mod::lemma_fundamental_div_mod_converse(pos0 + i + 1, d, q, r + 1);
        vstd::arithmetic::div_mod::lemma_fundamental_div_mod_converse(r + 1, d, 0, r + 1);
    }

    // The shifted position tracks the plain one: s0 + i = pos0 + i + (d - v)
    // modulo d, so their residues correspond.
    vstd::arithmetic::div_mod::lemma_fundamental_div_mod(pos0 + d - v, d);
    vstd::arithmetic::div_mod::lemma_mod_bound(pos0 + d - v, d);
    let k0 = (pos0 + d - v) / d;
    assert(s0 + i == pos0 + i + d - v - k0 * d);
    vstd::arithmetic::div_mod::lemma_fundamental_div_mod(s0 + i, d);
    vstd::arithmetic::div_mod::lemma_mod_bound(s0 + i, d);
    let sr = (s0 + i) % d;
    let sq = (s0 + i) / d;
    if r < v {
        // pos0 + i == q*d + r, so s0 + i == (q - k0)*d + (r + d - v),
        // with 0 <= r + d - v < d.
        assert(s0 + i == (q - k0) * d + (r + d - v)) by (nonlinear_arith)
            requires
                s0 + i == pos0 + i + d - v - k0 * d,
                pos0 + i == q * d + r,
        ;
        vstd::arithmetic::div_mod::lemma_fundamental_div_mod_converse(
            s0 + i,
            d,
            q - k0,
            r + d - v,
        );
        assert(sr == r + d - v);
    } else {
        // s0 + i == (q - k0 + 1)*d + (r - v), with 0 <= r - v < d.
        assert(s0 + i == (q - k0 + 1) * d + (r - v)) by (nonlinear_arith)
            requires
                s0 + i == pos0 + i + d - v - k0 * d,
                pos0 + i == q * d + r,
        ;
        vstd::arithmetic::div_mod::lemma_fundamental_div_mod_converse(
            s0 + i,
            d,
            q - k0 + 1,
            r - v,
        );
        assert(sr == r - v);
        assert(sr <= d - 1 - v);
    }

    if sr == d - 1 {
        vstd::arithmetic::div_mod::lemma_fundamental_div_mod_converse(s0 + i + 1, d, sq + 1, 0);
    } else {
        vstd::arithmetic::div_mod::lemma_fundamental_div_mod_converse(s0 + i + 1, d, sq, sr + 1);
    }
}

/// Adding to a wrapped position lands where adding to the plain one does:
/// reducing the first summand modulo the frame length first changes nothing.
pub proof fn lemma_mod_add_assoc(a: int, c: int)
    requires
        0 <= a,
        0 <= c,
    ensures
        ((a % 70224) + c) % 70224 == (a + c) % 70224,
{
    vstd::arithmetic::div_mod::lemma_add_mod_noop(a, c, 70224);
    vstd::arithmetic::div_mod::lemma_add_mod_noop(a % 70224, c, 70224);
    vstd::arithmetic::div_mod::lemma_mod_twice(a, 70224);
    vstd::arithmetic::div_mod::lemma_mod_twice(c, 70224);
}

/// Crossing counts compose: advancing `t1` dots and then `t2` dots from the
/// wrapped position crosses the VBlank boundary as often as advancing
/// `t1 + t2` dots at once.  With this, the per-tick crossing counts of any
/// sequence of ticks sum to the count of the whole span.
pub proof fn lemma_crossings_compose(pos: int, t1: int, t2: int)
    requires
        0 <= pos < 70224,
        0 <= t1,
        0 <= t2,
    ensures
        Ppu::spec_crossings(pos, t1 + t2) == Ppu::spec_crossings(pos, t1) + Ppu::spec_crossings(
            (pos + t1) % 70224,
            t2,
        ),
{
    let d = 70224int;
    let v = Ppu::spec_vblank_pos();
    let s = (pos + d - v) % d;
    vstd::arithmetic::div_mod::lemma_mod_bound(pos + d - v, d);

    // The shift past the boundary commutes with advancing: the shifted
    // image of the advanced position is the advanced shifted position,
    // modulo the frame.
    vstd::arithmetic::div_mod::lemma_add_mod_noop(pos + t1, d - v, d);
    vstd::arithmetic::div_mod::lemma_mod_twice(pos + t1, d);
    vstd::arithmetic::div_mod::lemma_small_mod((d - v) as nat, d as nat);
    assert(((pos + t1) % d + d - v) % d == ((pos + t1) % d % d + (d - v) % d) % d);
    assert(((pos + t1) % d + d - v) % d == (pos + t1 + d - v) % d);
    vstd::arithmetic::div_mod::lemma_add_mod_noop(pos + d - v, t1, d);
    vstd::arithmetic::div_mod::lemma_mod_twice(t1, d);
    assert((s + t1 % d) % d == (pos + d - v + t1) % d);
    vstd::arithmetic::div_mod::lemma_add_mod_noop(s, t1, d);
    vstd::arithmetic::div_mod::lemma_small_mod(s as nat, d as nat);
    assert((s + t1) % d == (s % d + t1 % d) % d);
    assert((s + t1) % d == (pos + t1 + d - v) % d);
    let s2 = ((pos + t1) % d + d - v) % d;
    assert(s2 == (s + t1) % d);

    // Quotients split at the remainder: (s + t1 + t2) / d is the first
    // advance's quotient plus the quotient of the rest from the remainder.
    let x = s + t1;
    vstd::arithmetic::div_mod::lemma_fundamental_div_mod(x, d);
    let q = x / d;
    let r = x % d;
    vstd::arithmetic::div_mod::lemma_mod_bound(x, d);
    vstd::arithmetic::div_mod::lemma_fundamental_div_mod(r + t2, d);
    let k = (r + t2) / d;
    let m = (r + t2) % d;
    vstd::arithmetic::div_mod::lemma_mod_bound(r + t2, d);
    assert(x + t2 == (q + k) * d + m) by (nonlinear_arith)
        requires
            x == q * d + r,
            r + t2 == k * d + m,
    ;
    vstd::arithmetic::div_mod::lemma_fundamental_div_mod_converse(x + t2, d, q + k, m);
}

/// Exactly one VBlank interrupt is raised per frame: an advance of one full
/// frame (70 224 dots) from any position crosses the boundary exactly once,
/// and a shorter advance crosses it at most once.
pub proof fn lemma_one_vblank_per_frame(pos: int, t: int)
    requires
        0 <= pos < 70224,
    ensures
        Ppu::spec_crossings(pos, 70224) == 1,
        0 <= t <= 70224 ==> Ppu::spec_crossings(pos, t) <= 1,
{
    let d = 70224int;
    let v = Ppu::spec_vblank_pos();
    let s = (pos + d - v) % d;
    vstd::arithmetic::div_mod::lemma_mod_bound(pos + d - v, d);
    vstd::arithmetic::div_mod::lemma_fundamental_div_mod_converse(s + d, d, 1, s);
    if 0 <= t <= d {
        if s + t < d {
            vstd::arithmetic::div_mod::lemma_basic_div(s + t, d);
        } else {
            vstd::arithmetic::div_mod::lemma_fundamental_div_mod_converse(s + t, d, 1, s + t - d);
        }
    }
}

/// Exactly 70 224 dots elapse between two consecutive frame boundaries:
/// starting right at the VBlank boundary, no advance shorter than a full
/// frame crosses it again, and the advance of exactly one frame is the
/// first that does, returning to the boundary.
pub proof fn lemma_frame_period(t: int)
    requires
        0 <= t <= 70224,
    ensures
        Ppu::spec_crossings(144int * 456, t) == if t == 70224 {
            1int
        } else {
            0int
        },
        (144int * 456 + t) % 70224 == 144int * 456 <==> (t == 0 || t == 70224),
{
    let d = 70224int;
    let v = 144 * 456int;
    vstd::arithmetic::div_mod::lemma_fundamental_div_mod_converse(v + d - v, d, 1, 0);
    assert((v + d - v) % d == 0);
    if t < d {
        vstd::arithmetic::div_mod::lemma_basic_div(t, d);
    } else {
        vstd::arithmetic::div_mod::lemma_fundamental_div_mod_converse(t, d, 1, 0);
    }
    if t < d - v {
        vstd::arithmetic::div_mod::lemma_small_mod((v + t) as nat, d as nat);
    } else {
        vstd::arithmetic::div_mod::lemma_fundamental_div_mod_converse(v + t, d, 1, v + t - d);
    }
}

/// Decode one index of a palette register byte into its shade.
pub fn shade_of(reg: u8, idx: u8) -> (r: Color)
    requires
        idx < 4,
    ensures
        r == spec_shade_of(reg, idx as int),
{
    proof {
        reveal_with_fuel(crate::util::spec_pow2, 8);
    }
    let v = if idx == 0 {
        reg % 4
    } else if idx == 1 {
        reg / 4 % 4
    } else if idx == 2 {
        reg / 16 % 4
    } else {
        reg / 64 % 4
    };
    if v == 0 {
        Color::White
    } else if v == 1 {
        Color::LightGray
    } else if v == 2 {
        Color::DarkGray
    } else {
        Color::Black
    }
}

/// The fixed RGBA encoding of a shade.
pub fn rgba_of(c: Color) -> (r: [u8; 4])
    ensures
        forall|k: int| 0 <= k < 4 ==> r@[k] == spec_rgba(c, k),
{
    let out = match c {
        Color::White => [0xFFu8, 0xFF, 0xFF, 0xFF],
        Color::LightGray => [0xD8u8, 0xE9, 0xA8, 0xFF],
        Color::DarkGray => [0x1Eu8, 0x51, 0x28, 0xFF],
        Color::Black => [0x00u8, 0x00, 0x00, 0xFF],
    };
    proof {
        assert(out@[0] == spec_rgba(c, 0));
        assert(out@[1] == spec_rgba(c, 1));
        assert(out@[2] == spec_rgba(c, 2));
        assert(out@[3] == spec_rgba(c, 3));
    }
    out
}

} // verus!
