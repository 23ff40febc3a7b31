//! The pixel processing unit: its registers, video RAM and object attribute
//! memory, the scanline state machine, and the renderer of one line.
use vstd::prelude::*;
use vstd::array::spec_array_fill_for_copy_type;
use vstd::array::spec_array_update;
use crate::alu::signed;
use crate::bits::has_bit;
use crate::bits::test_bit;

verus! {

/// Dots of a scanline spent searching the object attribute memory.
pub const OAM_SEARCH_CYCLES: u32 = 80;

/// Dots of a scanline spent transferring pixels.
pub const PIXEL_CYCLES: u32 = 172;

/// Dots of a whole scanline.
pub const LINE_CYCLES: u32 = 456;

/// Visible columns.
pub const COLS: usize = 160;

/// Bytes of video RAM.
pub const VRAM_SIZE: usize = 8_192;

/// Bytes of object attribute memory: 40 sprites of 4 bytes.
pub const OAM_SIZE: usize = 160;

/// Pixels of the frame buffer: 160 columns by 144 rows.
pub const FRAME_SIZE: usize = 23_040;

/// Sprites that one line can show.
pub const LINE_SPRITES: usize = 10;

/// The line that the unit raises when it enters the vertical blank.
pub const PPU_VBLANK_INTERRUPT: u8 = 0x01;

/// The line that the unit raises on the events that STAT selects.
pub const PPU_STAT_INTERRUPT: u8 = 0x02;

/// What the unit is doing on the current scanline.
#[derive(Copy, Clone, Debug, PartialEq, Eq, Structural)]
pub enum Mode {
    HBlank,
    VBlank,
    SearchOam,
    Transfering,
}

impl Mode {
    /// The number that STAT shows for the mode in its two low bits.
    pub open spec fn number(self) -> u8 {
        match self {
            Mode::HBlank => 0,
            Mode::VBlank => 1,
            Mode::SearchOam => 2,
            Mode::Transfering => 3,
        }
    }

    /// The number that STAT shows for the mode.
    pub fn bits(self) -> (n: u8)
        ensures
            n == self.number(),
    {
        match self {
            Mode::HBlank => 0,
            Mode::VBlank => 1,
            Mode::SearchOam => 2,
            Mode::Transfering => 3,
        }
    }
}

/// The four shades of the screen.
#[derive(Copy, Clone, Debug, PartialEq, Eq, Structural)]
pub enum Color {
    White,
    LGray,
    DGray,
    Black,
}

impl Color {
    /// The shade that the two low bits of a value stand for.
    pub open spec fn of_int(value: u8) -> Color {
        if value % 4 == 0 {
            Color::White
        } else if value % 4 == 1 {
            Color::LGray
        } else if value % 4 == 2 {
            Color::DGray
        } else {
            Color::Black
        }
    }

    /// The shade that the two low bits of a value stand for.
    pub fn from_int(value: u8) -> (color: Color)
        ensures
            color == Color::of_int(value),
    {
        match value % 4 {
            0 => Color::White,
            1 => Color::LGray,
            2 => Color::DGray,
            _ => Color::Black,
        }
    }
}

/// A sprite picked for the current line, with its attributes as they were
/// when the line was searched.
#[derive(Copy, Clone, Debug, PartialEq, Eq, Structural)]
pub struct SpriteInfo {
    /// The first line that the sprite covers.
    pub y: u8,
    /// The first column that the sprite covers.
    pub x: u8,
    /// The tile that holds its pixels.
    pub tile: u8,
    /// Bit 7 priority, bit 6 vertical flip, bit 5 horizontal flip, bit 4 palette.
    pub flags: u8,
    /// Where its attributes start in the object attribute memory.
    pub index: u8,
}

pub struct Ppu {
    pub vram: [u8; VRAM_SIZE],
    pub oam: [u8; OAM_SIZE],
    /// The frame buffer, row after row, one shade (0 to 3) per pixel.
    pub data: [u8; FRAME_SIZE],
    /// The sprites picked for the current line, in the order of the object
    /// attribute memory; `sprite_count` of them are in use.
    pub sprites: [SpriteInfo; LINE_SPRITES],
    pub sprite_count: u8,
    /// Dots gone by on the current scanline.
    pub ticks: u32,
    pub mode: Mode,
    pub lcdc: u8,
    pub ly: u8,
    pub lyc: u8,
    pub scy: u8,
    pub scx: u8,
    pub winx: u8,
    pub winy: u8,
    pub bgp: u8,
    pub obp0: u8,
    pub obp1: u8,
    /// The vertical-blank line is raised and not yet taken.
    pub vblank_line: bool,
    /// The STAT line is raised and not yet taken.
    pub stat_line: bool,
    /// A frame is complete and the host has not yet taken it.
    pub frame_ready: bool,
    pub hblank_interrupt_enabled: bool,
    pub vblank_interrupt_enabled: bool,
    pub oam_interrupt_enabled: bool,
    pub lyc_interrupt_enabled: bool,
}

/// 1 for a condition that holds, weighted.
pub open spec fn weigh(cond: bool, weight: int) -> int {
    if cond {
        weight
    } else {
        0
    }
}

impl Default for Ppu {
    fn default() -> (ppu: Ppu)
        ensures
            ppu == Ppu::reset(),
            ppu.wf(),
    {
        Ppu {
            vram: [0u8; 8192],
            oam: [0u8; 160],
            data: [0u8; 23040],
            sprites: [SpriteInfo { y: 0, x: 0, tile: 0, flags: 0, index: 0 }; 10],
            sprite_count: 0,
            ticks: 0,
            mode: Mode::SearchOam,
            lcdc: 0,
            ly: 0,
            lyc: 0,
            scy: 0,
            scx: 0,
            winx: 0,
            winy: 0,
            bgp: 0xE4,
            obp0: 0xE4,
            obp1: 0xE4,
            vblank_line: false,
            stat_line: false,
            frame_ready: false,
            hblank_interrupt_enabled: false,
            vblank_interrupt_enabled: false,
            oam_interrupt_enabled: false,
            lyc_interrupt_enabled: false,
        }
    }
}

impl Ppu {
    /// The unit at power-on: memories cleared, the display off, the first
    /// line about to be searched, and each palette mapping every colour to
    /// its own shade.
    pub open spec fn reset() -> Ppu {
        Ppu {
            vram: spec_array_fill_for_copy_type::<u8, 8192>(0u8),
            oam: spec_array_fill_for_copy_type::<u8, 160>(0u8),
            data: spec_array_fill_for_copy_type::<u8, 23040>(0u8),
            sprites: spec_array_fill_for_copy_type::<SpriteInfo, 10>(
                SpriteInfo { y: 0, x: 0, tile: 0, flags: 0, index: 0 },
            ),
            sprite_count: 0,
            ticks: 0,
            mode: Mode::SearchOam,
            lcdc: 0,
            ly: 0,
            lyc: 0,
            scy: 0,
            scx: 0,
            winx: 0,
            winy: 0,
            bgp: 0xE4,
            obp0: 0xE4,
            obp1: 0xE4,
            vblank_line: false,
            stat_line: false,
            frame_ready: false,
            hblank_interrupt_enabled: false,
            vblank_interrupt_enabled: false,
            oam_interrupt_enabled: false,
            lyc_interrupt_enabled: false,
        }
    }

    /// The dot counter stays within a scanline, LY within the 154 lines of a
    /// frame, the lines of the vertical blank are in mode VBlank, and at most
    /// ten sprites are picked.
    pub open spec fn wf(self) -> bool {
        &&& self.ticks < 456
        &&& self.ly < 154
        &&& self.sprite_count <= 10
        &&& (self.ly >= 144 ==> self.mode == Mode::VBlank)
    }

    /// LCDC bit 7: the display is on.
    pub open spec fn lcd_enabled(self) -> bool {
        has_bit(self.lcdc, 0x80)
    }

    /// What STAT reads as: the mode in bits 0 and 1, the coincidence of LY
    /// and LYC in bit 2, the four interrupt selections in bits 3 to 6, and
    /// bit 7 set.
    pub open spec fn stat_byte(self) -> u8 {
        (0x80 + weigh(self.lyc_interrupt_enabled, 0x40) + weigh(self.oam_interrupt_enabled, 0x20)
            + weigh(self.vblank_interrupt_enabled, 0x10) + weigh(
            self.hblank_interrupt_enabled,
            0x08,
        ) + weigh(self.ly == self.lyc, 0x04) + self.mode.number()) as u8
    }

    /// A write to LCDC. Switching the display off puts the unit at the start
    /// of line 0 in mode HBlank.
    pub open spec fn after_write_control(self, value: u8) -> Ppu {
        if has_bit(self.lcdc, 0x80) && !has_bit(value, 0x80) {
            Ppu { lcdc: value, ly: 0, mode: Mode::HBlank, ticks: 0, ..self }
        } else {
            Ppu { lcdc: value, ..self }
        }
    }

    /// A write to STAT sets the four interrupt selections; its three low bits
    /// cannot be written.
    pub open spec fn after_write_status(self, value: u8) -> Ppu {
        Ppu {
            hblank_interrupt_enabled: has_bit(value, 0x08),
            vblank_interrupt_enabled: has_bit(value, 0x10),
            oam_interrupt_enabled: has_bit(value, 0x20),
            lyc_interrupt_enabled: has_bit(value, 0x40),
            ..self
        }
    }

    /// The pending interrupt lines as a mask.
    pub open spec fn lines(self) -> u8 {
        (weigh(self.vblank_line, 0x01) + weigh(self.stat_line, 0x02)) as u8
    }

    /// Tells whether the unit is well formed.
    pub fn is_well_formed(&self) -> (ok: bool)
        ensures
            ok == self.wf(),
    {
        self.ticks < 456 && self.ly < 154 && self.sprite_count <= 10 && (self.ly < 144
            || self.mode == Mode::VBlank)
    }

    /// Reads LCDC.
    pub fn read_control(&self) -> (value: u8)
        ensures
            value == self.lcdc,
    {
        self.lcdc
    }

    /// Writes LCDC.
    pub fn write_control(&mut self, value: u8)
        ensures
            *final(self) == old(self).after_write_control(value),
            old(self).wf() ==> final(self).wf(),
    {
        if test_bit(self.lcdc, 0x80) && !test_bit(value, 0x80) {
            self.ly = 0;
            self.mode = Mode::HBlank;
            self.ticks = 0;
        }
        self.lcdc = value;
    }

    /// Reads STAT.
    pub fn read_status(&self) -> (value: u8)
        ensures
            value == self.stat_byte(),
    {
        let bits01: u8 = self.mode.bits();
        let bit2: u8 = if self.ly == self.lyc { 0x04 } else { 0x00 };
        let bit3: u8 = if self.hblank_interrupt_enabled { 0x08 } else { 0x00 };
        let bit4: u8 = if self.vblank_interrupt_enabled { 0x10 } else { 0x00 };
        let bit5: u8 = if self.oam_interrupt_enabled { 0x20 } else { 0x00 };
        let bit6: u8 = if self.lyc_interrupt_enabled { 0x40 } else { 0x00 };
        0x80 + bit6 + bit5 + bit4 + bit3 + bit2 + bits01
    }

    /// Writes STAT.
    pub fn write_status(&mut self, value: u8)
        ensures
            *final(self) == old(self).after_write_status(value),
            old(self).wf() ==> final(self).wf(),
    {
        self.hblank_interrupt_enabled = test_bit(value, 0x08);
        self.vblank_interrupt_enabled = test_bit(value, 0x10);
        self.oam_interrupt_enabled = test_bit(value, 0x20);
        self.lyc_interrupt_enabled = test_bit(value, 0x40);
    }

    /// Reads SCY.
    pub fn read_scy(&self) -> (value: u8)
        ensures
            value == self.scy,
    {
        self.scy
    }

    /// Writes SCY.
    pub fn write_scy(&mut self, value: u8)
        ensures
            *final(self) == (Ppu { scy: value, ..*old(self) }),
    {
        self.scy = value;
    }

    /// Reads SCX.
    pub fn read_scx(&self) -> (value: u8)
        ensures
            value == self.scx,
    {
        self.scx
    }

    /// Writes SCX.
    pub fn write_scx(&mut self, value: u8)
        ensures
            *final(self) == (Ppu { scx: value, ..*old(self) }),
    {
        self.scx = value;
    }

    /// The current scanline; 0 while the display is off.
    pub fn read_ly(&self) -> (value: u8)
        ensures
            value == (if self.lcd_enabled() {
                self.ly
            } else {
                0
            }),
    {
        if test_bit(self.lcdc, 0x80) {
            self.ly
        } else {
            0
        }
    }

    /// Reads LYC.
    pub fn read_lyc(&self) -> (value: u8)
        ensures
            value == self.lyc,
    {
        self.lyc
    }

    /// Writes LYC.
    pub fn write_lyc(&mut self, value: u8)
        ensures
            *final(self) == (Ppu { lyc: value, ..*old(self) }),
    {
        self.lyc = value;
    }

    /// Reads BGP.
    pub fn read_bgp(&self) -> (value: u8)
        ensures
            value == self.bgp,
    {
        self.bgp
    }

    /// Writes BGP.
    pub fn write_bgp(&mut self, value: u8)
        ensures
            *final(self) == (Ppu { bgp: value, ..*old(self) }),
    {
        self.bgp = value;
    }

    /// Reads OBP0.
    pub fn read_obp0(&self) -> (value: u8)
        ensures
            value == self.obp0,
    {
        self.obp0
    }

    /// Colour 0 of a sprite is transparent, so the two low bits are not kept.
    pub fn write_obp0(&mut self, value: u8)
        ensures
            *final(self) == (Ppu { obp0: (value / 4 * 4) as u8, ..*old(self) }),
    {
        self.obp0 = value / 4 * 4;
    }

    /// Reads OBP1.
    pub fn read_obp1(&self) -> (value: u8)
        ensures
            value == self.obp1,
    {
        self.obp1
    }

    /// Colour 0 of a sprite is transparent, so the two low bits are not kept.
    pub fn write_obp1(&mut self, value: u8)
        ensures
            *final(self) == (Ppu { obp1: (value / 4 * 4) as u8, ..*old(self) }),
    {
        self.obp1 = value / 4 * 4;
    }

    /// Reads WY.
    pub fn read_wy(&self) -> (value: u8)
        ensures
            value == self.winy,
    {
        self.winy
    }

    /// Writes WY.
    pub fn write_wy(&mut self, value: u8)
        ensures
            *final(self) == (Ppu { winy: value, ..*old(self) }),
    {
        self.winy = value;
    }

    /// Reads WX.
    pub fn read_wx(&self) -> (value: u8)
        ensures
            value == self.winx,
    {
        self.winx
    }

    /// Writes WX.
    pub fn write_wx(&mut self, value: u8)
        ensures
            *final(self) == (Ppu { winx: value, ..*old(self) }),
    {
        self.winx = value;
    }

    /// The byte of video RAM that the low 13 bits of `addr` select.
    pub fn read_vram(&self, addr: u16) -> (value: u8)
        ensures
            value == self.vram[addr as int % 0x2000],
    {
        self.vram[(addr % 0x2000) as usize]
    }

    /// Writes the byte of video RAM that the low 13 bits of `addr` select.
    pub fn write_vram(&mut self, addr: u16, value: u8)
        ensures
            *final(self) == (Ppu {
                vram: spec_array_update(old(self).vram, addr as int % 0x2000, value),
                ..*old(self)
            }),
    {
        self.vram[(addr % 0x2000) as usize] = value;
    }

    /// The byte of object attribute memory at `addr`, which lies in
    /// 0xFE00..=0xFE9F.
    pub fn read_oam(&self, addr: u16) -> (value: u8)
        requires
            0xFE00 <= addr <= 0xFE9F,
        ensures
            value == self.oam[addr - 0xFE00],
    {
        self.oam[(addr - 0xFE00) as usize]
    }

    /// Writes the byte of object attribute memory at `addr`, which lies in
    /// 0xFE00..=0xFE9F.
    pub fn write_oam(&mut self, addr: u16, value: u8)
        requires
            0xFE00 <= addr <= 0xFE9F,
        ensures
            *final(self) == (Ppu {
                oam: spec_array_update(old(self).oam, addr - 0xFE00, value),
                ..*old(self)
            }),
    {
        self.oam[(addr - 0xFE00) as usize] = value;
    }

    /// The interrupt lines that the unit has raised and nobody has taken.
    pub fn interrupt(&self) -> (lines: u8)
        ensures
            lines == self.lines(),
    {
        let vblank: u8 = if self.vblank_line { PPU_VBLANK_INTERRUPT } else { 0 };
        let stat: u8 = if self.stat_line { PPU_STAT_INTERRUPT } else { 0 };
        vblank + stat
    }

    /// Takes the pending lines away.
    pub fn ack(&mut self)
        ensures
            *final(self) == (Ppu { vblank_line: false, stat_line: false, ..*old(self) }),
    {
        self.vblank_line = false;
        self.stat_line = false;
    }

    /// Tells whether a frame was completed since the last call, and takes
    /// the mark away.
    pub fn take_frame(&mut self) -> (ready: bool)
        ensures
            ready == old(self).frame_ready,
            *final(self) == (Ppu { frame_ready: false, ..*old(self) }),
    {
        let ready = self.frame_ready;
        self.frame_ready = false;
        ready
    }

    /// The colour of the pixel in column `x` of row `y` of the frame buffer.
    pub fn color_at(&self, x: u8, y: u8) -> (color: Color)
        requires
            x < 160,
            y < 144,
        ensures
            color == Color::of_int(self.data[y * 160 + x]),
    {
        Color::from_int(self.pixel(x, y))
    }

    /// The shade of the pixel in column `x` of row `y` of the frame buffer.
    pub fn pixel(&self, x: u8, y: u8) -> (shade: u8)
        requires
            x < 160,
            y < 144,
        ensures
            shade == self.data[y * 160 + x],
    {
        self.data[y as usize * COLS + x as usize]
    }
}

} // verus!

verus! {

/// The weight of the bit that holds column `col` of a tile row: the leftmost
/// column sits in bit 7.
pub open spec fn column_weight(col: int) -> u8 {
    if col == 0 {
        0x80
    } else if col == 1 {
        0x40
    } else if col == 2 {
        0x20
    } else if col == 3 {
        0x10
    } else if col == 4 {
        0x08
    } else if col == 5 {
        0x04
    } else if col == 6 {
        0x02
    } else {
        0x01
    }
}

/// The colour index of one pixel of a tile row: its upper bit comes from the
/// second byte of the row, its lower bit from the first.
pub open spec fn color_index(low: u8, high: u8, weight: u8) -> u8 {
    (weigh(has_bit(high, weight), 2) + weigh(has_bit(low, weight), 1)) as u8
}

/// The shade that a palette gives to a colour index: the two bits at twice
/// the index.
pub open spec fn shade_of(palette: u8, index: u8) -> u8 {
    if index == 0 {
        palette % 4
    } else if index == 1 {
        (palette / 4) % 4
    } else if index == 2 {
        (palette / 16) % 4
    } else {
        palette / 64
    }
}

/// Gives the weight of the bit that holds column `col` of a tile row.
pub fn weight_of_column(col: u8) -> (weight: u8)
    ensures
        weight == column_weight(col as int),
        weight > 0,
{
    match col {
        0 => 0x80,
        1 => 0x40,
        2 => 0x20,
        3 => 0x10,
        4 => 0x08,
        5 => 0x04,
        6 => 0x02,
        _ => 0x01,
    }
}

/// Reads the colour index of one pixel from the two bytes of a tile row.
pub fn tile_pixel(low: u8, high: u8, weight: u8) -> (index: u8)
    requires
        weight > 0,
    ensures
        index == color_index(low, high, weight),
        index <= 3,
{
    let upper: u8 = if test_bit(high, weight) { 2 } else { 0 };
    let lower: u8 = if test_bit(low, weight) { 1 } else { 0 };
    upper + lower
}

/// Looks a colour index up in a palette.
pub fn shade(palette: u8, index: u8) -> (shade: u8)
    ensures
        shade == shade_of(palette, index),
        shade <= 3,
{
    match index {
        0 => palette % 4,
        1 => (palette / 4) % 4,
        2 => (palette / 16) % 4,
        _ => palette / 64,
    }
}

impl Ppu {
    /// The height of every sprite, by LCDC bit 2: 16 lines or 8.
    pub open spec fn sprite_height(self) -> int {
        if has_bit(self.lcdc, 0x04) {
            16
        } else {
            8
        }
    }

    /// Where the background tile map starts in video RAM, by LCDC bit 3:
    /// at 0x9C00 or at 0x9800.
    pub open spec fn bg_map_base(self) -> int {
        if has_bit(self.lcdc, 0x08) {
            0x1C00
        } else {
            0x1800
        }
    }

    /// Where the window tile map starts in video RAM, by LCDC bit 6.
    pub open spec fn win_map_base(self) -> int {
        if has_bit(self.lcdc, 0x40) {
            0x1C00
        } else {
            0x1800
        }
    }

    /// Where row `row` of a background or window tile starts in video RAM.
    /// With LCDC bit 4 set, tiles count up from 0x8000 by their unsigned
    /// index; else they lie around 0x9000 by their signed index.
    pub open spec fn tile_row_offset(self, tile: u8, row: int) -> int {
        (if has_bit(self.lcdc, 0x10) {
            tile as int * 16
        } else {
            0x1000 + signed(tile) * 16
        }) + row * 2
    }

    /// The colour index at the point (`mx`, `my`) of the 256 by 256 picture
    /// that the tile map at `base` describes.
    pub open spec fn map_color(self, base: int, mx: int, my: int) -> u8 {
        let tile = self.vram[base + (my / 8) * 32 + mx / 8];
        let at = self.tile_row_offset(tile, my % 8);
        color_index(self.vram[at], self.vram[at + 1], column_weight(mx % 8))
    }

    /// Whether the window is drawn over column `x` of the current line.
    pub open spec fn window_covers(self, x: int) -> bool {
        has_bit(self.lcdc, 0x20) && self.ly >= self.winy && x + 7 >= self.winx
    }

    /// The colour index of background and window in column `x` of the
    /// current line.
    pub open spec fn backdrop(self, x: int) -> u8 {
        if self.window_covers(x) {
            self.map_color(self.win_map_base(), x + 7 - self.winx, self.ly - self.winy)
        } else {
            self.map_color(self.bg_map_base(), (self.scx + x) % 256, (self.scy + self.ly) % 256)
        }
    }

    /// Whether a sprite covers column `x` of the current line.
    pub open spec fn sprite_covers(self, sprite: SpriteInfo, x: int) -> bool {
        &&& sprite.x <= x < sprite.x + 8
        &&& sprite.y <= self.ly < sprite.y + self.sprite_height()
    }

    /// The colour index that a sprite has in column `x` of the current line,
    /// 0 where it does not reach. A sprite of 16 lines takes its tile with
    /// bit 0 cleared and the tile after it.
    pub open spec fn sprite_color(self, sprite: SpriteInfo, x: int) -> u8 {
        if self.sprite_covers(sprite, x) {
            let line = self.ly - sprite.y;
            let row = if has_bit(sprite.flags, 0x40) {
                self.sprite_height() - 1 - line
            } else {
                line
            };
            let col = if has_bit(sprite.flags, 0x20) {
                7 - (x - sprite.x)
            } else {
                x - sprite.x
            };
            let tile = if has_bit(self.lcdc, 0x04) {
                sprite.tile / 2 * 2
            } else {
                sprite.tile as int
            };
            let at = tile * 16 + row * 2;
            color_index(self.vram[at], self.vram[at + 1], column_weight(col))
        } else {
            0
        }
    }

    /// Among the first `k` picked sprites, the one that shows in column `x`:
    /// of those that are not transparent there, the one with the lowest
    /// `x`, and of several with the same `x` the first one picked.
    pub open spec fn top_sprite(self, x: int, k: nat) -> Option<SpriteInfo>
        decreases k,
    {
        if k == 0 {
            None
        } else {
            let before = self.top_sprite(x, (k - 1) as nat);
            let sprite = self.sprites[k - 1];
            if self.sprite_color(sprite, x) != 0 && (before matches Some(b) ==> sprite.x < b.x) {
                Some(sprite)
            } else {
                before
            }
        }
    }

    /// The shade that the sprites give to column `x` of the current line, if
    /// one shows there. A sprite with its priority bit set hides behind a
    /// background that is drawn and not of colour 0.
    pub open spec fn sprite_shade(self, x: int) -> Option<u8> {
        match self.top_sprite(x, self.sprite_count as nat) {
            Some(sprite) => {
                if has_bit(sprite.flags, 0x80) && has_bit(self.lcdc, 0x01) && self.backdrop(x)
                    != 0 {
                    None
                } else {
                    Some(
                        shade_of(
                            if has_bit(sprite.flags, 0x10) {
                                self.obp1
                            } else {
                                self.obp0
                            },
                            self.sprite_color(sprite, x),
                        ),
                    )
                }
            },
            None => None,
        }
    }

    /// The frame buffer with the first `n` columns of the current line
    /// painted by background and window through BGP.
    pub open spec fn bg_drawn(self, n: nat) -> Ppu
        decreases n,
    {
        if n == 0 {
            self
        } else {
            let p = self.bg_drawn((n - 1) as nat);
            Ppu {
                data: spec_array_update(
                    p.data,
                    p.ly * 160 + n - 1,
                    shade_of(p.bgp, p.backdrop(n - 1)),
                ),
                ..p
            }
        }
    }

    /// Whether `other` is this unit with, at most, another frame buffer.
    pub open spec fn same_but_frame(self, other: Ppu) -> bool {
        other == (Ppu { data: other.data, ..self })
    }

    /// Whether `other` is this unit with, at most, other sprites picked.
    pub open spec fn same_but_sprites(self, other: Ppu) -> bool {
        other == (Ppu { sprites: other.sprites, sprite_count: other.sprite_count, ..self })
    }

    /// Background and window are drawn when LCDC bit 0 is set.
    pub open spec fn after_draw_bg(self) -> Ppu {
        if has_bit(self.lcdc, 0x01) {
            self.bg_drawn(160)
        } else {
            self
        }
    }

    /// The frame buffer with the sprites laid over the first `n` columns of
    /// the current line.
    pub open spec fn sprites_drawn(self, n: nat) -> Ppu
        decreases n,
    {
        if n == 0 {
            self
        } else {
            let p = self.sprites_drawn((n - 1) as nat);
            match p.sprite_shade(n - 1) {
                Some(shade) => Ppu {
                    data: spec_array_update(p.data, p.ly * 160 + n - 1, shade),
                    ..p
                },
                None => p,
            }
        }
    }

    /// Sprites are drawn when LCDC bit 1 is set.
    pub open spec fn after_draw_sprites(self) -> Ppu {
        if has_bit(self.lcdc, 0x02) {
            self.sprites_drawn(160)
        } else {
            self
        }
    }

    /// The current line rendered into the frame buffer: background and
    /// window first, the sprites over them.
    pub open spec fn after_draw(self) -> Ppu {
        self.after_draw_bg().after_draw_sprites()
    }

    /// Whether the sprite whose attributes start at `4 * i` lies on the
    /// current line.
    pub open spec fn sprite_on_line(self, i: int) -> bool {
        self.oam[4 * i] <= self.ly < self.oam[4 * i] + self.sprite_height()
    }

    /// The line buffer after the first `k` sprites of the object attribute
    /// memory were looked at: those on the current line, in their order,
    /// until ten are picked.
    pub open spec fn scanned(self, k: nat) -> Ppu
        decreases k,
    {
        if k == 0 {
            Ppu { sprite_count: 0, ..self }
        } else {
            let p = self.scanned((k - 1) as nat);
            let i = k - 1;
            if p.sprite_count < 10 && p.sprite_on_line(i) {
                Ppu {
                    sprites: spec_array_update(
                        p.sprites,
                        p.sprite_count as int,
                        SpriteInfo {
                            y: p.oam[4 * i],
                            x: p.oam[4 * i + 1],
                            tile: p.oam[4 * i + 2],
                            flags: p.oam[4 * i + 3],
                            index: (4 * i) as u8,
                        },
                    ),
                    sprite_count: (p.sprite_count + 1) as u8,
                    ..p
                }
            } else {
                p
            }
        }
    }

    /// The line buffer after all forty sprites were looked at.
    pub open spec fn after_oam_search(self) -> Ppu {
        self.scanned(40)
    }

    fn tile_row_at(&self, tile: u8, row: u8) -> (at: usize)
        requires
            row < 8,
        ensures
            at == self.tile_row_offset(tile, row as int),
            at + 1 < 8192,
    {
        let start: usize = if test_bit(self.lcdc, 0x10) {
            tile as usize * 16
        } else if tile < 128 {
            0x1000 + tile as usize * 16
        } else {
            0x1000 - (256 - tile as usize) * 16
        };
        start + row as usize * 2
    }

    fn map_color_at(&self, base: usize, mx: u8, my: u8) -> (index: u8)
        requires
            base == 0x1800 || base == 0x1C00,
        ensures
            index == self.map_color(base as int, mx as int, my as int),
            index <= 3,
    {
        let tile: u8 = self.vram[base + (my / 8) as usize * 32 + (mx / 8) as usize];
        let at: usize = self.tile_row_at(tile, my % 8);
        tile_pixel(self.vram[at], self.vram[at + 1], weight_of_column(mx % 8))
    }

    fn backdrop_at(&self, x: u8) -> (index: u8)
        requires
            x < 160,
        ensures
            index == self.backdrop(x as int),
            index <= 3,
    {
        if test_bit(self.lcdc, 0x20) && self.ly >= self.winy && x as u16 + 7 >= self.winx as u16 {
            let base: usize = if test_bit(self.lcdc, 0x40) { 0x1C00 } else { 0x1800 };
            self.map_color_at(base, (x as u16 + 7 - self.winx as u16) as u8, self.ly - self.winy)
        } else {
            let base: usize = if test_bit(self.lcdc, 0x08) { 0x1C00 } else { 0x1800 };
            self.map_color_at(
                base,
                ((self.scx as u16 + x as u16) % 256) as u8,
                ((self.scy as u16 + self.ly as u16) % 256) as u8,
            )
        }
    }

    fn sprite_color_at(&self, sprite: SpriteInfo, x: u8) -> (index: u8)
        ensures
            index == self.sprite_color(sprite, x as int),
            index <= 3,
    {
        let height: u16 = if test_bit(self.lcdc, 0x04) { 16 } else { 8 };
        let covers: bool = sprite.x <= x && (x as u16) < sprite.x as u16 + 8 && sprite.y <= self.ly
            && (self.ly as u16) < sprite.y as u16 + height;
        if covers {
            let line: u16 = (self.ly - sprite.y) as u16;
            let row: u16 = if test_bit(sprite.flags, 0x40) { height - 1 - line } else { line };
            let across: u8 = x - sprite.x;
            let col: u8 = if test_bit(sprite.flags, 0x20) { 7 - across } else { across };
            let tile: u8 = if test_bit(self.lcdc, 0x04) { sprite.tile / 2 * 2 } else { sprite.tile };
            let at: usize = tile as usize * 16 + row as usize * 2;
            tile_pixel(self.vram[at], self.vram[at + 1], weight_of_column(col))
        } else {
            0
        }
    }

    fn top_sprite_at(&self, x: u8) -> (top: Option<SpriteInfo>)
        requires
            self.sprite_count <= 10,
        ensures
            top == self.top_sprite(x as int, self.sprite_count as nat),
    {
        let mut best: Option<SpriteInfo> = None;
        let mut k: usize = 0;
        while k < self.sprite_count as usize
            invariant
                k <= self.sprite_count <= 10,
                best == self.top_sprite(x as int, k as nat),
            decreases self.sprite_count - k,
        {
            let sprite: SpriteInfo = self.sprites[k];
            if self.sprite_color_at(sprite, x) != 0 {
                match best {
                    Some(b) => {
                        if sprite.x < b.x {
                            best = Some(sprite);
                        }
                    },
                    None => {
                        best = Some(sprite);
                    },
                }
            }
            k += 1;
        }
        best
    }

    fn sprite_shade_at(&self, x: u8) -> (shown: Option<u8>)
        requires
            self.sprite_count <= 10,
            x < 160,
        ensures
            shown == self.sprite_shade(x as int),
    {
        match self.top_sprite_at(x) {
            Some(sprite) => {
                if test_bit(sprite.flags, 0x80) && test_bit(self.lcdc, 0x01) && self.backdrop_at(x)
                    != 0 {
                    None
                } else {
                    let palette: u8 = if test_bit(sprite.flags, 0x10) {
                        self.obp1
                    } else {
                        self.obp0
                    };
                    Some(shade(palette, self.sprite_color_at(sprite, x)))
                }
            },
            None => None,
        }
    }

    /// Paints background and window into the current line.
    pub fn draw_bg(&mut self)
        requires
            old(self).ly < 144,
        ensures
            *final(self) == old(self).after_draw_bg(),
            old(self).same_but_frame(*final(self)),
    {
        if !test_bit(self.lcdc, 0x01) {
            return ;
        }
        let mut x: u8 = 0;
        while x < 160
            invariant
                x <= 160,
                self.ly < 144,
                old(self).same_but_frame(*self),
                *self == old(self).bg_drawn(x as nat),
            decreases 160 - x,
        {
            let index: u8 = self.backdrop_at(x);
            self.data[self.ly as usize * COLS + x as usize] = shade(self.bgp, index);
            x += 1;
        }
    }

    /// Lays the sprites picked for the current line over it.
    pub fn draw_sprites(&mut self)
        requires
            old(self).ly < 144,
            old(self).sprite_count <= 10,
        ensures
            *final(self) == old(self).after_draw_sprites(),
            old(self).same_but_frame(*final(self)),
    {
        if !test_bit(self.lcdc, 0x02) {
            return ;
        }
        let mut x: u8 = 0;
        while x < 160
            invariant
                x <= 160,
                self.ly < 144,
                self.sprite_count <= 10,
                old(self).same_but_frame(*self),
                *self == old(self).sprites_drawn(x as nat),
            decreases 160 - x,
        {
            match self.sprite_shade_at(x) {
                Some(shade) => {
                    self.data[self.ly as usize * COLS + x as usize] = shade;
                },
                None => {},
            }
            x += 1;
        }
    }

    /// Renders the current line into the frame buffer.
    pub fn draw(&mut self)
        requires
            old(self).ly < 144,
            old(self).sprite_count <= 10,
        ensures
            *final(self) == old(self).after_draw(),
            old(self).same_but_frame(*final(self)),
    {
        self.draw_bg();
        self.draw_sprites();
    }

    /// Search for the up to 10 first sprites to draw for current line.
    pub fn oam_search(&mut self)
        ensures
            *final(self) == old(self).after_oam_search(),
            old(self).same_but_sprites(*final(self)),
            final(self).sprite_count <= 10,
    {
        let height: u16 = if test_bit(self.lcdc, 0x04) { 16 } else { 8 };
        self.sprite_count = 0;
        let mut i: usize = 0;
        while i < 40
            invariant
                i <= 40,
                height == self.sprite_height(),
                self.sprite_count <= 10,
                old(self).same_but_sprites(*self),
                *self == old(self).scanned(i as nat),
            decreases 40 - i,
        {
            let y: u8 = self.oam[4 * i];
            if self.sprite_count < 10 && y <= self.ly && (self.ly as u16) < y as u16 + height {
                self.sprites[self.sprite_count as usize] = SpriteInfo {
                    y,
                    x: self.oam[4 * i + 1],
                    tile: self.oam[4 * i + 2],
                    flags: self.oam[4 * i + 3],
                    index: (4 * i) as u8,
                };
                self.sprite_count = self.sprite_count + 1;
            }
            i += 1;
        }
    }
}

} // verus!

verus! {

impl Ppu {
    /// The STAT line raised if LY meets LYC and STAT selects that event.
    pub open spec fn lyc_checked(self) -> Ppu {
        Ppu { stat_line: self.stat_line || (self.lyc_interrupt_enabled && self.ly == self.lyc), ..self }
    }

    /// Mode VBlank entered: the vertical-blank line is raised, the frame is
    /// complete, and the STAT line is raised if STAT selects this mode.
    pub open spec fn in_vblank(self) -> Ppu {
        Ppu {
            mode: Mode::VBlank,
            vblank_line: true,
            frame_ready: true,
            stat_line: self.stat_line || self.vblank_interrupt_enabled,
            ..self
        }
    }

    /// Mode SearchOam entered; the STAT line is raised if STAT selects it.
    pub open spec fn in_search_oam(self) -> Ppu {
        Ppu {
            mode: Mode::SearchOam,
            stat_line: self.stat_line || self.oam_interrupt_enabled,
            ..self
        }
    }

    /// Mode Transfering entered.
    pub open spec fn in_transfer(self) -> Ppu {
        Ppu { mode: Mode::Transfering, ..self }
    }

    /// Mode HBlank entered; the STAT line is raised if STAT selects it.
    pub open spec fn in_hblank(self) -> Ppu {
        Ppu {
            mode: Mode::HBlank,
            stat_line: self.stat_line || self.hblank_interrupt_enabled,
            ..self
        }
    }

    /// The start of the next scanline: the dot counter wraps, LY moves on
    /// modulo 154 and is held against LYC. Line 144 enters the vertical
    /// blank; a visible line is searched for its sprites.
    pub open spec fn line_started(self) -> Ppu {
        let p = (Ppu { ticks: 0, ly: ((self.ly + 1) % 154) as u8, ..self }).lyc_checked();
        if p.ly == 144 {
            p.in_vblank()
        } else if p.ly < 144 {
            p.in_search_oam().after_oam_search()
        } else {
            p
        }
    }

    /// One dot. With the display off nothing moves. Else the dot counter
    /// goes up; at 456 the next line starts; from SearchOam the unit goes to
    /// Transfering at dot 80 and renders the line, from Transfering to HBlank
    /// at dot 252.
    pub open spec fn ticked(self) -> Ppu {
        if !self.lcd_enabled() {
            self
        } else if self.ticks + 1 >= 456 {
            self.line_started()
        } else {
            self.dot_counted()
        }
    }

    /// One dot within a scanline: from SearchOam the unit goes to
    /// Transfering at dot 80 and renders the line, from Transfering to HBlank
    /// at dot 252.
    pub open spec fn dot_counted(self) -> Ppu {
        let p = Ppu { ticks: (self.ticks + 1) as u32, ..self };
        if p.mode == Mode::SearchOam && p.ticks >= 80 {
            p.in_transfer().after_draw()
        } else if p.mode == Mode::Transfering && p.ticks >= 252 {
            p.in_hblank()
        } else {
            p
        }
    }

    /// The unit after `ticks` dots.
    pub open spec fn after_cycle(self, ticks: nat) -> Ppu
        decreases ticks,
    {
        if ticks == 0 {
            self
        } else {
            self.after_cycle((ticks - 1) as nat).ticked()
        }
    }

    /// Whether the next dot enters the vertical blank.
    pub open spec fn enters_vblank(self) -> bool {
        self.lcd_enabled() && self.ticks + 1 >= 456 && (self.ly + 1) % 154 == 144
    }

    /// How often the vertical blank is entered, and with it the
    /// vertical-blank line raised, during the next `ticks` dots.
    pub open spec fn vblanks_during(self, ticks: nat) -> nat
        decreases ticks,
    {
        if ticks == 0 {
            0
        } else {
            self.vblanks_during((ticks - 1) as nat) + (if self.after_cycle(
                (ticks - 1) as nat,
            ).enters_vblank() {
                1nat
            } else {
                0nat
            })
        }
    }

    fn check_interrupt_lyc(&mut self)
        ensures
            *final(self) == old(self).lyc_checked(),
    {
        if self.lyc_interrupt_enabled && self.ly == self.lyc {
            self.stat_line = true;
        }
    }

    fn switch_to_vblank_mode(&mut self)
        ensures
            *final(self) == old(self).in_vblank(),
    {
        self.mode = Mode::VBlank;
        self.vblank_line = true;
        self.frame_ready = true;
        if self.vblank_interrupt_enabled {
            self.stat_line = true;
        }
    }

    fn switch_to_search_oam_mode(&mut self)
        ensures
            *final(self) == old(self).in_search_oam(),
    {
        self.mode = Mode::SearchOam;
        if self.oam_interrupt_enabled {
            self.stat_line = true;
        }
    }

    fn switch_to_transfering_mode(&mut self)
        ensures
            *final(self) == old(self).in_transfer(),
    {
        self.mode = Mode::Transfering;
    }

    fn switch_to_hblank_mode(&mut self)
        ensures
            *final(self) == old(self).in_hblank(),
    {
        self.mode = Mode::HBlank;
        if self.hblank_interrupt_enabled {
            self.stat_line = true;
        }
    }

    fn start_line(&mut self)
        requires
            old(self).wf(),
        ensures
            *final(self) == old(self).line_started(),
            final(self).wf(),
    {
        self.ticks = 0;
        self.ly = if self.ly == 153 { 0 } else { self.ly + 1 };
        self.check_interrupt_lyc();
        if self.ly == 144 {
            self.switch_to_vblank_mode();
        } else if self.ly < 144 {
            self.switch_to_search_oam_mode();
            self.oam_search();
        }
    }

    fn count_dot(&mut self)
        requires
            old(self).wf(),
            old(self).ticks + 1 < 456,
        ensures
            *final(self) == old(self).dot_counted(),
            final(self).wf(),
    {
        self.ticks = self.ticks + 1;
        if self.mode == Mode::SearchOam && self.ticks >= OAM_SEARCH_CYCLES {
            self.switch_to_transfering_mode();
            self.draw();
        } else if self.mode == Mode::Transfering && self.ticks >= OAM_SEARCH_CYCLES
            + PIXEL_CYCLES {
            self.switch_to_hblank_mode();
        }
    }

    /// Moves the unit on by one dot.
    pub fn tick(&mut self)
        requires
            old(self).wf(),
        ensures
            *final(self) == old(self).ticked(),
            final(self).wf(),
    {
        if !test_bit(self.lcdc, 0x80) {
            return ;
        }
        if self.ticks + 1 >= LINE_CYCLES {
            self.start_line();
        } else {
            self.count_dot();
        }
    }

    /// Moves the unit on by `ticks` dots; with the display off, by none.
    pub fn cycle(&mut self, ticks: u32)
        requires
            old(self).wf(),
        ensures
            *final(self) == old(self).after_cycle(ticks as nat),
            final(self).wf(),
    {
        let mut done: u32 = 0;
        while done < ticks
            invariant
                done <= ticks,
                self.wf(),
                *self == old(self).after_cycle(done as nat),
            decreases ticks - done,
        {
            self.tick();
            done += 1;
        }
    }
}

} // verus!

verus! {

/// Painting the background changes nothing but the frame buffer.
pub proof fn bg_drawn_touches_frame_only(ppu: Ppu, n: nat)
    ensures
        ppu.same_but_frame(ppu.bg_drawn(n)),
    decreases n,
{
    if n > 0 {
        bg_drawn_touches_frame_only(ppu, (n - 1) as nat);
    }
}

/// Laying the sprites over a line changes nothing but the frame buffer.
pub proof fn sprites_drawn_touches_frame_only(ppu: Ppu, n: nat)
    ensures
        ppu.same_but_frame(ppu.sprites_drawn(n)),
    decreases n,
{
    if n > 0 {
        sprites_drawn_touches_frame_only(ppu, (n - 1) as nat);
    }
}

/// Rendering a line changes nothing but the frame buffer.
pub proof fn draw_touches_frame_only(ppu: Ppu)
    ensures
        ppu.same_but_frame(ppu.after_draw()),
{
    bg_drawn_touches_frame_only(ppu, 160);
    sprites_drawn_touches_frame_only(ppu.after_draw_bg(), 160);
}

/// Searching the object attribute memory changes nothing but the sprites
/// picked, and picks no more than ten, nor more than it has looked at.
pub proof fn scanned_touches_sprites_only(ppu: Ppu, k: nat)
    ensures
        ppu.same_but_sprites(ppu.scanned(k)),
        ppu.scanned(k).sprite_count <= 10,
        ppu.scanned(k).sprite_count <= k,
    decreases k,
{
    if k > 0 {
        scanned_touches_sprites_only(ppu, (k - 1) as nat);
    }
}

impl Ppu {
    /// The dots gone by since the frame began: 456 for every line before the
    /// current one, and those of the current line.
    pub open spec fn position(self) -> int {
        self.ly * 456 + self.ticks
    }
}

/// With the display on, one dot moves the position on by one, modulo the
/// 70,224 dots of a frame; it keeps the unit well formed and the display on,
/// and the vertical-blank line is raised exactly when the vertical blank is
/// entered.
pub proof fn one_dot(ppu: Ppu)
    requires
        ppu.wf(),
        ppu.lcd_enabled(),
    ensures
        ppu.ticked().wf(),
        ppu.ticked().lcdc == ppu.lcdc,
        ppu.ticked().position() == (ppu.position() + 1) % 70224,
        ppu.ticked().vblank_line == (ppu.vblank_line || ppu.enters_vblank()),
        ppu.enters_vblank() == (ppu.ticked().position() == 65664),
{
    if ppu.ticks + 1 >= 456 {
        let p = (Ppu { ticks: 0, ly: ((ppu.ly + 1) % 154) as u8, ..ppu }).lyc_checked();
        scanned_touches_sprites_only(p.in_search_oam(), 40);
    } else {
        let p = Ppu { ticks: (ppu.ticks + 1) as u32, ..ppu };
        draw_touches_frame_only(p.in_transfer());
    }
}

/// Going from `m` to `m + 1`, the number of whole frames below the count
/// that starts 4,560 dots early goes up by one exactly when `m + 1` is the
/// start of line 144.
proof fn one_more_dot_counts(m: int)
    requires
        m >= 0,
    ensures
        (m + 1 + 4560) / 70224 - (m + 4560) / 70224 == (if (m + 1) % 70224 == 65664 {
            1int
        } else {
            0int
        }),
        (m + 1) % 70224 == (m % 70224 + 1) % 70224,
{
}

/// What `n` dots do to a unit whose display is on: the position moves on by
/// `n` modulo 70,224, and the vertical blank is entered once for every time
/// the position comes to the start of line 144.
pub proof fn many_dots(ppu: Ppu, n: nat)
    requires
        ppu.wf(),
        ppu.lcd_enabled(),
    ensures
        ppu.after_cycle(n).wf(),
        ppu.after_cycle(n).lcdc == ppu.lcdc,
        ppu.after_cycle(n).position() == (ppu.position() + n) % 70224,
        ppu.vblanks_during(n) == (ppu.position() + n + 4560) / 70224 - (ppu.position() + 4560)
            / 70224,
        ppu.after_cycle(n).vblank_line == (ppu.vblank_line || ppu.vblanks_during(n) > 0),
    decreases n,
{
    if n > 0 {
        let before = ppu.after_cycle((n - 1) as nat);
        many_dots(ppu, (n - 1) as nat);
        one_dot(before);
        one_more_dot_counts(ppu.position() + n - 1);
        assert(ppu.after_cycle(n) == before.ticked());
        assert(ppu.vblanks_during(n) == ppu.vblanks_during((n - 1) as nat) + (if before.enters_vblank() {
            1nat
        } else {
            0nat
        }));
    }
}

/// With the display on, the 70,224 dots of a frame bring LY and the dot
/// counter back to where they were, and the vertical blank is entered, and
/// the vertical-blank line raised, exactly once on the way.
pub proof fn frame_period(ppu: Ppu)
    requires
        ppu.wf(),
        ppu.lcd_enabled(),
    ensures
        ppu.after_cycle(70224).ly == ppu.ly,
        ppu.after_cycle(70224).ticks == ppu.ticks,
        ppu.vblanks_during(70224) == 1,
        ppu.after_cycle(70224).vblank_line,
{
    let after = ppu.after_cycle(70224);
    many_dots(ppu, 70224);
    assert(after.position() == ppu.position());
    assert(after.ly == ppu.ly && after.ticks == ppu.ticks);
}

/// With the display off no number of dots changes anything.
pub proof fn display_off_stands_still(ppu: Ppu, n: nat)
    requires
        !ppu.lcd_enabled(),
    ensures
        ppu.after_cycle(n) == ppu,
    decreases n,
{
    if n > 0 {
        display_off_stands_still(ppu, (n - 1) as nat);
    }
}

/// Dots add up: `a` dots and then `b` dots are `a + b` dots.
pub proof fn dots_add_up(ppu: Ppu, a: nat, b: nat)
    ensures
        ppu.after_cycle(a).after_cycle(b) == ppu.after_cycle(a + b),
    decreases b,
{
    if b > 0 {
        dots_add_up(ppu, a, (b - 1) as nat);
    }
}

} // verus!

verus! {

impl Ppu {
    /// Where column `x` of the current line lies in the frame buffer.
    pub open spec fn frame_index(self, x: int) -> int {
        self.ly * 160 + x
    }

    /// Whether `i` lies in the part of the frame buffer that holds the
    /// current line.
    pub open spec fn on_current_line(self, i: int) -> bool {
        self.ly * 160 <= i < self.ly * 160 + 160
    }
}

/// After the first `n` columns of the background are painted, each of them
/// holds the shade that BGP gives to the colour of background or window
/// there, and every other pixel of the frame is as it was.
pub proof fn bg_drawn_paints_columns(ppu: Ppu, n: nat)
    requires
        ppu.ly < 144,
        n <= 160,
    ensures
        forall|x: int|
            0 <= x < n ==> #[trigger] ppu.bg_drawn(n).data[ppu.frame_index(x)] == shade_of(
                ppu.bgp,
                ppu.backdrop(x),
            ),
        forall|i: int|
            0 <= i < 23040 && !(ppu.ly * 160 <= i < ppu.ly * 160 + n) ==> #[trigger] ppu.bg_drawn(
                n,
            ).data[i] == ppu.data[i],
    decreases n,
{
    if n > 0 {
        bg_drawn_paints_columns(ppu, (n - 1) as nat);
        bg_drawn_touches_frame_only(ppu, (n - 1) as nat);
        let p = ppu.bg_drawn((n - 1) as nat);
        assert(p.backdrop(n - 1) == ppu.backdrop(n - 1));
        assert forall|x: int| 0 <= x < n implies #[trigger] ppu.bg_drawn(n).data[ppu.frame_index(
            x,
        )] == shade_of(ppu.bgp, ppu.backdrop(x)) by {
            if x < n - 1 {
                assert(p.data[ppu.frame_index(x)] == shade_of(ppu.bgp, ppu.backdrop(x)));
            }
        }
    }
}

/// The sprite that shows in a column does not depend on the frame buffer.
pub proof fn top_sprite_ignores_frame(a: Ppu, b: Ppu, x: int, k: nat)
    requires
        a.same_but_frame(b),
    ensures
        a.top_sprite(x, k) == b.top_sprite(x, k),
    decreases k,
{
    if k > 0 {
        top_sprite_ignores_frame(a, b, x, (k - 1) as nat);
    }
}

/// After the sprites are laid over the first `n` columns, each column in
/// which a sprite shows holds that sprite's shade, and every other pixel of
/// the frame is as it was.
pub proof fn sprites_drawn_paints_columns(ppu: Ppu, n: nat)
    requires
        ppu.ly < 144,
        n <= 160,
    ensures
        forall|x: int|
            0 <= x < n ==> #[trigger] ppu.sprites_drawn(n).data[ppu.frame_index(x)] == (
            match ppu.sprite_shade(x) {
                Some(shade) => shade,
                None => ppu.data[ppu.frame_index(x)],
            }),
        forall|i: int|
            0 <= i < 23040 && !(ppu.ly * 160 <= i < ppu.ly * 160 + n) ==> #[trigger] ppu.sprites_drawn(
                n,
            ).data[i] == ppu.data[i],
    decreases n,
{
    if n > 0 {
        sprites_drawn_paints_columns(ppu, (n - 1) as nat);
        sprites_drawn_touches_frame_only(ppu, (n - 1) as nat);
        let p = ppu.sprites_drawn((n - 1) as nat);
        top_sprite_ignores_frame(ppu, p, n - 1, ppu.sprite_count as nat);
        assert(p.sprite_shade(n - 1) == ppu.sprite_shade(n - 1));
        assert forall|x: int| 0 <= x < n implies #[trigger] ppu.sprites_drawn(n).data[ppu.frame_index(
            x,
        )] == (match ppu.sprite_shade(x) {
            Some(shade) => shade,
            None => ppu.data[ppu.frame_index(x)],
        }) by {
            if x < n - 1 {
                assert(p.data[ppu.frame_index(x)] == (match ppu.sprite_shade(x) {
                    Some(shade) => shade,
                    None => ppu.data[ppu.frame_index(x)],
                }));
            }
        }
    }
}

/// A rendered line shows, in every column, the sprite that shows there; where
/// none does, the background or window through BGP if they are switched on,
/// and what the frame held before if they are not. No other line of the
/// frame changes.
pub proof fn rendered_line(ppu: Ppu)
    requires
        ppu.ly < 144,
    ensures
        forall|x: int|
            0 <= x < 160 ==> #[trigger] ppu.after_draw().data[ppu.frame_index(x)] == (
            if has_bit(ppu.lcdc, 0x02) && ppu.sprite_shade(x) is Some {
                ppu.sprite_shade(x).unwrap()
            } else if has_bit(ppu.lcdc, 0x01) {
                shade_of(ppu.bgp, ppu.backdrop(x))
            } else {
                ppu.data[ppu.frame_index(x)]
            }),
        forall|i: int|
            0 <= i < 23040 && !ppu.on_current_line(i) ==> #[trigger] ppu.after_draw().data[i]
                == ppu.data[i],
{
    let bg = ppu.after_draw_bg();
    bg_drawn_paints_columns(ppu, 160);
    bg_drawn_touches_frame_only(ppu, 160);
    sprites_drawn_paints_columns(bg, 160);
    assert forall|x: int| 0 <= x < 160 implies #[trigger] ppu.after_draw().data[ppu.frame_index(
        x,
    )] == (if has_bit(ppu.lcdc, 0x02) && ppu.sprite_shade(x) is Some {
        ppu.sprite_shade(x).unwrap()
    } else if has_bit(ppu.lcdc, 0x01) {
        shade_of(ppu.bgp, ppu.backdrop(x))
    } else {
        ppu.data[ppu.frame_index(x)]
    }) by {
        top_sprite_ignores_frame(ppu, bg, x, ppu.sprite_count as nat);
        assert(bg.sprite_shade(x) == ppu.sprite_shade(x));
        assert(bg.frame_index(x) == ppu.frame_index(x));
        if has_bit(ppu.lcdc, 0x01) {
            assert(bg.data[ppu.frame_index(x)] == shade_of(ppu.bgp, ppu.backdrop(x)));
        } else {
            assert(bg.data[ppu.frame_index(x)] == ppu.data[ppu.frame_index(x)]);
        }
    }
    assert forall|i: int| 0 <= i < 23040 && !ppu.on_current_line(i) implies #[trigger] ppu.after_draw().data[i]
        == ppu.data[i] by {
        assert(bg.data[i] == ppu.data[i]);
    }
}

/// Of the picked sprites that are not transparent in a column, the one that
/// shows has the lowest `x`, and among those with that `x` it was picked
/// first. Where every picked sprite is transparent none shows.
pub proof fn top_sprite_is_the_leftmost(ppu: Ppu, x: int, k: nat)
    requires
        k <= 10,
    ensures
        ppu.top_sprite(x, k) is None ==> forall|i: int|
            0 <= i < k ==> ppu.sprite_color(#[trigger] ppu.sprites[i], x) == 0,
        ppu.top_sprite(x, k) matches Some(top) ==> exists|j: int|
            {
                &&& 0 <= j < k
                &&& #[trigger] ppu.sprites[j] == top
                &&& ppu.sprite_color(top, x) != 0
                &&& forall|i: int|
                    0 <= i < k && ppu.sprite_color(#[trigger] ppu.sprites[i], x) != 0 ==> top.x
                        < ppu.sprites[i].x || (top.x == ppu.sprites[i].x && j <= i)
            },
    decreases k,
{
    if k > 0 {
        top_sprite_is_the_leftmost(ppu, x, (k - 1) as nat);
        let before = ppu.top_sprite(x, (k - 1) as nat);
        let sprite = ppu.sprites[k - 1];
        if ppu.sprite_color(sprite, x) != 0 && (before matches Some(b) ==> sprite.x < b.x) {
            assert(ppu.sprites[k - 1] == sprite);
        }
    }
}

} // verus!

verus! {

impl Ppu {
    /// Whether the `j`-th picked sprite is the sprite `i` of the object
    /// attribute memory, with the attributes that stand there.
    pub open spec fn picked_is(self, j: int, i: int) -> bool {
        self.sprites[j] == (SpriteInfo {
            y: self.oam[4 * i],
            x: self.oam[4 * i + 1],
            tile: self.oam[4 * i + 2],
            flags: self.oam[4 * i + 3],
            index: (4 * i) as u8,
        })
    }

    /// Whether sprite `i` of the object attribute memory is among the
    /// picked sprites.
    pub open spec fn picks(self, i: int) -> bool {
        exists|j: int| 0 <= j < self.sprite_count && self.picked_is(j, i)
    }
}

/// What the search of the first `k` sprites leaves in the line buffer: at
/// most ten sprites; each of them lies on the line and carries its own
/// attributes; they stand in the order of the object attribute memory; and a
/// sprite on the line is left out only when ten before it were picked.
pub proof fn search_keeps_the_first_ten(ppu: Ppu, k: nat)
    requires
        k <= 40,
    ensures
        ppu.scanned(k).sprite_count <= 10,
        forall|j: int|
            0 <= j < ppu.scanned(k).sprite_count ==> {
                let index = (#[trigger] ppu.scanned(k).sprites[j]).index;
                &&& index % 4 == 0
                &&& index / 4 < k
                &&& ppu.sprite_on_line(index as int / 4)
                &&& ppu.scanned(k).picked_is(j, index as int / 4)
            },
        forall|a: int, b: int|
            0 <= a < b < ppu.scanned(k).sprite_count ==> (#[trigger] ppu.scanned(k).sprites[a]).index
                < (#[trigger] ppu.scanned(k).sprites[b]).index,
        forall|i: int|
            0 <= i < k && #[trigger] ppu.sprite_on_line(i) ==> ppu.scanned(k).picks(i) || (
            ppu.scanned(k).sprite_count == 10 && ppu.scanned(k).sprites[9].index < 4 * i),
    decreases k,
{
    if k > 0 {
        let p = ppu.scanned((k - 1) as nat);
        let q = ppu.scanned(k);
        let i = k - 1;
        search_keeps_the_first_ten(ppu, (k - 1) as nat);
        scanned_touches_sprites_only(ppu, (k - 1) as nat);
        assert(p.sprite_on_line(i) == ppu.sprite_on_line(i));
        if p.sprite_count < 10 && p.sprite_on_line(i) {
            let n = p.sprite_count as int;
            assert(q.picked_is(n, i));
            assert forall|j: int| 0 <= j < q.sprite_count implies {
                let index = (#[trigger] q.sprites[j]).index;
                &&& index % 4 == 0
                &&& index / 4 < k
                &&& ppu.sprite_on_line(index as int / 4)
                &&& q.picked_is(j, index as int / 4)
            } by {
                if j < n {
                    assert(q.sprites[j] == p.sprites[j]);
                    assert(p.picked_is(j, p.sprites[j].index as int / 4));
                }
            }
            assert forall|a: int, b: int| 0 <= a < b < q.sprite_count implies (
            #[trigger] q.sprites[a]).index < (#[trigger] q.sprites[b]).index by {
                assert(q.sprites[a] == p.sprites[a]);
                if b < n {
                    assert(q.sprites[b] == p.sprites[b]);
                }
            }
            assert forall|m: int| 0 <= m < k && #[trigger] ppu.sprite_on_line(m) implies q.picks(m)
                || (q.sprite_count == 10 && q.sprites[9].index < 4 * m) by {
                if m < k - 1 {
                    assert(p.picks(m));
                    let j = choose|j: int| 0 <= j < p.sprite_count && p.picked_is(j, m);
                    assert(q.sprites[j] == p.sprites[j]);
                    assert(q.picked_is(j, m));
                } else {
                    assert(q.picked_is(n, m));
                }
            }
        } else {
            assert(q == p);
            assert forall|m: int| 0 <= m < k && #[trigger] ppu.sprite_on_line(m) implies q.picks(m)
                || (q.sprite_count == 10 && q.sprites[9].index < 4 * m) by {
                if m == k - 1 {
                    assert(p.sprite_count == 10);
                    assert(p.sprites[9].index as int / 4 < k - 1);
                }
            }
        }
    }
}

} // verus!
