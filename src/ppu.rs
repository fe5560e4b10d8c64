use vstd::prelude::*;
use crate::bus::read_spec;
use crate::state::{Nes, PPUCTRL};

verus! {

/// An 8x8 tile of 2-bit colour indices, row by row (`data[8 * row + col]`).
pub struct Tile {
    pub data: Vec<u8>,
}

/// One OAM entry.
pub struct Sprite {
    pub c: u8,
    pub r: u8,
    pub pattern_table_index: u8,
    pub palette_index: u8,
    pub priority: bool,
    pub h_flip: bool,
    pub v_flip: bool,
}

/// Bit `7 - col` of a byte: pixel `col` of one bit plane of a tile row.
pub open spec fn plane_bit(b: u8, col: int) -> u8 {
    (b >> ((7 - col) as u8)) & 1
}

/// The colour index of a tile pixel: the low plane at `data[row]`, the high
/// plane at `data[row + 8]`.
pub open spec fn tile_pixel(data: Seq<u8>, row: int, col: int) -> u8 {
    plane_bit(data[row], col) | (plane_bit(data[row + 8], col) << 1u8)
}

/// Decodes the 16 bytes of a pattern table entry into 64 pixels.
pub fn parse_tile(data: [u8; 16]) -> (r: Tile)
    ensures
        r.data@.len() == 64,
        forall|row: int, col: int|
            0 <= row < 8 && 0 <= col < 8 ==> #[trigger] r.data@[8 * row + col] == tile_pixel(
                data@,
                row,
                col,
            ),
{
    let mut result: Vec<u8> = Vec::new();
    let mut row: usize = 0;
    while row < 8
        invariant
            row <= 8,
            result@.len() == 8 * row,
            forall|i: int, j: int|
                0 <= i < row && 0 <= j < 8 ==> #[trigger] result@[8 * i + j] == tile_pixel(
                    data@,
                    i,
                    j,
                ),
        decreases 8 - row,
    {
        let low: u8 = data[row];
        let high: u8 = data[row + 8];
        let mut col: usize = 0;
        while col < 8
            invariant
                row < 8,
                col <= 8,
                low == data@[row as int],
                high == data@[row + 8],
                result@.len() == 8 * row + col,
                forall|i: int, j: int|
                    0 <= i < row && 0 <= j < 8 ==> #[trigger] result@[8 * i + j] == tile_pixel(
                        data@,
                        i,
                        j,
                    ),
                forall|j: int|
                    0 <= j < col ==> #[trigger] result@[8 * row + j] == tile_pixel(
                        data@,
                        row as int,
                        j,
                    ),
            decreases 8 - col,
        {
            let shift: u8 = (7 - col) as u8;
            result.push(((low >> shift) & 1) | (((high >> shift) & 1) << 1u8));
            col = col + 1;
        }
        row = row + 1;
    }
    Tile { data: result }
}

/// Decodes a 4-byte OAM entry: Y, tile index, attributes, X.
pub fn parse_sprite(data: [u8; 4]) -> (r: Sprite)
    ensures
        r.r == data@[0],
        r.pattern_table_index == data@[1],
        r.palette_index == data@[2] & 0x03,
        r.priority == (data@[2] & 0x20 != 0),
        r.h_flip == (data@[2] & 0x40 != 0),
        r.v_flip == (data@[2] & 0x80 != 0),
        r.c == data@[3],
{
    Sprite {
        c: data[3],
        r: data[0],
        pattern_table_index: data[1],
        palette_index: data[2] & 0x03,
        priority: (data[2] & 0x20) != 0,
        h_flip: (data[2] & 0x40) != 0,
        v_flip: (data[2] & 0x80) != 0,
    }
}

/// The palette that an attribute byte gives the tile at (`r`, `c`): two bits per
/// 2x2-tile quadrant, upper left in bits 0-1, upper right 2-3, lower left 4-5,
/// lower right 6-7.
pub open spec fn attribute_palette(attr: u8, r: int, c: int) -> u8 {
    let shift: u8 = if r % 4 < 2 {
        if c % 4 < 2 { 0u8 } else { 2u8 }
    } else {
        if c % 4 < 2 { 4u8 } else { 6u8 }
    };
    (attr >> shift) & 0x03
}

/// The background palette of the tile at row `r`, column `c` of a name table,
/// picked from its attribute byte.
pub fn background_palette_index(attr: u8, r: u16, c: u16) -> (p: u8)
    ensures
        p == attribute_palette(attr, r as int, c as int),
        p < 4,
{
    let shift: u8 = if r % 4 < 2 {
        if c % 4 < 2 { 0 } else { 2 }
    } else {
        if c % 4 < 2 { 4 } else { 6 }
    };
    let p: u8 = (attr >> shift) & 0x03;
    assert((attr >> shift) & 0x03 < 4) by (bit_vector);
    p
}

impl Nes {
    /// PPUCTRL, read over the bus (reading it has no side effect).
    fn ppuctrl(&mut self) -> (r: u8)
        requires
            old(self).wf(),
        ensures
            final(self)@ == old(self)@,
            r == old(self)@.ppu_regs[0],
    {
        proof {
            reveal(read_spec);
        }
        self.read(PPUCTRL)
    }

    /// Background pattern table: 0x1000 when PPUCTRL bit 4 is set, else 0.
    pub fn get_bg_pattern_table_base(&mut self) -> (r: u16)
        requires
            old(self).wf(),
        ensures
            final(self)@ == old(self)@,
            r == (if old(self)@.ppu_regs[0] & 0x10 != 0 { 0x1000u16 } else { 0u16 }),
    {
        if self.ppuctrl() & 0x10 != 0 {
            0x1000
        } else {
            0
        }
    }

    /// Sprite pattern table: 0x1000 when PPUCTRL bit 3 is set, else 0.
    pub fn get_sprite_pattern_table_base(&mut self) -> (r: u16)
        requires
            old(self).wf(),
        ensures
            final(self)@ == old(self)@,
            r == (if old(self)@.ppu_regs[0] & 0x08 != 0 { 0x1000u16 } else { 0u16 }),
    {
        if self.ppuctrl() & 0x08 != 0 {
            0x1000
        } else {
            0
        }
    }

    /// Base name table: 0x2000 + 0x400 * (PPUCTRL & 3).
    pub fn get_name_table_base(&mut self) -> (r: u16)
        requires
            old(self).wf(),
        ensures
            final(self)@ == old(self)@,
            r == 0x2000 + 0x400 * (old(self)@.ppu_regs[0] & 0x03),
    {
        let ctrl: u8 = self.ppuctrl();
        assert(ctrl & 0x03 < 4) by (bit_vector);
        0x2000 + 0x400 * ((ctrl & 0x03) as u16)
    }

    /// The attribute table that follows the base name table's 960 tile bytes.
    pub fn get_attribute_table_base(&mut self) -> (r: u16)
        requires
            old(self).wf(),
        ensures
            final(self)@ == old(self)@,
            r == 0x2000 + 0x400 * (old(self)@.ppu_regs[0] & 0x03) + 0x3c0,
    {
        self.get_name_table_base() + 0x3c0
    }

    /// Whether sprites are 8x16 (PPUCTRL bit 5).
    pub fn is_in_8x16_mode(&mut self) -> (r: bool)
        requires
            old(self).wf(),
        ensures
            final(self)@ == old(self)@,
            r == (old(self)@.ppu_regs[0] & 0x20 != 0),
    {
        (self.ppuctrl() & 0x20) != 0
    }

    /// Whether sprites are drawn (PPUCTRL bit 4).
    pub fn sprite_is_enabled(&mut self) -> (r: bool)
        requires
            old(self).wf(),
        ensures
            final(self)@ == old(self)@,
            r == (old(self)@.ppu_regs[0] & 0x10 != 0),
    {
        (self.ppuctrl() & 0x10) != 0
    }

    /// Whether the background is drawn (PPUCTRL bit 3).
    pub fn background_is_enabled(&mut self) -> (r: bool)
        requires
            old(self).wf(),
        ensures
            final(self)@ == old(self)@,
            r == (old(self)@.ppu_regs[0] & 0x08 != 0),
    {
        (self.ppuctrl() & 0x08) != 0
    }

    /// The 9-bit horizontal scroll: PPUCTRL bit 0 above the PPUSCROLL X byte.
    pub fn get_x_scroll(&mut self) -> (r: u16)
        requires
            old(self).wf(),
        ensures
            final(self)@ == old(self)@,
            r == (if old(self)@.ppu_regs[0] & 0x01 != 0 { 0x100int } else { 0int })
                + old(self)@.internal_x_scroll,
    {
        let high: u16 = if self.ppuctrl() & 0x01 != 0 {
            0x100
        } else {
            0
        };
        high + self.internal_x_scroll as u16
    }

    /// The 9-bit vertical scroll: PPUCTRL bit 1 above the PPUSCROLL Y byte.
    pub fn get_y_scroll(&mut self) -> (r: u16)
        requires
            old(self).wf(),
        ensures
            final(self)@ == old(self)@,
            r == (if old(self)@.ppu_regs[0] & 0x02 != 0 { 0x100int } else { 0int })
                + old(self)@.internal_y_scroll,
    {
        let high: u16 = if self.ppuctrl() & 0x02 != 0 {
            0x100
        } else {
            0
        };
        high + self.internal_y_scroll as u16
    }
}

} // verus!
