use vstd::prelude::*;

use super::frame::{FRAME_BYTES, Frame, HEIGHT, WIDTH, on_screen, pixel_at, law_set_pixel};
use super::{Ppu, PpuView};
use crate::cpu::flags::lemma_byte_facts;

verus! {

pub const ATTRIBUTE_TABLE_OFFSET: usize = 0x3C0;
pub const ATTRIBUTE_TABLE_COLS: usize = 8;
pub const TILES_PER_BLOCK: usize = 4;
pub const TILES_PER_AREA: usize = 2;
pub const PALETTE_SIZE: usize = 4;
pub const PALETTE_COLORS_START: usize = 1;
pub const SPRITE_PALETTE_START: usize = 0x11;
pub const OAM_ENTRY_SIZE: usize = 4;
pub const TILE_SIZE_BYTES: u16 = 16;
pub const TILE_WIDTH: usize = 8;
pub const NAMETABLE_TILE_COLS: usize = 32;

/// The 2-bit colour of pixel (x, y) of the 8x8 tile whose 16 bytes start at
/// `start`: bit 7 - x of plane 0 (byte y) and of plane 1 (byte y + 8).
pub open spec fn tile_pixel_value(chr: Seq<u8>, start: int, x: int, y: int) -> u8 {
    let k = (7 - x) as u8;
    ((1u8 & (chr[start + y + 8] >> k)) << 1u8) | (1u8 & (chr[start + y] >> k))
}

/// The palette number (0-3) that the attribute table gives the tile at
/// (`col`, `row`): each attribute byte covers 4x4 tiles, two bits per 2x2
/// quadrant.
pub open spec fn attribute_palette(ppu: PpuView, col: int, row: int) -> u8 {
    let attribute = ppu.vram[ATTRIBUTE_TABLE_OFFSET + (row / 4) * 8 + col / 4];
    let qx = (col % 4) / 2;
    let qy = (row % 4) / 2;
    if qx == 0 && qy == 0 {
        attribute & 0b11
    } else if qx == 1 && qy == 0 {
        (attribute >> 2u8) & 0b11
    } else if qx == 0 && qy == 1 {
        (attribute >> 4u8) & 0b11
    } else {
        (attribute >> 6u8) & 0b11
    }
}

/// Each attribute byte covers a 4x4 block of tiles, two bits per 2x2
/// quadrant, from the low bits up: top-left, top-right, bottom-left,
/// bottom-right.  The palette number of the tile at (`col`, `row`) is the
/// two bits of its block's byte at 2 * (2 * qy + qx), where qx and qy are
/// its quadrant's column and row within the block.
pub proof fn law_attribute_quadrants(ppu: PpuView, col: int, row: int)
    requires
        0 <= col,
        0 <= row,
    ensures
        ({
            let attribute = ppu.vram[ATTRIBUTE_TABLE_OFFSET + (row / 4) * 8 + col / 4];
            let qx = (col % 4) / 2;
            let qy = (row % 4) / 2;
            attribute_palette(ppu, col, row) == (attribute >> ((2 * (2 * qy + qx)) as u8)) & 3
        }),
{
    let attribute = ppu.vram[ATTRIBUTE_TABLE_OFFSET + (row / 4) * 8 + col / 4];
    lemma_byte_facts(attribute);
}

/// Bit `k` of a byte, as 0 or 1.
pub open spec fn bit_at(b: u8, k: int) -> int {
    ((b >> (k as u8)) & 1) as int
}

/// A tile is two bit planes of eight bytes, one byte per row, leftmost pixel
/// in bit 7: the colour of pixel (x, y) takes its low bit from plane 0 (byte
/// y) and its high bit from plane 1 (byte y + 8).
pub proof fn law_tile_planes(chr: Seq<u8>, start: int, x: int, y: int)
    requires
        0 <= x < 8,
    ensures
        tile_pixel_value(chr, start, x, y) == 2 * bit_at(chr[start + y + 8], 7 - x) + bit_at(
            chr[start + y],
            7 - x,
        ),
{
    let k = (7 - x) as u8;
    let h = chr[start + y + 8] >> k;
    let l = chr[start + y] >> k;
    lemma_small_values(h, l);
}

/// The two-bit colour made of the low bits of two plane bytes.
proof fn lemma_small_values(a: u8, b: u8)
    by (bit_vector)
    ensures
        ((1u8 & a) << 1u8) | (1u8 & b) == 2 * (a & 1) + (b & 1),
        ((1u8 & a) << 1u8) | (1u8 & b) <= 3,
        a & 0b11 <= 3,
{
}

/// A background pixel of colour 0 shows the backdrop (palette entry 0);
/// colour 1-3 shows entry 4 * p + colour, where p is the tile's palette
/// number from the attribute table.
pub proof fn law_background_colour(ppu: PpuView, bank: int, x: int, y: int)
    ensures
        ({
            let value = tile_pixel_value(ppu.chr_rom, bank + ppu.vram[(y / 8) * 32 + x / 8] * 16, x % 8, y % 8);
            background_color(ppu, bank, x, y) == if value == 0 {
                ppu.palette_table[0]
            } else {
                ppu.palette_table[4 * attribute_palette(ppu, x / 8, y / 8) + value]
            }
        }),
{
}

/// The system-palette index of background pixel (x, y) of the first
/// nametable, with the pattern table at `bank`: colour 0 is the universal
/// background colour, colours 1-3 come from the tile's palette.
pub open spec fn background_color(ppu: PpuView, bank: int, x: int, y: int) -> u8 {
    let col = x / 8;
    let row = y / 8;
    let start = bank + ppu.vram[row * 32 + col] * 16;
    let value = tile_pixel_value(ppu.chr_rom, start, x % 8, y % 8);
    if value == 0 {
        ppu.palette_table[0]
    } else {
        ppu.palette_table[1 + attribute_palette(ppu, col, row) * 4 + value - 1]
    }
}

/// Every background tile lies within CHR ROM and every colour that the
/// background looks up is one of the 64 system colours.
pub open spec fn background_renderable(ppu: PpuView, bank: int) -> bool {
    &&& forall|i: int| 0 <= i < 960 ==> bank + ppu.vram[i] * 16 + 16 <= ppu.chr_rom.len()
    &&& forall|x: int, y: int| on_screen(x, y) ==> background_color(ppu, bank, x, y) < 64
}

proof fn lemma_shift_step(t: u8, k: u8)
    requires
        k < 8,
    ensures
        (t >> k) >> 1u8 == t >> ((k + 1) as u8),
        1u8 & (t >> k) <= 1,
        t >> 0u8 == t,
{
    assert((t >> k) >> 1u8 == t >> ((k + 1) as u8) && 1u8 & (t >> k) <= 1 && t >> 0u8 == t)
        by (bit_vector)
        requires
            k < 8,
    ;
}

/// The four colours of the palette of the tile at (`tile_column`, `tile_row`).
pub fn background_palette(ppu: &Ppu, tile_column: usize, tile_row: usize) -> (palette: [u8; 4])
    requires
        tile_column < 32,
        tile_row < 30,
    ensures
        palette@[0] == ppu.view().palette_table[0],
        forall|v: int|
            1 <= v <= 3 ==> palette@[v] == ppu.view().palette_table[1 + attribute_palette(
                ppu.view(),
                tile_column as int,
                tile_row as int,
            ) * 4 + v - 1],
{
    let attribute_table_index = tile_row / TILES_PER_BLOCK * ATTRIBUTE_TABLE_COLS + tile_column
        / TILES_PER_BLOCK;
    let attribute_byte = ppu.vram[ATTRIBUTE_TABLE_OFFSET + attribute_table_index];
    let qx = tile_column % TILES_PER_BLOCK / TILES_PER_AREA;
    let qy = tile_row % TILES_PER_BLOCK / TILES_PER_AREA;
    let palette_index = if qx == 0 && qy == 0 {
        attribute_byte & 0b11
    } else if qx == 1 && qy == 0 {
        (attribute_byte >> 2u8) & 0b11
    } else if qx == 0 && qy == 1 {
        (attribute_byte >> 4u8) & 0b11
    } else {
        (attribute_byte >> 6u8) & 0b11
    };
    proof {
        lemma_byte_facts(attribute_byte);
        lemma_byte_facts(attribute_byte >> 2u8);
        lemma_byte_facts(attribute_byte >> 4u8);
        lemma_byte_facts(attribute_byte >> 6u8);
    }
    let palette_start = PALETTE_COLORS_START + (palette_index as usize) * PALETTE_SIZE;
    [
        ppu.palette_table[0],
        ppu.palette_table[palette_start],
        ppu.palette_table[palette_start + 1],
        ppu.palette_table[palette_start + 2],
    ]
}

proof fn lemma_tile_pixel(i: int, x: int, y: int, px: int, py: int)
    requires
        0 <= i < 960,
        0 <= x < 8,
        0 <= y < 8,
        px == (i % 32) * 8 + x,
        py == (i / 32) * 8 + y,
    ensures
        on_screen(px, py),
        px / 8 == i % 32,
        px % 8 == x,
        py / 8 == i / 32,
        py % 8 == y,
        (py / 8) * 32 + px / 8 == i,
{
}

#[verifier::rlimit(50)]
proof fn lemma_background_step(
    initial: Seq<u8>,
    before: Seq<u8>,
    after: Seq<u8>,
    system_palette: Seq<(u8, u8, u8)>,
    v: PpuView,
    bank: int,
    i: int,
    y: int,
    k: int,
    px: int,
    py: int,
    rgb: (u8, u8, u8),
)
    requires
        0 <= i < 960,
        0 <= y < 8,
        0 <= k < 8,
        before.len() == FRAME_BYTES,
        on_screen(px, py),
        px / 8 == i % 32,
        px % 8 == 7 - k,
        py / 8 == i / 32,
        py % 8 == y,
        (py / 8) * 32 + px / 8 == i,
        rgb == system_palette[background_color(v, bank, px, py) as int],
        after == before.update(crate::ppu::frame::pixel_base(px, py), rgb.0).update(
            crate::ppu::frame::pixel_base(px, py) + 1,
            rgb.1,
        ).update(crate::ppu::frame::pixel_base(px, py) + 2, rgb.2),
        forall|qx: int, qy: int|
            on_screen(qx, qy) ==> #[trigger] pixel_at(before, qx, qy) == if background_done(
                i,
                y,
                k,
                qx,
                qy,
            ) {
                system_palette[background_color(v, bank, qx, qy) as int]
            } else {
                pixel_at(initial, qx, qy)
            },
    ensures
        forall|qx: int, qy: int|
            on_screen(qx, qy) ==> #[trigger] pixel_at(after, qx, qy) == if background_done(
                i,
                y,
                k + 1,
                qx,
                qy,
            ) {
                system_palette[background_color(v, bank, qx, qy) as int]
            } else {
                pixel_at(initial, qx, qy)
            },
{
    assert forall|qx: int, qy: int| on_screen(qx, qy) implies #[trigger] pixel_at(after, qx, qy)
        == if background_done(i, y, k + 1, qx, qy) {
        system_palette[background_color(v, bank, qx, qy) as int]
    } else {
        pixel_at(initial, qx, qy)
    } by {
        law_set_pixel(before, px, py, rgb, qx, qy);
        assert(pixel_at(before, qx, qy) == if background_done(i, y, k, qx, qy) {
            system_palette[background_color(v, bank, qx, qy) as int]
        } else {
            pixel_at(initial, qx, qy)
        });
        if qx == px && qy == py {
        } else {
            assert(background_done(i, y, k + 1, qx, qy) == background_done(i, y, k, qx, qy));
        }
    }
}

/// Which background pixels have been painted once `tile` tiles, then `y`
/// rows and `k` pixels of the row of tile `tile`, are done.
pub open spec fn background_done(tile: int, y: int, k: int, px: int, py: int) -> bool {
    let t = (py / 8) * 32 + px / 8;
    t < tile || (t == tile && (py % 8 < y || (py % 8 == y && px % 8 >= 8 - k)))
}

/// Paints the first nametable: each of the 32x30 tiles, each pixel in the
/// colour that `background_color` names.
pub fn render_background(ppu: &Ppu, frame: &mut Frame, system_palette: &[(u8, u8, u8); 64])
    requires
        old(frame).pixel@.len() == FRAME_BYTES,
        background_renderable(
            ppu.view(),
            if ppu.view().controller & 0x10 == 0x10 {
                0x1000int
            } else {
                0int
            },
        ),
    ensures
        final(frame).pixel@.len() == FRAME_BYTES,
        forall|x: int, y: int|
            on_screen(x, y) ==> #[trigger] pixel_at(final(frame).pixel@, x, y)
                == system_palette@[background_color(
                ppu.view(),
                if ppu.view().controller & 0x10 == 0x10 {
                    0x1000int
                } else {
                    0int
                },
                x,
                y,
            ) as int],
{
    let bank = ppu.controller_register.background_pattern_address();
    let ghost v = ppu.view();
    let ghost initial = frame.pixel@;
    let mut i: usize = 0;
    while i < ATTRIBUTE_TABLE_OFFSET
        invariant
            0 <= i <= 960,
            v == ppu.view(),
            bank == (if v.controller & 0x10 == 0x10 {
                0x1000int
            } else {
                0int
            }),
            background_renderable(v, bank as int),
            frame.pixel@.len() == FRAME_BYTES,
            forall|px: int, py: int|
                on_screen(px, py) ==> #[trigger] pixel_at(frame.pixel@, px, py) == if background_done(
                    i as int,
                    0,
                    0,
                    px,
                    py,
                ) {
                    system_palette@[background_color(v, bank as int, px, py) as int]
                } else {
                    pixel_at(initial, px, py)
                },
        decreases 960 - i,
    {
        let tile_number = ppu.vram[i] as u16;
        let tile_column = i % NAMETABLE_TILE_COLS;
        let tile_row = i / NAMETABLE_TILE_COLS;
        let tile_start = (bank + tile_number * TILE_SIZE_BYTES) as usize;
        let palette = background_palette(ppu, tile_column, tile_row);
        let mut y: usize = 0;
        while y < 8
            invariant
                0 <= i < 960,
                y <= 8,
                v == ppu.view(),
                background_renderable(v, bank as int),
                tile_column == i % 32,
                tile_row == i / 32,
                tile_start == bank + v.vram[i as int] * 16,
                palette@[0] == v.palette_table[0],
                forall|c: int|
                    1 <= c <= 3 ==> palette@[c] == v.palette_table[1 + attribute_palette(
                        v,
                        tile_column as int,
                        tile_row as int,
                    ) * 4 + c - 1],
                frame.pixel@.len() == FRAME_BYTES,
                forall|px: int, py: int|
                    on_screen(px, py) ==> #[trigger] pixel_at(frame.pixel@, px, py) == if background_done(
                        i as int,
                        y as int,
                        0,
                        px,
                        py,
                    ) {
                        system_palette@[background_color(v, bank as int, px, py) as int]
                    } else {
                        pixel_at(initial, px, py)
                    },
            decreases 8 - y,
        {
            let mut upper = ppu.chr_rom[tile_start + y];
            let mut lower = ppu.chr_rom[tile_start + y + TILE_WIDTH];
            proof {
                lemma_shift_step(upper, 0);
                lemma_shift_step(lower, 0);
            }
            let mut k: usize = 0;
            while k < 8
                invariant
                    0 <= i < 960,
                    y < 8,
                    k <= 8,
                    v == ppu.view(),
                    background_renderable(v, bank as int),
                    tile_column == i % 32,
                    tile_row == i / 32,
                    tile_start == bank + v.vram[i as int] * 16,
                    upper == v.chr_rom[tile_start + y] >> (k as u8),
                    lower == v.chr_rom[tile_start + y + 8] >> (k as u8),
                    palette@[0] == v.palette_table[0],
                    forall|c: int|
                        1 <= c <= 3 ==> palette@[c] == v.palette_table[1 + attribute_palette(
                            v,
                            tile_column as int,
                            tile_row as int,
                        ) * 4 + c - 1],
                    frame.pixel@.len() == FRAME_BYTES,
                    forall|px: int, py: int|
                        on_screen(px, py) ==> #[trigger] pixel_at(frame.pixel@, px, py)
                            == if background_done(i as int, y as int, k as int, px, py) {
                            system_palette@[background_color(v, bank as int, px, py) as int]
                        } else {
                            pixel_at(initial, px, py)
                        },
                decreases 8 - k,
            {
                let x = 7 - k;
                let value = ((1u8 & lower) << 1u8) | (1u8 & upper);
                proof {
                    lemma_shift_step(v.chr_rom[tile_start + y], k as u8);
                    lemma_shift_step(v.chr_rom[tile_start + y + 8], k as u8);
                    lemma_small_values(lower, upper);
                }
                upper = upper >> 1u8;
                lower = lower >> 1u8;
                let px = tile_column * TILE_WIDTH + x;
                let py = tile_row * TILE_WIDTH + y;
                proof {
                    lemma_tile_pixel(i as int, x as int, y as int, px as int, py as int);
                    assert(value == tile_pixel_value(v.chr_rom, tile_start as int, x as int, y as int));
                }
                let color = if value == 0 {
                    ppu.palette_table[0]
                } else if value == 1 {
                    palette[1]
                } else if value == 2 {
                    palette[2]
                } else {
                    palette[3]
                };
                proof {
                    assert(color == background_color(v, bank as int, px as int, py as int));
                    assert(background_color(v, bank as int, px as int, py as int) < 64);
                }
                let rgb = system_palette[color as usize];
                let ghost before = frame.pixel@;
                frame.set_pixel(px, py, rgb);
                proof {
                    lemma_background_step(
                        initial,
                        before,
                        frame.pixel@,
                        system_palette@,
                        v,
                        bank as int,
                        i as int,
                        y as int,
                        k as int,
                        px as int,
                        py as int,
                        rgb,
                    );
                }
                k = k + 1;
            }
            y = y + 1;
        }
        i = i + 1;
    }
}

/// The four colours of sprite palette `palette_index` (colour 0 is
/// transparent and never drawn).
pub fn sprite_palette(ppu: &Ppu, palette_index: u8) -> (palette: [u8; 4])
    requires
        palette_index <= 3,
    ensures
        palette@[0] == 0,
        forall|c: int|
            1 <= c <= 3 ==> palette@[c] == ppu.view().palette_table[SPRITE_PALETTE_START
                + palette_index * 4 + c - 1],
{
    let start = SPRITE_PALETTE_START + (palette_index as usize) * PALETTE_SIZE;
    [0, ppu.palette_table[start], ppu.palette_table[start + 1], ppu.palette_table[start + 2]]
}

/// Sprite `j` (0-63) in OAM: Y, tile number, attributes, X.
pub open spec fn sprite_y(ppu: PpuView, j: int) -> int {
    ppu.oam_data[4 * j] as int
}

pub open spec fn sprite_x(ppu: PpuView, j: int) -> int {
    ppu.oam_data[4 * j + 3] as int
}

pub open spec fn sprite_attributes(ppu: PpuView, j: int) -> u8 {
    ppu.oam_data[4 * j + 2]
}

pub open spec fn sprite_tile_start(ppu: PpuView, bank: int, j: int) -> int {
    bank + ppu.oam_data[4 * j + 1] * 16
}

pub open spec fn flips_horizontally(ppu: PpuView, j: int) -> bool {
    (sprite_attributes(ppu, j) >> 6u8) & 1 == 1
}

pub open spec fn flips_vertically(ppu: PpuView, j: int) -> bool {
    (sprite_attributes(ppu, j) >> 7u8) & 1 == 1
}

/// Sprite `j`'s 8x8 box holds screen pixel (x, y).
pub open spec fn sprite_covers(ppu: PpuView, j: int, x: int, y: int) -> bool {
    0 <= x - sprite_x(ppu, j) < 8 && 0 <= y - sprite_y(ppu, j) < 8
}

/// The tile column of sprite `j` that shows at screen column `x`.
pub open spec fn sprite_tile_x(ppu: PpuView, j: int, x: int) -> int {
    if flips_horizontally(ppu, j) {
        7 - (x - sprite_x(ppu, j))
    } else {
        x - sprite_x(ppu, j)
    }
}

/// The tile row of sprite `j` that shows at screen row `y`.
pub open spec fn sprite_tile_y(ppu: PpuView, j: int, y: int) -> int {
    if flips_vertically(ppu, j) {
        7 - (y - sprite_y(ppu, j))
    } else {
        y - sprite_y(ppu, j)
    }
}

/// The 2-bit colour of sprite `j` at screen pixel (x, y); 0 is transparent.
pub open spec fn sprite_value(ppu: PpuView, bank: int, j: int, x: int, y: int) -> u8 {
    tile_pixel_value(
        ppu.chr_rom,
        sprite_tile_start(ppu, bank, j),
        sprite_tile_x(ppu, j, x),
        sprite_tile_y(ppu, j, y),
    )
}

/// The system-palette index of an opaque pixel of sprite `j`.
pub open spec fn sprite_color(ppu: PpuView, bank: int, j: int, x: int, y: int) -> u8 {
    ppu.palette_table[SPRITE_PALETTE_START + (sprite_attributes(ppu, j) & 0b11) * 4
        + sprite_value(ppu, bank, j, x, y) - 1]
}

pub open spec fn sprite_opaque_at(ppu: PpuView, bank: int, j: int, x: int, y: int) -> bool {
    sprite_covers(ppu, j, x, y) && sprite_value(ppu, bank, j, x, y) != 0
}

/// The colour that sprites `j`..63 give screen pixel (x, y): that of the
/// first of them (the lowest OAM index) with an opaque pixel there, if any.
pub open spec fn sprite_layer(ppu: PpuView, bank: int, j: int, x: int, y: int) -> Option<u8>
    decreases 64 - j,
{
    if j >= 64 || j < 0 {
        None
    } else if sprite_opaque_at(ppu, bank, j, x, y) {
        Some(sprite_color(ppu, bank, j, x, y))
    } else {
        sprite_layer(ppu, bank, j + 1, x, y)
    }
}

/// Sprite `j` is four OAM bytes: Y, tile, attributes, X.  It covers the 8x8
/// box from (X, Y); bit 6 of the attributes mirrors it left-right and bit 7
/// top-bottom; its colour 1-3 shows sprite palette entry
/// 0x10 + 4 * (attributes mod 4) + colour, and colour 0 is transparent.
pub proof fn law_sprite_pixel(ppu: PpuView, bank: int, j: int, x: int, y: int)
    requires
        0 <= j < 64,
        ppu.oam_data.len() == 256,
    ensures
        ({
            let sy = ppu.oam_data[4 * j] as int;
            let tile = ppu.oam_data[4 * j + 1] as int;
            let attributes = ppu.oam_data[4 * j + 2];
            let sx = ppu.oam_data[4 * j + 3] as int;
            let tx = if (attributes / 64) % 2 == 1 {
                7 - (x - sx)
            } else {
                x - sx
            };
            let ty = if attributes >= 128 {
                7 - (y - sy)
            } else {
                y - sy
            };
            let value = tile_pixel_value(ppu.chr_rom, bank + tile * 16, tx, ty);
            &&& sprite_covers(ppu, j, x, y) == (sx <= x < sx + 8 && sy <= y < sy + 8)
            &&& sprite_value(ppu, bank, j, x, y) == value
            &&& sprite_opaque_at(ppu, bank, j, x, y) == (sprite_covers(ppu, j, x, y) && value != 0)
            &&& sprite_color(ppu, bank, j, x, y) == ppu.palette_table[0x10 + 4 * (attributes % 4)
                + value]
        }),
{
    let attributes = ppu.oam_data[4 * j + 2];
    lemma_byte_facts(attributes);
}

/// Sprites overlap by OAM order: a pixel shows the colour of the
/// lowest-numbered sprite from `j` on with an opaque pixel there, and no
/// sprite colour where none is opaque.
pub proof fn law_sprite_priority(ppu: PpuView, bank: int, j: int, x: int, y: int)
    requires
        0 <= j <= 64,
    ensures
        (forall|k: int| j <= k < 64 ==> !sprite_opaque_at(ppu, bank, k, x, y)) ==> sprite_layer(
            ppu,
            bank,
            j,
            x,
            y,
        ) is None,
        forall|k: int|
            j <= k < 64 && sprite_opaque_at(ppu, bank, k, x, y) && (forall|i: int|
                j <= i < k ==> !sprite_opaque_at(ppu, bank, i, x, y)) ==> sprite_layer(
                ppu,
                bank,
                j,
                x,
                y,
            ) == Some(sprite_color(ppu, bank, k, x, y)),
    decreases 64 - j,
{
    if j < 64 {
        law_sprite_priority(ppu, bank, j + 1, x, y);
        assert forall|k: int|
            j <= k < 64 && sprite_opaque_at(ppu, bank, k, x, y) && (forall|i: int|
                j <= i < k ==> !sprite_opaque_at(ppu, bank, i, x, y)) implies sprite_layer(
            ppu,
            bank,
            j,
            x,
            y,
        ) == Some(sprite_color(ppu, bank, k, x, y)) by {
            if k > j {
                assert(!sprite_opaque_at(ppu, bank, j, x, y));
            }
        }
    }
}

/// Every sprite's tile lies within CHR ROM and every colour that an opaque
/// sprite pixel looks up is one of the 64 system colours.
pub open spec fn sprites_renderable(ppu: PpuView, bank: int) -> bool {
    &&& forall|j: int| 0 <= j < 64 ==> sprite_tile_start(ppu, bank, j) + 16 <= ppu.chr_rom.len()
    &&& forall|j: int, x: int, y: int|
        0 <= j < 64 && sprite_opaque_at(ppu, bank, j, x, y) ==> sprite_color(ppu, bank, j, x, y)
            < 64
}

/// A pixel once sprites `j`..63 are drawn over `under`.
pub open spec fn with_sprites(
    ppu: PpuView,
    bank: int,
    j: int,
    palette: Seq<(u8, u8, u8)>,
    under: Seq<u8>,
    x: int,
    y: int,
) -> (u8, u8, u8) {
    match sprite_layer(ppu, bank, j, x, y) {
        Some(c) => palette[c as int],
        None => pixel_at(under, x, y),
    }
}

/// The pixels of sprite `j` drawn after `y` tile rows and `k` pixels of the
/// next.
pub open spec fn sprite_done(ppu: PpuView, j: int, y: int, k: int, qx: int, qy: int) -> bool {
    let ty = sprite_tile_y(ppu, j, qy);
    let tx = sprite_tile_x(ppu, j, qx);
    sprite_covers(ppu, j, qx, qy) && (ty < y || (ty == y && tx >= 8 - k))
}

/// A pixel while sprite `j` is being drawn over what sprites `j + 1`..63 left.
pub open spec fn sprite_partial(
    ppu: PpuView,
    bank: int,
    j: int,
    y: int,
    k: int,
    palette: Seq<(u8, u8, u8)>,
    under: Seq<u8>,
    x: int,
    yy: int,
) -> (u8, u8, u8) {
    if sprite_done(ppu, j, y, k, x, yy) && sprite_value(ppu, bank, j, x, yy) != 0 {
        palette[sprite_color(ppu, bank, j, x, yy) as int]
    } else {
        with_sprites(ppu, bank, j + 1, palette, under, x, yy)
    }
}

#[verifier::rlimit(50)]
proof fn lemma_sprite_step(
    under: Seq<u8>,
    before: Seq<u8>,
    after: Seq<u8>,
    palette: Seq<(u8, u8, u8)>,
    v: PpuView,
    bank: int,
    j: int,
    y: int,
    k: int,
    px: int,
    py: int,
    value: u8,
    rgb: (u8, u8, u8),
)
    requires
        0 <= j < 64,
        0 <= y < 8,
        0 <= k < 8,
        before.len() == FRAME_BYTES,
        px == sprite_x(v, j) + if flips_horizontally(v, j) {
            7 - (7 - k)
        } else {
            7 - k
        },
        py == sprite_y(v, j) + if flips_vertically(v, j) {
            7 - y
        } else {
            y
        },
        value == tile_pixel_value(v.chr_rom, sprite_tile_start(v, bank, j), 7 - k, y),
        value != 0 ==> rgb == palette[v.palette_table[SPRITE_PALETTE_START + (sprite_attributes(
            v,
            j,
        ) & 0b11) * 4 + value - 1] as int],
        value != 0 && on_screen(px, py) ==> after == before.update(
            crate::ppu::frame::pixel_base(px, py),
            rgb.0,
        ).update(crate::ppu::frame::pixel_base(px, py) + 1, rgb.1).update(
            crate::ppu::frame::pixel_base(px, py) + 2,
            rgb.2,
        ),
        value == 0 || !on_screen(px, py) ==> after == before,
        forall|qx: int, qy: int|
            on_screen(qx, qy) ==> #[trigger] pixel_at(before, qx, qy) == sprite_partial(
                v,
                bank,
                j,
                y,
                k,
                palette,
                under,
                qx,
                qy,
            ),
    ensures
        forall|qx: int, qy: int|
            on_screen(qx, qy) ==> #[trigger] pixel_at(after, qx, qy) == sprite_partial(
                v,
                bank,
                j,
                y,
                k + 1,
                palette,
                under,
                qx,
                qy,
            ),
{
    assert forall|qx: int, qy: int| on_screen(qx, qy) implies #[trigger] pixel_at(after, qx, qy)
        == sprite_partial(v, bank, j, y, k + 1, palette, under, qx, qy) by {
        assert(pixel_at(before, qx, qy) == sprite_partial(
            v,
            bank,
            j,
            y,
            k,
            palette,
            under,
            qx,
            qy,
        ));
        if value != 0 && on_screen(px, py) {
            law_set_pixel(before, px, py, rgb, qx, qy);
        }
        if qx == px && qy == py {
            assert(sprite_covers(v, j, qx, qy));
            assert(sprite_tile_x(v, j, qx) == 7 - k);
            assert(sprite_tile_y(v, j, qy) == y);
        } else {
            if sprite_covers(v, j, qx, qy) {
                assert(sprite_tile_x(v, j, qx) != 7 - k || sprite_tile_y(v, j, qy) != y);
            }
        }
    }
}

/// Draws the 64 sprites, the last in OAM first, so that a sprite with a
/// lower OAM index covers one with a higher; transparent pixels (colour 0)
/// and pixels off the screen are not drawn.
pub fn render_sprites(ppu: &Ppu, frame: &mut Frame, system_palette: &[(u8, u8, u8); 64])
    requires
        old(frame).pixel@.len() == FRAME_BYTES,
        sprites_renderable(
            ppu.view(),
            if ppu.view().controller & 0x08 == 0x08 {
                0x1000int
            } else {
                0int
            },
        ),
    ensures
        final(frame).pixel@.len() == FRAME_BYTES,
        forall|x: int, y: int|
            on_screen(x, y) ==> #[trigger] pixel_at(final(frame).pixel@, x, y) == with_sprites(
                ppu.view(),
                if ppu.view().controller & 0x08 == 0x08 {
                    0x1000int
                } else {
                    0int
                },
                0,
                system_palette@,
                old(frame).pixel@,
                x,
                y,
            ),
{
    let bank = ppu.controller_register.sprite_pattern_address();
    let ghost v = ppu.view();
    let ghost under = frame.pixel@;
    let mut j: usize = 64;
    while j > 0
        invariant
            0 <= j <= 64,
            v == ppu.view(),
            bank == (if v.controller & 0x08 == 0x08 {
                0x1000int
            } else {
                0int
            }),
            v.oam_data.len() == 256,
            sprites_renderable(v, bank as int),
            frame.pixel@.len() == FRAME_BYTES,
            forall|qx: int, qy: int|
                on_screen(qx, qy) ==> #[trigger] pixel_at(frame.pixel@, qx, qy) == with_sprites(
                    v,
                    bank as int,
                    j as int,
                    system_palette@,
                    under,
                    qx,
                    qy,
                ),
        decreases j,
    {
        j = j - 1;
        let i = j * OAM_ENTRY_SIZE;
        let tile_index = ppu.oam_data[i + 1] as u16;
        let tile_x = ppu.oam_data[i + 3] as usize;
        let tile_y = ppu.oam_data[i] as usize;
        let flip_vertical = (ppu.oam_data[i + 2] >> 7u8) & 1 == 1;
        let flip_horizontal = (ppu.oam_data[i + 2] >> 6u8) & 1 == 1;
        let palette_index = ppu.oam_data[i + 2] & 0b11;
        proof {
            let a = ppu.oam_data@[i + 2];
            lemma_byte_facts(a);
        }
        let palette = sprite_palette(ppu, palette_index);
        let tile_start = (bank + tile_index * TILE_SIZE_BYTES) as usize;
        proof {
            assert forall|qx: int, qy: int| on_screen(qx, qy) implies #[trigger] pixel_at(
                frame.pixel@,
                qx,
                qy,
            ) == sprite_partial(v, bank as int, j as int, 0, 0, system_palette@, under, qx, qy) by {
                assert(pixel_at(frame.pixel@, qx, qy) == with_sprites(
                    v,
                    bank as int,
                    j + 1,
                    system_palette@,
                    under,
                    qx,
                    qy,
                ));
            }
        }
        let mut y: usize = 0;
        while y < 8
            invariant
                0 <= j < 64,
                i == 4 * j,
                y <= 8,
                v == ppu.view(),
                v.oam_data.len() == 256,
                sprites_renderable(v, bank as int),
                tile_start == sprite_tile_start(v, bank as int, j as int),
                tile_x == sprite_x(v, j as int),
                tile_y == sprite_y(v, j as int),
                flip_vertical == flips_vertically(v, j as int),
                flip_horizontal == flips_horizontally(v, j as int),
                palette_index == sprite_attributes(v, j as int) & 0b11,
                forall|c: int|
                    1 <= c <= 3 ==> palette@[c] == v.palette_table[SPRITE_PALETTE_START
                        + palette_index * 4 + c - 1],
                frame.pixel@.len() == FRAME_BYTES,
                forall|qx: int, qy: int|
                    on_screen(qx, qy) ==> #[trigger] pixel_at(frame.pixel@, qx, qy)
                        == sprite_partial(
                        v,
                        bank as int,
                        j as int,
                        y as int,
                        0,
                        system_palette@,
                        under,
                        qx,
                        qy,
                    ),
            decreases 8 - y,
        {
            let mut upper = ppu.chr_rom[tile_start + y];
            let mut lower = ppu.chr_rom[tile_start + y + TILE_WIDTH];
            proof {
                lemma_shift_step(upper, 0);
                lemma_shift_step(lower, 0);
            }
            let mut k: usize = 0;
            while k < 8
                invariant
                    0 <= j < 64,
                    i == 4 * j,
                    y < 8,
                    k <= 8,
                    v == ppu.view(),
                    v.oam_data.len() == 256,
                    sprites_renderable(v, bank as int),
                    tile_start == sprite_tile_start(v, bank as int, j as int),
                    tile_x == sprite_x(v, j as int),
                    tile_y == sprite_y(v, j as int),
                    flip_vertical == flips_vertically(v, j as int),
                    flip_horizontal == flips_horizontally(v, j as int),
                    palette_index == sprite_attributes(v, j as int) & 0b11,
                    forall|c: int|
                        1 <= c <= 3 ==> palette@[c] == v.palette_table[SPRITE_PALETTE_START
                            + palette_index * 4 + c - 1],
                    upper == v.chr_rom[tile_start + y] >> (k as u8),
                    lower == v.chr_rom[tile_start + y + 8] >> (k as u8),
                    frame.pixel@.len() == FRAME_BYTES,
                    forall|qx: int, qy: int|
                        on_screen(qx, qy) ==> #[trigger] pixel_at(frame.pixel@, qx, qy)
                            == sprite_partial(
                            v,
                            bank as int,
                            j as int,
                            y as int,
                            k as int,
                            system_palette@,
                            under,
                            qx,
                            qy,
                        ),
                decreases 8 - k,
            {
                let x = 7 - k;
                let value = ((1u8 & lower) << 1u8) | (1u8 & upper);
                proof {
                    lemma_shift_step(v.chr_rom[tile_start + y], k as u8);
                    lemma_shift_step(v.chr_rom[tile_start + y + 8], k as u8);
                    lemma_small_values(lower, upper);
                    assert(value == tile_pixel_value(v.chr_rom, tile_start as int, x as int, y as int));
                }
                upper = upper >> 1u8;
                lower = lower >> 1u8;
                let px = if flip_horizontal {
                    tile_x + 7 - x
                } else {
                    tile_x + x
                };
                let py = if flip_vertical {
                    tile_y + 7 - y
                } else {
                    tile_y + y
                };
                let ghost before = frame.pixel@;
                let ghost mut rgb_used: (u8, u8, u8) = (0, 0, 0);
                if value != 0 {
                    let color = if value == 1 {
                        palette[1]
                    } else if value == 2 {
                        palette[2]
                    } else {
                        palette[3]
                    };
                    proof {
                        assert(sprite_covers(v, j as int, px as int, py as int));
                        assert(sprite_tile_x(v, j as int, px as int) == x);
                        assert(sprite_tile_y(v, j as int, py as int) == y);
                        assert(sprite_opaque_at(v, bank as int, j as int, px as int, py as int));
                        assert(color == sprite_color(v, bank as int, j as int, px as int, py as int));
                    }
                    let rgb = system_palette[color as usize];
                    proof {
                        rgb_used = rgb;
                    }
                    frame.set_pixel(px, py, rgb);
                }
                proof {
                    lemma_sprite_step(
                        under,
                        before,
                        frame.pixel@,
                        system_palette@,
                        v,
                        bank as int,
                        j as int,
                        y as int,
                        k as int,
                        px as int,
                        py as int,
                        value,
                        rgb_used,
                    );
                }
                k = k + 1;
            }
            y = y + 1;
        }
        proof {
            assert forall|qx: int, qy: int| on_screen(qx, qy) implies #[trigger] pixel_at(
                frame.pixel@,
                qx,
                qy,
            ) == with_sprites(v, bank as int, j as int, system_palette@, under, qx, qy) by {
                assert(pixel_at(frame.pixel@, qx, qy) == sprite_partial(
                    v,
                    bank as int,
                    j as int,
                    8,
                    0,
                    system_palette@,
                    under,
                    qx,
                    qy,
                ));
            }
        }
    }
}

/// Draws a frame: the background, then the sprites over it.
pub fn render(ppu: &Ppu, frame: &mut Frame, system_palette: &[(u8, u8, u8); 64])
    requires
        old(frame).pixel@.len() == FRAME_BYTES,
        background_renderable(
            ppu.view(),
            if ppu.view().controller & 0x10 == 0x10 {
                0x1000int
            } else {
                0int
            },
        ),
        sprites_renderable(
            ppu.view(),
            if ppu.view().controller & 0x08 == 0x08 {
                0x1000int
            } else {
                0int
            },
        ),
    ensures
        final(frame).pixel@.len() == FRAME_BYTES,
        forall|x: int, y: int|
            on_screen(x, y) ==> #[trigger] pixel_at(final(frame).pixel@, x, y) == match sprite_layer(
                ppu.view(),
                if ppu.view().controller & 0x08 == 0x08 {
                    0x1000int
                } else {
                    0int
                },
                0,
                x,
                y,
            ) {
                Some(c) => system_palette@[c as int],
                None => system_palette@[background_color(
                    ppu.view(),
                    if ppu.view().controller & 0x10 == 0x10 {
                        0x1000int
                    } else {
                        0int
                    },
                    x,
                    y,
                ) as int],
            },
{
    render_background(ppu, frame, system_palette);
    let ghost middle = frame.pixel@;
    render_sprites(ppu, frame, system_palette);
    proof {
        assert forall|x: int, y: int| on_screen(x, y) implies #[trigger] pixel_at(
            frame.pixel@,
            x,
            y,
        ) == match sprite_layer(
            ppu.view(),
            if ppu.view().controller & 0x08 == 0x08 {
                0x1000int
            } else {
                0int
            },
            0,
            x,
            y,
        ) {
            Some(c) => system_palette@[c as int],
            None => system_palette@[background_color(
                ppu.view(),
                if ppu.view().controller & 0x10 == 0x10 {
                    0x1000int
                } else {
                    0int
                },
                x,
                y,
            ) as int],
        } by {
            assert(pixel_at(middle, x, y) == system_palette@[background_color(
                ppu.view(),
                if ppu.view().controller & 0x10 == 0x10 {
                    0x1000int
                } else {
                    0int
                },
                x,
                y,
            ) as int]);
        }
    }
}

/// Whether the background can be drawn: every tile of the first nametable
/// lies within CHR ROM and every background pixel's colour is one of the 64
/// system colours (`background_renderable`, exactly).
#[verifier::rlimit(40)]
pub fn background_drawable(ppu: &Ppu) -> (ok: bool)
    ensures
        ok == background_renderable(
            ppu.view(),
            if ppu.view().controller & 0x10 == 0x10 {
                0x1000int
            } else {
                0int
            },
        ),
{
    let bank = ppu.controller_register.background_pattern_address();
    let ghost v = ppu.view();
    let ghost b = bank as int;
    let mut i: usize = 0;
    while i < ATTRIBUTE_TABLE_OFFSET
        invariant
            0 <= i <= 960,
            v == ppu.view(),
            b == bank,
            bank == (if v.controller & 0x10 == 0x10 {
                0x1000int
            } else {
                0int
            }),
            v.vram.len() == 2048,
            forall|t: int| 0 <= t < i ==> b + v.vram[t] * 16 + 16 <= v.chr_rom.len(),
            forall|px: int, py: int|
                on_screen(px, py) && background_done(i as int, 0, 0, px, py) ==> #[trigger] background_color(
                    v,
                    b,
                    px,
                    py,
                ) < 64,
        decreases 960 - i,
    {
        let tile_number = ppu.vram[i] as u16;
        if bank as usize + tile_number as usize * 16 + 16 > ppu.chr_rom.len() {
            return false;
        }
        let tile_column = i % NAMETABLE_TILE_COLS;
        let tile_row = i / NAMETABLE_TILE_COLS;
        let tile_start = (bank + tile_number * TILE_SIZE_BYTES) as usize;
        let palette = background_palette(ppu, tile_column, tile_row);
        let mut y: usize = 0;
        while y < 8
            invariant
                0 <= i < 960,
                y <= 8,
                v == ppu.view(),
                b == bank,
                bank == (if v.controller & 0x10 == 0x10 {
                    0x1000int
                } else {
                    0int
                }),
                v.vram.len() == 2048,
                forall|t: int| 0 <= t <= i ==> b + v.vram[t] * 16 + 16 <= v.chr_rom.len(),
                tile_column == i % 32,
                tile_row == i / 32,
                tile_start == b + v.vram[i as int] * 16,
                palette@[0] == v.palette_table[0],
                forall|c: int|
                    1 <= c <= 3 ==> palette@[c] == v.palette_table[1 + attribute_palette(
                        v,
                        tile_column as int,
                        tile_row as int,
                    ) * 4 + c - 1],
                forall|px: int, py: int|
                    on_screen(px, py) && background_done(i as int, y as int, 0, px, py)
                        ==> #[trigger] background_color(v, b, px, py) < 64,
            decreases 8 - y,
        {
            let mut upper = ppu.chr_rom[tile_start + y];
            let mut lower = ppu.chr_rom[tile_start + y + TILE_WIDTH];
            proof {
                lemma_shift_step(upper, 0);
                lemma_shift_step(lower, 0);
            }
            let mut k: usize = 0;
            while k < 8
                invariant
                    0 <= i < 960,
                    y < 8,
                    k <= 8,
                    v == ppu.view(),
                    b == bank,
                    bank == (if v.controller & 0x10 == 0x10 {
                        0x1000int
                    } else {
                        0int
                    }),
                    v.vram.len() == 2048,
                    forall|t: int| 0 <= t <= i ==> b + v.vram[t] * 16 + 16 <= v.chr_rom.len(),
                    tile_column == i % 32,
                    tile_row == i / 32,
                    tile_start == b + v.vram[i as int] * 16,
                    upper == v.chr_rom[tile_start + y] >> (k as u8),
                    lower == v.chr_rom[tile_start + y + 8] >> (k as u8),
                    palette@[0] == v.palette_table[0],
                    forall|c: int|
                        1 <= c <= 3 ==> palette@[c] == v.palette_table[1 + attribute_palette(
                            v,
                            tile_column as int,
                            tile_row as int,
                        ) * 4 + c - 1],
                    forall|px: int, py: int|
                        on_screen(px, py) && background_done(i as int, y as int, k as int, px, py)
                            ==> #[trigger] background_color(v, b, px, py) < 64,
                decreases 8 - k,
            {
                let x = 7 - k;
                let value = ((1u8 & lower) << 1u8) | (1u8 & upper);
                proof {
                    lemma_shift_step(v.chr_rom[tile_start + y], k as u8);
                    lemma_shift_step(v.chr_rom[tile_start + y + 8], k as u8);
                    lemma_small_values(lower, upper);
                }
                upper = upper >> 1u8;
                lower = lower >> 1u8;
                let px = tile_column * TILE_WIDTH + x;
                let py = tile_row * TILE_WIDTH + y;
                proof {
                    lemma_tile_pixel(i as int, x as int, y as int, px as int, py as int);
                    assert(value == tile_pixel_value(v.chr_rom, tile_start as int, x as int, y as int));
                }
                let color = if value == 0 {
                    ppu.palette_table[0]
                } else if value == 1 {
                    palette[1]
                } else if value == 2 {
                    palette[2]
                } else {
                    palette[3]
                };
                proof {
                    assert(color == background_color(v, b, px as int, py as int));
                }
                if color >= 64 {
                    proof {
                        assert(on_screen(px as int, py as int));
                        assert(background_color(v, b, px as int, py as int) >= 64);
                        assert(!background_renderable(v, b));
                    }
                    return false;
                }
                proof {
                    assert forall|qx: int, qy: int|
                        on_screen(qx, qy) && background_done(i as int, y as int, k + 1, qx, qy)
                            implies #[trigger] background_color(v, b, qx, qy) < 64 by {
                        if qx == px && qy == py {
                        } else {
                            assert(background_done(i as int, y as int, k + 1, qx, qy)
                                == background_done(i as int, y as int, k as int, qx, qy));
                        }
                    }
                }
                k = k + 1;
            }
            y = y + 1;
        }
        i = i + 1;
    }
    proof {
        assert forall|px: int, py: int| on_screen(px, py) implies #[trigger] background_color(
            v,
            b,
            px,
            py,
        ) < 64 by {
            assert(background_done(960, 0, 0, px, py));
        }
    }
    true
}

/// Pixel (x, y) of sprite `j` is among those checked after `row` rows of
/// its tile and `k` pixels of the next (taken from the right).
pub open spec fn sprite_checked(ppu: PpuView, j: int, row: int, k: int, x: int, y: int) -> bool {
    let tx = sprite_tile_x(ppu, j, x);
    let ty = sprite_tile_y(ppu, j, y);
    ty < row || (ty == row && tx >= 8 - k)
}

/// Whether the sprites can be drawn: every sprite's tile lies within CHR
/// ROM and every opaque sprite pixel's colour is one of the 64 system colours
/// (`sprites_renderable`, exactly).
#[verifier::rlimit(40)]
pub fn sprites_drawable(ppu: &Ppu) -> (ok: bool)
    ensures
        ok == sprites_renderable(
            ppu.view(),
            if ppu.view().controller & 0x08 == 0x08 {
                0x1000int
            } else {
                0int
            },
        ),
{
    let bank = ppu.controller_register.sprite_pattern_address();
    let ghost v = ppu.view();
    let ghost b = bank as int;
    let mut j: usize = 0;
    while j < 64
        invariant
            0 <= j <= 64,
            v == ppu.view(),
            b == bank,
            bank == (if v.controller & 0x08 == 0x08 {
                0x1000int
            } else {
                0int
            }),
            v.oam_data.len() == 256,
            forall|t: int| 0 <= t < j ==> sprite_tile_start(v, b, t) + 16 <= v.chr_rom.len(),
            forall|t: int, x: int, y: int|
                0 <= t < j && sprite_opaque_at(v, b, t, x, y) ==> #[trigger] sprite_color(
                    v,
                    b,
                    t,
                    x,
                    y,
                ) < 64,
        decreases 64 - j,
    {
        let i = j * OAM_ENTRY_SIZE;
        let tile_index = ppu.oam_data[i + 1] as u16;
        if bank as usize + tile_index as usize * 16 + 16 > ppu.chr_rom.len() {
            proof {
                assert(i == 4 * j);
                assert(sprite_tile_start(v, b, j as int) + 16 > v.chr_rom.len());
            }
            return false;
        }
        let tile_x = ppu.oam_data[i + 3] as usize;
        let tile_y = ppu.oam_data[i] as usize;
        let flip_vertical = (ppu.oam_data[i + 2] >> 7u8) & 1 == 1;
        let flip_horizontal = (ppu.oam_data[i + 2] >> 6u8) & 1 == 1;
        let palette_index = ppu.oam_data[i + 2] & 0b11;
        proof {
            let a = ppu.oam_data@[i + 2];
            lemma_byte_facts(a);
        }
        let palette = sprite_palette(ppu, palette_index);
        let tile_start = (bank + tile_index * TILE_SIZE_BYTES) as usize;
        let mut y: usize = 0;
        while y < 8
            invariant
                0 <= j < 64,
                i == 4 * j,
                y <= 8,
                v == ppu.view(),
                b == bank,
                bank == (if v.controller & 0x08 == 0x08 {
                    0x1000int
                } else {
                    0int
                }),
                v.oam_data.len() == 256,
                forall|t: int| 0 <= t <= j ==> sprite_tile_start(v, b, t) + 16 <= v.chr_rom.len(),
                forall|t: int, x: int, y: int|
                    0 <= t < j && sprite_opaque_at(v, b, t, x, y) ==> #[trigger] sprite_color(
                        v,
                        b,
                        t,
                        x,
                        y,
                    ) < 64,
                tile_start == sprite_tile_start(v, b, j as int),
                tile_x == sprite_x(v, j as int),
                tile_y == sprite_y(v, j as int),
                flip_vertical == flips_vertically(v, j as int),
                flip_horizontal == flips_horizontally(v, j as int),
                palette_index == sprite_attributes(v, j as int) & 0b11,
                forall|c: int|
                    1 <= c <= 3 ==> palette@[c] == v.palette_table[SPRITE_PALETTE_START
                        + palette_index * 4 + c - 1],
                forall|x: int, yy: int|
                    sprite_opaque_at(v, b, j as int, x, yy) && sprite_checked(v, j as int, y as int, 0, x, yy)
                        ==> #[trigger] sprite_color(v, b, j as int, x, yy) < 64,
            decreases 8 - y,
        {
            let mut upper = ppu.chr_rom[tile_start + y];
            let mut lower = ppu.chr_rom[tile_start + y + TILE_WIDTH];
            proof {
                lemma_shift_step(upper, 0);
                lemma_shift_step(lower, 0);
            }
            let mut k: usize = 0;
            while k < 8
                invariant
                    0 <= j < 64,
                    i == 4 * j,
                    y < 8,
                    k <= 8,
                    v == ppu.view(),
                    b == bank,
                    bank == (if v.controller & 0x08 == 0x08 {
                        0x1000int
                    } else {
                        0int
                    }),
                    v.oam_data.len() == 256,
                    forall|t: int| 0 <= t <= j ==> sprite_tile_start(v, b, t) + 16 <= v.chr_rom.len(),
                    forall|t: int, x: int, y: int|
                        0 <= t < j && sprite_opaque_at(v, b, t, x, y) ==> #[trigger] sprite_color(
                            v,
                            b,
                            t,
                            x,
                            y,
                        ) < 64,
                    tile_start == sprite_tile_start(v, b, j as int),
                    tile_x == sprite_x(v, j as int),
                    tile_y == sprite_y(v, j as int),
                    flip_vertical == flips_vertically(v, j as int),
                    flip_horizontal == flips_horizontally(v, j as int),
                    palette_index == sprite_attributes(v, j as int) & 0b11,
                    forall|c: int|
                        1 <= c <= 3 ==> palette@[c] == v.palette_table[SPRITE_PALETTE_START
                            + palette_index * 4 + c - 1],
                    upper == v.chr_rom[tile_start + y] >> (k as u8),
                    lower == v.chr_rom[tile_start + y + 8] >> (k as u8),
                    forall|x: int, yy: int|
                        sprite_opaque_at(v, b, j as int, x, yy) && sprite_checked(
                            v,
                            j as int,
                            y as int,
                            k as int,
                            x,
                            yy,
                        ) ==> #[trigger] sprite_color(v, b, j as int, x, yy) < 64,
                decreases 8 - k,
            {
                let x = 7 - k;
                let value = ((1u8 & lower) << 1u8) | (1u8 & upper);
                proof {
                    lemma_shift_step(v.chr_rom[tile_start + y], k as u8);
                    lemma_shift_step(v.chr_rom[tile_start + y + 8], k as u8);
                    lemma_small_values(lower, upper);
                    assert(value == tile_pixel_value(v.chr_rom, tile_start as int, x as int, y as int));
                }
                upper = upper >> 1u8;
                lower = lower >> 1u8;
                let px = if flip_horizontal {
                    tile_x + 7 - x
                } else {
                    tile_x + x
                };
                let py = if flip_vertical {
                    tile_y + 7 - y
                } else {
                    tile_y + y
                };
                proof {
                    assert(sprite_covers(v, j as int, px as int, py as int));
                    assert(sprite_tile_x(v, j as int, px as int) == x);
                    assert(sprite_tile_y(v, j as int, py as int) == y);
                    assert(sprite_value(v, b, j as int, px as int, py as int) == value);
                }
                if value != 0 {
                    let color = if value == 1 {
                        palette[1]
                    } else if value == 2 {
                        palette[2]
                    } else {
                        palette[3]
                    };
                    proof {
                        assert(sprite_opaque_at(v, b, j as int, px as int, py as int));
                        assert(color == sprite_color(v, b, j as int, px as int, py as int));
                    }
                    if color >= 64 {
                        proof {
                            assert(!sprites_renderable(v, b));
                        }
                        return false;
                    }
                }
                proof {
                    assert forall|qx: int, qy: int|
                        sprite_opaque_at(v, b, j as int, qx, qy) && sprite_checked(
                            v,
                            j as int,
                            y as int,
                            k + 1,
                            qx,
                            qy,
                        ) implies #[trigger] sprite_color(v, b, j as int, qx, qy) < 64 by {
                        if sprite_tile_x(v, j as int, qx) == x && sprite_tile_y(v, j as int, qy) == y {
                            assert(qx == px && qy == py);
                        } else {
                            assert(sprite_checked(v, j as int, y as int, k as int, qx, qy));
                        }
                    }
                }
                k = k + 1;
            }
            y = y + 1;
        }
        proof {
            assert forall|t: int, qx: int, qy: int|
                0 <= t < j + 1 && sprite_opaque_at(v, b, t, qx, qy) implies #[trigger] sprite_color(
                v,
                b,
                t,
                qx,
                qy,
            ) < 64 by {
                if t == j {
                    assert(sprite_checked(v, j as int, 8, 0, qx, qy));
                }
            }
        }
        j = j + 1;
    }
    true
}

/// Whether `render` can draw the frame: `background_drawable` and
/// `sprites_drawable` both hold.
pub fn can_render(ppu: &Ppu) -> (ok: bool)
    ensures
        ok == (background_renderable(
            ppu.view(),
            if ppu.view().controller & 0x10 == 0x10 {
                0x1000int
            } else {
                0int
            },
        ) && sprites_renderable(
            ppu.view(),
            if ppu.view().controller & 0x08 == 0x08 {
                0x1000int
            } else {
                0int
            },
        )),
{
    background_drawable(ppu) && sprites_drawable(ppu)
}

} // verus!
