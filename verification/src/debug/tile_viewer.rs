use vstd::prelude::*;

use crate::ppu::frame::{FRAME_BYTES, Frame, law_set_pixel, on_screen, pixel_at, pixel_base};

verus! {

/// The four fixed system colours that the tile viewer uses.
pub open spec fn viewer_palette_index(value: u8) -> int {
    if value == 0 {
        0x01
    } else if value == 1 {
        0x23
    } else if value == 2 {
        0x27
    } else {
        0x30
    }
}

/// The 2-bit value of pixel (x, y) of the tile at `start`, as the viewer
/// reads it: plane 0 (byte y) gives the high bit, plane 1 (byte y + 8) the
/// low bit.
pub open spec fn viewer_value(chr: Seq<u8>, start: int, x: int, y: int) -> u8 {
    let k = (7 - x) as u8;
    ((1u8 & (chr[start + y] >> k)) << 1u8) | (1u8 & (chr[start + y + 8] >> k))
}

proof fn lemma_shift_step(t: u8, k: u8)
    requires
        k < 8,
    ensures
        (t >> k) >> 1u8 == t >> ((k + 1) as u8),
        t >> 0u8 == t,
{
    assert((t >> k) >> 1u8 == t >> ((k + 1) as u8) && t >> 0u8 == t) by (bit_vector)
        requires
            k < 8,
    ;
}

/// Pixel (qx, qy) lies in the 8x8 box at (ox, oy), and is among those drawn
/// after `y` rows and `k` pixels of the next.
pub open spec fn box_done(ox: int, oy: int, y: int, k: int, qx: int, qy: int) -> bool {
    0 <= qx - ox < 8 && 0 <= qy - oy < 8 && (qy - oy < y || (qy - oy == y && qx - ox >= 8 - k))
}

/// The colour that the viewer gives pixel (qx, qy) of the tile at `start`
/// drawn at (ox, oy).
pub open spec fn viewer_rgb(
    palette: Seq<(u8, u8, u8)>,
    chr: Seq<u8>,
    start: int,
    ox: int,
    oy: int,
    qx: int,
    qy: int,
) -> (u8, u8, u8) {
    palette[viewer_palette_index(viewer_value(chr, start, qx - ox, qy - oy))]
}

proof fn lemma_tile_step(
    initial: Seq<u8>,
    before: Seq<u8>,
    after: Seq<u8>,
    palette: Seq<(u8, u8, u8)>,
    chr: Seq<u8>,
    start: int,
    ox: int,
    oy: int,
    y: int,
    k: int,
    rgb: (u8, u8, u8),
)
    requires
        0 <= y < 8,
        0 <= k < 8,
        ox >= 0,
        oy >= 0,
        before.len() == FRAME_BYTES,
        rgb == viewer_rgb(palette, chr, start, ox, oy, ox + 7 - k, oy + y),
        on_screen(ox + 7 - k, oy + y) ==> after == before.update(
            pixel_base(ox + 7 - k, oy + y),
            rgb.0,
        ).update(pixel_base(ox + 7 - k, oy + y) + 1, rgb.1).update(
            pixel_base(ox + 7 - k, oy + y) + 2,
            rgb.2,
        ),
        !on_screen(ox + 7 - k, oy + y) ==> after == before,
        forall|qx: int, qy: int|
            on_screen(qx, qy) ==> #[trigger] pixel_at(before, qx, qy) == if box_done(
                ox,
                oy,
                y,
                k,
                qx,
                qy,
            ) {
                viewer_rgb(palette, chr, start, ox, oy, qx, qy)
            } else {
                pixel_at(initial, qx, qy)
            },
    ensures
        forall|qx: int, qy: int|
            on_screen(qx, qy) ==> #[trigger] pixel_at(after, qx, qy) == if box_done(
                ox,
                oy,
                y,
                k + 1,
                qx,
                qy,
            ) {
                viewer_rgb(palette, chr, start, ox, oy, qx, qy)
            } else {
                pixel_at(initial, qx, qy)
            },
{
    assert forall|qx: int, qy: int| on_screen(qx, qy) implies #[trigger] pixel_at(after, qx, qy)
        == if box_done(ox, oy, y, k + 1, qx, qy) {
        viewer_rgb(palette, chr, start, ox, oy, qx, qy)
    } else {
        pixel_at(initial, qx, qy)
    } by {
        assert(pixel_at(before, qx, qy) == if box_done(ox, oy, y, k, qx, qy) {
            viewer_rgb(palette, chr, start, ox, oy, qx, qy)
        } else {
            pixel_at(initial, qx, qy)
        });
        if on_screen(ox + 7 - k, oy + y) {
            law_set_pixel(before, ox + 7 - k, oy + y, rgb, qx, qy);
        }
    }
}

/// Draws tile `tile_n` of pattern table `bank` with its top-left corner at
/// (offset_x, offset_y); pixels off the screen are dropped.
pub fn show_tile(
    frame: &mut Frame,
    chr_rom: &[u8],
    bank: usize,
    tile_n: usize,
    offset_x: usize,
    offset_y: usize,
    system_palette: &[(u8, u8, u8); 64],
)
    requires
        old(frame).pixel@.len() == FRAME_BYTES,
        bank * 0x1000 + tile_n * 16 + 16 <= chr_rom@.len(),
        offset_x + 8 <= usize::MAX,
        offset_y + 8 <= usize::MAX,
    ensures
        final(frame).pixel@.len() == FRAME_BYTES,
        forall|qx: int, qy: int|
            on_screen(qx, qy) ==> #[trigger] pixel_at(final(frame).pixel@, qx, qy) == if box_done(
                offset_x as int,
                offset_y as int,
                8,
                0,
                qx,
                qy,
            ) {
                viewer_rgb(
                    system_palette@,
                    chr_rom@,
                    bank * 0x1000 + tile_n * 16,
                    offset_x as int,
                    offset_y as int,
                    qx,
                    qy,
                )
            } else {
                pixel_at(old(frame).pixel@, qx, qy)
            },
{
    let chr_len = chr_rom.len();
    assert(chr_len == chr_rom@.len());
    let start = bank * 0x1000 + tile_n * 16;
    let ghost initial = frame.pixel@;
    let mut y: usize = 0;
    while y < 8
        invariant
            y <= 8,
            start == bank * 0x1000 + tile_n * 16,
            start + 16 <= chr_rom@.len(),
            offset_x + 8 <= usize::MAX,
            offset_y + 8 <= usize::MAX,
            frame.pixel@.len() == FRAME_BYTES,
            forall|qx: int, qy: int|
                on_screen(qx, qy) ==> #[trigger] pixel_at(frame.pixel@, qx, qy) == if box_done(
                    offset_x as int,
                    offset_y as int,
                    y as int,
                    0,
                    qx,
                    qy,
                ) {
                    viewer_rgb(
                        system_palette@,
                        chr_rom@,
                        start as int,
                        offset_x as int,
                        offset_y as int,
                        qx,
                        qy,
                    )
                } else {
                    pixel_at(initial, qx, qy)
                },
        decreases 8 - y,
    {
        let mut upper = chr_rom[start + y];
        let mut lower = chr_rom[start + y + 8];
        proof {
            lemma_shift_step(upper, 0);
            lemma_shift_step(lower, 0);
        }
        let mut k: usize = 0;
        while k < 8
            invariant
                y < 8,
                k <= 8,
                start + 16 <= chr_rom@.len(),
                offset_x + 8 <= usize::MAX,
                offset_y + 8 <= usize::MAX,
                upper == chr_rom@[start + y] >> (k as u8),
                lower == chr_rom@[start + y + 8] >> (k as u8),
                frame.pixel@.len() == FRAME_BYTES,
                forall|qx: int, qy: int|
                    on_screen(qx, qy) ==> #[trigger] pixel_at(frame.pixel@, qx, qy) == if box_done(
                        offset_x as int,
                        offset_y as int,
                        y as int,
                        k as int,
                        qx,
                        qy,
                    ) {
                        viewer_rgb(
                            system_palette@,
                            chr_rom@,
                            start as int,
                            offset_x as int,
                            offset_y as int,
                            qx,
                            qy,
                        )
                    } else {
                        pixel_at(initial, qx, qy)
                    },
            decreases 8 - k,
        {
            let x = 7 - k;
            let value = ((1u8 & upper) << 1u8) | (1u8 & lower);
            proof {
                lemma_shift_step(chr_rom@[start + y], k as u8);
                lemma_shift_step(chr_rom@[start + y + 8], k as u8);
                assert(value == viewer_value(chr_rom@, start as int, x as int, y as int));
            }
            upper = upper >> 1u8;
            lower = lower >> 1u8;
            let rgb = if value == 0 {
                system_palette[0x01]
            } else if value == 1 {
                system_palette[0x23]
            } else if value == 2 {
                system_palette[0x27]
            } else {
                system_palette[0x30]
            };
            let ghost before = frame.pixel@;
            frame.set_pixel(offset_x + x, offset_y + y, rgb);
            proof {
                lemma_tile_step(
                    initial,
                    before,
                    frame.pixel@,
                    system_palette@,
                    chr_rom@,
                    start as int,
                    offset_x as int,
                    offset_y as int,
                    y as int,
                    k as int,
                    rgb,
                );
            }
            k = k + 1;
        }
        y = y + 1;
    }
}

/// The tile drawn at pixel (qx, qy) of the 16x16-tile sheet, if any.
pub open spec fn sheet_rgb(
    palette: Seq<(u8, u8, u8)>,
    chr: Seq<u8>,
    bank: int,
    qx: int,
    qy: int,
) -> (u8, u8, u8) {
    let tile = (qy / 8) * 16 + qx / 8;
    viewer_rgb(palette, chr, bank * 0x1000 + tile * 16, (qx / 8) * 8, (qy / 8) * 8, qx, qy)
}

/// The 256 tiles of pattern table `bank` as a 16x16 sheet in the top-left
/// 128x128 pixels of an otherwise black frame.
pub fn show_tile_bank(chr_rom: &[u8], bank: usize, system_palette: &[(u8, u8, u8); 64]) -> (frame:
    Frame)
    requires
        bank <= 1,
        (bank + 1) * 0x1000 <= chr_rom@.len(),
    ensures
        frame.pixel@.len() == FRAME_BYTES,
        forall|qx: int, qy: int|
            on_screen(qx, qy) ==> #[trigger] pixel_at(frame.pixel@, qx, qy) == if qx < 128 && qy
                < 128 {
                sheet_rgb(system_palette@, chr_rom@, bank as int, qx, qy)
            } else {
                (0u8, 0u8, 0u8)
            },
{
    let mut frame = Frame::new();
    let ghost blank = frame.pixel@;
    let mut tile_n: usize = 0;
    while tile_n < 256
        invariant
            tile_n <= 256,
            bank <= 1,
            (bank + 1) * 0x1000 <= chr_rom@.len(),
            blank == Seq::new(FRAME_BYTES as nat, |i: int| 0u8),
            frame.pixel@.len() == FRAME_BYTES,
            forall|qx: int, qy: int|
                on_screen(qx, qy) ==> #[trigger] pixel_at(frame.pixel@, qx, qy) == if qx < 128
                    && qy < 128 && (qy / 8) * 16 + qx / 8 < tile_n {
                    sheet_rgb(system_palette@, chr_rom@, bank as int, qx, qy)
                } else {
                    (0u8, 0u8, 0u8)
                },
        decreases 256 - tile_n,
    {
        let col = tile_n % 16;
        let row = tile_n / 16;
        let ghost before = frame.pixel@;
        show_tile(&mut frame, chr_rom, bank, tile_n, col * 8, row * 8, system_palette);
        proof {
            assert forall|qx: int, qy: int| on_screen(qx, qy) implies #[trigger] pixel_at(
                frame.pixel@,
                qx,
                qy,
            ) == if qx < 128 && qy < 128 && (qy / 8) * 16 + qx / 8 < tile_n + 1 {
                sheet_rgb(system_palette@, chr_rom@, bank as int, qx, qy)
            } else {
                (0u8, 0u8, 0u8)
            } by {
                assert(pixel_at(before, qx, qy) == if qx < 128 && qy < 128 && (qy / 8) * 16 + qx / 8
                    < tile_n {
                    sheet_rgb(system_palette@, chr_rom@, bank as int, qx, qy)
                } else {
                    (0u8, 0u8, 0u8)
                });
                if box_done((col * 8) as int, (row * 8) as int, 8, 0, qx, qy) {
                    assert(qx / 8 == col && qy / 8 == row);
                } else if qx < 128 && qy < 128 {
                    assert((qy / 8) * 16 + qx / 8 != tile_n);
                }
            }
        }
        tile_n = tile_n + 1;
    }
    proof {
        assert forall|qx: int, qy: int| on_screen(qx, qy) implies #[trigger] pixel_at(
            frame.pixel@,
            qx,
            qy,
        ) == if qx < 128 && qy < 128 {
            sheet_rgb(system_palette@, chr_rom@, bank as int, qx, qy)
        } else {
            (0u8, 0u8, 0u8)
        } by {
            if qx < 128 && qy < 128 {
                assert((qy / 8) * 16 + qx / 8 < 256);
            }
        }
    }
    frame
}

} // verus!
