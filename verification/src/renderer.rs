//! Pure tile decoding and frame rendering for an external display consumer.
//!
//! Video memory holds 8-by-8 pixel tiles at 2 bits per pixel, 16 bytes per
//! tile, addressed sequentially. Each tile row is two bytes: the first holds
//! the low bits of its eight pixels, the second the high bits, most
//! significant bit leftmost. Pixel values map to a fixed four-step grey
//! ramp, 0 lightest and 3 darkest.

use vstd::arithmetic::div_mod::lemma_fundamental_div_mod;
use vstd::arithmetic::div_mod::lemma_fundamental_div_mod_converse;
use vstd::arithmetic::mul::lemma_mul_inequality;
use vstd::arithmetic::mul::lemma_mul_is_commutative;
use vstd::prelude::*;

verus! {

/// Width of a tile in pixels.
pub const TILE_WIDTH: usize = 8;

/// Height of a tile in pixels.
pub const TILE_HEIGHT: usize = 8;

/// Bytes of video memory per tile.
pub const TILE_BYTES: usize = 16;

/// Number of tiles in the rendered tile table.
pub const TILE_COUNT: usize = 384;

/// Tiles laid out per row of the rendered sheet.
pub const TILES_PER_ROW: usize = 24;

/// Rows of tiles in the rendered sheet.
pub const TILESET_ROWS: usize = 16;

/// The 2-bit pixel at column `x` of row `y` of the tile whose 16 bytes start
/// at `base`: the high bit comes from the row's second byte, the low bit
/// from its first, bit 7 leftmost.
pub open spec fn spec_tile_pixel(data: Seq<u8>, base: int, y: int, x: int) -> u8
    recommends
        0 <= y < 8,
        0 <= x < 8,
        0 <= base,
        base + 16 <= data.len(),
{
    let low = data[base + 2 * y];
    let high = data[base + 2 * y + 1];
    (((high >> ((7 - x) as u8)) & 1) << 1) | ((low >> ((7 - x) as u8)) & 1)
}

/// Channel `k` (red, green, blue, alpha) of the colour a 2-bit pixel value
/// maps to: a four-step grey ramp from white (0) to black (3), full alpha;
/// out-of-range values map to a loud magenta error colour.
pub open spec fn spec_rgba(value: u8, k: int) -> u8
    recommends
        0 <= k < 4,
{
    if k == 3 {
        255
    } else if value == 0 {
        255
    } else if value == 1 {
        192
    } else if value == 2 {
        96
    } else if value == 3 {
        0
    } else if k == 1 {
        0
    } else {
        255
    }
}

/// The byte at `i` of a fully rendered frame of row width `frame_width`:
/// inside the sheet (pixel row under 128, column under 192) the channel of
/// the tile pixel there; outside it, the old frame byte.
pub open spec fn spec_frame_byte(vram: Seq<u8>, old_frame: Seq<u8>, frame_width: int, i: int) -> u8
    recommends
        frame_width >= 192,
        0 <= i < old_frame.len(),
        6144 <= vram.len(),
{
    let p = i / 4;
    let k = i % 4;
    let sy = p / frame_width;
    let sx = p % frame_width;
    if sy < 128 && sx < 192 {
        spec_rgba(spec_tile_pixel(vram, ((sy / 8) * 24 + sx / 8) * 16, sy % 8, sx % 8), k)
    } else {
        old_frame[i]
    }
}

/// Whether the byte at `i` belongs to a sheet pixel that the row-major
/// rendering sweep has already passed after `n` pixels.
pub open spec fn pixel_done(frame_width: int, i: int, n: int) -> bool {
    let p = i / 4;
    let sy = p / frame_width;
    let sx = p % frame_width;
    sy < 128 && sx < 192 && sy * 192 + sx < n
}

/// Read one 2-bit pixel out of a tile stored in `data` at `base`.
pub fn tile_pixel(data: &[u8], base: usize, y: usize, x: usize) -> (value: u8)
    requires
        y < 8,
        x < 8,
        base + 16 <= data@.len(),
    ensures
        value == spec_tile_pixel(data@, base as int, y as int, x as int),
{
    let data_len: usize = data.len();
    let low: u8 = data[base + 2 * y];
    let high: u8 = data[base + 2 * y + 1];
    let shift: u8 = (7 - x) as u8;
    (((high >> shift) & 1) << 1) | ((low >> shift) & 1)
}

/// Decode a single tile from its 16 bytes into an 8-by-8 grid of 2-bit
/// pixel values, row by row.
pub fn decode_tile(tile_data: &[u8]) -> (tile: Vec<Vec<u8>>)
    requires
        tile_data@.len() >= 16,
    ensures
        tile@.len() == 8,
        forall|y: int| 0 <= y < 8 ==> #[trigger] tile@[y]@.len() == 8,
        forall|y: int, x: int|
            0 <= y < 8 && 0 <= x < 8 ==> #[trigger] tile@[y]@[x] == spec_tile_pixel(
                tile_data@,
                0,
                y,
                x,
            ),
{
    let mut tile: Vec<Vec<u8>> = Vec::new();
    let mut y: usize = 0;
    while y < 8
        invariant
            y <= 8,
            tile_data@.len() >= 16,
            tile@.len() == y,
            forall|r: int| 0 <= r < y ==> #[trigger] tile@[r]@.len() == 8,
            forall|r: int, c: int|
                0 <= r < y && 0 <= c < 8 ==> #[trigger] tile@[r]@[c] == spec_tile_pixel(
                    tile_data@,
                    0,
                    r,
                    c,
                ),
        decreases 8 - y,
    {
        let mut row: Vec<u8> = Vec::new();
        let mut x: usize = 0;
        while x < 8
            invariant
                x <= 8,
                y < 8,
                tile_data@.len() >= 16,
                row@.len() == x,
                forall|c: int|
                    0 <= c < x ==> #[trigger] row@[c] == spec_tile_pixel(
                        tile_data@,
                        0,
                        y as int,
                        c,
                    ),
            decreases 8 - x,
        {
            let value: u8 = tile_pixel(tile_data, 0, y, x);
            row.push(value);
            x = x + 1;
        }
        tile.push(row);
        y = y + 1;
    }
    tile
}

/// The colour a 2-bit pixel value maps to, as RGBA bytes: a four-step grey
/// ramp from white (0) to black (3); anything else gets the error colour.
pub fn pixel_value_to_rgba(value: u8) -> (rgba: [u8; 4])
    ensures
        forall|k: int| 0 <= k < 4 ==> #[trigger] rgba@[k] == spec_rgba(value, k),
{
    match value {
        0 => [255, 255, 255, 255],
        1 => [192, 192, 192, 255],
        2 => [96, 96, 96, 255],
        3 => [0, 0, 0, 255],
        _ => [255, 0, 255, 255],
    }
}

/// Render the whole tile table into an RGBA frame buffer of row width
/// `frame_width` pixels: the sheet occupies the top-left 192-by-128 pixels
/// (24 tiles by 16 tiles), four bytes per pixel, and every byte outside it
/// is left untouched.
pub fn render_tileset(vram: &[u8], frame: &mut Vec<u8>, frame_width: usize)
    requires
        vram@.len() >= TILE_COUNT * TILE_BYTES,
        frame_width >= TILES_PER_ROW * TILE_WIDTH,
        old(frame)@.len() >= frame_width * (TILESET_ROWS * TILE_HEIGHT * 4),
    ensures
        final(frame)@.len() == old(frame)@.len(),
        forall|i: int|
            0 <= i < old(frame)@.len() ==> #[trigger] final(frame)@[i] == spec_frame_byte(
                vram@,
                old(frame)@,
                frame_width as int,
                i,
            ),
{
    let mut sy: usize = 0;
    while sy < 128
        invariant
            sy <= 128,
            vram@.len() >= 6144,
            frame_width >= 192,
            frame@.len() == old(frame)@.len(),
            old(frame)@.len() >= frame_width * 512,
            forall|i: int|
                0 <= i < old(frame)@.len() ==> #[trigger] frame@[i] == (if pixel_done(
                    frame_width as int,
                    i,
                    (sy * 192) as int,
                ) {
                    spec_frame_byte(vram@, old(frame)@, frame_width as int, i)
                } else {
                    old(frame)@[i]
                }),
        decreases 128 - sy,
    {
        let mut sx: usize = 0;
        while sx < 192
            invariant
                sy < 128,
                sx <= 192,
                vram@.len() >= 6144,
                frame_width >= 192,
                frame@.len() == old(frame)@.len(),
                old(frame)@.len() >= frame_width * 512,
                forall|i: int|
                    0 <= i < old(frame)@.len() ==> #[trigger] frame@[i] == (if pixel_done(
                        frame_width as int,
                        i,
                        (sy * 192 + sx) as int,
                    ) {
                        spec_frame_byte(vram@, old(frame)@, frame_width as int, i)
                    } else {
                        old(frame)@[i]
                    }),
            decreases 192 - sx,
        {
            let ty: usize = sy / 8;
            let yy: usize = sy % 8;
            let tx: usize = sx / 8;
            let xx: usize = sx % 8;
            let tile_base: usize = (ty * TILES_PER_ROW + tx) * TILE_BYTES;
            let value: u8 = tile_pixel(vram, tile_base, yy, xx);
            let rgba: [u8; 4] = pixel_value_to_rgba(value);
            let frame_len: usize = frame.len();
            proof {
                lemma_mul_inequality(sy as int, 127, frame_width as int);
                assert(sy * frame_width + sx < 128 * frame_width);
                assert(4 * (128 * frame_width) <= frame_len);
            }
            let p: usize = sy * frame_width + sx;
            let i0: usize = p * 4;
            proof {
                lemma_fundamental_div_mod_converse(
                    p as int,
                    frame_width as int,
                    sy as int,
                    sx as int,
                );
            }
            let ghost frame0 = frame@;
            frame.set(i0, rgba[0]);
            frame.set(i0 + 1, rgba[1]);
            frame.set(i0 + 2, rgba[2]);
            frame.set(i0 + 3, rgba[3]);
            proof {
                let fw = frame_width as int;
                let pi = p as int;
                assert forall|i: int| 0 <= i < old(frame)@.len() implies #[trigger] frame@[i] == (
                if pixel_done(fw, i, (sy * 192 + sx + 1) as int) {
                    spec_frame_byte(vram@, old(frame)@, fw, i)
                } else {
                    old(frame)@[i]
                }) by {
                    let q = i / 4;
                    let k = i % 4;
                    lemma_fundamental_div_mod(i, 4);
                    assert(i == 4 * q + k);
                    assert(0 <= k < 4);
                    lemma_fundamental_div_mod_converse(pi * 4 + 0, 4, pi, 0);
                    lemma_fundamental_div_mod_converse(pi * 4 + 1, 4, pi, 1);
                    lemma_fundamental_div_mod_converse(pi * 4 + 2, 4, pi, 2);
                    lemma_fundamental_div_mod_converse(pi * 4 + 3, 4, pi, 3);
                    if q == pi {
                        assert(i == pi * 4 + k);
                        assert(frame@[i] == rgba@[k]);
                        assert(rgba@[k] == spec_rgba(value, k));
                        assert(q / fw == sy as int && q % fw == sx as int);
                        assert(pixel_done(fw, i, (sy * 192 + sx + 1) as int));
                        assert(tile_base as int == ((q / fw) / 8 * 24 + (q % fw) / 8) * 16);
                        assert(value == spec_tile_pixel(vram@, tile_base as int, (q / fw) % 8, (
                        q % fw) % 8));
                        assert(frame@[i] == spec_frame_byte(vram@, old(frame)@, fw, i));
                    } else {
                        assert(i != pi * 4 && i != pi * 4 + 1 && i != pi * 4 + 2 && i != pi * 4
                            + 3);
                        assert(frame@[i] == frame0[i]);
                        lemma_fundamental_div_mod(q, fw);
                        let syq = q / fw;
                        let sxq = q % fw;
                        if syq < 128 && sxq < 192 && syq * 192 + sxq == sy * 192 + sx {
                            lemma_fundamental_div_mod_converse(
                                (sy * 192 + sx) as int,
                                192,
                                sy as int,
                                sx as int,
                            );
                            lemma_fundamental_div_mod_converse(syq * 192 + sxq, 192, syq, sxq);
                            assert(syq == sy as int && sxq == sx as int);
                            lemma_mul_is_commutative(fw, syq);
                            assert(q == pi);
                            assert(false);
                        }
                        assert(pixel_done(fw, i, (sy * 192 + sx + 1) as int) == pixel_done(
                            fw,
                            i,
                            (sy * 192 + sx) as int,
                        ));
                    }
                }
            }
            sx = sx + 1;
        }
        sy = sy + 1;
    }
}

} // verus!
