//! Pattern-table decoding: the character ROM stores each 8x8 tile as two
//! interlaced bit planes of 8 bytes each. These functions turn that
//! encoding into plain two-bit color indices and stitch a whole table
//! into one indexed sheet; mapping indices to actual colors, and showing
//! or saving the sheet, is the host's business.

use vstd::prelude::*;

verus! {

/// An 8x8 tile of two-bit color indices, row by row.
pub struct Tile(pub Vec<Vec<u8>>);

/// How many bytes encode one tile: eight per bit plane.
pub const TILE_BYTES: usize = 16;

/// The stitched sheet: two 16x16 tile grids side by side.
pub const SHEET_WIDTH: usize = 256;

pub const SHEET_HEIGHT: usize = 128;

/// The divisor that brings bit `7 - x` of a byte into the low position,
/// walking pixels left to right.
pub open spec fn bit_weight(x: int) -> int {
    if x == 0 {
        128
    } else if x == 1 {
        64
    } else if x == 2 {
        32
    } else if x == 3 {
        16
    } else if x == 4 {
        8
    } else if x == 5 {
        4
    } else if x == 6 {
        2
    } else {
        1
    }
}

/// The color index of pixel `x` in a row: the first plane gives the low
/// bit, the second the high bit.
pub open spec fn tile_pixel(plane0: u8, plane1: u8, x: int) -> u8 {
    ((plane0 / bit_weight(x) as u8) % 2 + 2 * ((plane1 / bit_weight(x) as u8) % 2)) as u8
}

/// A decoded tile has 8 rows of 8 indices below 4.
pub open spec fn tile_wf(t: Tile) -> bool {
    &&& t.0@.len() == 8
    &&& forall|y: int| 0 <= y < 8 ==> (#[trigger] t.0@[y])@.len() == 8
    &&& forall|y: int, x: int|
        0 <= y < 8 && 0 <= x < 8 ==> #[trigger] t.0@[y]@[x] < 4
}

/// The decoded tile matches the 16 encoding bytes: row `y` reads its low
/// bits from byte `y` and its high bits from byte `8 + y`.
pub open spec fn tile_decodes(bytes: Seq<u8>, t: Tile) -> bool {
    &&& tile_wf(t)
    &&& forall|y: int, x: int|
        0 <= y < 8 && 0 <= x < 8 ==> #[trigger] t.0@[y]@[x] == tile_pixel(
            bytes[y],
            bytes[8 + y],
            x,
        )
}

/// Takes 16 bytes and decodes them into an 8x8 tile of color indices.
pub fn deinterlace_tile_bytes(tile_bytes: &[u8]) -> (r: Tile)
    requires
        tile_bytes@.len() == TILE_BYTES,
    ensures
        tile_decodes(tile_bytes@, r),
{
    let mut rows: Vec<Vec<u8>> = Vec::new();
    let mut y: usize = 0;
    while y < 8
        invariant
            tile_bytes@.len() == TILE_BYTES,
            y <= 8,
            rows@.len() == y,
            forall|i: int| 0 <= i < y ==> (#[trigger] rows@[i])@.len() == 8,
            forall|i: int, x: int|
                0 <= i < y && 0 <= x < 8 ==> #[trigger] rows@[i]@[x] == tile_pixel(
                    tile_bytes@[i],
                    tile_bytes@[8 + i],
                    x,
                ) && rows@[i]@[x] < 4,
        decreases 8 - y,
    {
        let plane0 = tile_bytes[y];
        let plane1 = tile_bytes[8 + y];
        let mut row: Vec<u8> = Vec::new();
        let mut x: usize = 0;
        let mut weight: u8 = 128;
        while x < 8
            invariant
                x <= 8,
                weight == bit_weight(x as int),
                row@.len() == x,
                forall|j: int|
                    0 <= j < x ==> #[trigger] row@[j] == tile_pixel(plane0, plane1, j)
                        && row@[j] < 4,
            decreases 8 - x,
        {
            let low_bit = (plane0 / weight) % 2;
            let high_bit = (plane1 / weight) % 2;
            row.push(low_bit + 2 * high_bit);
            x = x + 1;
            if x < 8 {
                weight = weight / 2;
            }
        }
        rows.push(row);
        y = y + 1;
    }
    Tile(rows)
}

/// Where pixel `(x, y)` of the stitched sheet comes from: the left half
/// shows the first 256 tiles as a 16x16 grid, the right half the next
/// 256, with each run of 16 tiles forming one grid row.
pub open spec fn stitched_pixel(tiles: Seq<Tile>, x: int, y: int) -> u8 {
    if x < 128 {
        tiles[(y / 8) * 16 + x / 8].0@[y % 8]@[x % 8]
    } else {
        tiles[256 + (y / 8) * 16 + (x - 128) / 8].0@[y % 8]@[(x - 128) % 8]
    }
}

/// Stitches 512 tiles into two 16x16 tile grids attached side by side,
/// returned as one row-major sheet of color indices.
pub fn stitch_tiles(tiles: &Vec<Tile>) -> (r: Vec<u8>)
    requires
        tiles@.len() == 512,
        forall|i: int| 0 <= i < 512 ==> tile_wf(#[trigger] tiles@[i]),
    ensures
        r@.len() == SHEET_WIDTH * SHEET_HEIGHT,
        forall|y: int, x: int|
            0 <= y < SHEET_HEIGHT && 0 <= x < SHEET_WIDTH ==> #[trigger] r@[y * 256 + x]
                == stitched_pixel(tiles@, x, y),
{
    let mut sheet: Vec<u8> = Vec::new();
    let mut y: usize = 0;
    while y < SHEET_HEIGHT
        invariant
            tiles@.len() == 512,
            forall|i: int| 0 <= i < 512 ==> tile_wf(#[trigger] tiles@[i]),
            y <= SHEET_HEIGHT,
            sheet@.len() == y * 256,
            forall|j: int, x: int|
                0 <= j < y && 0 <= x < 256 ==> #[trigger] sheet@[j * 256 + x] == stitched_pixel(
                    tiles@,
                    x,
                    j,
                ),
        decreases SHEET_HEIGHT - y,
    {
        let mut x: usize = 0;
        while x < SHEET_WIDTH
            invariant
                tiles@.len() == 512,
                forall|i: int| 0 <= i < 512 ==> tile_wf(#[trigger] tiles@[i]),
                y < SHEET_HEIGHT,
                x <= SHEET_WIDTH,
                sheet@.len() == y * 256 + x,
                forall|j: int, k: int|
                    0 <= j < y && 0 <= k < 256 ==> #[trigger] sheet@[j * 256 + k]
                        == stitched_pixel(tiles@, k, j),
                forall|k: int|
                    0 <= k < x ==> #[trigger] sheet@[y * 256 + k] == stitched_pixel(
                        tiles@,
                        k,
                        y as int,
                    ),
            decreases SHEET_WIDTH - x,
        {
            let tile_index: usize = if x < 128 {
                (y / 8) * 16 + x / 8
            } else {
                256 + (y / 8) * 16 + (x - 128) / 8
            };
            let column: usize = if x < 128 {
                x % 8
            } else {
                (x - 128) % 8
            };
            let pixel = tiles[tile_index].0[y % 8][column];
            sheet.push(pixel);
            x = x + 1;
        }
        y = y + 1;
    }
    sheet
}

} // verus!
