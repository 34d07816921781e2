use nes_core::tile::{deinterlace_tile_bytes, stitch_tiles, Tile};

#[test]
fn deinterlace_combines_the_two_planes() {
    // Row 0: low-bit plane 0b1000_0001, high-bit plane 0b0000_0001.
    // Pixel 0 takes only the low bit, pixel 7 both, the middle none.
    let mut bytes = vec![0u8; 16];
    bytes[0] = 0b1000_0001;
    bytes[8] = 0b0000_0001;
    // Row 3 is lit only in the high plane: every pixel is index 2.
    bytes[8 + 3] = 0xFF;

    let tile = deinterlace_tile_bytes(&bytes);

    assert_eq!(tile.0[0][0], 1);
    assert_eq!(tile.0[0][3], 0);
    assert_eq!(tile.0[0][7], 3);
    assert_eq!(tile.0[1], vec![0; 8]);
    assert_eq!(tile.0[3], vec![2; 8]);
    assert_eq!(tile.0.len(), 8);
}

#[test]
fn stitch_lays_the_two_grids_side_by_side() {
    // Tile i is filled with the index i modulo 4; corners of the sheet
    // then tell which tile each region came from.
    let tiles: Vec<Tile> = (0..512)
        .map(|i| Tile(vec![vec![(i % 4) as u8; 8]; 8]))
        .collect();

    let sheet = stitch_tiles(&tiles);
    assert_eq!(sheet.len(), 256 * 128);

    let at = |x: usize, y: usize| sheet[y * 256 + x];
    // Left grid: tiles 0, 1 and 16 at their grid positions.
    assert_eq!(at(0, 0), 0);
    assert_eq!(at(8, 0), 1);
    assert_eq!(at(0, 8), 0); // tile 16, and 16 % 4 == 0
    assert_eq!(at(8, 8), 1); // tile 17
    // Right grid starts at tile 256.
    assert_eq!(at(128, 0), 0);
    assert_eq!(at(136, 0), 1); // tile 257
    assert_eq!(at(255, 127), 3); // tile 511, and 511 % 4 == 3
}
