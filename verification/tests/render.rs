use dmg_core::renderer::{decode_tile, pixel_value_to_rgba, render_tileset, tile_pixel};

#[test]
fn decode_tile_combines_low_and_high_bit_planes() {
    let mut tile_data = [0u8; 16];
    tile_data[0] = 0xFF; // row 0: low bits all set
    tile_data[1] = 0x00;
    tile_data[2] = 0x00; // row 1: high bits all set
    tile_data[3] = 0xFF;
    tile_data[4] = 0xFF; // row 2: both planes set
    tile_data[5] = 0xFF;
    tile_data[6] = 0b1000_0000; // row 3: leftmost pixel low, rightmost pixel high
    tile_data[7] = 0b0000_0001;
    let tile = decode_tile(&tile_data);
    assert_eq!(tile.len(), 8);
    for x in 0..8 {
        assert_eq!(tile[0][x], 1);
        assert_eq!(tile[1][x], 2);
        assert_eq!(tile[2][x], 3);
    }
    assert_eq!(tile[3][0], 1);
    assert_eq!(tile[3][7], 2);
    for x in 1..7 {
        assert_eq!(tile[3][x], 0);
    }
    for y in 4..8 {
        for x in 0..8 {
            assert_eq!(tile[y][x], 0);
        }
    }
}

#[test]
fn tile_pixel_reads_at_an_offset_base() {
    let mut data = [0u8; 32];
    data[16] = 0b0100_0000;
    data[17] = 0b0100_0000;
    assert_eq!(tile_pixel(&data, 16, 0, 1), 3);
    assert_eq!(tile_pixel(&data, 16, 0, 0), 0);
    assert_eq!(tile_pixel(&data, 0, 0, 1), 0);
}

#[test]
fn pixel_values_map_to_the_grey_ramp() {
    assert_eq!(pixel_value_to_rgba(0), [255, 255, 255, 255]);
    assert_eq!(pixel_value_to_rgba(1), [192, 192, 192, 255]);
    assert_eq!(pixel_value_to_rgba(2), [96, 96, 96, 255]);
    assert_eq!(pixel_value_to_rgba(3), [0, 0, 0, 255]);
    assert_eq!(pixel_value_to_rgba(7), [255, 0, 255, 255]);
}

#[test]
fn render_tileset_paints_tile_pixels_and_leaves_the_rest() {
    let frame_width: usize = 240;
    let mut vram = vec![0u8; 8192];
    // tile 0, row 0: leftmost pixel value 1
    vram[0] = 0x80;
    // tile 25 (row 1, column 1), row 2: leftmost pixel value 3
    let tile25 = 25 * 16;
    vram[tile25 + 4] = 0x80;
    vram[tile25 + 5] = 0x80;
    let mut frame = vec![7u8; frame_width * 180 * 4];
    render_tileset(&vram, &mut frame, frame_width);

    // pixel (0, 0): value 1 -> light grey
    assert_eq!(&frame[0..4], &[192, 192, 192, 255]);
    // pixel (1, 0): value 0 -> white
    assert_eq!(&frame[4..8], &[255, 255, 255, 255]);
    // tile 25 sits at pixel (8, 8); its row 2 leftmost pixel is (8, 10)
    let i = ((8 + 2) * frame_width + 8) * 4;
    assert_eq!(&frame[i..i + 4], &[0, 0, 0, 255]);
    // a pixel right of the sheet keeps its old bytes
    let outside = (0 * frame_width + 200) * 4;
    assert_eq!(&frame[outside..outside + 4], &[7, 7, 7, 7]);
    // a pixel below the sheet keeps its old bytes
    let below = (130 * frame_width + 0) * 4;
    assert_eq!(&frame[below..below + 4], &[7, 7, 7, 7]);
    assert_eq!(frame.len(), frame_width * 180 * 4);
}

#[test]
fn render_tileset_covers_the_last_tile() {
    let frame_width: usize = 192;
    let mut vram = vec![0u8; 8192];
    // tile 383 (row 15, column 23), row 7: rightmost pixel value 2
    let tile383 = 383 * 16;
    vram[tile383 + 15] = 0x01;
    let mut frame = vec![0u8; frame_width * 128 * 4];
    render_tileset(&vram, &mut frame, frame_width);
    // that pixel is at (191, 127)
    let i = (127 * frame_width + 191) * 4;
    assert_eq!(&frame[i..i + 4], &[96, 96, 96, 255]);
}
