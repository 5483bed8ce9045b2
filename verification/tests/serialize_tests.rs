use unicorn_hat_hd::MemTransport;
use unicorn_hat_hd::Pixel;
use unicorn_hat_hd::Rotate;
use unicorn_hat_hd::UnicornHatHd;

/// The scenario buffer: cleared, then three corners painted.
fn corner_hat() -> UnicornHatHd<MemTransport> {
    let mut hat = UnicornHatHd::from_port(MemTransport::new());
    hat.clear_pixels();
    hat.set_pixel(0, 0, Pixel::new(255, 0, 0));
    hat.set_pixel(15, 0, Pixel::new(0, 255, 0));
    hat.set_pixel(0, 15, Pixel::new(0, 0, 255));
    hat
}

#[test]
fn output_length_is_768_for_every_rotation() {
    let mut hat = corner_hat();
    for rot in [Rotate::RotNone, Rotate::RotCW90, Rotate::RotCCW90, Rotate::Rot180] {
        hat.set_rotation(rot);
        assert_eq!(hat.as_array().len(), 768);
    }
}

#[test]
fn rot_none_places_corners_at_their_offsets() {
    let hat = corner_hat();
    let arr = hat.as_array();
    assert_eq!(&arr[0..3], &[255, 0, 0]);
    // Pixel (15, 0) is buffer index 15, so bytes 45..48.
    assert_eq!(&arr[45..48], &[0, 255, 0]);
    // Pixel (0, 15) is buffer index 240, so bytes 720..723.
    assert_eq!(&arr[720..723], &[0, 0, 255]);
}

#[test]
fn rot_none_offset_formula_holds_for_every_cell() {
    let mut hat = UnicornHatHd::from_port(MemTransport::new());
    // A distinct value per cell: the row-major index in the red channel and
    // the coordinates in green and blue.
    for x in 0..16 {
        for y in 0..16 {
            hat.set_pixel(x, y, Pixel::new((y * 16 + x) as u8, x as u8, y as u8));
        }
    }
    let arr = hat.as_array();
    for x in 0..16 {
        for y in 0..16 {
            let off = 3 * (y * 16 + x);
            assert_eq!(arr[off], (y * 16 + x) as u8);
            assert_eq!(arr[off + 1], x as u8);
            assert_eq!(arr[off + 2], y as u8);
        }
    }
}

#[test]
fn rot180_first_pixel_is_rot_none_last_pixel() {
    let mut hat = corner_hat();
    let plain = hat.as_array();
    hat.set_rotation(Rotate::Rot180);
    let rotated = hat.as_array();
    assert_eq!(&rotated[0..3], &plain[765..768]);
    // The last cell read under no rotation is (15, 15), which this buffer
    // leaves black.
    assert_eq!(&rotated[0..3], &[0, 0, 0]);
    // The three painted corners land on the mirrored slots: cell 0 on slot
    // 255, cell 15 on slot 240, cell 240 on slot 15.
    assert_eq!(&rotated[765..768], &[255, 0, 0]);
    assert_eq!(&rotated[720..723], &[0, 255, 0]);
    assert_eq!(&rotated[45..48], &[0, 0, 255]);
}

#[test]
fn rot180_reverses_pixel_chunks_and_keeps_channel_order() {
    let mut hat = UnicornHatHd::from_port(MemTransport::new());
    for x in 0..16 {
        for y in 0..16 {
            hat.set_pixel(x, y, Pixel::new((y * 16 + x) as u8, x as u8, y as u8));
        }
    }
    let plain = hat.as_array();
    hat.set_rotation(Rotate::Rot180);
    let rotated = hat.as_array();
    for i in 0..256 {
        assert_eq!(&rotated[3 * i..3 * i + 3], &plain[3 * (255 - i)..3 * (255 - i) + 3]);
    }
}

#[test]
fn cw_and_ccw_serializations_are_pixel_level_reverses() {
    let mut hat = UnicornHatHd::from_port(MemTransport::new());
    for x in 0..16 {
        for y in 0..16 {
            hat.set_pixel(x, y, Pixel::new((y * 16 + x) as u8, x as u8, y as u8));
        }
    }
    hat.set_rotation(Rotate::RotCW90);
    let cw = hat.as_array();
    hat.set_rotation(Rotate::RotCCW90);
    let ccw = hat.as_array();
    for i in 0..256 {
        assert_eq!(&cw[3 * i..3 * i + 3], &ccw[3 * (255 - i)..3 * (255 - i) + 3]);
    }
}

#[test]
fn cw90_reads_columns_with_bottom_row_first() {
    let mut hat = UnicornHatHd::from_port(MemTransport::new());
    for x in 0..16 {
        for y in 0..16 {
            hat.set_pixel(x, y, Pixel::new(x as u8, y as u8, 0));
        }
    }
    hat.set_rotation(Rotate::RotCW90);
    let arr = hat.as_array();
    // Slot i reads (x, y) with x == i / 16 and y == 15 - i % 16.
    for i in 0..256 {
        assert_eq!(arr[3 * i], (i / 16) as u8);
        assert_eq!(arr[3 * i + 1], (15 - i % 16) as u8);
    }
}

#[test]
fn ccw90_reads_columns_right_to_left_top_down() {
    let mut hat = UnicornHatHd::from_port(MemTransport::new());
    for x in 0..16 {
        for y in 0..16 {
            hat.set_pixel(x, y, Pixel::new(x as u8, y as u8, 0));
        }
    }
    hat.set_rotation(Rotate::RotCCW90);
    let arr = hat.as_array();
    // Slot i reads (x, y) with x == 15 - i / 16 and y == i % 16.
    for i in 0..256 {
        assert_eq!(arr[3 * i], (15 - i / 16) as u8);
        assert_eq!(arr[3 * i + 1], (i % 16) as u8);
    }
}
