use oxdraw_core::canvas::make_image_data;
use oxdraw_core::geometry::{Point, Position, approx_eq_px, position_to_logical, to_logical_px_sat};

#[test]
fn image_data_has_four_bytes_per_pixel() {
    let data = make_image_data(256, 256);
    assert_eq!(data.len(), 256 * 256 * 4);
}

#[test]
fn image_data_pixel_pattern() {
    let width = 7usize;
    let height = 5usize;
    let data = make_image_data(width, height);
    for y in 0..height {
        for x in 0..width {
            let ix = (y * width + x) * 4;
            assert_eq!(data[ix], x as u8);
            assert_eq!(data[ix + 1], y as u8);
            assert_eq!(data[ix + 2], !(x as u8));
            assert_eq!(data[ix + 3], 127);
        }
    }
}

#[test]
fn image_data_wraps_beyond_one_byte() {
    let data = make_image_data(300, 1);
    let ix = 260 * 4;
    assert_eq!(data[ix], 4); // 260 % 256
    assert_eq!(data[ix + 2], 251); // 255 - 4
}

#[test]
fn empty_image_is_empty() {
    assert!(make_image_data(0, 17).is_empty());
    assert!(make_image_data(17, 0).is_empty());
}

#[test]
fn logical_px_divides_by_scale() {
    assert_eq!(to_logical_px_sat(1600, 2000), 800);
    assert_eq!(to_logical_px_sat(1600, 1000), 1600);
    assert_eq!(to_logical_px_sat(1000, 1250), 800); // scale 1.25
    assert_eq!(to_logical_px_sat(0, 1500), 0);
    // a tiny scale factor saturates instead of overflowing
    assert_eq!(to_logical_px_sat(u32::MAX, 1), u32::MAX);
}

#[test]
fn positions_convert_to_logical_thousandths() {
    let p = position_to_logical(Position { x: 100_000, y: 50_500 }, 2000);
    assert_eq!(p, Point { x: 50_000, y: 25_250 });
    let p = position_to_logical(Position { x: 99, y: 0 }, 1000);
    assert_eq!(p, Point { x: 99, y: 0 });
}

#[test]
fn approximate_equality_tolerates_one_pixel() {
    assert!(approx_eq_px(800, 800));
    assert!(approx_eq_px(800, 801));
    assert!(approx_eq_px(801, 800));
    assert!(!approx_eq_px(800, 802));
    assert!(approx_eq_px(0, 1));
    assert!(!approx_eq_px(0, 2));
}
