use vss::gaze::{remap_gaze, Gaze, Size};

const ONE: i64 = 65536;
const HALF: i64 = 32768;

#[test]
fn remap_is_identity_for_equal_sizes() {
    let size = Size { width: 640, height: 480 };
    let gaze = Gaze { x: HALF, y: 16384 };
    let out = remap_gaze(&gaze, &size, &size);
    assert_eq!(out, gaze);
}

#[test]
fn remap_is_identity_for_equal_unit_sizes() {
    let size = Size { width: 1, height: 1 };
    let gaze = Gaze { x: 0, y: ONE };
    let out = remap_gaze(&gaze, &size, &size);
    assert_eq!(out, gaze);
}

#[test]
fn remap_two_to_one_wider_output_keeps_center() {
    // ratio = (2, 1): scale = (2, 1), offset = (0.5, 0); the center maps
    // to the center.
    let input = Size { width: 1, height: 1 };
    let output = Size { width: 2, height: 1 };
    let gaze = Gaze { x: HALF, y: HALF };
    let out = remap_gaze(&gaze, &input, &output);
    assert_eq!(out, Gaze { x: HALF, y: HALF });
}

#[test]
fn remap_two_to_one_wider_output_shifts_quarter() {
    // x = 0.25 maps to 2 * 0.25 - 0.5 = 0; y is untouched.
    let input = Size { width: 1, height: 1 };
    let output = Size { width: 2, height: 1 };
    let gaze = Gaze { x: 16384, y: HALF };
    let out = remap_gaze(&gaze, &input, &output);
    assert_eq!(out, Gaze { x: 0, y: HALF });
}

#[test]
fn remap_two_to_one_wider_output_origin_goes_negative() {
    // x = 0 maps to -0.5: the letterbox band left of the input area.
    let input = Size { width: 1, height: 1 };
    let output = Size { width: 2, height: 1 };
    let gaze = Gaze { x: 0, y: 0 };
    let out = remap_gaze(&gaze, &input, &output);
    assert_eq!(out, Gaze { x: -HALF, y: 0 });
}

#[test]
fn remap_two_to_one_taller_output_shifts_vertically() {
    // ratio = (1, 2): the vertical axis is scaled and shifted, the
    // horizontal one untouched.
    let input = Size { width: 1, height: 1 };
    let output = Size { width: 1, height: 2 };
    let gaze = Gaze { x: 16384, y: HALF };
    let out = remap_gaze(&gaze, &input, &output);
    assert_eq!(out, Gaze { x: 16384, y: HALF });
}

#[test]
fn remap_vga_to_hd_exact_values() {
    // 640x480 -> 1280x720: ratio = (2, 1.5), scale = (4/3, 1),
    // offset = (0.25, 0); x = 0.75 maps to 0.75 exactly, y stays.
    let input = Size { width: 640, height: 480 };
    let output = Size { width: 1280, height: 720 };
    let gaze = Gaze { x: 49152, y: 12345 };
    let out = remap_gaze(&gaze, &input, &output);
    assert_eq!(out, Gaze { x: 49152, y: 12345 });
}

#[test]
fn remap_vga_to_hd_quarter_point() {
    // x = 0.25 maps to 4/3 * 0.25 - 0.25 = 1/12, rounded down.
    let input = Size { width: 640, height: 480 };
    let output = Size { width: 1280, height: 720 };
    let gaze = Gaze { x: 16384, y: 0 };
    let out = remap_gaze(&gaze, &input, &output);
    // 65536 / 12 = 5461.33.., floored.
    assert_eq!(out, Gaze { x: 5461, y: 0 });
}

#[test]
fn remap_negative_coordinates_floor_exactly() {
    // A gaze far left of the input area scales and shifts exactly.
    let input = Size { width: 1, height: 1 };
    let output = Size { width: 2, height: 1 };
    // x scales by 2 and shifts by half: 2 * -65536.0 - 0.5 units.
    let gaze = Gaze { x: -4294967296, y: -4294967296 };
    let out = remap_gaze(&gaze, &input, &output);
    assert_eq!(out, Gaze { x: -8589967360, y: -4294967296 });
}

#[test]
fn remap_rounds_toward_negative_infinity() {
    // input 3x1 -> output 1x1: the vertical axis scales by 3 and shifts
    // by a third; the exact result falls between representable values
    // and is rounded down.
    let input = Size { width: 3, height: 1 };
    let output = Size { width: 1, height: 1 };
    let gaze = Gaze { x: 0, y: 1 };
    let out = remap_gaze(&gaze, &input, &output);
    assert_eq!(out, Gaze { x: 0, y: -21843 });
}
