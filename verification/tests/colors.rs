use raster::{Color3, SCALE};

#[test]
fn full_channel_quantizes_to_255() {
    let c = Color3::new(SCALE, SCALE, SCALE);
    assert_eq!(c.to_rgb(), (255, 255, 255));
}

#[test]
fn zero_channel_quantizes_to_0() {
    let c = Color3::new(0, 0, 0);
    assert_eq!(c.to_rgb(), (0, 0, 0));
}

#[test]
fn out_of_range_channel_is_clamped() {
    // 1.5 clamps to 1.0 and -0.005 clamps to 0.0: no wrap, no error.
    let c = Color3::new(1500, -5, SCALE);
    assert_eq!(c.to_rgb(), (255, 0, 255));
}

#[test]
fn quantization_truncates_rather_than_rounds() {
    // 0.999 * 255 = 254.745, which floors to 254, not 255.
    let c = Color3::new(999, 500, 1);
    // 0.5 * 255 = 127.5 -> 127; 0.001 * 255 = 0.255 -> 0.
    assert_eq!(c.to_rgb(), (254, 127, 0));
}
