use rust_leds::hsv_to_rgb;
use rust_leds::set_brightness;

#[test]
fn test_hsv_primary_hues() {
    assert_eq!(hsv_to_rgb(0, 100, 100), (255, 0, 0));
    assert_eq!(hsv_to_rgb(120, 100, 100), (0, 255, 0));
    assert_eq!(hsv_to_rgb(240, 100, 100), (0, 0, 255));
}

#[test]
fn test_hsv_secondary_hues() {
    assert_eq!(hsv_to_rgb(60, 100, 100), (255, 255, 0));
    assert_eq!(hsv_to_rgb(180, 100, 100), (0, 255, 255));
    assert_eq!(hsv_to_rgb(300, 100, 100), (255, 0, 255));
}

#[test]
fn test_hsv_full_saturation_peak_channels() {
    for hue in 0u16..360 {
        let (r, g, b) = hsv_to_rgb(hue, 100, 100);
        let peaks = [r, g, b].iter().filter(|&&c| c == 255).count();
        if hue == 60 || hue == 180 || hue == 300 {
            assert_eq!(peaks, 2, "hue {}", hue);
        } else {
            assert_eq!(peaks, 1, "hue {}", hue);
        }
    }
}

#[test]
fn test_hsv_mid_sector_truncates() {
    // hue 37 at 70 percent value: chroma 0.7, rising channel
    // 0.7 * 37/60 scaled into 0..=255 and truncated.
    assert_eq!(hsv_to_rgb(37, 100, 70), (178, 110, 0));
}

#[test]
fn test_hsv_zero_saturation_is_grey() {
    assert_eq!(hsv_to_rgb(123, 0, 100), (255, 255, 255));
    assert_eq!(hsv_to_rgb(321, 0, 50), (127, 127, 127));
}

#[test]
fn test_hsv_zero_value_is_black() {
    for hue in [0u16, 59, 60, 119, 359] {
        assert_eq!(hsv_to_rgb(hue, 100, 0), (0, 0, 0));
    }
}

#[test]
fn test_set_brightness_half_truncates() {
    assert_eq!(set_brightness([255, 255, 255], 50), [127, 127, 127]);
}

#[test]
fn test_set_brightness_identity() {
    for rgb in [[0u8, 0, 0], [255, 255, 255], [91, 206, 250], [1, 99, 200]] {
        assert_eq!(set_brightness(rgb, 100), rgb);
    }
}

#[test]
fn test_set_brightness_zero_is_dark() {
    assert_eq!(set_brightness([255, 170, 3], 0), [0, 0, 0]);
}

#[test]
fn test_set_brightness_over_100_saturates() {
    assert_eq!(set_brightness([200, 10, 0], 255), [255, 25, 0]);
}
