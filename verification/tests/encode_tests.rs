use rust_leds::Rgb;
use rust_leds::encode_frame;

const ZERO_BIT: [u8; 2] = [0xf8, 0x00];
const ONE_BIT: [u8; 2] = [0xff, 0x80];

fn rgb(r: u8, g: u8, b: u8) -> Rgb {
    Rgb { r, g, b }
}

#[test]
fn test_encode_empty_frame() {
    assert_eq!(encode_frame(&vec![]), Vec::<u8>::new());
}

#[test]
fn test_encode_length_is_48_per_pixel() {
    let frame = vec![rgb(1, 2, 3); 5];
    assert_eq!(encode_frame(&frame).len(), 240);
}

#[test]
fn test_encode_black_pixel() {
    let bytes = encode_frame(&vec![rgb(0, 0, 0)]);
    let mut expected = Vec::new();
    for _ in 0..24 {
        expected.extend_from_slice(&ZERO_BIT);
    }
    assert_eq!(bytes, expected);
}

#[test]
fn test_encode_white_pixel() {
    let bytes = encode_frame(&vec![rgb(255, 255, 255)]);
    let mut expected = Vec::new();
    for _ in 0..24 {
        expected.extend_from_slice(&ONE_BIT);
    }
    assert_eq!(bytes, expected);
}

#[test]
fn test_encode_sends_green_byte_first_msb_first() {
    // green 0b1000_0000, red 0, blue 0b0000_0001: the very first data bit
    // and the very last one are the only ones set
    let bytes = encode_frame(&vec![rgb(0, 128, 1)]);
    let mut expected = Vec::new();
    expected.extend_from_slice(&ONE_BIT);
    for _ in 0..22 {
        expected.extend_from_slice(&ZERO_BIT);
    }
    expected.extend_from_slice(&ONE_BIT);
    assert_eq!(bytes, expected);
}

#[test]
fn test_encode_concatenates_pixels_in_order() {
    let two = encode_frame(&vec![rgb(12, 34, 56), rgb(78, 90, 123)]);
    let first = encode_frame(&vec![rgb(12, 34, 56)]);
    let second = encode_frame(&vec![rgb(78, 90, 123)]);
    assert_eq!(&two[..48], &first[..]);
    assert_eq!(&two[48..], &second[..]);
}
