use rust_leds::ConfigError;
use rust_leds::Pattern;
use rust_leds::Rgb;
use rust_leds::generate_frame;
use rust_leds::hsv_to_rgb;
use rust_leds::parse_pattern;
use rust_leds::scale_frame;

fn rgb(r: u8, g: u8, b: u8) -> Rgb {
    Rgb { r, g, b }
}

#[test]
fn test_wipe_phase_zero() {
    let a = rgb(1, 2, 3);
    let b = rgb(4, 5, 6);
    let c = rgb(7, 8, 9);
    let pattern = Pattern::Wipe(vec![a, b, c]);
    let frame = generate_frame(&pattern, 0, 6);
    assert_eq!(frame, vec![a, b, c, a, b, c]);
}

#[test]
fn test_wipe_phase_one_shifts_cyclically() {
    let a = rgb(1, 2, 3);
    let b = rgb(4, 5, 6);
    let c = rgb(7, 8, 9);
    let pattern = Pattern::Wipe(vec![a, b, c]);
    // pixel i holds colour (i + phase) mod 3, so the list moves one
    // position toward the strip's start each tick.
    let frame = generate_frame(&pattern, 1, 6);
    assert_eq!(frame, vec![b, c, a, b, c, a]);
}

#[test]
fn test_wipe_phase_wraps_through_list() {
    let a = rgb(1, 2, 3);
    let b = rgb(4, 5, 6);
    let pattern = Pattern::Wipe(vec![a, b]);
    assert_eq!(generate_frame(&pattern, 2, 4), generate_frame(&pattern, 0, 4));
    assert_eq!(generate_frame(&pattern, 3, 4), generate_frame(&pattern, 1, 4));
}

#[test]
fn test_static_color_everywhere() {
    let c = rgb(200, 100, 50);
    let frame = generate_frame(&Pattern::StaticColor(c), 17, 4);
    assert_eq!(frame, vec![c, c, c, c]);
}

#[test]
fn test_off_frame_is_dark() {
    let frame = generate_frame(&Pattern::Off, 5, 3);
    assert_eq!(frame, vec![rgb(0, 0, 0), rgb(0, 0, 0), rgb(0, 0, 0)]);
}

#[test]
fn test_breathe_synced_uniform_frame() {
    let frame = generate_frame(&Pattern::BreatheSynced(1), 123, 5);
    assert_eq!(frame.len(), 5);
    for px in &frame {
        assert_eq!(*px, frame[0]);
    }
    let (r, g, b) = hsv_to_rgb(123, 100, 100);
    assert_eq!(frame[0], rgb(r, g, b));
}

#[test]
fn test_breathe_offset_evenly_spaced_hues() {
    // four LEDs share the hue circle, 90 degrees apart
    let frame = generate_frame(&Pattern::BreatheOffset(1), 0, 4);
    for (i, px) in frame.iter().enumerate() {
        let (r, g, b) = hsv_to_rgb(90 * i as u16, 100, 100);
        assert_eq!(*px, rgb(r, g, b));
    }
    assert_eq!(frame[0], rgb(255, 0, 0));
    assert_eq!(frame[1], rgb(127, 255, 0));
    assert_eq!(frame[2], rgb(0, 255, 255));
    assert_eq!(frame[3], rgb(127, 0, 255));
}

#[test]
fn test_flash_alternates_with_period_two() {
    let c = rgb(255, 0, 0);
    let dark = rgb(0, 0, 0);
    let pattern = Pattern::Flash(c, 1, 1);
    assert_eq!(generate_frame(&pattern, 0, 2), vec![c, c]);
    assert_eq!(generate_frame(&pattern, 1, 2), vec![dark, dark]);
    assert_eq!(generate_frame(&pattern, 2, 2), vec![c, c]);
}

#[test]
fn test_flash_counts_on_ticks_first() {
    let c = rgb(10, 20, 30);
    let dark = rgb(0, 0, 0);
    let pattern = Pattern::Flash(c, 10, 10);
    assert_eq!(generate_frame(&pattern, 9, 1), vec![c]);
    assert_eq!(generate_frame(&pattern, 10, 1), vec![dark]);
    assert_eq!(generate_frame(&pattern, 19, 1), vec![dark]);
    assert_eq!(generate_frame(&pattern, 20, 1), vec![c]);
}

#[test]
fn test_generate_frame_is_pure() {
    let pattern = Pattern::BreatheOffset(3);
    let first = generate_frame(&pattern, 77, 9);
    let second = generate_frame(&pattern, 77, 9);
    assert_eq!(first, second);
}

#[test]
fn test_led_count_zero_yields_empty_frame() {
    let pattern = Pattern::Wipe(vec![rgb(1, 1, 1)]);
    assert_eq!(generate_frame(&pattern, 0, 0), vec![]);
}

#[test]
fn test_scale_frame_pointwise() {
    let frame = vec![rgb(255, 255, 255), rgb(100, 50, 10)];
    let scaled = scale_frame(&frame, 50);
    assert_eq!(scaled, vec![rgb(127, 127, 127), rgb(50, 25, 5)]);
}

#[test]
fn test_parse_pattern_trans() {
    let p = parse_pattern(&"trans".to_owned()).unwrap();
    match p {
        Pattern::Wipe(colors) => {
            assert_eq!(colors, vec![rgb(91, 206, 250), rgb(245, 169, 184), rgb(255, 255, 255)]);
        },
        other => panic!("expected a wipe, got {:?}", other),
    }
}

#[test]
fn test_parse_pattern_trans2() {
    let p = parse_pattern(&"trans2".to_owned()).unwrap();
    match p {
        Pattern::Wipe(colors) => {
            assert_eq!(
                colors,
                vec![
                    rgb(91, 206, 250),
                    rgb(245, 169, 184),
                    rgb(255, 255, 255),
                    rgb(245, 169, 184),
                    rgb(91, 206, 250),
                ]
            );
        },
        other => panic!("expected a wipe, got {:?}", other),
    }
}

#[test]
fn test_parse_pattern_named_variants() {
    assert!(matches!(parse_pattern(&"breathe".to_owned()), Ok(Pattern::BreatheSynced(1))));
    assert!(matches!(parse_pattern(&"breathe2".to_owned()), Ok(Pattern::BreatheOffset(1))));
    assert!(matches!(parse_pattern(&"off".to_owned()), Ok(Pattern::Off)));
    match parse_pattern(&"warm".to_owned()) {
        Ok(Pattern::StaticColor(c)) => assert_eq!(c, rgb(255, 182, 78)),
        other => panic!("expected a static colour, got {:?}", other),
    }
    match parse_pattern(&"flash".to_owned()) {
        Ok(Pattern::Flash(c, on, off)) => {
            assert_eq!(c, rgb(255, 0, 0));
            assert_eq!((on, off), (10, 10));
        },
        other => panic!("expected a flash, got {:?}", other),
    }
}

#[test]
fn test_parse_pattern_unknown_is_an_error() {
    assert_eq!(parse_pattern(&"disco".to_owned()).unwrap_err(), ConfigError::UnknownPattern);
    assert_eq!(parse_pattern(&"".to_owned()).unwrap_err(), ConfigError::UnknownPattern);
    assert_eq!(parse_pattern(&"Off".to_owned()).unwrap_err(), ConfigError::UnknownPattern);
}
