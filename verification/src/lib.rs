//! Animation engine for WS281x-family addressable RGB LED strips.
//!
//! The crate computes the frames of a small set of continuously running
//! visual patterns — static colours, colour wipes, hue breathing, flashing,
//! off — one colour per LED, and encodes each frame into the SPI byte
//! stream that the strip's driver transmits.  All colour arithmetic is
//! fixed-point integer arithmetic: hue in whole degrees, saturation, value
//! and brightness in whole percent, channels truncated into 0..=255.
//! Argument handling, the SPI device and the timed loop around the engine
//! stay with the binary that embeds the crate.

pub mod color;
pub mod encode;
pub mod pattern;
pub mod engine;

pub use color::Rgb;
pub use color::hsv_to_rgb;
pub use color::set_brightness;
pub use encode::encode_frame;
pub use pattern::ConfigError;
pub use pattern::Pattern;
pub use pattern::generate_frame;
pub use pattern::parse_pattern;
pub use pattern::scale_frame;
pub use engine::Engine;
