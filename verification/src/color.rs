//! The colour model: HSV-to-RGB conversion and brightness scaling.
//!
//! Everything is fixed-point integer arithmetic.  Hue is measured in whole
//! degrees, saturation, value and brightness in whole percent; a channel of
//! the result is an 8-bit value obtained by truncating (never rounding) the
//! exact rational result.

use vstd::arithmetic::div_mod::lemma_div_is_ordered;
use vstd::arithmetic::div_mod::lemma_div_multiples_vanish;
use vstd::prelude::*;

verus! {

/// One pixel: an RGB triple, each channel an 8-bit value.
#[derive(Clone, Copy, PartialEq, Eq, Structural, Debug)]
pub struct Rgb {
    pub r: u8,
    pub g: u8,
    pub b: u8,
}

/// The all-black pixel, which a dark LED shows.
pub open spec fn black() -> Rgb {
    Rgb { r: 0, g: 0, b: 0 }
}

/// A channel scaled to `percent` of its value: multiplied and truncated.
/// A percentage above 100 may push the exact result past the 8-bit range;
/// such a result saturates at 255.
pub open spec fn scaled_channel(c: int, percent: int) -> int {
    let scaled = (c * percent) / 100;
    if scaled > 255 {
        255
    } else {
        scaled
    }
}

/// A pixel with every channel scaled to `percent` of its value.
pub open spec fn scaled_rgb(c: Rgb, percent: int) -> Rgb {
    Rgb {
        r: scaled_channel(c.r as int, percent) as u8,
        g: scaled_channel(c.g as int, percent) as u8,
        b: scaled_channel(c.b as int, percent) as u8,
    }
}

/// Law: scaling a channel to 100 percent leaves it unchanged.
pub proof fn lemma_scaled_channel_identity(c: int)
    requires
        0 <= c <= 255,
    ensures
        scaled_channel(c, 100) == c,
{
    lemma_div_multiples_vanish(c, 100);
}

/// Law: scaling a pixel to 100 percent leaves it unchanged.
pub proof fn lemma_scaled_rgb_identity(c: Rgb)
    ensures
        scaled_rgb(c, 100) == c,
{
    lemma_scaled_channel_identity(c.r as int);
    lemma_scaled_channel_identity(c.g as int);
    lemma_scaled_channel_identity(c.b as int);
}

proof fn lemma_scaled_channel_bounds(c: int, percent: int)
    requires
        0 <= c,
        0 <= percent,
    ensures
        0 <= scaled_channel(c, percent) <= 255,
{
    assert(0 <= c * percent) by (nonlinear_arith)
        requires
            0 <= c,
            0 <= percent,
    ;
    lemma_div_is_ordered(0, c * percent, 100);
}

fn scale_one(c: u8, percent: u8) -> (out: u8)
    ensures
        out == scaled_channel(c as int, percent as int),
{
    proof {
        lemma_scaled_channel_bounds(c as int, percent as int);
        assert(c as int * percent as int <= 255 * 255) by (nonlinear_arith)
            requires
                c <= 255,
                percent <= 255,
        ;
    }
    let scaled: u32 = (c as u32 * percent as u32) / 100;
    if scaled > 255 {
        255
    } else {
        scaled as u8
    }
}

/// Scales each channel of `rgb` to `brightness` percent of its value,
/// truncating the exact result.  At 100 percent the pixel is returned
/// unchanged; above 100 percent a channel saturates at 255.
pub fn set_brightness(rgb: [u8; 3], brightness: u8) -> (out: [u8; 3])
    ensures
        forall|i: int|
            0 <= i < 3 ==> out@[i] == scaled_channel(rgb@[i] as int, brightness as int) as u8,
        brightness == 100 ==> out@ == rgb@,
    {
    let out = [
        scale_one(rgb[0], brightness),
        scale_one(rgb[1], brightness),
        scale_one(rgb[2], brightness),
    ];
    proof {
        if brightness == 100 {
            lemma_scaled_channel_identity(rgb@[0] as int);
            lemma_scaled_channel_identity(rgb@[1] as int);
            lemma_scaled_channel_identity(rgb@[2] as int);
            assert(out@ =~= rgb@);
        }
    }
    out
}

/// One output channel of the HSV conversion.  `x` is the chromatic part and
/// `m` the achromatic offset, both in units of 1/600000 (saturation percent
/// times value percent times sixtieths of a sector); the result is the
/// channel scaled into 0..=255 and truncated.
pub open spec fn hsv_channel(x: int, m: int) -> int {
    ((x + m) * 255) / 600000
}

/// Standard HSV-to-RGB conversion over fixed-point inputs: hue in whole
/// degrees within [0, 360), saturation and value in whole percent within
/// [0, 100].  The hue falls into one of six 60-degree chroma sectors,
/// selected by explicit range comparisons; within a sector one channel
/// carries full chroma, one rises or falls linearly with the hue, and one
/// is zero, and every channel is lifted by the achromatic offset
/// `value - chroma` before scaling into 0..=255.
pub open spec fn hsv_rgb_spec(hue: int, s: int, v: int) -> (int, int, int) {
    let c = s * v * 60;
    let m = 60 * v * (100 - s);
    if hue < 60 {
        (hsv_channel(c, m), hsv_channel(s * v * hue, m), hsv_channel(0, m))
    } else if hue < 120 {
        (hsv_channel(s * v * (120 - hue), m), hsv_channel(c, m), hsv_channel(0, m))
    } else if hue < 180 {
        (hsv_channel(0, m), hsv_channel(c, m), hsv_channel(s * v * (hue - 120), m))
    } else if hue < 240 {
        (hsv_channel(0, m), hsv_channel(s * v * (240 - hue), m), hsv_channel(c, m))
    } else if hue < 300 {
        (hsv_channel(s * v * (hue - 240), m), hsv_channel(0, m), hsv_channel(c, m))
    } else {
        (hsv_channel(c, m), hsv_channel(0, m), hsv_channel(s * v * (360 - hue), m))
    }
}

proof fn lemma_sector_bounds(s: int, v: int, f: int)
    requires
        0 <= s <= 100,
        0 <= v <= 100,
        0 <= f <= 60,
    ensures
        0 <= s * v * f,
        s * v * f + 60 * v * (100 - s) <= 600000,
        0 <= 60 * v * (100 - s),
        s * v * 60 <= 600000,
{
    assert(s * v * f + 60 * v * (100 - s) <= 6000 * v) by (nonlinear_arith)
        requires
            0 <= s <= 100,
            0 <= v <= 100,
            0 <= f <= 60,
    ;
    assert(0 <= s * v * f && 0 <= 60 * v * (100 - s) && s * v * 60 <= 600000) by (nonlinear_arith)
        requires
            0 <= s <= 100,
            0 <= v <= 100,
            0 <= f <= 60,
    ;
}

/// The bounds of one converted channel: with `x + m` at most the full
/// budget of 600000 the truncated channel lies within 0..=255.
proof fn lemma_hsv_channel_bounds(x: int, m: int)
    requires
        0 <= x,
        0 <= m,
        x + m <= 600000,
    ensures
        0 <= hsv_channel(x, m) <= 255,
{
    lemma_div_is_ordered(0, (x + m) * 255, 600000);
    lemma_div_is_ordered((x + m) * 255, 153000000, 600000);
}

/// The bounds of every channel that the conversion yields.
pub proof fn lemma_hsv_rgb_bounds(hue: int, s: int, v: int)
    requires
        0 <= hue < 360,
        0 <= s <= 100,
        0 <= v <= 100,
    ensures
        ({
            let (r, g, b) = hsv_rgb_spec(hue, s, v);
            0 <= r <= 255 && 0 <= g <= 255 && 0 <= b <= 255
        }),
{
    let m = 60 * v * (100 - s);
    lemma_sector_bounds(s, v, 60);
    lemma_hsv_channel_bounds(s * v * 60, m);
    lemma_hsv_channel_bounds(0, m);
    if hue < 60 {
        lemma_sector_bounds(s, v, hue);
        lemma_hsv_channel_bounds(s * v * hue, m);
    } else if hue < 120 {
        lemma_sector_bounds(s, v, 120 - hue);
        lemma_hsv_channel_bounds(s * v * (120 - hue), m);
    } else if hue < 180 {
        lemma_sector_bounds(s, v, hue - 120);
        lemma_hsv_channel_bounds(s * v * (hue - 120), m);
    } else if hue < 240 {
        lemma_sector_bounds(s, v, 240 - hue);
        lemma_hsv_channel_bounds(s * v * (240 - hue), m);
    } else if hue < 300 {
        lemma_sector_bounds(s, v, hue - 240);
        lemma_hsv_channel_bounds(s * v * (hue - 240), m);
    } else {
        lemma_sector_bounds(s, v, 360 - hue);
        lemma_hsv_channel_bounds(s * v * (360 - hue), m);
    }
}

/// How many of a pixel's channels sit at the maximum value 255.
pub open spec fn peak_channels(rgb: (int, int, int)) -> int {
    (if rgb.0 == 255 {
        1int
    } else {
        0int
    }) + (if rgb.1 == 255 {
        1int
    } else {
        0int
    }) + (if rgb.2 == 255 {
        1int
    } else {
        0int
    })
}

proof fn lemma_full_channel_value(f: int)
    requires
        0 <= f <= 60,
    ensures
        f < 60 ==> hsv_channel(100 * 100 * f, 0) <= 250,
        f == 60 ==> hsv_channel(100 * 100 * f, 0) == 255,
{
    if f < 60 {
        assert((100 * 100 * f + 0) * 255 <= 150450000) by (nonlinear_arith)
            requires
                0 <= f < 60,
        ;
        lemma_div_is_ordered((100 * 100 * f + 0) * 255, 150450000, 600000);
        assert(150450000int / 600000 == 250);
    }
}

/// Law: at full saturation and value, every channel of the converted hue
/// lies within 0..=255 and exactly one channel sits at the maximum 255,
/// except at the hues 60, 180 and 300, where the sector's falling channel
/// is still at the maximum beside the new peak, so two channels are.
pub proof fn lemma_full_hsv_peak(hue: int)
    requires
        0 <= hue < 360,
    ensures
        ({
            let (r, g, b) = hsv_rgb_spec(hue, 100, 100);
            &&& 0 <= r <= 255 && 0 <= g <= 255 && 0 <= b <= 255
            &&& (if hue == 60 || hue == 180 || hue == 300 {
                peak_channels((r, g, b)) == 2
            } else {
                peak_channels((r, g, b)) == 1
            })
        }),
{
    lemma_hsv_rgb_bounds(hue, 100, 100);
    assert(hsv_channel(100int * 100 * 60, 60int * 100 * (100 - 100)) == 255);
    assert(hsv_channel(0, 60int * 100 * (100 - 100)) == 0);
    if hue < 60 {
        lemma_full_channel_value(hue);
    } else if hue < 120 {
        lemma_full_channel_value(120 - hue);
    } else if hue < 180 {
        lemma_full_channel_value(hue - 120);
    } else if hue < 240 {
        lemma_full_channel_value(240 - hue);
    } else if hue < 300 {
        lemma_full_channel_value(hue - 240);
    } else {
        lemma_full_channel_value(360 - hue);
    }
}

fn hsv_part(x: u32, m: u32) -> (out: u8)
    requires
        x + m <= 600000,
    ensures
        out == hsv_channel(x as int, m as int),
{
    proof {
        lemma_hsv_channel_bounds(x as int, m as int);
    }
    (((x + m) * 255) / 600000) as u8
}

/// Standard HSV-to-RGB conversion: hue in whole degrees within [0, 360)
/// (the caller normalizes 360 to 0 beforehand), saturation and value in
/// whole percent within [0, 100].  Channels are truncated, not rounded.
/// The sector is chosen by explicit range comparisons on the hue; no
/// modulo operation is involved.
pub fn hsv_to_rgb(hue: u16, saturation: u8, value: u8) -> (out: (u8, u8, u8))
    requires
        hue < 360,
        saturation <= 100,
        value <= 100,
    ensures
        (out.0 as int, out.1 as int, out.2 as int) == hsv_rgb_spec(
            hue as int,
            saturation as int,
            value as int,
        ),
{
    let s: u32 = saturation as u32;
    let v: u32 = value as u32;
    let h: u32 = hue as u32;
    proof {
        lemma_sector_bounds(s as int, v as int, 60);
        if h < 60 {
            lemma_sector_bounds(s as int, v as int, h as int);
        } else if h < 120 {
            lemma_sector_bounds(s as int, v as int, 120 - h as int);
        } else if h < 180 {
            lemma_sector_bounds(s as int, v as int, h as int - 120);
        } else if h < 240 {
            lemma_sector_bounds(s as int, v as int, 240 - h as int);
        } else if h < 300 {
            lemma_sector_bounds(s as int, v as int, h as int - 240);
        } else {
            lemma_sector_bounds(s as int, v as int, 360 - h as int);
        }
    }
    let c: u32 = s * v * 60;
    let m: u32 = 60 * v * (100 - s);
    if h < 60 {
        (hsv_part(c, m), hsv_part(s * v * h, m), hsv_part(0, m))
    } else if h < 120 {
        (hsv_part(s * v * (120 - h), m), hsv_part(c, m), hsv_part(0, m))
    } else if h < 180 {
        (hsv_part(0, m), hsv_part(c, m), hsv_part(s * v * (h - 120), m))
    } else if h < 240 {
        (hsv_part(0, m), hsv_part(s * v * (240 - h), m), hsv_part(c, m))
    } else if h < 300 {
        (hsv_part(s * v * (h - 240), m), hsv_part(0, m), hsv_part(c, m))
    } else {
        (hsv_part(c, m), hsv_part(0, m), hsv_part(s * v * (360 - h), m))
    }
}

} // verus!
