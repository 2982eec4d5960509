//! The patterns and the frame generator.
//!
//! A pattern is one of a closed set of animation algorithms; the frame
//! generator maps a pattern, a phase counter and an LED count to one frame,
//! an ordered sequence of pixels with one entry per LED.  Generation is a
//! pure function of its three arguments.

use crate::color::Rgb;
use crate::color::black;
use crate::color::hsv_rgb_spec;
use crate::color::hsv_to_rgb;
use crate::color::lemma_hsv_rgb_bounds;
use crate::color::scaled_rgb;
use crate::color::set_brightness;
use vstd::arithmetic::div_mod::lemma_add_mod_noop;
use vstd::arithmetic::div_mod::lemma_div_by_multiple;
use vstd::arithmetic::div_mod::lemma_fundamental_div_mod;
use vstd::arithmetic::div_mod::lemma_fundamental_div_mod_converse_mod;
use vstd::arithmetic::div_mod::lemma_multiply_divide_lt;
use vstd::arithmetic::div_mod::lemma_small_mod;
use vstd::prelude::*;

verus! {

/// One animation algorithm with the parameters it owns.
///
/// The phase counter means something different to each variant: a pixel
/// offset for `Wipe`, a hue in degrees for the two breathe patterns, a
/// tick count for `Flash`, nothing for the stateless variants.
#[derive(Debug)]
pub enum Pattern {
    /// Every pixel holds the one colour.
    StaticColor(Rgb),
    /// Every pixel is dark; the driver stops after one frame.
    Off,
    /// The colour list repeated along the strip, shifted by the phase.
    Wipe(Vec<Rgb>),
    /// All pixels share one hue, which advances by the rate each tick.
    BreatheSynced(u16),
    /// As `BreatheSynced`, but each pixel's hue is offset by its share of
    /// the full circle.
    BreatheOffset(u16),
    /// The colour for `on` ticks, darkness for `off` ticks, repeated.
    Flash(Rgb, u32, u32),
}

/// What pattern construction enforces: a wipe has at least one colour and
/// a flash has at least one tick in its cycle.
pub open spec fn wf_pattern(p: Pattern) -> bool {
    match p {
        Pattern::Wipe(colors) => colors@.len() >= 1,
        Pattern::Flash(_c, on, off) => on + off >= 1,
        _ => true,
    }
}

/// The pixel of a full-saturation, full-value hue.
pub open spec fn rgb_of_hue(h: int) -> Rgb {
    let (r, g, b) = hsv_rgb_spec(h, 100, 100);
    Rgb { r: r as u8, g: g as u8, b: b as u8 }
}

/// The hue of pixel `i` in an offset-breathe frame: the shared phase plus
/// the pixel's share of the full circle, truncated to whole degrees.
pub open spec fn breathe_offset_hue(phase: int, led_count: int, i: int) -> int {
    (phase + (i * 360) / led_count) % 360
}

/// Pixel `i` of the frame that `p` shows at `phase` on a strip of
/// `led_count` LEDs.
pub open spec fn pixel_at(p: Pattern, phase: int, led_count: int, i: int) -> Rgb {
    match p {
        Pattern::StaticColor(c) => c,
        Pattern::Off => black(),
        Pattern::Wipe(colors) => colors@[(i + phase) % (colors@.len() as int)],
        Pattern::BreatheSynced(_rate) => rgb_of_hue(phase % 360),
        Pattern::BreatheOffset(_rate) => rgb_of_hue(breathe_offset_hue(phase, led_count, i)),
        Pattern::Flash(c, on, off) => if phase % (on + off) < on {
            c
        } else {
            black()
        },
    }
}

/// The whole frame that `p` shows at `phase`: one pixel per LED, in strip
/// order.
pub open spec fn frame_spec(p: Pattern, phase: int, led_count: int) -> Seq<Rgb> {
    Seq::new(led_count as nat, |i: int| pixel_at(p, phase, led_count, i))
}

/// Law: a synced-breathe frame is uniform: any two pixels of one frame
/// are equal.
pub proof fn lemma_breathe_synced_uniform(rate: u16, phase: int, led_count: int, i: int, j: int)
    requires
        0 <= i < led_count,
        0 <= j < led_count,
    ensures
        frame_spec(Pattern::BreatheSynced(rate), phase, led_count)[i] == frame_spec(
            Pattern::BreatheSynced(rate),
            phase,
            led_count,
        )[j],
{
}

/// Law: when the LED count divides 360 evenly, the hues of an
/// offset-breathe frame are evenly spaced: pixel `i` sits `i` times
/// `360 / led_count` degrees past the shared phase.
pub proof fn lemma_breathe_offset_even_spacing(phase: int, led_count: int, i: int)
    requires
        1 <= led_count,
        0 <= i,
        360int % led_count == 0,
    ensures
        breathe_offset_hue(phase, led_count, i) == (phase + i * (360int / led_count)) % 360,
{
    let q = 360int / led_count;
    lemma_fundamental_div_mod(360int, led_count);
    assert(i * 360 == (i * q) * led_count) by (nonlinear_arith)
        requires
            360 == led_count * q,
    ;
    assert(0 <= i * q) by (nonlinear_arith)
        requires
            0 <= i,
            0 <= q,
    ;
    lemma_div_by_multiple(i * q, led_count);
}

/// Law: every pixel of an off frame is dark.
pub proof fn lemma_off_frame_dark(phase: int, led_count: int, i: int)
    requires
        0 <= i < led_count,
    ensures
        frame_spec(Pattern::Off, phase, led_count)[i] == black(),
{
}

fn fill(c: Rgb, led_count: u32) -> (out: Vec<Rgb>)
    ensures
        out@.len() == led_count,
        forall|k: int| 0 <= k < led_count ==> out@[k] == c,
{
    let mut out: Vec<Rgb> = Vec::new();
    for i in 0..led_count
        invariant
            out@.len() == i,
            forall|k: int| 0 <= k < i ==> out@[k] == c,
    {
        out.push(c);
    }
    out
}

/// Generates the frame that `pattern` shows at `phase` on a strip of
/// `led_count` LEDs.  Pure: the result is a function of the three
/// arguments alone, and the phase is not changed.  An LED count of zero
/// yields the empty frame.
pub fn generate_frame(pattern: &Pattern, phase: u64, led_count: u32) -> (frame: Vec<Rgb>)
    requires
        wf_pattern(*pattern),
    ensures
        frame@ == frame_spec(*pattern, phase as int, led_count as int),
{
    let ghost gphase = phase as int;
    let ghost gled = led_count as int;
    let frame: Vec<Rgb> = match pattern {
        Pattern::StaticColor(c) => {
            let out = fill(*c, led_count);
            proof {
                assert(out@ =~= frame_spec(*pattern, gphase, gled));
            }
            out
        },
        Pattern::Off => {
            let out = fill(Rgb { r: 0, g: 0, b: 0 }, led_count);
            proof {
                assert(out@ =~= frame_spec(*pattern, gphase, gled));
            }
            out
        },
        Pattern::Wipe(colors) => {
            let len: usize = colors.len();
            let ph: usize = (phase % (len as u64)) as usize;
            let mut out: Vec<Rgb> = Vec::new();
            for i in 0..led_count
                invariant
                    pattern is Wipe,
                    colors == pattern->Wipe_0,
                    len == colors@.len(),
                    len >= 1,
                    ph == gphase % (len as int),
                    gphase == phase as int,
                    out@.len() == i,
                    forall|k: int| 0 <= k < i ==> out@[k] == pixel_at(*pattern, gphase, gled, k),
            {
                let im: usize = (i as usize) % len;
                let idx: usize = if im >= len - ph {
                    im - (len - ph)
                } else {
                    im + ph
                };
                proof {
                    if im >= len - ph {
                        lemma_fundamental_div_mod_converse_mod(
                            im + ph,
                            len as int,
                            1,
                            idx as int,
                        );
                    } else {
                        lemma_small_mod((im + ph) as nat, len as nat);
                    }
                    lemma_add_mod_noop(i as int, gphase, len as int);
                }
                out.push(colors[idx]);
            }
            proof {
                assert(out@ =~= frame_spec(*pattern, gphase, gled));
            }
            out
        },
        Pattern::BreatheSynced(_rate) => {
            let hue: u16 = (phase % 360) as u16;
            let (r, g, b) = hsv_to_rgb(hue, 100, 100);
            proof {
                lemma_hsv_rgb_bounds(hue as int, 100, 100);
            }
            let out = fill(Rgb { r, g, b }, led_count);
            proof {
                assert(out@ =~= frame_spec(*pattern, gphase, gled));
            }
            out
        },
        Pattern::BreatheOffset(_rate) => {
            let ph0: u64 = phase % 360;
            let mut out: Vec<Rgb> = Vec::new();
            for i in 0..led_count
                invariant
                    pattern is BreatheOffset,
                    ph0 == gphase % 360,
                    gphase == phase as int,
                    gled == led_count as int,
                    out@.len() == i,
                    forall|k: int| 0 <= k < i ==> out@[k] == pixel_at(*pattern, gphase, gled, k),
            {
                let off: u64 = (i as u64 * 360) / (led_count as u64);
                proof {
                    lemma_multiply_divide_lt(i as int * 360, led_count as int, 360);
                    lemma_small_mod(off as nat, 360);
                    lemma_add_mod_noop(off as int, gphase, 360);
                }
                let hue: u16 = ((off + ph0) % 360) as u16;
                let (r, g, b) = hsv_to_rgb(hue, 100, 100);
                proof {
                    lemma_hsv_rgb_bounds(hue as int, 100, 100);
                    assert(hue as int == breathe_offset_hue(gphase, gled, i as int));
                }
                out.push(Rgb { r, g, b });
            }
            proof {
                assert(out@ =~= frame_spec(*pattern, gphase, gled));
            }
            out
        },
        Pattern::Flash(c, on, off) => {
            let period: u64 = *on as u64 + *off as u64;
            let ph: u64 = phase % period;
            let out = if ph < *on as u64 {
                fill(*c, led_count)
            } else {
                fill(Rgb { r: 0, g: 0, b: 0 }, led_count)
            };
            proof {
                assert(out@ =~= frame_spec(*pattern, gphase, gled));
            }
            out
        },
    };
    frame
}

/// Scales every pixel of a frame to `percent` of its value, channel by
/// channel, truncating as `set_brightness` does.
pub fn scale_frame(frame: &Vec<Rgb>, percent: u8) -> (out: Vec<Rgb>)
    ensures
        out@ == frame@.map_values(|c: Rgb| scaled_rgb(c, percent as int)),
{
    let mut out: Vec<Rgb> = Vec::new();
    let n = frame.len();
    for i in 0..n
        invariant
            n == frame@.len(),
            out@.len() == i,
            forall|k: int| 0 <= k < i ==> out@[k] == scaled_rgb(frame@[k], percent as int),
    {
        let px = &frame[i];
        let scaled = set_brightness([px.r, px.g, px.b], percent);
        let spx = Rgb { r: scaled[0], g: scaled[1], b: scaled[2] };
        proof {
            assert(spx == scaled_rgb(frame@[i as int], percent as int));
        }
        out.push(spx);
    }
    proof {
        assert(out@ =~= frame@.map_values(|c: Rgb| scaled_rgb(c, percent as int)));
    }
    out
}

/// Why a configuration was rejected before the animation started.
#[derive(Clone, Copy, PartialEq, Eq, Structural, Debug)]
pub enum ConfigError {
    /// The pattern name is not one of the known settings.
    UnknownPattern,
    /// A wipe needs at least one colour in its list.
    EmptyWipeColors,
    /// A flash needs at least one tick in its on/off cycle.
    ZeroFlashPeriod,
    /// Brightness is a percentage and cannot exceed 100.
    BrightnessOutOfRange,
}

impl ConfigError {
    /// A short description of the error, for reporting before the run
    /// starts.
    pub fn message(&self) -> (out: &'static str)
        ensures
            *self is UnknownPattern ==> out@ == "unrecognized pattern name"@,
            *self is EmptyWipeColors ==> out@ == "a wipe pattern needs at least one colour"@,
            *self is ZeroFlashPeriod ==> out@ == "a flash pattern needs at least one tick"@,
            *self is BrightnessOutOfRange ==> out@ == "brightness must lie within 0..=100"@,
    {
        match self {
            ConfigError::UnknownPattern => "unrecognized pattern name",
            ConfigError::EmptyWipeColors => "a wipe pattern needs at least one colour",
            ConfigError::ZeroFlashPeriod => "a flash pattern needs at least one tick",
            ConfigError::BrightnessOutOfRange => "brightness must lie within 0..=100",
        }
    }
}

/// The colour list of the `trans` wipe: light blue, pink, white.
pub open spec fn trans_flag_colors() -> Seq<Rgb> {
    seq![
        Rgb { r: 91, g: 206, b: 250 },
        Rgb { r: 245, g: 169, b: 184 },
        Rgb { r: 255, g: 255, b: 255 },
    ]
}

/// The colour list of the `trans2` wipe: the flag mirrored around white.
pub open spec fn trans_flag_colors_mirrored() -> Seq<Rgb> {
    seq![
        Rgb { r: 91, g: 206, b: 250 },
        Rgb { r: 245, g: 169, b: 184 },
        Rgb { r: 255, g: 255, b: 255 },
        Rgb { r: 245, g: 169, b: 184 },
        Rgb { r: 91, g: 206, b: 250 },
    ]
}

fn trans_colors_vec() -> (out: Vec<Rgb>)
    ensures
        out@ == trans_flag_colors(),
{
    let mut out: Vec<Rgb> = Vec::new();
    out.push(Rgb { r: 91, g: 206, b: 250 });
    out.push(Rgb { r: 245, g: 169, b: 184 });
    out.push(Rgb { r: 255, g: 255, b: 255 });
    proof {
        assert(out@ =~= trans_flag_colors());
    }
    out
}

fn trans_colors_mirrored_vec() -> (out: Vec<Rgb>)
    ensures
        out@ == trans_flag_colors_mirrored(),
{
    let mut out: Vec<Rgb> = Vec::new();
    out.push(Rgb { r: 91, g: 206, b: 250 });
    out.push(Rgb { r: 245, g: 169, b: 184 });
    out.push(Rgb { r: 255, g: 255, b: 255 });
    out.push(Rgb { r: 245, g: 169, b: 184 });
    out.push(Rgb { r: 91, g: 206, b: 250 });
    proof {
        assert(out@ =~= trans_flag_colors_mirrored());
    }
    out
}

/// Maps a setting name to its pattern.  The known names are `trans`,
/// `trans2`, `breathe`, `breathe2`, `flash`, `warm` and `off`; any other
/// name is a configuration error, not a silent fallback.
pub fn parse_pattern(name: &String) -> (out: Result<Pattern, ConfigError>)
    ensures
        name@ == "trans"@ ==> (out matches Ok(p) && p matches Pattern::Wipe(cs) && cs@
            == trans_flag_colors()),
        name@ == "trans2"@ ==> (out matches Ok(p) && p matches Pattern::Wipe(cs) && cs@
            == trans_flag_colors_mirrored()),
        name@ == "breathe"@ ==> out == Ok::<Pattern, ConfigError>(Pattern::BreatheSynced(1u16)),
        name@ == "breathe2"@ ==> out == Ok::<Pattern, ConfigError>(Pattern::BreatheOffset(1u16)),
        name@ == "flash"@ ==> out == Ok::<Pattern, ConfigError>(
            Pattern::Flash(Rgb { r: 255, g: 0, b: 0 }, 10u32, 10u32),
        ),
        name@ == "warm"@ ==> out == Ok::<Pattern, ConfigError>(
            Pattern::StaticColor(Rgb { r: 255, g: 182, b: 78 }),
        ),
        name@ == "off"@ ==> out == Ok::<Pattern, ConfigError>(Pattern::Off),
        (name@ != "trans"@ && name@ != "trans2"@ && name@ != "breathe"@ && name@ != "breathe2"@
            && name@ != "flash"@ && name@ != "warm"@ && name@ != "off"@) ==> out == Err::<
            Pattern,
            ConfigError,
        >(ConfigError::UnknownPattern),
        out matches Ok(p) ==> wf_pattern(p),
{
    proof {
        reveal_strlit("trans");
        reveal_strlit("trans2");
        reveal_strlit("breathe");
        reveal_strlit("breathe2");
        reveal_strlit("flash");
        reveal_strlit("warm");
        reveal_strlit("off");
        assert("trans"@.len() == 5 && "trans2"@.len() == 6 && "flash"@.len() == 5);
        assert("breathe"@.len() == 7 && "breathe2"@.len() == 8);
        assert("warm"@.len() == 4 && "off"@.len() == 3);
        assert("trans"@[0] == 't' && "flash"@[0] == 'f');
    }
    let n_trans: String = "trans".to_owned();
    let n_trans2: String = "trans2".to_owned();
    let n_breathe: String = "breathe".to_owned();
    let n_breathe2: String = "breathe2".to_owned();
    let n_flash: String = "flash".to_owned();
    let n_warm: String = "warm".to_owned();
    let n_off: String = "off".to_owned();
    if *name == n_trans {
        Ok(Pattern::Wipe(trans_colors_vec()))
    } else if *name == n_trans2 {
        Ok(Pattern::Wipe(trans_colors_mirrored_vec()))
    } else if *name == n_breathe {
        Ok(Pattern::BreatheSynced(1))
    } else if *name == n_breathe2 {
        Ok(Pattern::BreatheOffset(1))
    } else if *name == n_flash {
        Ok(Pattern::Flash(Rgb { r: 255, g: 0, b: 0 }, 10, 10))
    } else if *name == n_warm {
        Ok(Pattern::StaticColor(Rgb { r: 255, g: 182, b: 78 }))
    } else if *name == n_off {
        Ok(Pattern::Off)
    } else {
        Err(ConfigError::UnknownPattern)
    }
}

} // verus!
