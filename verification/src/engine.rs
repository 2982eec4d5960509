//! The animation driver's state machine.
//!
//! The engine owns the phase counter and the per-run configuration.  Each
//! tick it yields the SPI byte stream of the next frame and advances the
//! phase by the pattern's step, wrapping at the pattern's period.  The
//! `Off` pattern yields exactly one all-dark frame and then stops: a
//! stopped engine yields nothing more.  Transmitting the bytes, waiting
//! out the frame interval and exiting the process stay with the caller.

use crate::color::Rgb;
use crate::color::black;
use crate::color::scaled_rgb;
use crate::encode::encode_frame;
use crate::encode::spi_frame_bytes;
use crate::pattern::ConfigError;
use crate::pattern::Pattern;
use crate::pattern::frame_spec;
use crate::pattern::generate_frame;
use crate::pattern::scale_frame;
use crate::pattern::wf_pattern;
use vstd::arithmetic::div_mod::lemma_mod_division_less_than_divisor;
use vstd::prelude::*;

verus! {

/// The number of ticks after which a pattern's animation repeats.  The
/// wipe cycles once over the whole strip, the breathe patterns over the
/// hue circle, the flash over its on/off cycle; the stateless patterns
/// repeat every tick.
pub open spec fn period_spec(p: Pattern, led_count: int) -> int {
    match p {
        Pattern::StaticColor(_c) => 1,
        Pattern::Off => 1,
        Pattern::Wipe(_colors) => if led_count >= 1 {
            led_count
        } else {
            1
        },
        Pattern::BreatheSynced(_rate) => 360,
        Pattern::BreatheOffset(_rate) => 360,
        Pattern::Flash(_c, on, off) => on + off,
    }
}

/// How far the phase advances each tick: the hue rate for the breathe
/// patterns, one step for every other pattern.
pub open spec fn step_spec(p: Pattern) -> int {
    match p {
        Pattern::BreatheSynced(rate) => rate as int,
        Pattern::BreatheOffset(rate) => rate as int,
        _ => 1,
    }
}

fn period(pattern: &Pattern, led_count: u32) -> (out: u64)
    requires
        wf_pattern(*pattern),
    ensures
        out as int == period_spec(*pattern, led_count as int),
        1 <= out <= 0x2_0000_0000,
{
    match pattern {
        Pattern::StaticColor(_c) => 1,
        Pattern::Off => 1,
        Pattern::Wipe(_colors) => if led_count >= 1 {
            led_count as u64
        } else {
            1
        },
        Pattern::BreatheSynced(_rate) => 360,
        Pattern::BreatheOffset(_rate) => 360,
        Pattern::Flash(_c, on, off) => *on as u64 + *off as u64,
    }
}

fn step(pattern: &Pattern) -> (out: u64)
    ensures
        out as int == step_spec(*pattern),
        out <= 0xffff,
{
    match pattern {
        Pattern::BreatheSynced(rate) => *rate as u64,
        Pattern::BreatheOffset(rate) => *rate as u64,
        _ => 1,
    }
}

/// The animation driver's state: the immutable per-run configuration and
/// the phase counter, which the driver alone advances, once per tick.
#[derive(Debug)]
pub struct Engine {
    /// The selected pattern.
    pub pattern: Pattern,
    /// How many LEDs the strip has; the length of every frame.
    pub led_count: u32,
    /// The brightness every emitted frame is scaled to, in percent.
    pub brightness: u8,
    /// The animation's clock: how many steps the pattern has advanced,
    /// kept below the pattern's period by wraparound.
    pub phase: u64,
    /// Whether the engine still emits frames.  Only the `Off` pattern
    /// ever clears this, after its single frame.
    pub running: bool,
}

impl Engine {
    /// The engine's invariant: the pattern is well formed, the brightness
    /// is a percentage, and the phase has been wrapped into the pattern's
    /// period.
    pub open spec fn inv(self) -> bool {
        &&& wf_pattern(self.pattern)
        &&& self.brightness <= 100
        &&& 0 <= self.phase < period_spec(self.pattern, self.led_count as int)
    }

    /// The SPI byte stream the engine emits at its current state: the
    /// pattern's frame at the current phase, scaled to the configured
    /// brightness, encoded pixel by pixel.
    pub open spec fn tick_bytes(self) -> Seq<u8> {
        spi_frame_bytes(
            frame_spec(self.pattern, self.phase as int, self.led_count as int).map_values(
                |c: Rgb| scaled_rgb(c, self.brightness as int),
            ),
        )
    }

    /// Builds an engine at phase zero, rejecting invalid configuration:
    /// a brightness above 100 percent, a wipe without colours, a flash
    /// without ticks.  Every accepted engine satisfies the invariant.
    pub fn new(pattern: Pattern, led_count: u32, brightness: u8) -> (out: Result<
        Engine,
        ConfigError,
    >)
        ensures
            brightness > 100 ==> out == Err::<Engine, ConfigError>(
                ConfigError::BrightnessOutOfRange,
            ),
            brightness <= 100 && (pattern matches Pattern::Wipe(cs) && cs@.len() == 0) ==> out
                == Err::<Engine, ConfigError>(ConfigError::EmptyWipeColors),
            brightness <= 100 && (pattern matches Pattern::Flash(_c, on, off) && on + off == 0)
                ==> out == Err::<Engine, ConfigError>(ConfigError::ZeroFlashPeriod),
            brightness <= 100 && wf_pattern(pattern) ==> (out matches Ok(e) && e == (Engine {
                pattern,
                led_count,
                brightness,
                phase: 0u64,
                running: true,
            }) && e.inv()),
    {
        if brightness > 100 {
            return Err(ConfigError::BrightnessOutOfRange);
        }
        match &pattern {
            Pattern::Wipe(colors) => if colors.len() == 0 {
                return Err(ConfigError::EmptyWipeColors);
            },
            Pattern::Flash(_c, on, off) => if *on == 0 && *off == 0 {
                return Err(ConfigError::ZeroFlashPeriod);
            },
            _ => (),
        }
        Ok(Engine { pattern, led_count, brightness, phase: 0, running: true })
    }

    /// One tick of the driver's loop.  A running engine yields the byte
    /// stream of its current frame; then, for the `Off` pattern, it stops,
    /// and for every other pattern it advances the phase by the pattern's
    /// step, wrapping at the pattern's period.  A stopped engine yields
    /// nothing and does not change, so no frame follows the off frame.
    pub fn tick(&mut self) -> (out: Option<Vec<u8>>)
        requires
            old(self).inv(),
        ensures
            final(self).inv(),
            final(self).pattern == old(self).pattern,
            final(self).led_count == old(self).led_count,
            final(self).brightness == old(self).brightness,
            final(self).running ==> old(self).running,
            !old(self).running ==> out is None && *final(self) == *old(self),
            old(self).running ==> (out matches Some(bytes) && bytes@ == old(self).tick_bytes()),
            old(self).running ==> (final(self).running <==> !(old(self).pattern is Off)),
            old(self).running && !(old(self).pattern is Off) ==> final(self).phase as int == (old(
                self,
            ).phase + step_spec(old(self).pattern)) % period_spec(
                old(self).pattern,
                old(self).led_count as int,
            ),
            old(self).running && old(self).pattern is Off ==> final(self).phase == old(self).phase,
    {
        if !self.running {
            return None;
        }
        let frame = generate_frame(&self.pattern, self.phase, self.led_count);
        let scaled = scale_frame(&frame, self.brightness);
        let bytes = encode_frame(&scaled);
        match &self.pattern {
            Pattern::Off => {
                self.running = false;
            },
            _ => {
                let per = period(&self.pattern, self.led_count);
                let st = step(&self.pattern);
                proof {
                    lemma_mod_division_less_than_divisor(
                        self.phase + st as int,
                        per as int,
                    );
                }
                self.phase = (self.phase + st) % per;
            },
        }
        Some(bytes)
    }
}

/// Law: the single frame of an off engine is entirely dark; its byte
/// stream is that of the all-black frame of the strip's length.
pub proof fn lemma_off_tick_dark(e: Engine)
    requires
        e.pattern is Off,
    ensures
        e.tick_bytes() == spi_frame_bytes(Seq::new(e.led_count as nat, |i: int| black())),
{
    assert forall|c: Rgb| c == black() implies scaled_rgb(c, e.brightness as int) == black() by {
        assert(0 * e.brightness as int == 0);
        assert(0int / 100 == 0);
    }
    assert(frame_spec(e.pattern, e.phase as int, e.led_count as int).map_values(
        |c: Rgb| scaled_rgb(c, e.brightness as int),
    ) =~= Seq::new(e.led_count as nat, |i: int| black()));
}

} // verus!
