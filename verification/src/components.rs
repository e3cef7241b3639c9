//! The user-facing effect configuration.
//!
//! These records are owned and edited by the host application, read once per
//! frame by the extraction stage, and never touched by the GPU-side stages
//! other than through the extracted snapshot.

use vstd::prelude::*;
use crate::math::{Color, Mat3, color_red, color_green, color_blue, color_white, vec3_of_color};
use crate::math::{BITS_ONE, BITS_ZERO};

verus! {

/// Bit pattern of the single-precision float 0.9, the default bloom threshold.
pub const BITS_DEFAULT_THRESHOLD: u32 = 0x3F66_6666;

/// Bit pattern of the single-precision float 0.7, the default bloom scatter.
pub const BITS_DEFAULT_SCATTER: u32 = 0x3F33_3333;

/// Bit pattern of the single-precision float 65472.0, the default bloom clamp.
pub const BITS_DEFAULT_CLAMP: u32 = 0x477F_C000;

/// Bloom parameters. Each scalar is a single-precision float bit pattern.
#[derive(Clone, Copy, Debug, PartialEq, Eq, Structural)]
pub struct Bloom {
    pub threshold: u32,
    pub intensity: u32,
    pub scatter: u32,
    pub tint: Color,
    pub clamp: u32,
}

/// The default bloom: threshold 0.9, intensity 0.0, scatter 0.7, white tint,
/// clamp 65472.0.
pub open spec fn default_bloom() -> Bloom {
    Bloom {
        threshold: BITS_DEFAULT_THRESHOLD,
        intensity: BITS_ZERO,
        scatter: BITS_DEFAULT_SCATTER,
        tint: color_white(),
        clamp: BITS_DEFAULT_CLAMP,
    }
}

impl Default for Bloom {
    fn default() -> (b: Bloom)
        ensures
            b == default_bloom(),
    {
        Bloom {
            threshold: BITS_DEFAULT_THRESHOLD,
            intensity: BITS_ZERO,
            scatter: BITS_DEFAULT_SCATTER,
            tint: Color { red: BITS_ONE, green: BITS_ONE, blue: BITS_ONE, alpha: BITS_ONE },
            clamp: BITS_DEFAULT_CLAMP,
        }
    }
}

/// The three color vectors the channel-mix matrix is derived from.
#[derive(Clone, Copy, Debug, PartialEq, Eq, Structural)]
pub struct ChannelMixing {
    pub red: Color,
    pub blue: Color,
    pub green: Color,
}

impl ChannelMixing {
    /// The red mixing vector.
    pub fn red(&self) -> (c: Color)
        ensures
            c == self.red,
    {
        self.red.clone()
    }

    /// The blue mixing vector.
    pub fn blue(&self) -> (c: Color)
        ensures
            c == self.blue,
    {
        self.blue.clone()
    }

    /// The green mixing vector.
    pub fn green(&self) -> (c: Color)
        ensures
            c == self.green,
    {
        self.green.clone()
    }

    /// Mutable access to the red mixing vector.
    pub fn red_mut(&mut self) -> (c: &mut Color)
        ensures
            *c == old(self).red,
            final(self).red == *final(c),
            final(self).blue == old(self).blue,
            final(self).green == old(self).green,
    {
        &mut self.red
    }

    /// Mutable access to the blue mixing vector.
    pub fn blue_mut(&mut self) -> (c: &mut Color)
        ensures
            *c == old(self).blue,
            final(self).blue == *final(c),
            final(self).red == old(self).red,
            final(self).green == old(self).green,
    {
        &mut self.blue
    }

    /// Mutable access to the green mixing vector.
    pub fn green_mut(&mut self) -> (c: &mut Color)
        ensures
            *c == old(self).green,
            final(self).green == *final(c),
            final(self).red == old(self).red,
            final(self).blue == old(self).blue,
    {
        &mut self.green
    }
}

/// The default channel mixing: the identity mix (red, blue and green vectors
/// are the pure primaries).
pub open spec fn default_channel_mixing() -> ChannelMixing {
    ChannelMixing { red: color_red(), blue: color_blue(), green: color_green() }
}

impl Default for ChannelMixing {
    fn default() -> (m: ChannelMixing)
        ensures
            m == default_channel_mixing(),
    {
        ChannelMixing {
            red: Color { red: BITS_ONE, green: BITS_ZERO, blue: BITS_ZERO, alpha: BITS_ONE },
            blue: Color { red: BITS_ZERO, green: BITS_ZERO, blue: BITS_ONE, alpha: BITS_ONE },
            green: Color { red: BITS_ZERO, green: BITS_ONE, blue: BITS_ZERO, alpha: BITS_ONE },
        }
    }
}

/// The channel-mix matrix of a mixing record: one row per mixing vector, in
/// the order red, blue, green, each truncated to its RGB components.
pub open spec fn mat3_of_channel_mixing(value: ChannelMixing) -> Mat3 {
    Mat3 {
        row0: vec3_of_color(value.red),
        row1: vec3_of_color(value.blue),
        row2: vec3_of_color(value.green),
    }
}

impl From<ChannelMixing> for Mat3 {
    /// Rows are the red, blue and green mixing vectors, truncated to RGB.
    fn from(value: ChannelMixing) -> (m: Mat3)
        ensures
            m == mat3_of_channel_mixing(value),
    {
        Mat3 {
            row0: crate::math::Vec3::of_color(&value.red),
            row1: crate::math::Vec3::of_color(&value.blue),
            row2: crate::math::Vec3::of_color(&value.green),
        }
    }
}

impl vstd::std_specs::convert::FromSpecImpl<ChannelMixing> for Mat3 {
    open spec fn obeys_from_spec() -> bool {
        true
    }

    open spec fn from_spec(v: ChannelMixing) -> Mat3 {
        mat3_of_channel_mixing(v)
    }
}

/// Marker for the standard tonemapping curve.
#[derive(Clone, Copy, Debug, PartialEq, Eq, Structural)]
pub struct NormalTonemapping;

/// Marker for the ACES filmic tonemapping curve.
#[derive(Clone, Copy, Debug, PartialEq, Eq, Structural)]
pub struct ACESTonemapping;

/// The selected tonemapping curve, if any.
#[derive(Clone, Copy, Debug, PartialEq, Eq, Structural)]
pub enum Tonemapping {
    Off,
    Normal,
    Aces,
}

/// Everything the host configures about the pass: bloom, channel mixing, and
/// the tonemapping choice, with an explicit enable toggle per optional effect.
#[derive(Clone, Copy, Debug, PartialEq, Eq, Structural)]
pub struct EffectConfiguration {
    pub bloom_enabled: bool,
    pub bloom: Bloom,
    pub channel_mixing_enabled: bool,
    pub channel_mixing: ChannelMixing,
    pub tonemapping: Tonemapping,
}

/// The default configuration: both optional effects off, no tonemapping,
/// default parameter blocks.
pub open spec fn default_effect_configuration() -> EffectConfiguration {
    EffectConfiguration {
        bloom_enabled: false,
        bloom: default_bloom(),
        channel_mixing_enabled: false,
        channel_mixing: default_channel_mixing(),
        tonemapping: Tonemapping::Off,
    }
}

impl Default for EffectConfiguration {
    fn default() -> (c: EffectConfiguration)
        ensures
            c == default_effect_configuration(),
    {
        EffectConfiguration {
            bloom_enabled: false,
            bloom: Bloom::default(),
            channel_mixing_enabled: false,
            channel_mixing: ChannelMixing::default(),
            tonemapping: Tonemapping::Off,
        }
    }
}

} // verus!
