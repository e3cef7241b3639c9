//! The GPU-side uniform block: flags plus per-effect parameter blocks, and its
//! packing into the fixed std140-style word layout the shader reads.
//!
//! The packed layout, as 4-byte words (28 words, 112 bytes):
//! word 0 flags, words 1-3 padding; words 4-6 bloom threshold/intensity/
//! scatter, word 7 padding, words 8-11 bloom tint, word 12 bloom clamp,
//! words 13-15 padding; then the channel-mix matrix as three padded 4-word
//! rows (words 16-18, 20-22, 24-26, with words 19, 23, 27 padding).

use vstd::prelude::*;
use crate::components::{Bloom, ChannelMixing, EffectConfiguration, Tonemapping, mat3_of_channel_mixing};
use crate::math::{Mat3, Vec4, vec4_of_color};

verus! {

/// Flags-word bit marking bloom as active.
pub const FLAG_BLOOM: u32 = 1;

/// Flags-word bit selecting the standard tonemapping curve.
pub const FLAG_NORMAL_TONEMAPPING: u32 = 2;

/// Flags-word bit selecting the ACES tonemapping curve.
pub const FLAG_ACES_TONEMAPPING: u32 = 4;

/// Flags-word bit marking channel mixing as active.
pub const FLAG_CHANNEL_MIXING: u32 = 8;

/// Size of the packed uniform block in 4-byte words.
pub const PACKED_BLOCK_WORDS: usize = 28;

/// Size of the packed uniform block in bytes.
pub const PACKED_BLOCK_BYTES: u64 = 112;

/// The bloom parameter block as the shader sees it.
#[derive(Clone, Copy, Debug, PartialEq, Eq, Structural)]
pub struct UberBloom {
    pub threshold: u32,
    pub intensity: u32,
    pub scatter: u32,
    pub tint: Vec4,
    pub clamp: u32,
}

/// The bloom block carrying the configuration's scalars unchanged and the
/// tint widened to a four-component vector.
pub open spec fn uber_bloom_of(value: Bloom) -> UberBloom {
    UberBloom {
        threshold: value.threshold,
        intensity: value.intensity,
        scatter: value.scatter,
        tint: vec4_of_color(value.tint),
        clamp: value.clamp,
    }
}

impl From<Bloom> for UberBloom {
    /// Carries every scalar over unchanged; the tint becomes a `Vec4`.
    fn from(value: Bloom) -> (b: UberBloom)
        ensures
            b == uber_bloom_of(value),
    {
        UberBloom {
            threshold: value.threshold,
            intensity: value.intensity,
            scatter: value.scatter,
            tint: Vec4::from(value.tint),
            clamp: value.clamp,
        }
    }
}

impl vstd::std_specs::convert::FromSpecImpl<Bloom> for UberBloom {
    open spec fn obeys_from_spec() -> bool {
        true
    }

    open spec fn from_spec(v: Bloom) -> UberBloom {
        uber_bloom_of(v)
    }
}

/// The channel-mix block as the shader sees it: the derived 3x3 matrix.
#[derive(Clone, Copy, Debug, PartialEq, Eq, Structural)]
pub struct UberChannelMixing {
    pub matrix: Mat3,
}

impl From<ChannelMixing> for UberChannelMixing {
    /// The block holds the matrix derived from the three mixing vectors.
    fn from(value: ChannelMixing) -> (m: UberChannelMixing)
        ensures
            m.matrix == mat3_of_channel_mixing(value),
    {
        UberChannelMixing { matrix: Mat3::from(value) }
    }
}

impl vstd::std_specs::convert::FromSpecImpl<ChannelMixing> for UberChannelMixing {
    open spec fn obeys_from_spec() -> bool {
        true
    }

    open spec fn from_spec(v: ChannelMixing) -> UberChannelMixing {
        UberChannelMixing { matrix: mat3_of_channel_mixing(v) }
    }
}

/// The whole uniform block in structured form: the flags word and the two
/// effect parameter blocks.
#[derive(Clone, Copy, Debug, PartialEq, Eq, Structural)]
pub struct UberUniform {
    pub flags: u32,
    pub bloom: UberBloom,
    pub channel_mixing: UberChannelMixing,
}

/// The flags word of a configuration: bit 0 when bloom is enabled, bit 1 for
/// the standard tonemapping curve, bit 2 for ACES, bit 3 when channel mixing
/// is enabled.
pub open spec fn spec_flags_of(c: EffectConfiguration) -> u32 {
    (if c.bloom_enabled { FLAG_BLOOM } else { 0u32 })
    | (match c.tonemapping {
        Tonemapping::Off => 0u32,
        Tonemapping::Normal => FLAG_NORMAL_TONEMAPPING,
        Tonemapping::Aces => FLAG_ACES_TONEMAPPING,
    })
    | (if c.channel_mixing_enabled { FLAG_CHANNEL_MIXING } else { 0u32 })
}

/// The uniform block a configuration maps to.
pub open spec fn uniform_of(c: EffectConfiguration) -> UberUniform {
    UberUniform {
        flags: spec_flags_of(c),
        bloom: uber_bloom_of(c.bloom),
        channel_mixing: UberChannelMixing { matrix: mat3_of_channel_mixing(c.channel_mixing) },
    }
}

impl UberUniform {
    /// Builds the uniform block for a configuration, with the flags word set
    /// per active effect.
    pub fn of_configuration(c: &EffectConfiguration) -> (u: UberUniform)
        ensures
            u == uniform_of(*c),
    {
        let flags: u32 =
            (if c.bloom_enabled { FLAG_BLOOM } else { 0u32 })
            | (match c.tonemapping {
                Tonemapping::Off => 0u32,
                Tonemapping::Normal => FLAG_NORMAL_TONEMAPPING,
                Tonemapping::Aces => FLAG_ACES_TONEMAPPING,
            })
            | (if c.channel_mixing_enabled { FLAG_CHANNEL_MIXING } else { 0u32 });
        UberUniform {
            flags,
            bloom: UberBloom::from(c.bloom),
            channel_mixing: UberChannelMixing::from(c.channel_mixing),
        }
    }
}

/// The exact word sequence of the packed layout for a uniform block.
pub open spec fn packed_words(u: UberUniform) -> Seq<u32> {
    seq![
        u.flags, 0u32, 0u32, 0u32,
        u.bloom.threshold, u.bloom.intensity, u.bloom.scatter, 0u32,
        u.bloom.tint.x, u.bloom.tint.y, u.bloom.tint.z, u.bloom.tint.w,
        u.bloom.clamp, 0u32, 0u32, 0u32,
        u.channel_mixing.matrix.row0.x, u.channel_mixing.matrix.row0.y, u.channel_mixing.matrix.row0.z, 0u32,
        u.channel_mixing.matrix.row1.x, u.channel_mixing.matrix.row1.y, u.channel_mixing.matrix.row1.z, 0u32,
        u.channel_mixing.matrix.row2.x, u.channel_mixing.matrix.row2.y, u.channel_mixing.matrix.row2.z, 0u32,
    ]
}

/// The structured uniform block read back from a packed word sequence.
pub open spec fn unpacked_uniform(s: Seq<u32>) -> UberUniform {
    UberUniform {
        flags: s[0],
        bloom: UberBloom {
            threshold: s[4],
            intensity: s[5],
            scatter: s[6],
            tint: Vec4 { x: s[8], y: s[9], z: s[10], w: s[11] },
            clamp: s[12],
        },
        channel_mixing: UberChannelMixing {
            matrix: Mat3 {
                row0: crate::math::Vec3 { x: s[16], y: s[17], z: s[18] },
                row1: crate::math::Vec3 { x: s[20], y: s[21], z: s[22] },
                row2: crate::math::Vec3 { x: s[24], y: s[25], z: s[26] },
            },
        },
    }
}

/// The fixed-size binary block uploaded to the GPU, as 4-byte words.
#[derive(Clone, Debug, PartialEq, Eq)]
pub struct PackedUniformBlock {
    pub words: Vec<u32>,
}

impl PackedUniformBlock {
    /// A block is well-formed when it has exactly the layout's word count.
    pub open spec fn wf(&self) -> bool {
        self.words@.len() == PACKED_BLOCK_WORDS
    }

    /// Packs a uniform block into the fixed word layout.
    pub fn pack(u: &UberUniform) -> (b: PackedUniformBlock)
        ensures
            b.wf(),
            b.words@ == packed_words(*u),
    {
        let mut w: Vec<u32> = Vec::new();
        w.push(u.flags);
        w.push(0);
        w.push(0);
        w.push(0);
        w.push(u.bloom.threshold);
        w.push(u.bloom.intensity);
        w.push(u.bloom.scatter);
        w.push(0);
        w.push(u.bloom.tint.x);
        w.push(u.bloom.tint.y);
        w.push(u.bloom.tint.z);
        w.push(u.bloom.tint.w);
        w.push(u.bloom.clamp);
        w.push(0);
        w.push(0);
        w.push(0);
        w.push(u.channel_mixing.matrix.row0.x);
        w.push(u.channel_mixing.matrix.row0.y);
        w.push(u.channel_mixing.matrix.row0.z);
        w.push(0);
        w.push(u.channel_mixing.matrix.row1.x);
        w.push(u.channel_mixing.matrix.row1.y);
        w.push(u.channel_mixing.matrix.row1.z);
        w.push(0);
        w.push(u.channel_mixing.matrix.row2.x);
        w.push(u.channel_mixing.matrix.row2.y);
        w.push(u.channel_mixing.matrix.row2.z);
        w.push(0);
        proof {
            assert(w@ =~= packed_words(*u));
        }
        PackedUniformBlock { words: w }
    }

    /// Reads the structured uniform block back out of the packed layout.
    pub fn unpack(&self) -> (u: UberUniform)
        requires
            self.wf(),
        ensures
            u == unpacked_uniform(self.words@),
    {
        UberUniform {
            flags: self.words[0],
            bloom: UberBloom {
                threshold: self.words[4],
                intensity: self.words[5],
                scatter: self.words[6],
                tint: Vec4 {
                    x: self.words[8],
                    y: self.words[9],
                    z: self.words[10],
                    w: self.words[11],
                },
                clamp: self.words[12],
            },
            channel_mixing: UberChannelMixing {
                matrix: Mat3 {
                    row0: crate::math::Vec3 {
                        x: self.words[16],
                        y: self.words[17],
                        z: self.words[18],
                    },
                    row1: crate::math::Vec3 {
                        x: self.words[20],
                        y: self.words[21],
                        z: self.words[22],
                    },
                    row2: crate::math::Vec3 {
                        x: self.words[24],
                        y: self.words[25],
                        z: self.words[26],
                    },
                },
            },
        }
    }
}

/// Packing a uniform block and unpacking it reproduces the block bit-exactly:
/// the flags word, every bloom scalar and tint channel, and every matrix
/// entry come back unchanged.
pub proof fn lemma_pack_unpack_round_trip(u: UberUniform)
    ensures
        unpacked_uniform(packed_words(u)) == u,
{
}

/// Packing a configuration's uniform block and unpacking it reproduces the
/// bloom threshold, intensity, scatter and clamp scalars, the tint, and the
/// 3x3 channel-mix matrix, bit-exactly, together with the flags word.
pub proof fn lemma_configuration_round_trip(c: EffectConfiguration)
    ensures
        unpacked_uniform(packed_words(uniform_of(c))).bloom == uber_bloom_of(c.bloom),
        unpacked_uniform(packed_words(uniform_of(c))).channel_mixing.matrix
            == mat3_of_channel_mixing(c.channel_mixing),
        unpacked_uniform(packed_words(uniform_of(c))).flags == spec_flags_of(c),
{
    lemma_pack_unpack_round_trip(uniform_of(c));
}

/// The flags word encodes exactly the active effects: bit 0 is set iff bloom
/// is enabled, bit 1 iff the standard tonemapping curve is selected, bit 2
/// iff the ACES curve is selected, and bit 3 iff channel mixing is enabled,
/// for every configuration.
pub proof fn lemma_flags_bits(c: EffectConfiguration)
    ensures
        (spec_flags_of(c) & FLAG_BLOOM != 0) <==> c.bloom_enabled,
        (spec_flags_of(c) & FLAG_NORMAL_TONEMAPPING != 0) <==> c.tonemapping == Tonemapping::Normal,
        (spec_flags_of(c) & FLAG_ACES_TONEMAPPING != 0) <==> c.tonemapping == Tonemapping::Aces,
        (spec_flags_of(c) & FLAG_CHANNEL_MIXING != 0) <==> c.channel_mixing_enabled,
{
    let a: u32 = if c.bloom_enabled { 1u32 } else { 0u32 };
    let t: u32 = match c.tonemapping {
        Tonemapping::Off => 0u32,
        Tonemapping::Normal => 2u32,
        Tonemapping::Aces => 4u32,
    };
    let m: u32 = if c.channel_mixing_enabled { 8u32 } else { 0u32 };
    assert(spec_flags_of(c) == a | t | m);
    assert((a == 0 || a == 1) && (t == 0 || t == 2 || t == 4) && (m == 0 || m == 8) ==> (
        (((a | t | m) & 1u32 != 0) <==> a == 1)
        && (((a | t | m) & 2u32 != 0) <==> t == 2)
        && (((a | t | m) & 4u32 != 0) <==> t == 4)
        && (((a | t | m) & 8u32 != 0) <==> m == 8)
    )) by (bit_vector);
}

} // verus!
