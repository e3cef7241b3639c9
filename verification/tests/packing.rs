use uber_effect::components::{
    Bloom, ChannelMixing, EffectConfiguration, Tonemapping,
};
use uber_effect::math::{Color, Mat3, Vec3, Vec4};
use uber_effect::uniform::{
    PackedUniformBlock, UberBloom, UberChannelMixing, UberUniform, FLAG_ACES_TONEMAPPING,
    FLAG_BLOOM, FLAG_CHANNEL_MIXING, FLAG_NORMAL_TONEMAPPING, PACKED_BLOCK_WORDS,
};

fn sample_configuration() -> EffectConfiguration {
    let mut config = EffectConfiguration::default();
    config.bloom_enabled = true;
    config.bloom.intensity = 0.5f32.to_bits();
    config.tonemapping = Tonemapping::Aces;
    config
}

#[test]
fn default_bloom_matches_float_bit_patterns() {
    let bloom = Bloom::default();
    assert_eq!(bloom.threshold, 0.9f32.to_bits());
    assert_eq!(bloom.intensity, 0.0f32.to_bits());
    assert_eq!(bloom.scatter, 0.7f32.to_bits());
    assert_eq!(bloom.clamp, 65472.0f32.to_bits());
    assert_eq!(bloom.tint.red, 1.0f32.to_bits());
    assert_eq!(bloom.tint.green, 1.0f32.to_bits());
    assert_eq!(bloom.tint.blue, 1.0f32.to_bits());
    assert_eq!(bloom.tint.alpha, 1.0f32.to_bits());
}

#[test]
fn default_channel_mixing_is_identity_mix() {
    let mixing = ChannelMixing::default();
    let one = 1.0f32.to_bits();
    assert_eq!(mixing.red(), Color { red: one, green: 0, blue: 0, alpha: one });
    assert_eq!(mixing.blue(), Color { red: 0, green: 0, blue: one, alpha: one });
    assert_eq!(mixing.green(), Color { red: 0, green: one, blue: 0, alpha: one });
}

#[test]
fn channel_mixing_mut_accessors_write_through() {
    let mut mixing = ChannelMixing::default();
    let tinted = Color { red: 7, green: 8, blue: 9, alpha: 10 };
    *mixing.red_mut() = tinted;
    assert_eq!(mixing.red(), tinted);
    let blue_before = mixing.blue();
    mixing.green_mut().green = 42;
    assert_eq!(mixing.green().green, 42);
    assert_eq!(mixing.blue(), blue_before);
}

#[test]
fn matrix_rows_are_red_blue_green_rgb() {
    let mut mixing = ChannelMixing::default();
    *mixing.red_mut() = Color { red: 1, green: 2, blue: 3, alpha: 4 };
    *mixing.blue_mut() = Color { red: 5, green: 6, blue: 7, alpha: 8 };
    *mixing.green_mut() = Color { red: 9, green: 10, blue: 11, alpha: 12 };
    let matrix = Mat3::from(mixing);
    assert_eq!(matrix.row0, Vec3 { x: 1, y: 2, z: 3 });
    assert_eq!(matrix.row1, Vec3 { x: 5, y: 6, z: 7 });
    assert_eq!(matrix.row2, Vec3 { x: 9, y: 10, z: 11 });
}

#[test]
fn flags_reflect_active_effects() {
    let mut config = EffectConfiguration::default();
    assert_eq!(UberUniform::of_configuration(&config).flags, 0);

    config.bloom_enabled = true;
    assert_eq!(UberUniform::of_configuration(&config).flags, FLAG_BLOOM);

    config.bloom_enabled = false;
    config.tonemapping = Tonemapping::Normal;
    assert_eq!(UberUniform::of_configuration(&config).flags, FLAG_NORMAL_TONEMAPPING);

    config.tonemapping = Tonemapping::Aces;
    assert_eq!(UberUniform::of_configuration(&config).flags, FLAG_ACES_TONEMAPPING);

    config.tonemapping = Tonemapping::Off;
    config.channel_mixing_enabled = true;
    assert_eq!(UberUniform::of_configuration(&config).flags, FLAG_CHANNEL_MIXING);
}

#[test]
fn flag_bits_are_mutually_independent() {
    // Channel mixing combines with either tonemapping choice and with bloom.
    let mut config = EffectConfiguration::default();
    config.bloom_enabled = true;
    config.channel_mixing_enabled = true;
    config.tonemapping = Tonemapping::Normal;
    assert_eq!(
        UberUniform::of_configuration(&config).flags,
        FLAG_BLOOM | FLAG_NORMAL_TONEMAPPING | FLAG_CHANNEL_MIXING
    );

    config.tonemapping = Tonemapping::Aces;
    assert_eq!(
        UberUniform::of_configuration(&config).flags,
        FLAG_BLOOM | FLAG_ACES_TONEMAPPING | FLAG_CHANNEL_MIXING
    );
}

#[test]
fn packed_layout_places_every_field() {
    let config = sample_configuration();
    let uniform = UberUniform::of_configuration(&config);
    let block = PackedUniformBlock::pack(&uniform);
    let w = &block.words;
    assert_eq!(w.len(), PACKED_BLOCK_WORDS);
    assert_eq!(w[0], FLAG_BLOOM | FLAG_ACES_TONEMAPPING);
    assert_eq!(&w[1..4], &[0, 0, 0]);
    assert_eq!(w[4], 0.9f32.to_bits());
    assert_eq!(w[5], 0.5f32.to_bits());
    assert_eq!(w[6], 0.7f32.to_bits());
    assert_eq!(w[7], 0);
    assert_eq!(&w[8..12], &[1.0f32.to_bits(); 4]);
    assert_eq!(w[12], 65472.0f32.to_bits());
    assert_eq!(&w[13..16], &[0, 0, 0]);
    let one = 1.0f32.to_bits();
    // Matrix rows: red, blue, green mixing vectors, each padded to 4 words.
    assert_eq!(&w[16..20], &[one, 0, 0, 0]);
    assert_eq!(&w[20..24], &[0, 0, one, 0]);
    assert_eq!(&w[24..28], &[0, one, 0, 0]);
}

#[test]
fn pack_unpack_round_trip_is_bit_exact() {
    let config = sample_configuration();
    let uniform = UberUniform::of_configuration(&config);
    let unpacked = PackedUniformBlock::pack(&uniform).unpack();
    assert_eq!(unpacked, uniform);
    assert_eq!(unpacked.bloom, UberBloom::from(config.bloom));
    assert_eq!(
        unpacked.channel_mixing,
        UberChannelMixing::from(config.channel_mixing)
    );
}

#[test]
fn pack_unpack_round_trip_arbitrary_bit_patterns() {
    let uniform = UberUniform {
        flags: 0xF,
        bloom: UberBloom {
            threshold: 0xDEAD_BEEF,
            intensity: 1,
            scatter: 2,
            tint: Vec4 { x: 3, y: 4, z: 5, w: 6 },
            clamp: 7,
        },
        channel_mixing: UberChannelMixing {
            matrix: Mat3 {
                row0: Vec3 { x: 10, y: 11, z: 12 },
                row1: Vec3 { x: 13, y: 14, z: 15 },
                row2: Vec3 { x: 16, y: 17, z: 18 },
            },
        },
    };
    assert_eq!(PackedUniformBlock::pack(&uniform).unpack(), uniform);
}
