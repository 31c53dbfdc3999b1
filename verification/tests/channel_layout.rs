use tutti_au_host::channel_layout::{
    decode_layout_tags, element_name, layout_tag, set_layout_tag, supported_layout_tags,
    AuLayoutTag, NameAnswer, CHANNEL_LAYOUT_SIZE, LAYOUT_BITMAP_OFFSET,
    LAYOUT_DESCRIPTIONS_OFFSET, LAYOUT_TAG_OFFSET, TAG_ONLY_LAYOUT_SIZE,
};
use tutti_au_host::error::AuError;
use tutti_au_host::types::{
    K_AUDIO_CHANNEL_LAYOUT_TAG_AMBISONIC_B_FORMAT, K_AUDIO_CHANNEL_LAYOUT_TAG_AUDIO_UNIT_4,
    K_AUDIO_CHANNEL_LAYOUT_TAG_AUDIO_UNIT_5_0, K_AUDIO_CHANNEL_LAYOUT_TAG_AUDIO_UNIT_5_1,
    K_AUDIO_CHANNEL_LAYOUT_TAG_AUDIO_UNIT_6, K_AUDIO_CHANNEL_LAYOUT_TAG_AUDIO_UNIT_7_1,
    K_AUDIO_CHANNEL_LAYOUT_TAG_AUDIO_UNIT_8, K_AUDIO_CHANNEL_LAYOUT_TAG_HEXAGONAL,
    K_AUDIO_CHANNEL_LAYOUT_TAG_MATRIX_STEREO, K_AUDIO_CHANNEL_LAYOUT_TAG_MPEG_5_0_B,
    K_AUDIO_CHANNEL_LAYOUT_TAG_MPEG_5_1_A, K_AUDIO_CHANNEL_LAYOUT_TAG_MPEG_7_1_C,
    K_AUDIO_CHANNEL_LAYOUT_TAG_OCTAGONAL, K_AUDIO_CHANNEL_LAYOUT_TAG_PENTAGONAL,
    K_AUDIO_CHANNEL_LAYOUT_TAG_QUADRAPHONIC, K_AUDIO_CHANNEL_LAYOUT_TAG_STEREO,
    K_AUDIO_UNIT_ERR_INVALID_PROPERTY_VALUE, K_AUDIO_UNIT_ERR_PROPERTY_NOT_IN_USE,
};

#[test]
fn the_aliased_tags_really_are_the_same_value() {
    assert_eq!(
        K_AUDIO_CHANNEL_LAYOUT_TAG_AUDIO_UNIT_4, K_AUDIO_CHANNEL_LAYOUT_TAG_QUADRAPHONIC,
        "AudioUnit_4 and Quadraphonic are one value; listing both in a match \
         is an unreachable-pattern error"
    );
    assert_eq!(
        K_AUDIO_CHANNEL_LAYOUT_TAG_AUDIO_UNIT_5_1, K_AUDIO_CHANNEL_LAYOUT_TAG_MPEG_5_1_A,
        "AudioUnit_5_1 == MPEG_5_1_A"
    );
    assert_eq!(
        K_AUDIO_CHANNEL_LAYOUT_TAG_AUDIO_UNIT_7_1, K_AUDIO_CHANNEL_LAYOUT_TAG_MPEG_7_1_C,
        "AudioUnit_7_1 == MPEG_7_1_C"
    );
    assert_eq!(
        K_AUDIO_CHANNEL_LAYOUT_TAG_AUDIO_UNIT_5_0, K_AUDIO_CHANNEL_LAYOUT_TAG_MPEG_5_0_B,
        "AudioUnit_5_0 == MPEG_5_0_B"
    );
    assert_eq!(
        K_AUDIO_CHANNEL_LAYOUT_TAG_AUDIO_UNIT_6, K_AUDIO_CHANNEL_LAYOUT_TAG_HEXAGONAL,
        "AudioUnit_6 == Hexagonal"
    );
    assert_eq!(
        K_AUDIO_CHANNEL_LAYOUT_TAG_AUDIO_UNIT_8, K_AUDIO_CHANNEL_LAYOUT_TAG_OCTAGONAL,
        "AudioUnit_8 == Octagonal"
    );

    assert_ne!(
        K_AUDIO_CHANNEL_LAYOUT_TAG_QUADRAPHONIC, K_AUDIO_CHANNEL_LAYOUT_TAG_AMBISONIC_B_FORMAT,
        "quad speaker feeds and 4-channel B-format are different layouts"
    );
    assert_ne!(
        K_AUDIO_CHANNEL_LAYOUT_TAG_PENTAGONAL, K_AUDIO_CHANNEL_LAYOUT_TAG_AUDIO_UNIT_5_0,
        "two five-channel layouts with different speaker orders"
    );
    assert_ne!(
        K_AUDIO_CHANNEL_LAYOUT_TAG_STEREO, K_AUDIO_CHANNEL_LAYOUT_TAG_MATRIX_STEREO,
        "matrix-encoded stereo is not plain stereo"
    );
}

#[test]
fn every_tag_round_trips_through_raw() {
    let named = [
        AuLayoutTag::UseChannelDescriptions,
        AuLayoutTag::UseChannelBitmap,
        AuLayoutTag::Mono,
        AuLayoutTag::Stereo,
        AuLayoutTag::StereoHeadphones,
        AuLayoutTag::MatrixStereo,
        AuLayoutTag::MidSide,
        AuLayoutTag::XY,
        AuLayoutTag::Binaural,
        AuLayoutTag::AmbisonicBFormat,
        AuLayoutTag::Quadraphonic,
        AuLayoutTag::Pentagonal,
        AuLayoutTag::Hexagonal,
        AuLayoutTag::Octagonal,
        AuLayoutTag::Cube,
        AuLayoutTag::AudioUnit5_0,
        AuLayoutTag::AudioUnit5_1,
        AuLayoutTag::AudioUnit6_0,
        AuLayoutTag::AudioUnit7_0,
        AuLayoutTag::AudioUnit7_1,
    ];
    for tag in named {
        assert_eq!(
            AuLayoutTag::from_raw(tag.to_raw()),
            tag,
            "{tag:?} must survive a raw round-trip"
        );
    }

    let mut raws: Vec<u32> = named.iter().map(|t| t.to_raw()).collect();
    let before = raws.len();
    raws.sort_unstable();
    raws.dedup();
    assert_eq!(
        raws.len(),
        before,
        "two named variants collide on one raw value"
    );

    let future = AuLayoutTag::from_raw(0x0099_0003);
    assert_eq!(future, AuLayoutTag::Unknown(0x0099_0003));
    assert_eq!(future.to_raw(), 0x0099_0003);
}

#[test]
fn channel_count_reads_the_low_word_and_refuses_to_guess() {
    assert_eq!(AuLayoutTag::Mono.channel_count(), Some(1));
    assert_eq!(AuLayoutTag::Stereo.channel_count(), Some(2));
    assert_eq!(AuLayoutTag::MidSide.channel_count(), Some(2));
    assert_eq!(AuLayoutTag::Quadraphonic.channel_count(), Some(4));
    assert_eq!(AuLayoutTag::AmbisonicBFormat.channel_count(), Some(4));
    assert_eq!(AuLayoutTag::AudioUnit5_0.channel_count(), Some(5));
    assert_eq!(AuLayoutTag::Pentagonal.channel_count(), Some(5));
    assert_eq!(AuLayoutTag::AudioUnit5_1.channel_count(), Some(6));
    assert_eq!(AuLayoutTag::Hexagonal.channel_count(), Some(6));
    assert_eq!(AuLayoutTag::AudioUnit7_0.channel_count(), Some(7));
    assert_eq!(AuLayoutTag::AudioUnit7_1.channel_count(), Some(8));
    assert_eq!(AuLayoutTag::Octagonal.channel_count(), Some(8));

    assert_eq!(AuLayoutTag::Unknown(0x0099_0003).channel_count(), Some(3));

    assert_eq!(AuLayoutTag::UseChannelDescriptions.channel_count(), None);
    assert_eq!(AuLayoutTag::UseChannelBitmap.channel_count(), None);
}

#[test]
fn the_tag_only_write_size_is_the_header_alone() {
    assert_eq!(
        TAG_ONLY_LAYOUT_SIZE, 12,
        "tag (4) + bitmap (4) + description count (4)"
    );
    assert!(TAG_ONLY_LAYOUT_SIZE < CHANNEL_LAYOUT_SIZE);
    assert_eq!(LAYOUT_TAG_OFFSET, 0);
    assert_eq!(LAYOUT_BITMAP_OFFSET, 4);
    assert_eq!(LAYOUT_DESCRIPTIONS_OFFSET, 8);
    let bytes = set_layout_tag(AuLayoutTag::AudioUnit5_1);
    assert_eq!(bytes.len(), TAG_ONLY_LAYOUT_SIZE);
    assert_eq!(bytes, vec![6, 0, 0x79, 0, 0, 0, 0, 0, 0, 0, 0, 0]);
}

#[test]
fn tags_are_written_by_name() {
    assert_eq!(AuLayoutTag::Mono.to_string(), "Mono");
    assert_eq!(AuLayoutTag::AudioUnit7_1.to_string(), "AudioUnit_7_1");
    assert_eq!(
        AuLayoutTag::Unknown(0x0099_0003).to_string(),
        "Unknown(0x990003)"
    );
    assert_eq!(AuLayoutTag::Unknown(0).to_string(), "Unknown(0x0)");
    assert_eq!(
        AuLayoutTag::Unknown(0xFEDC_BA98).to_string(),
        "Unknown(0xfedcba98)"
    );
}

#[test]
fn lists_of_tags_decode_whole_entries_only() {
    let mut bytes = Vec::new();
    bytes.extend_from_slice(&AuLayoutTag::Stereo.to_raw().to_le_bytes());
    bytes.extend_from_slice(&AuLayoutTag::Cube.to_raw().to_le_bytes());
    bytes.push(1);
    assert_eq!(
        decode_layout_tags(&bytes),
        vec![AuLayoutTag::Stereo, AuLayoutTag::Cube]
    );
    assert_eq!(supported_layout_tags(Some(bytes)).len(), 2);
    assert!(supported_layout_tags(None).is_empty());
}

#[test]
fn a_layout_too_short_for_a_tag_is_an_invalid_value() {
    let long = AuLayoutTag::Stereo.to_raw().to_le_bytes().to_vec();
    assert_eq!(layout_tag(Ok(long)).unwrap(), AuLayoutTag::Stereo);
    assert!(matches!(
        layout_tag(Ok(vec![1, 2, 3])),
        Err(AuError::OsStatus {
            function: "channel_layout::layout_tag",
            code: K_AUDIO_UNIT_ERR_INVALID_PROPERTY_VALUE
        })
    ));
    assert!(matches!(
        layout_tag(Err(AuError::NullComponent)),
        Err(AuError::NullComponent)
    ));
}

#[test]
fn a_nameless_bus_is_an_error_and_not_an_empty_name() {
    assert_eq!(
        element_name(NameAnswer::Name("Sidechain".to_string())).unwrap(),
        "Sidechain"
    );
    assert!(matches!(
        element_name(NameAnswer::Refused(K_AUDIO_UNIT_ERR_PROPERTY_NOT_IN_USE)),
        Err(AuError::OsStatus {
            function: "AudioUnitGetProperty",
            code: K_AUDIO_UNIT_ERR_PROPERTY_NOT_IN_USE
        })
    ));
    for answer in [NameAnswer::Null, NameAnswer::NotText] {
        assert!(matches!(
            element_name(answer),
            Err(AuError::OsStatus {
                function: "channel_layout::element_name",
                code: K_AUDIO_UNIT_ERR_INVALID_PROPERTY_VALUE
            })
        ));
    }
}
