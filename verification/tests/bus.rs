use tutti_au_host::bus::{
    bus_count, bus_layout, decode_channel_configs, supported_channel_configs, AuChannelConfig,
    AuChannelCount, AuChannelInfo, BusDirection, ChannelLayout, CHANNEL_INFO_IN_OFFSET,
    CHANNEL_INFO_OUT_OFFSET, CHANNEL_INFO_SIZE,
};
use tutti_au_host::error::AuError;
use tutti_au_host::types::{K_AUDIO_UNIT_SCOPE_INPUT, K_AUDIO_UNIT_SCOPE_OUTPUT};

#[test]
fn channel_info_matches_the_c_abi() {
    assert_eq!(std::mem::size_of::<AuChannelInfo>(), 4);
    assert_eq!(std::mem::align_of::<AuChannelInfo>(), 2);
    assert_eq!(CHANNEL_INFO_IN_OFFSET, 0);
    assert_eq!(CHANNEL_INFO_OUT_OFFSET, 2);
    assert_eq!(CHANNEL_INFO_SIZE, 4);
}

#[test]
fn sentinels_decode_as_sentinels_not_as_counts() {
    assert_eq!(AuChannelCount::from_raw(0), AuChannelCount::NoElements);
    assert_eq!(AuChannelCount::from_raw(2), AuChannelCount::Exactly(2));
    assert_eq!(
        AuChannelCount::from_raw(-1),
        AuChannelCount::Any { wildcard: -1 }
    );
    assert_eq!(
        AuChannelCount::from_raw(-2),
        AuChannelCount::Any { wildcard: -2 }
    );
    assert_eq!(
        AuChannelCount::from_raw(-16),
        AuChannelCount::TotalAcrossBuses { max_total: 16 }
    );
    assert_eq!(
        AuChannelCount::from_raw(-3),
        AuChannelCount::TotalAcrossBuses { max_total: 3 }
    );
    assert_eq!(
        AuChannelCount::from_raw(i16::MIN),
        AuChannelCount::TotalAcrossBuses { max_total: 32_768 }
    );
}

#[test]
fn the_two_wildcard_spellings_mean_different_things() {
    let matched = AuChannelConfig {
        inputs: AuChannelCount::Any { wildcard: -1 },
        outputs: AuChannelCount::Any { wildcard: -1 },
    };
    let independent = AuChannelConfig {
        inputs: AuChannelCount::Any { wildcard: -1 },
        outputs: AuChannelCount::Any { wildcard: -2 },
    };

    assert!(matched.requires_matching_counts());
    assert!(!independent.requires_matching_counts());

    assert!(matched.admits(2, 2));
    assert!(independent.admits(2, 2));
    assert!(!matched.admits(2, 6));
    assert!(independent.admits(2, 6));
}

#[test]
fn measured_apple_entries_decode_to_their_documented_meaning() {
    let dls = AuChannelConfig::from_raw(AuChannelInfo {
        in_channels: 0,
        out_channels: 2,
    });
    assert_eq!(dls.inputs, AuChannelCount::NoElements);
    assert_eq!(dls.outputs, AuChannelCount::Exactly(2));
    assert!(dls.admits(0, 2));
    assert!(!dls.admits(2, 2), "DLS declares no input elements");

    let sampler = AuChannelConfig::from_raw(AuChannelInfo {
        in_channels: 0,
        out_channels: -16,
    });
    assert_eq!(sampler.inputs, AuChannelCount::NoElements);
    assert_eq!(
        sampler.outputs,
        AuChannelCount::TotalAcrossBuses { max_total: 16 }
    );
    assert!(sampler.admits(0, 2));
    assert!(sampler.admits(0, 16));
    assert!(!sampler.admits(0, 17), "17 exceeds the declared 16 total");

    let mixer = AuChannelConfig::from_raw(AuChannelInfo {
        in_channels: -1,
        out_channels: -2,
    });
    assert!(!mixer.requires_matching_counts());
    assert!(mixer.admits(8, 2));

    let splitter = AuChannelConfig::from_raw(AuChannelInfo {
        in_channels: -1,
        out_channels: -1,
    });
    assert!(splitter.requires_matching_counts());
    assert!(splitter.admits(6, 6));
    assert!(!splitter.admits(6, 2));

    let literal = AuChannelConfig::from_raw(AuChannelInfo {
        in_channels: 2,
        out_channels: 2,
    });
    assert!(literal.admits(2, 2));
    assert!(!literal.admits(2, 4));
    assert!(
        !literal.requires_matching_counts(),
        "a literal pair names both sides outright; the matching rule is for \
         the {{-1,-1}} spelling only"
    );
}

#[test]
fn no_elements_admits_only_zero() {
    assert!(AuChannelCount::NoElements.admits(0));
    assert!(!AuChannelCount::NoElements.admits(1));
    assert!(!AuChannelCount::NoElements.admits(2));
}

#[test]
fn direction_maps_to_the_audio_toolbox_scopes() {
    assert_eq!(BusDirection::Input.scope(), K_AUDIO_UNIT_SCOPE_INPUT);
    assert_eq!(BusDirection::Output.scope(), K_AUDIO_UNIT_SCOPE_OUTPUT);
    assert_ne!(BusDirection::Input.scope(), BusDirection::Output.scope());
    assert_eq!(BusDirection::all().len(), 2);
}

#[test]
fn configurations_are_written_as_pairs() {
    assert_eq!(BusDirection::Input.to_string(), "input");
    assert_eq!(BusDirection::Output.to_string(), "output");
    assert_eq!(AuChannelCount::from_raw(0).to_string(), "none");
    assert_eq!(AuChannelCount::from_raw(12).to_string(), "12");
    assert_eq!(AuChannelCount::from_raw(-2).to_string(), "any(-2)");
    let sampler = AuChannelConfig::from_raw(AuChannelInfo {
        in_channels: 0,
        out_channels: -16,
    });
    assert_eq!(sampler.to_string(), "{none, <=16 total}");
}

#[test]
fn a_partial_trailing_entry_is_dropped() {
    let mut bytes: Vec<u8> = Vec::new();
    for v in [0i16, -16, 2, 2] {
        bytes.extend_from_slice(&v.to_le_bytes());
    }
    bytes.extend_from_slice(&[9, 9, 9]);
    let configs = decode_channel_configs(&bytes);
    assert_eq!(configs.len(), 2);
    assert_eq!(
        configs[0].outputs,
        AuChannelCount::TotalAcrossBuses { max_total: 16 }
    );
    assert_eq!(configs[1].inputs, AuChannelCount::Exactly(2));
    assert!(supported_channel_configs(None).is_empty());
    assert_eq!(supported_channel_configs(Some(bytes)).len(), 2);
}

#[test]
fn a_refusing_unit_has_no_buses_and_no_made_up_layout() {
    assert_eq!(bus_count(0, 8), 8);
    assert_eq!(bus_count(-10879, 8), 0);
    assert_eq!(bus_layout(0, 6).unwrap(), ChannelLayout::new(6));
    match bus_layout(-10877, 2) {
        Err(AuError::OsStatus { function, code }) => {
            assert_eq!(function, "AudioUnitGetProperty");
            assert_eq!(code, -10877);
        }
        _ => panic!("a bus that does not exist is an error"),
    }
    assert_eq!(ChannelLayout::of_stream(70_000).count(), u16::MAX);
}
