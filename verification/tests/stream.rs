use tutti_au_host::bus::{BusDirection, ChannelLayout};
use tutti_au_host::error::AuError;
use tutti_au_host::float::Float64;
use tutti_au_host::stream::{
    AuBusLayout, StreamApply, StreamConfig, StreamFormat, StreamReply, StreamRequest,
};

const TOLERANCE: f64 = 1e-6;

fn rate(v: f64) -> Float64 {
    Float64 { bits: v.to_bits() }
}

fn config_at(sample_rate: f64) -> StreamConfig {
    StreamConfig::new(
        rate(sample_rate),
        512,
        AuBusLayout {
            inputs: ChannelLayout::stereo(),
            outputs: ChannelLayout::stereo(),
            has_input: true,
        },
    )
}

fn reported(requested: f64, accepted: f64, channels: u32) -> StreamFormat {
    let deviation = (accepted - requested).abs();
    StreamFormat {
        sample_rate: rate(accepted),
        channels_per_frame: channels,
        rate_agrees: accepted == 0.0 || !(deviation > requested.abs() * TOLERANCE),
    }
}

fn check(requested: f64, direction: BusDirection, accepted: f64) -> Result<(), AuError> {
    config_at(requested).check_sample_rate(direction, reported(requested, accepted, 2))
}

#[test]
fn a_rate_the_au_did_not_accept_is_an_error() {
    assert!(check(48_000.0, BusDirection::Output, 48_000.0).is_ok());

    let err = check(48_000.0, BusDirection::Output, 44_100.0)
        .expect_err("a different rate must not be reported as success");
    match err {
        AuError::SampleRateRejected {
            scope,
            requested,
            accepted,
        } => {
            assert_eq!(scope, "output");
            assert_eq!(requested, rate(48_000.0));
            assert_eq!(accepted, rate(44_100.0));
        }
        other => panic!("expected SampleRateRejected, got {other:?}"),
    }

    assert!(check(44_100.0, BusDirection::Input, 48_000.0).is_err());
    assert!(matches!(
        check(44_100.0, BusDirection::Input, 96_000.0),
        Err(AuError::SampleRateRejected { scope: "input", .. })
    ));
}

#[test]
fn an_unconfigured_rate_is_not_a_rejection() {
    assert!(check(48_000.0, BusDirection::Output, 0.0).is_ok());
}

#[test]
fn tolerance_absorbs_rounding_but_not_a_real_rate_change() {
    let rounded = 48_000.0 + 48_000.0 * (TOLERANCE * 0.5);
    assert!(check(48_000.0, BusDirection::Output, rounded).is_ok());
    assert!(check(48_000.0, BusDirection::Output, 48_001.0).is_err());
}

/// Applies a configuration to a unit that answers with the given formats, and
/// returns what was asked and what it came to.
fn apply(
    config: StreamConfig,
    max_frames_status: i32,
    output: Option<StreamFormat>,
    input: Option<StreamFormat>,
) -> (Vec<StreamRequest>, Result<AuBusLayout, AuError>) {
    let mut exchange: StreamApply = config.apply();
    let mut asked = Vec::new();
    loop {
        let request = exchange.request();
        asked.push(request);
        let reply = match request {
            StreamRequest::SetMaximumFrames { .. } => StreamReply::Written {
                status: max_frames_status,
            },
            StreamRequest::ReadFormat {
                direction: BusDirection::Output,
            } => StreamReply::Format { format: output },
            StreamRequest::ReadFormat {
                direction: BusDirection::Input,
            } => StreamReply::Format { format: input },
            // Every other write is refused: that is not an error by itself.
            _ => StreamReply::Written { status: -10868 },
        };
        if let Some(result) = exchange.answer(reply) {
            return (asked, result);
        }
    }
}

#[test]
fn the_effective_layout_is_what_the_unit_reports() {
    let config = config_at(48_000.0);
    let (asked, result) = apply(
        config,
        0,
        Some(reported(48_000.0, 48_000.0, 6)),
        Some(reported(48_000.0, 48_000.0, 1)),
    );
    let layout = result.unwrap();
    assert_eq!(layout.outputs, ChannelLayout::new(6));
    assert_eq!(layout.inputs, ChannelLayout::mono());
    assert!(layout.has_input);
    assert_eq!(
        asked,
        vec![
            StreamRequest::SetMaximumFrames { frames: 512 },
            StreamRequest::SetSampleRate {
                direction: BusDirection::Output,
                rate: rate(48_000.0)
            },
            StreamRequest::SetSampleRate {
                direction: BusDirection::Input,
                rate: rate(48_000.0)
            },
            StreamRequest::SetFormat {
                direction: BusDirection::Output,
                rate: rate(48_000.0),
                channels: 2
            },
            StreamRequest::ReadFormat {
                direction: BusDirection::Output
            },
            StreamRequest::SetFormat {
                direction: BusDirection::Input,
                rate: rate(48_000.0),
                channels: 2
            },
            StreamRequest::ReadFormat {
                direction: BusDirection::Input
            },
        ]
    );
}

#[test]
fn a_unit_that_reports_no_format_keeps_the_requested_layout() {
    let (_, result) = apply(config_at(48_000.0), 0, None, None);
    let layout = result.unwrap();
    assert_eq!(layout.outputs, ChannelLayout::stereo());
    assert_eq!(layout.inputs, ChannelLayout::stereo());
}

#[test]
fn a_mono_request_is_sent_as_mono() {
    let mut config = config_at(48_000.0);
    config.channels.outputs = ChannelLayout::mono();
    config.channels.has_input = false;
    let (asked, result) = apply(config, 0, Some(reported(48_000.0, 48_000.0, 1)), None);
    assert!(asked.contains(&StreamRequest::SetFormat {
        direction: BusDirection::Output,
        rate: rate(48_000.0),
        channels: 1
    }));
    assert_eq!(
        asked.len(),
        4,
        "a unit without input is not asked about one"
    );
    assert_eq!(result.unwrap().outputs, ChannelLayout::mono());
}

#[test]
fn a_refused_block_size_or_rate_ends_the_exchange() {
    let (asked, result) = apply(config_at(48_000.0), -10865, None, None);
    assert_eq!(asked.len(), 1);
    assert!(matches!(
        result,
        Err(AuError::OsStatus {
            function: "AudioUnitSetProperty",
            code: -10865
        })
    ));

    let wrong = Some(reported(48_000.0, 44_100.0, 2));
    let (asked, result) = apply(config_at(48_000.0), 0, wrong, wrong);
    assert_eq!(asked.len(), 5);
    assert!(matches!(
        result,
        Err(AuError::SampleRateRejected {
            scope: "output",
            ..
        })
    ));
    let (_, result) = apply(config_at(48_000.0), 0, None, wrong);
    assert!(matches!(
        result,
        Err(AuError::SampleRateRejected { scope: "input", .. })
    ));
}

#[test]
fn a_probe_goes_by_buses_and_falls_back_to_stereo() {
    let effect = StreamConfig::probe(Some(6), 1, Some(1));
    assert_eq!(effect.outputs, ChannelLayout::new(6));
    assert_eq!(effect.inputs, ChannelLayout::mono());
    assert!(effect.has_input);

    let shy = StreamConfig::probe(None, 1, None);
    assert_eq!(shy.outputs, ChannelLayout::stereo());
    assert_eq!(shy.inputs, ChannelLayout::stereo());
    assert!(shy.has_input, "the bus count decides, not the format read");

    let instrument = StreamConfig::probe(Some(2), 0, Some(2));
    assert!(!instrument.has_input);
    assert_eq!(instrument.inputs, ChannelLayout::new(0));
}

#[test]
fn only_the_default_layout_has_a_stereo_floor() {
    let mono = StreamConfig::probe(Some(1), 1, Some(1));
    let layout = StreamConfig::default_layout(mono);
    assert_eq!(layout.outputs, ChannelLayout::stereo());
    assert_eq!(layout.inputs, ChannelLayout::mono());
    let surround = StreamConfig::probe(Some(6), 1, Some(6));
    assert_eq!(
        StreamConfig::default_layout(surround).outputs,
        ChannelLayout::new(6)
    );
}

#[test]
fn a_block_size_is_verified_by_reading_it_back() {
    let config = config_at(48_000.0);
    assert!(config.verify_block_size(0, 512).is_ok());
    assert!(matches!(
        config.verify_block_size(0, 1024),
        Err(AuError::BlockSizeRejected {
            requested: 512,
            accepted: 1024
        })
    ));
    assert!(matches!(
        config.verify_block_size(-10879, 512),
        Err(AuError::OsStatus {
            function: "AudioUnitGetProperty",
            code: -10879
        })
    ));
}
