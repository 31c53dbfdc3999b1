use tutti_au_host::bus::{BusDirection, ChannelLayout};
use tutti_au_host::error::AuError;
use tutti_au_host::float::{Float32, Float64};
use tutti_au_host::handle::{AuHandle, AuType, AudioComponent, AudioComponentDescription, AudioUnit};
use tutti_au_host::instance::{
    AuInstance, AuLoaded, State, TeardownStep, UnitReply, UnitRequest,
};
use tutti_au_host::offline::flag_value;
use tutti_au_host::parameters::{AuParameter, ParameterAnswer, ParameterInfo};
use tutti_au_host::preset::factory_presets;
use tutti_au_host::stream::{AuBusLayout, StreamConfig, StreamFormat, StreamReply, StreamRequest};
use tutti_au_host::transport::{Beat, Bpm, TransportInfo};
use tutti_au_host::types::{
    K_AUDIO_UNIT_ERR_FAILED_INITIALIZATION, K_AUDIO_UNIT_ERR_INVALID_PROPERTY,
    K_AUDIO_UNIT_ERR_UNINITIALIZED,
    K_AUDIO_UNIT_RENDER_ACTION_OUTPUT_IS_SILENCE, K_AUDIO_UNIT_TYPE_EFFECT,
};

fn float(v: f32) -> Float32 {
    Float32 { bits: v.to_bits() }
}

fn rate(v: f64) -> Float64 {
    Float64 { bits: v.to_bits() }
}

/// A unit that takes what it is given, but for what the fields say.
struct FakeUnit {
    rate: f64,
    max_frames: u32,
    channels: u32,
    initialized: bool,
    installs: u32,
    discarded: u32,
    bypass: Option<u32>,
    parameters: Vec<(u32, f32)>,
    refuse_initialize: i32,
    refuse_uninitialize: i32,
    refuse_install: i32,
    fixed_rate: Option<f64>,
    fixed_frames: Option<u32>,
    requested_rate: f64,
}

impl FakeUnit {
    fn new() -> FakeUnit {
        FakeUnit {
            rate: 44_100.0,
            max_frames: 512,
            channels: 2,
            initialized: false,
            installs: 0,
            discarded: 0,
            bypass: Some(0),
            parameters: vec![(0, 50.0), (2, 1.0)],
            refuse_initialize: 0,
            refuse_uninitialize: 0,
            refuse_install: 0,
            fixed_rate: None,
            fixed_frames: None,
            requested_rate: 44_100.0,
        }
    }

    fn answer(&mut self, request: UnitRequest) -> UnitReply {
        match request {
            UnitRequest::Initialize => {
                self.initialized = self.refuse_initialize == 0;
                UnitReply::Status(self.refuse_initialize)
            }
            UnitRequest::Uninitialize => {
                if self.refuse_uninitialize == 0 {
                    self.initialized = false;
                }
                UnitReply::Status(self.refuse_uninitialize)
            }
            UnitRequest::InstallInputCallback => {
                self.installs += 1;
                UnitReply::Status(self.refuse_install)
            }
            UnitRequest::Discard => {
                self.discarded += 1;
                UnitReply::Status(0)
            }
            UnitRequest::ReadMaximumFrames => UnitReply::MaximumFrames {
                status: 0,
                frames: self.max_frames,
            },
            UnitRequest::Stream(request) => UnitReply::Stream(match request {
                StreamRequest::SetMaximumFrames { frames } => {
                    assert!(
                        !self.initialized,
                        "the block size is set on an uninitialized unit"
                    );
                    self.max_frames = self.fixed_frames.unwrap_or(frames);
                    StreamReply::Written { status: 0 }
                }
                StreamRequest::SetSampleRate { rate, .. } => {
                    self.requested_rate = f64::from_bits(rate.bits);
                    self.rate = self.fixed_rate.unwrap_or(self.requested_rate);
                    StreamReply::Written { status: 0 }
                }
                StreamRequest::SetFormat { .. } => StreamReply::Written { status: 0 },
                StreamRequest::ReadFormat { direction } => {
                    assert!(matches!(
                        direction,
                        BusDirection::Input | BusDirection::Output
                    ));
                    StreamReply::Format {
                        format: Some(StreamFormat {
                            sample_rate: rate(self.rate),
                            channels_per_frame: self.channels,
                            rate_agrees: self.rate == self.requested_rate,
                        }),
                    }
                }
            }),
        }
    }

    fn drive(
        &mut self,
        inst: &mut AuInstance<f32>,
        begun: Option<Result<(), AuError>>,
    ) -> Result<(), AuError> {
        let mut done = begun;
        let mut asked = 0;
        loop {
            if let Some(result) = done {
                assert!(inst.request().is_none());
                return result;
            }
            asked += 1;
            assert!(asked <= 20, "every operation ends");
            let request = inst.request().expect("an unfinished operation asks");
            let reply = self.answer(request);
            done = inst.answer(reply);
        }
    }

    fn parameter_list(&self, inst: &AuInstance<f32>) -> Vec<AuParameter> {
        let answers = self
            .parameters
            .iter()
            .map(|(id, value)| ParameterAnswer {
                id: *id,
                info: Some(ParameterInfo {
                    flags: 0,
                    unit: 0,
                    clump_id: 0,
                    min: float(0.0),
                    max: float(100.0),
                    default: float(*value),
                    cf_name: None,
                    name: b"Dry/Wet Mix\0".to_vec(),
                }),
            })
            .collect();
        inst.get_parameter_list(&answers)
    }

    fn set_parameter(
        &mut self,
        inst: &AuInstance<f32>,
        id: u32,
        value: f32,
    ) -> Result<(), AuError> {
        match self.parameters.iter_mut().find(|(i, _)| *i == id) {
            Some(slot) => {
                slot.1 = value;
                inst.set_parameter(0)
            }
            None => inst.set_parameter(-10878),
        }
    }

    fn get_parameter(&self, inst: &AuInstance<f32>, id: u32) -> Result<f32, AuError> {
        let (status, value) = match self.parameters.iter().find(|(i, _)| *i == id) {
            Some((_, value)) => (0, *value),
            None => (-10878, 0.0),
        };
        inst.get_parameter(status, float(value))
            .map(|v| f32::from_bits(v.bits))
    }

    /// A unit without the property refuses to set it.
    fn set_bypass(&mut self, inst: &AuInstance<f32>, on: bool) -> Result<(), AuError> {
        let status = match &mut self.bypass {
            Some(value) => {
                *value = flag_value(on);
                0
            }
            None => K_AUDIO_UNIT_ERR_INVALID_PROPERTY,
        };
        inst.set_bypass(status)
    }

    fn is_bypassed(&self, inst: &AuInstance<f32>) -> Result<bool, AuError> {
        match self.bypass {
            Some(value) => inst.is_bypassed(0, value),
            None => inst.is_bypassed(K_AUDIO_UNIT_ERR_INVALID_PROPERTY, 0),
        }
    }

    fn initialize(&mut self, inst: &mut AuInstance<f32>) -> Result<(), AuError> {
        let begun = inst.initialize();
        self.drive(inst, begun)
    }

    fn uninitialize(&mut self, inst: &mut AuInstance<f32>) -> Result<(), AuError> {
        let begun = inst.uninitialize();
        self.drive(inst, begun)
    }

    fn set_sample_rate(&mut self, inst: &mut AuInstance<f32>, v: f64) -> Result<(), AuError> {
        let begun = inst.set_sample_rate(rate(v));
        self.drive(inst, begun)
    }

    fn set_block_size(&mut self, inst: &mut AuInstance<f32>, n: u32) -> Result<(), AuError> {
        let begun = inst.set_block_size(n);
        self.drive(inst, begun)
    }
}

fn instance(has_input: bool) -> AuInstance<f32> {
    let desc = AudioComponentDescription {
        component_type: K_AUDIO_UNIT_TYPE_EFFECT,
        component_sub_type: u32::from_be_bytes(*b"dely"),
        component_manufacturer: u32::from_be_bytes(*b"appl"),
        component_flags: 0,
    };
    let handle = AuHandle::new(
        AudioComponent { address: 0x10 },
        &desc,
        0,
        AudioUnit { address: 0x20 },
    )
    .unwrap();
    let channels = AuBusLayout {
        inputs: ChannelLayout::stereo(),
        outputs: ChannelLayout::stereo(),
        has_input,
    };
    let config = StreamConfig::new(rate(44_100.0), 512, channels);
    let loaded = AuLoaded::with_layout(handle, config, Ok(channels)).unwrap();
    AuInstance::new(loaded, 0.0f32)
}

#[test]
fn test_new() {
    let inst = instance(true);
    assert!(!inst.is_initialized());
    assert_eq!(inst.raw_unit(), AudioUnit { address: 0x20 });
    assert_eq!(inst.au_type(), AuType::Effect);
    assert_eq!(inst.num_inputs(), 2);
    assert_eq!(inst.num_outputs(), 2);
    assert_eq!(inst.block_size(), 512);
    assert_eq!(inst.sample_rate(), rate(44_100.0));
    assert_eq!(instance(false).num_inputs(), 0);
}

#[test]
fn test_initialize_uninitialize() {
    let mut unit = FakeUnit::new();
    let mut inst = instance(true);

    assert!(!inst.is_initialized());
    unit.initialize(&mut inst).unwrap();
    assert!(inst.is_initialized());
    unit.uninitialize(&mut inst).unwrap();
    assert!(!inst.is_initialized());
    assert!(unit.uninitialize(&mut inst).is_ok(), "nothing to do");
}

#[test]
fn the_layout_recorded_is_the_one_the_unit_took() {
    let desc = AudioComponentDescription {
        component_type: 0,
        component_sub_type: 0,
        component_manufacturer: 0,
        component_flags: 0,
    };
    let make = || {
        AuHandle::new(
            AudioComponent { address: 1 },
            &desc,
            0,
            AudioUnit { address: 2 },
        )
        .unwrap()
    };
    let asked = AuBusLayout {
        inputs: ChannelLayout::mono(),
        outputs: ChannelLayout::mono(),
        has_input: true,
    };
    let took = AuBusLayout {
        outputs: ChannelLayout::stereo(),
        ..asked
    };
    let config = StreamConfig::new(rate(48_000.0), 64, asked);
    let loaded = AuLoaded::with_layout(make(), config, Ok(took)).unwrap();
    assert_eq!(loaded.config.channels, took);
    assert!(matches!(
        AuLoaded::with_layout(make(), config, Err(AuError::NullComponent)),
        Err(AuError::NullComponent)
    ));
}

fn process(
    inst: &mut AuInstance<f32>,
    input: &[Vec<f32>],
    output: &mut [Vec<f32>],
    frames: u32,
    rendered: f32,
    flags: u32,
) -> Result<u64, AuError> {
    let ins: Vec<&[f32]> = input.iter().map(|v| v.as_slice()).collect();
    let start = inst.begin_process(&ins, &[0x100, 0x200], frames)?;
    if let State::Ready(ready) = &mut inst.state {
        for ch in ready.scratch.outputs.iter_mut() {
            ch.fill(rendered);
        }
    }
    let mut outs: Vec<&mut [f32]> = output.iter_mut().map(|v| v.as_mut_slice()).collect();
    inst.finish_process(0, None, flags, &mut outs, frames)?;
    Ok(start)
}

#[test]
fn test_process_silence() {
    let mut unit = FakeUnit::new();
    let mut inst = instance(true);
    unit.initialize(&mut inst).unwrap();

    let input = vec![vec![0.0f32; 512]; 2];
    let mut output = vec![vec![9.0f32; 512]; 2];
    process(
        &mut inst,
        &input,
        &mut output,
        256,
        5.0,
        K_AUDIO_UNIT_RENDER_ACTION_OUTPUT_IS_SILENCE,
    )
    .unwrap();
    for ch in &output {
        assert!(ch[..256].iter().all(|s| *s == 0.0));
        assert!(
            ch[256..].iter().all(|s| *s == 9.0),
            "beyond the block nothing changes"
        );
    }
}

#[test]
fn test_process_audio() {
    let mut unit = FakeUnit::new();
    let mut inst = instance(true);
    unit.initialize(&mut inst).unwrap();

    let input = vec![vec![0.5f32; 512]; 2];
    let mut output = vec![vec![0.0f32; 512]; 2];
    assert_eq!(
        process(&mut inst, &input, &mut output, 512, 0.25, 0).unwrap(),
        0
    );
    assert_eq!(
        process(&mut inst, &input, &mut output, 512, 0.25, 0).unwrap(),
        512
    );
    assert!(output.iter().flatten().all(|s| *s == 0.25));
    match &inst.state {
        State::Ready(ready) => {
            assert!(ready.scratch.inputs.iter().flatten().all(|s| *s == 0.5));
            assert_eq!(ready.scratch.list.storage[0], 2);
            assert_eq!(ready.scratch.list.storage[2], 0x100);
            assert_eq!(ready.scratch.list.storage[4], 0x200);
        }
        _ => panic!("the instance is ready"),
    }
}

#[test]
fn rendering_is_refused_before_initialize_and_beyond_the_block() {
    let mut unit = FakeUnit::new();
    let mut inst = instance(true);
    assert!(matches!(
        inst.begin_process(&[], &[], 64),
        Err(AuError::OsStatus {
            function: "AuInstance::process",
            code: K_AUDIO_UNIT_ERR_UNINITIALIZED
        })
    ));
    unit.initialize(&mut inst).unwrap();
    match inst.begin_process(&[], &[], 513) {
        Err(AuError::InvalidBuffer(reason)) => {
            assert_eq!(reason, "num_frames (513) > block_size (512)");
        }
        _ => panic!("too large a block"),
    }
    assert_eq!(inst.begin_process(&[], &[1, 2], 512).unwrap(), 0);
}

#[test]
fn a_failed_render_leaves_the_output_alone() {
    let mut unit = FakeUnit::new();
    let mut inst = instance(true);
    unit.initialize(&mut inst).unwrap();
    let mut out = vec![3.0f32; 4];
    let mut outs: Vec<&mut [f32]> = vec![&mut out];
    assert!(matches!(
        inst.finish_process(-10874, Some(-50), 16, &mut outs, 4),
        Err(AuError::RenderFailed {
            function: "AudioUnitRender",
            code: -10874,
            last_render_error: Some(-50)
        })
    ));
    assert_eq!(out, vec![3.0; 4]);
}

#[test]
fn a_reset_restarts_the_clock() {
    let mut unit = FakeUnit::new();
    let mut inst = instance(true);
    assert!(inst.finish_reset(0).is_ok(), "legal before initialize");
    unit.initialize(&mut inst).unwrap();
    assert_eq!(inst.begin_process(&[], &[], 64).unwrap(), 0);
    assert!(matches!(
        inst.finish_reset(-10863),
        Err(AuError::OsStatus {
            function: "AudioUnitReset",
            code: -10863
        })
    ));
    assert_eq!(inst.begin_process(&[], &[], 64).unwrap(), 64);
    assert!(inst.finish_reset(0).is_ok());
    assert_eq!(inst.begin_process(&[], &[], 64).unwrap(), 0);
    assert_eq!(inst.begin_process(&[], &[], 64).unwrap(), 64);
}

#[test]
fn test_render_callback_installed_once() {
    let mut unit = FakeUnit::new();
    let mut inst = instance(true);
    unit.initialize(&mut inst).unwrap();
    assert_eq!(
        unit.installs, 1,
        "render callback should be installed exactly once at initialize"
    );

    let input = vec![vec![0.0f32; 512]; 2];
    let mut output = vec![vec![0.0f32; 512]; 2];
    for _ in 0..16 {
        process(&mut inst, &input, &mut output, 512, 0.0, 0).unwrap();
    }
    assert_eq!(
        unit.installs, 1,
        "process() must not re-install the render callback per block"
    );

    let mut instrument = FakeUnit::new();
    let mut inst = instance(false);
    instrument.initialize(&mut inst).unwrap();
    assert_eq!(
        instrument.installs, 0,
        "a unit without input takes no callback"
    );
}

#[test]
fn a_refused_initialize_leaves_the_instance_usable() {
    let mut unit = FakeUnit::new();
    let mut inst = instance(true);
    let unit_before = inst.raw_unit();

    unit.refuse_initialize = K_AUDIO_UNIT_ERR_FAILED_INITIALIZATION;
    assert!(matches!(
        unit.initialize(&mut inst),
        Err(AuError::OsStatus {
            function: "AudioUnitInitialize",
            code: K_AUDIO_UNIT_ERR_FAILED_INITIALIZATION
        })
    ));
    assert!(!inst.is_initialized());
    assert_eq!(
        inst.raw_unit(),
        unit_before,
        "a refused initialize replaced the underlying unit"
    );
    let _ = inst.au_type();
    let _ = inst.num_outputs();

    unit.refuse_initialize = 0;
    unit.initialize(&mut inst).unwrap();
    assert!(inst.is_initialized());
}

#[test]
fn a_refused_callback_is_backed_out_of() {
    let mut unit = FakeUnit::new();
    let mut inst = instance(true);
    unit.refuse_install = -10877;
    assert!(matches!(
        unit.initialize(&mut inst),
        Err(AuError::OsStatus {
            function: "AudioUnitSetProperty",
            code: -10877
        })
    ));
    assert!(!inst.is_initialized());
    assert!(!unit.initialized);
    assert_eq!(inst.num_outputs(), 2);

    unit.refuse_uninitialize = -1;
    assert_eq!(unit.discarded, 0);
    assert!(matches!(
        unit.initialize(&mut inst),
        Err(AuError::OsStatus {
            function: "AudioUnitSetProperty",
            code: -10877
        })
    ));
    assert_eq!(unit.discarded, 1);
    assert!(matches!(inst.state, State::Empty));
    assert!(inst.teardown().is_empty());
    assert!(!inst.is_initialized());

    // Nothing is left to change.
    assert!(matches!(inst.set_sample_rate(rate(96_000.0)), Some(Ok(()))));
    assert!(matches!(inst.set_block_size(256), Some(Ok(()))));
    assert!(matches!(
        inst.set_block_size(0),
        Some(Err(AuError::InvalidBuffer(_)))
    ));
    assert!(inst.request().is_none());
}

#[test]
fn the_buffers_stay_until_a_stuck_unit_is_discarded() {
    let mut inst = instance(true);
    assert!(inst.initialize().is_none());
    assert!(inst.answer(UnitReply::Status(0)).is_none());
    assert_eq!(inst.request(), Some(UnitRequest::InstallInputCallback));
    assert!(inst.answer(UnitReply::Status(-10877)).is_none());
    assert_eq!(inst.request(), Some(UnitRequest::Uninitialize));
    assert!(inst.answer(UnitReply::Status(-1)).is_none());
    assert_eq!(inst.request(), Some(UnitRequest::Discard));
    assert!(matches!(inst.state, State::Ready(_)));
    assert_eq!(
        inst.teardown(),
        vec![
            TeardownStep::Uninitialize,
            TeardownStep::Dispose,
            TeardownStep::FreeScratch
        ]
    );
    assert!(inst.answer(UnitReply::Status(0)).is_some());
    assert!(matches!(inst.state, State::Empty));
}

#[test]
fn a_refused_uninitialize_leaves_the_instance_ready() {
    let mut unit = FakeUnit::new();
    let mut inst = instance(true);
    unit.initialize(&mut inst).unwrap();
    unit.refuse_uninitialize = -10863;
    assert!(matches!(
        unit.uninitialize(&mut inst),
        Err(AuError::OsStatus {
            function: "AudioUnitUninitialize",
            code: -10863
        })
    ));
    assert!(inst.is_initialized());
    assert!(unit.set_sample_rate(&mut inst, 96_000.0).is_err());
    assert!(inst.is_initialized());
    assert_eq!(inst.sample_rate(), rate(44_100.0));
}

#[test]
fn test_set_sample_rate() {
    let mut unit = FakeUnit::new();
    let mut inst = instance(true);
    unit.initialize(&mut inst).unwrap();
    unit.set_sample_rate(&mut inst, 48_000.0).unwrap();
    assert_eq!(inst.sample_rate(), rate(48_000.0));
    assert!(inst.is_initialized());
}

#[test]
fn set_sample_rate_ok_means_the_au_really_moved() {
    let mut unit = FakeUnit::new();
    let mut inst = instance(true);
    unit.initialize(&mut inst).unwrap();

    for v in [48000.0f64, 96000.0, 44100.0] {
        if v == 96000.0 {
            unit.fixed_rate = Some(48000.0);
        } else {
            unit.fixed_rate = None;
        }
        if unit.set_sample_rate(&mut inst, v).is_err() {
            assert_ne!(
                inst.sample_rate(),
                rate(v),
                "a rejected rate must not be left in the config"
            );
            continue;
        }
        assert_eq!(inst.sample_rate(), rate(v));
        assert!(
            (unit.rate - v).abs() < 1e-6,
            "set_sample_rate({v}) returned Ok but the AU is at {}",
            unit.rate
        );
    }
}

#[test]
fn an_unusual_rate_cannot_be_reported_as_accepted_unless_it_was() {
    let mut unit = FakeUnit::new();
    let mut inst = instance(true);
    unit.initialize(&mut inst).unwrap();
    unit.fixed_rate = Some(44_100.0);

    let absurd = 1.0f64;
    assert!(matches!(
        unit.set_sample_rate(&mut inst, absurd),
        Err(AuError::SampleRateRejected {
            scope: "output",
            ..
        })
    ));
    assert_ne!(inst.sample_rate(), rate(absurd));
    assert!(inst.is_initialized(), "the unit is ready again");
    assert_eq!(unit.requested_rate, 44_100.0, "the old rate was applied again");
}

#[test]
fn a_block_size_is_changed_or_rolled_back() {
    let mut unit = FakeUnit::new();
    let mut inst = instance(true);
    unit.initialize(&mut inst).unwrap();
    unit.set_block_size(&mut inst, 1024).unwrap();
    assert_eq!(inst.block_size(), 1024);
    assert!(inst.is_initialized());
    match &inst.state {
        State::Ready(ready) => assert_eq!(ready.scratch.outputs[0].len(), 1024),
        _ => panic!("the instance is ready"),
    }

    unit.fixed_frames = Some(1024);
    assert!(matches!(
        unit.set_block_size(&mut inst, 64),
        Err(AuError::BlockSizeRejected {
            requested: 64,
            accepted: 1024
        })
    ));
    assert_eq!(inst.block_size(), 1024);
    assert!(inst.is_initialized());

    match unit.set_block_size(&mut inst, 0) {
        Err(AuError::InvalidBuffer(reason)) => assert_eq!(reason, "block_size must be non-zero"),
        _ => panic!("zero is refused"),
    }
    assert!(unit.set_block_size(&mut inst, 1024).is_ok());
}

#[test]
fn a_changed_layout_is_recorded_with_the_rate() {
    let mut unit = FakeUnit::new();
    let mut inst = instance(true);
    unit.channels = 6;
    unit.set_sample_rate(&mut inst, 48_000.0).unwrap();
    assert_eq!(inst.num_outputs(), 6);
    assert!(!inst.is_initialized());
    unit.initialize(&mut inst).unwrap();
    match &inst.state {
        State::Ready(ready) => assert_eq!(ready.scratch.outputs.len(), 6),
        _ => panic!("the instance is ready"),
    }
}

#[test]
fn a_transport_is_published_only_where_it_can_be_pulled() {
    let mut inst = instance(true);
    let info = TransportInfo {
        tempo: Bpm(rate(99.0)),
        beats_per_bar: 3,
        note_value: 4,
        position: Beat(rate(1.0)),
        samples: None,
        bar_start: Beat(rate(0.0)),
        loop_start: Beat(rate(0.0)),
        loop_end: Beat(rate(0.0)),
        playing: true,
        recording: false,
        cycle_active: false,
    };
    assert!(inst.transport().is_none());
    assert!(!inst.set_transport(&info, true));
    inst.prepare_host_callbacks();
    assert!(!inst.transport().unwrap().is_playing());
    assert!(inst.set_transport(&info, true));
    inst.prepare_host_callbacks();
    assert_eq!(
        inst.transport().unwrap().tempo(),
        Bpm(rate(99.0)),
        "a second preparation keeps the transport"
    );
    assert_eq!(
        inst.teardown(),
        vec![
            TeardownStep::WithdrawHostCallbacks,
            TeardownStep::Dispose,
            TeardownStep::FreeTransport
        ]
    );
    let mut unit = FakeUnit::new();
    unit.initialize(&mut inst).unwrap();
    assert_eq!(
        inst.teardown(),
        vec![
            TeardownStep::Uninitialize,
            TeardownStep::WithdrawHostCallbacks,
            TeardownStep::Dispose,
            TeardownStep::FreeTransport,
            TeardownStep::FreeScratch
        ]
    );
}

#[test]
fn presets_and_bypass_work_before_initialize() {
    let mut unit = FakeUnit::new();
    let inst = instance(true);
    assert!(!inst.is_initialized());

    // The unit ships no presets: the read fails and is absorbed.
    assert!(factory_presets(None).is_empty());
    unit.set_bypass(&inst, true)
        .expect("bypass in the loaded state");
    assert_eq!(unit.bypass, Some(1));
    assert!(unit.is_bypassed(&inst).unwrap());
    unit.set_bypass(&inst, false).unwrap();
    assert_eq!(unit.bypass, Some(0));
    assert!(!unit.is_bypassed(&inst).unwrap());
    assert!(!inst.is_initialized());
}

#[test]
fn a_unit_without_a_bypass_refuses() {
    let mut unit = FakeUnit::new();
    unit.bypass = None;
    let inst = instance(false);
    assert!(matches!(
        unit.set_bypass(&inst, true),
        Err(AuError::OsStatus {
            function: "AudioUnitSetProperty",
            code: K_AUDIO_UNIT_ERR_INVALID_PROPERTY
        })
    ));
    assert!(matches!(
        unit.is_bypassed(&inst),
        Err(AuError::OsStatus {
            function: "AudioUnitGetProperty",
            code: K_AUDIO_UNIT_ERR_INVALID_PROPERTY
        })
    ));
}

#[test]
fn buffers_are_fresh_or_left_alone() {
    let mut unit = FakeUnit::new();
    let mut inst = instance(true);
    unit.initialize(&mut inst).unwrap();
    let input = [0.5f32; 64];
    inst.begin_process(&[&input, &input], &[8, 16], 64).unwrap();

    // A refused take-down leaves the buffers and the clock as they are.
    unit.refuse_uninitialize = -1;
    assert!(unit.uninitialize(&mut inst).is_err());
    assert!(unit.set_sample_rate(&mut inst, 48_000.0).is_err());
    assert!(unit.set_block_size(&mut inst, 256).is_err());
    match &inst.state {
        State::Ready(r) => {
            assert_eq!(r.scratch.position(), 64);
            assert_eq!(r.scratch.inputs[0][63], 0.5);
        }
        _ => panic!("the unit stays ready"),
    }

    // A unit made ready again starts over, in silence.
    unit.refuse_uninitialize = 0;
    unit.set_sample_rate(&mut inst, 48_000.0).unwrap();
    match &inst.state {
        State::Ready(r) => {
            assert_eq!(r.scratch.position(), 0);
            assert_eq!(r.scratch.silence, 0.0);
            assert!(r.scratch.inputs.iter().flatten().all(|v| *v == 0.0));
            assert!(r.scratch.outputs.iter().flatten().all(|v| *v == 0.0));
            assert!(r.scratch.list.storage.iter().all(|w| *w == 0));
        }
        _ => panic!("the unit is ready again"),
    }
}

#[test]
fn test_get_name() {
    let inst = instance(true);
    let name = inst.get_name(0, Some("Apple: AUDelay".to_string())).unwrap();
    assert!(!name.is_empty());
    assert_eq!(name, "Apple: AUDelay");
    assert_eq!(inst.get_name(-1, None).unwrap(), "<unknown>");
    assert_eq!(inst.get_name(0, None).unwrap(), "<unknown>");
}

#[test]
fn test_parameter_list() {
    let mut unit = FakeUnit::new();
    let mut inst = instance(true);
    unit.initialize(&mut inst).unwrap();

    let params = unit.parameter_list(&inst);
    assert!(!params.is_empty());
    assert_eq!(params[1].id, 2);
}

#[test]
fn test_get_set_parameter() {
    let mut unit = FakeUnit::new();
    let mut inst = instance(true);
    unit.initialize(&mut inst).unwrap();

    let params = unit.parameter_list(&inst);
    let p = &params[0];
    let mid = (f32::from_bits(p.range.min.bits) + f32::from_bits(p.range.max.bits)) * 0.5;
    unit.set_parameter(&inst, p.id, mid).unwrap();
    let val = unit.get_parameter(&inst, p.id).unwrap();
    assert!((val - mid).abs() < 0.01);

    assert!(matches!(
        unit.set_parameter(&inst, 99, mid),
        Err(AuError::OsStatus {
            function: "AUParameterSet",
            code: -10878
        })
    ));
    assert!(matches!(
        unit.get_parameter(&inst, 99),
        Err(AuError::OsStatus {
            function: "AudioUnitGetParameter",
            code: -10878
        })
    ));
}
