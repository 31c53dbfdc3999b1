//! The stream configuration of a unit, and the exchange in which a unit is
//! given one and says what it took.
//!
//! A unit may keep a channel layout of its own, so the layout it reports
//! afterwards is the one that counts. A sample rate it did not take is an
//! error: everything downstream trusts the recorded rate.
use vstd::prelude::*;
use crate::bus::{stream_width, BusDirection, ChannelLayout};
use crate::error::{outcome, status_outcome, AuError, ErrorView};
use crate::ffi::check;
use crate::float::Float64;

verus! {

/// The widths of a unit's first buses.
#[derive(Clone, Copy, Debug, PartialEq, Eq, Structural)]
pub struct AuBusLayout {
    /// The input width; it means something only where there is an input.
    pub inputs: ChannelLayout,
    /// The output width.
    pub outputs: ChannelLayout,
    /// Whether the unit has an input bus at all.
    pub has_input: bool,
}

/// What is applied to a unit before it is initialized.
#[derive(Clone, Copy, Debug, PartialEq)]
pub struct StreamConfig {
    /// The sample rate in hertz.
    pub sample_rate: Float64,
    /// The most frames that the unit is asked to render at once.
    pub block_size: u32,
    /// The widths of the first buses.
    pub channels: AuBusLayout,
}

/// A unit's answer to a stream-format read.
#[derive(Clone, Copy, Debug, PartialEq)]
pub struct StreamFormat {
    /// The rate the unit reports.
    pub sample_rate: Float64,
    /// The channels the unit reports.
    pub channels_per_frame: u32,
    /// Whether the reported rate is unset or, up to rounding, the one asked
    /// for.
    pub rate_agrees: bool,
}

/// What the unit is asked.
#[derive(Clone, Copy, Debug, PartialEq)]
pub enum StreamRequest {
    /// Set the largest block.
    SetMaximumFrames { frames: u32 },
    /// Set the sample rate of one side.
    SetSampleRate { direction: BusDirection, rate: Float64 },
    /// Set the stream format of one side.
    SetFormat { direction: BusDirection, rate: Float64, channels: u16 },
    /// Read the stream format of one side.
    ReadFormat { direction: BusDirection },
}

/// What the unit answers.
#[derive(Clone, Copy, Debug, PartialEq)]
pub enum StreamReply {
    /// The status of a write.
    Written { status: i32 },
    /// The format that was read, or `None` where the read failed.
    Format { format: Option<StreamFormat> },
}

/// Where applying a configuration stands: which request is out.
#[derive(Clone, Copy, Debug, PartialEq, Eq, Structural)]
pub enum ApplyStage {
    MaximumFrames,
    OutputRate,
    InputRate,
    OutputFormat,
    OutputReadback,
    InputFormat,
    InputReadback,
}

impl ApplyStage {
    /// How many requests may still come, this one included.
    pub open spec fn requests_left(self) -> nat {
        match self {
            ApplyStage::MaximumFrames => 7,
            ApplyStage::OutputRate => 6,
            ApplyStage::InputRate => 5,
            ApplyStage::OutputFormat => 4,
            ApplyStage::OutputReadback => 3,
            ApplyStage::InputFormat => 2,
            ApplyStage::InputReadback => 1,
        }
    }

    /// Whether the request of the stage is a read.
    pub open spec fn reads(self) -> bool {
        self == ApplyStage::OutputReadback || self == ApplyStage::InputReadback
    }
}

/// Applying a configuration to a unit, one request at a time.
#[derive(Clone, Copy, Debug, PartialEq)]
pub struct StreamApply {
    /// What is being applied.
    pub config: StreamConfig,
    /// Which request is out.
    pub stage: ApplyStage,
    /// The output layout known so far.
    pub outputs: ChannelLayout,
}

/// What applying a configuration comes to after an answer: the next request's
/// stage, or the end.
pub ghost enum ApplyStep {
    Ask { next: StreamApply },
    Finished { result: Result<AuBusLayout, ErrorView> },
}

/// How a rejected rate is reported.
pub open spec fn rate_rejected(
    config: StreamConfig,
    direction: BusDirection,
    format: StreamFormat,
) -> ErrorView {
    ErrorView::SampleRateRejected {
        scope: direction.name_of(),
        requested: config.sample_rate,
        accepted: format.sample_rate,
    }
}

/// The layout that a side runs at: what the unit reports, or what was asked for
/// where it reports nothing.
pub open spec fn effective(format: Option<StreamFormat>, requested: ChannelLayout) -> u16 {
    match format {
        Some(f) => stream_width(f.channels_per_frame),
        None => requested.width(),
    }
}

impl StreamApply {
    /// The request that is out.
    pub open spec fn asks(self) -> StreamRequest {
        let c = self.config;
        match self.stage {
            ApplyStage::MaximumFrames => StreamRequest::SetMaximumFrames { frames: c.block_size },
            ApplyStage::OutputRate => StreamRequest::SetSampleRate {
                direction: BusDirection::Output,
                rate: c.sample_rate,
            },
            ApplyStage::InputRate => StreamRequest::SetSampleRate {
                direction: BusDirection::Input,
                rate: c.sample_rate,
            },
            ApplyStage::OutputFormat => StreamRequest::SetFormat {
                direction: BusDirection::Output,
                rate: c.sample_rate,
                channels: c.channels.outputs.width(),
            },
            ApplyStage::OutputReadback => StreamRequest::ReadFormat {
                direction: BusDirection::Output,
            },
            ApplyStage::InputFormat => StreamRequest::SetFormat {
                direction: BusDirection::Input,
                rate: c.sample_rate,
                channels: c.channels.inputs.width(),
            },
            ApplyStage::InputReadback => StreamRequest::ReadFormat {
                direction: BusDirection::Input,
            },
        }
    }

    /// Whether an answer is of the kind that the request calls for.
    pub open spec fn answered_by(self, reply: StreamReply) -> bool {
        self.stage.reads() == (reply is Format)
    }

    /// Whether the input side comes up only where there is one.
    pub open spec fn wf(self) -> bool {
        self.stage == ApplyStage::InputRate || self.stage == ApplyStage::InputFormat || self.stage
            == ApplyStage::InputReadback ==> self.config.channels.has_input
    }

    /// The same exchange at another request.
    pub open spec fn at(self, stage: ApplyStage) -> StreamApply {
        StreamApply { stage, ..self }
    }

    /// The end of the exchange at a given layout.
    pub open spec fn finished(self, inputs: ChannelLayout, outputs: ChannelLayout) -> ApplyStep {
        ApplyStep::Finished {
            result: Ok(
                AuBusLayout { inputs, outputs, has_input: self.config.channels.has_input },
            ),
        }
    }

    /// What follows an answer.
    ///
    /// Only the largest block must be taken; a refused rate or format write is
    /// not an error by itself, since what the unit reports afterwards decides.
    pub open spec fn step(self, reply: StreamReply) -> ApplyStep {
        let has_input = self.config.channels.has_input;
        match self.stage {
            ApplyStage::MaximumFrames => match status_outcome(
                "AudioUnitSetProperty"@,
                reply->status,
            ) {
                Err(e) => ApplyStep::Finished { result: Err(e) },
                Ok(_) => ApplyStep::Ask { next: self.at(ApplyStage::OutputRate) },
            },
            ApplyStage::OutputRate => if has_input {
                ApplyStep::Ask { next: self.at(ApplyStage::InputRate) }
            } else {
                ApplyStep::Ask { next: self.at(ApplyStage::OutputFormat) }
            },
            ApplyStage::InputRate => ApplyStep::Ask { next: self.at(ApplyStage::OutputFormat) },
            ApplyStage::OutputFormat => ApplyStep::Ask { next: self.at(ApplyStage::OutputReadback) },
            ApplyStage::OutputReadback => match reply->format {
                Some(f) => if !f.rate_agrees {
                    ApplyStep::Finished {
                        result: Err(rate_rejected(self.config, BusDirection::Output, f)),
                    }
                } else {
                    self.after_outputs(ChannelLayout::of_width(stream_width(f.channels_per_frame)))
                },
                None => self.after_outputs(self.config.channels.outputs),
            },
            ApplyStage::InputFormat => ApplyStep::Ask { next: self.at(ApplyStage::InputReadback) },
            ApplyStage::InputReadback => match reply->format {
                Some(f) => if !f.rate_agrees {
                    ApplyStep::Finished {
                        result: Err(rate_rejected(self.config, BusDirection::Input, f)),
                    }
                } else {
                    self.finished(
                        ChannelLayout::of_width(stream_width(f.channels_per_frame)),
                        self.outputs,
                    )
                },
                None => self.finished(self.config.channels.inputs, self.outputs),
            },
        }
    }

    /// What follows once the output layout is known.
    pub open spec fn after_outputs(self, outputs: ChannelLayout) -> ApplyStep {
        if self.config.channels.has_input {
            ApplyStep::Ask { next: StreamApply { outputs, ..self.at(ApplyStage::InputFormat) } }
        } else {
            self.finished(self.config.channels.inputs, outputs)
        }
    }

    /// The request that is out.
    pub fn request(&self) -> (r: StreamRequest)
        ensures
            r == self.asks(),
    {
        let c = self.config;
        match self.stage {
            ApplyStage::MaximumFrames => StreamRequest::SetMaximumFrames { frames: c.block_size },
            ApplyStage::OutputRate => StreamRequest::SetSampleRate {
                direction: BusDirection::Output,
                rate: c.sample_rate,
            },
            ApplyStage::InputRate => StreamRequest::SetSampleRate {
                direction: BusDirection::Input,
                rate: c.sample_rate,
            },
            ApplyStage::OutputFormat => StreamRequest::SetFormat {
                direction: BusDirection::Output,
                rate: c.sample_rate,
                channels: c.channels.outputs.count(),
            },
            ApplyStage::OutputReadback => StreamRequest::ReadFormat {
                direction: BusDirection::Output,
            },
            ApplyStage::InputFormat => StreamRequest::SetFormat {
                direction: BusDirection::Input,
                rate: c.sample_rate,
                channels: c.channels.inputs.count(),
            },
            ApplyStage::InputReadback => StreamRequest::ReadFormat {
                direction: BusDirection::Input,
            },
        }
    }

    /// Takes the unit's answer. `None` means that another request is out now;
    /// otherwise this is what applying the configuration came to: the layout
    /// that the unit actually runs, or why it failed.
    pub fn answer(&mut self, reply: StreamReply) -> (done: Option<Result<AuBusLayout, AuError>>)
        requires
            old(self).wf(),
            old(self).answered_by(reply),
        ensures
            done is None ==> old(self).step(reply) == (ApplyStep::Ask { next: *final(self) }),
            done matches Some(result) ==> old(self).step(reply) == (ApplyStep::Finished {
                result: outcome(result),
            }),
            final(self).wf(),
            final(self).config == old(self).config,
            done is None ==> final(self).stage.requests_left() < old(self).stage.requests_left(),
    {
        let has_input = self.config.channels.has_input;
        match reply {
            StreamReply::Written { status } => {
                match self.stage {
                    ApplyStage::MaximumFrames => {
                        match check("AudioUnitSetProperty", status) {
                            Err(e) => {
                                return Some(Err(e));
                            },
                            Ok(()) => {},
                        }
                        self.stage = ApplyStage::OutputRate;
                    },
                    ApplyStage::OutputRate => {
                        self.stage = if has_input {
                            ApplyStage::InputRate
                        } else {
                            ApplyStage::OutputFormat
                        };
                    },
                    ApplyStage::InputRate => {
                        self.stage = ApplyStage::OutputFormat;
                    },
                    ApplyStage::OutputFormat => {
                        self.stage = ApplyStage::OutputReadback;
                    },
                    _ => {
                        self.stage = ApplyStage::InputReadback;
                    },
                }
                None
            },
            StreamReply::Format { format } => {
                if let ApplyStage::OutputReadback = self.stage {
                    let mut outputs = self.config.channels.outputs;
                    if let Some(f) = format {
                        if let Err(e) = self.config.check_sample_rate(BusDirection::Output, f) {
                            return Some(Err(e));
                        }
                        outputs = ChannelLayout::of_stream(f.channels_per_frame);
                    }
                    if has_input {
                        self.outputs = outputs;
                        self.stage = ApplyStage::InputFormat;
                        return None;
                    }
                    Some(Ok(AuBusLayout { inputs: self.config.channels.inputs, outputs, has_input }))
                } else {
                    let mut inputs = self.config.channels.inputs;
                    if let Some(f) = format {
                        if let Err(e) = self.config.check_sample_rate(BusDirection::Input, f) {
                            return Some(Err(e));
                        }
                        inputs = ChannelLayout::of_stream(f.channels_per_frame);
                    }
                    Some(Ok(AuBusLayout { inputs, outputs: self.outputs, has_input }))
                }
            },
        }
    }
}

/// The layout that a unit is taken to have, from its answers to a probe.
pub open spec fn probed(
    output: Option<u32>,
    input_elements: u32,
    input: Option<u32>,
) -> AuBusLayout {
    let width_of = |format: Option<u32>| match format {
        Some(n) => stream_width(n),
        None => 2u16,
    };
    AuBusLayout {
        outputs: ChannelLayout::of_width(width_of(output)),
        inputs: ChannelLayout::of_width(
            if input_elements > 0 {
                width_of(input)
            } else {
                0
            },
        ),
        has_input: input_elements > 0,
    }
}

impl StreamConfig {
    /// A configuration from its parts.
    pub fn new(sample_rate: Float64, block_size: u32, channels: AuBusLayout) -> (c: StreamConfig)
        ensures
            c == (StreamConfig { sample_rate, block_size, channels }),
    {
        StreamConfig { sample_rate, block_size, channels }
    }

    /// The layout that a unit is taken to have, from the channels it reports on
    /// its first output bus, the number of its input buses, and the channels it
    /// reports on the first of those.
    ///
    /// Whether there is an input is what the unit says of its buses, not whether
    /// it was willing to report a format. Where a format is not reported, stereo
    /// is assumed.
    pub fn probe(output: Option<u32>, input_elements: u32, input: Option<u32>) -> (l: AuBusLayout)
        ensures
            l == probed(output, input_elements, input),
    {
        let outputs = match output {
            Some(n) => ChannelLayout::of_stream(n),
            None => ChannelLayout::stereo(),
        };
        let has_input = input_elements > 0;
        let inputs = if has_input {
            match input {
                Some(n) => ChannelLayout::of_stream(n),
                None => ChannelLayout::stereo(),
            }
        } else {
            ChannelLayout::new(0)
        };
        AuBusLayout { inputs, outputs, has_input }
    }

    /// The layout asked for where a caller names none: what was probed, but at
    /// least stereo out, so that no channel of a stereo track is dropped.
    pub fn default_layout(probed: AuBusLayout) -> (l: AuBusLayout)
        ensures
            l.inputs == probed.inputs,
            l.has_input == probed.has_input,
            l.outputs.width() == (if probed.outputs.width() < 2 {
                2
            } else {
                probed.outputs.width()
            }),
    {
        let outputs = if probed.outputs.count() < 2 {
            ChannelLayout::stereo()
        } else {
            probed.outputs
        };
        AuBusLayout { inputs: probed.inputs, outputs, has_input: probed.has_input }
    }

    /// Begins applying the configuration to a unit.
    pub fn apply(&self) -> (a: StreamApply)
        ensures
            a == self.applying(),
            a.wf(),
    {
        StreamApply {
            config: *self,
            stage: ApplyStage::MaximumFrames,
            outputs: self.channels.outputs,
        }
    }

    /// The exchange at its first request.
    pub open spec fn applying(self) -> StreamApply {
        StreamApply {
            config: self,
            stage: ApplyStage::MaximumFrames,
            outputs: self.channels.outputs,
        }
    }

    /// Whether the rate that a side reports is acceptable: unset, or the one
    /// asked for. Any other rate is reported with both values as they are.
    pub fn check_sample_rate(&self, direction: BusDirection, format: StreamFormat) -> (r: Result<
        (),
        AuError,
    >)
        ensures
            r is Ok <==> format.rate_agrees,
            r matches Err(e) ==> e@ == (ErrorView::SampleRateRejected {
                scope: direction.name_of(),
                requested: self.sample_rate,
                accepted: format.sample_rate,
            }),
            outcome(r) == (if format.rate_agrees {
                Ok(())
            } else {
                Err(rate_rejected(*self, direction, format))
            }),
    {
        if format.rate_agrees {
            return Ok(());
        }
        Err(
            AuError::SampleRateRejected {
                scope: direction.name(),
                requested: self.sample_rate,
                accepted: format.sample_rate,
            },
        )
    }

    /// What the block size that a unit reports back comes to.
    pub open spec fn block_size_verdict(self, status: i32, reported: u32) -> Result<(), ErrorView> {
        match status_outcome("AudioUnitGetProperty"@, status) {
            Err(e) => Err(e),
            Ok(_) => if reported == self.block_size {
                Ok(())
            } else {
                Err(
                    ErrorView::BlockSizeRejected {
                        requested: self.block_size,
                        accepted: reported,
                    },
                )
            },
        }
    }

    /// Whether the unit runs at the configured block size, given its answer to
    /// reading the largest block back. A unit that runs at another one, or does
    /// not say, cannot be trusted with blocks of this size.
    pub fn verify_block_size(&self, status: i32, reported: u32) -> (r: Result<(), AuError>)
        ensures
            outcome(r) == self.block_size_verdict(status, reported),
    {
        match check("AudioUnitGetProperty", status) {
            Err(e) => Err(e),
            Ok(()) => if reported == self.block_size {
                Ok(())
            } else {
                Err(
                    AuError::BlockSizeRejected { requested: self.block_size, accepted: reported },
                )
            },
        }
    }
}

// ---------------------------------------------------------------------------
// Laws
// ---------------------------------------------------------------------------
/// A unit's answers to one application of a configuration, by request.
pub ghost struct ApplyAnswers {
    pub maximum_frames: i32,
    pub other_write: spec_fn(ApplyStage) -> i32,
    pub output: Option<StreamFormat>,
    pub input: Option<StreamFormat>,
}

impl ApplyAnswers {
    /// The answer to the request of a stage.
    pub open spec fn to(self, stage: ApplyStage) -> StreamReply {
        match stage {
            ApplyStage::MaximumFrames => StreamReply::Written { status: self.maximum_frames },
            ApplyStage::OutputReadback => StreamReply::Format { format: self.output },
            ApplyStage::InputReadback => StreamReply::Format { format: self.input },
            _ => StreamReply::Written { status: (self.other_write)(stage) },
        }
    }
}

/// Whether a unit reports a rate other than the one asked for.
pub open spec fn disagrees(format: Option<StreamFormat>) -> bool {
    format is Some && !format->0.rate_agrees
}

/// What an exchange comes to under given answers.
pub open spec fn conclusion(a: StreamApply, answers: ApplyAnswers) -> Result<AuBusLayout, ErrorView>
    decreases a.stage.requests_left(),
{
    match a.step(answers.to(a.stage)) {
        ApplyStep::Finished { result } => result,
        ApplyStep::Ask { next } => conclusion(next, answers),
    }
}

/// What applying a configuration comes to, whatever the unit answers: a refused
/// block size and a rate that the unit does not run at are errors, the output
/// side before the input side; otherwise the layout is what the unit reports,
/// and the layout asked for where it reports none. How the unit answers the
/// other writes does not matter.
pub proof fn applying_reports_what_the_unit_runs(config: StreamConfig, answers: ApplyAnswers)
    ensures
        ({
            let result = conclusion(config.applying(), answers);
            let has_input = config.channels.has_input;
            match status_outcome("AudioUnitSetProperty"@, answers.maximum_frames) {
                Err(e) => result == Err::<AuBusLayout, ErrorView>(e),
                Ok(_) => if disagrees(answers.output) {
                    result == Err::<AuBusLayout, ErrorView>(
                        rate_rejected(config, BusDirection::Output, answers.output->0),
                    )
                } else if has_input && disagrees(answers.input) {
                    result == Err::<AuBusLayout, ErrorView>(
                        rate_rejected(config, BusDirection::Input, answers.input->0),
                    )
                } else {
                    &&& result is Ok
                    &&& result->Ok_0.has_input == has_input
                    &&& result->Ok_0.outputs.width() == effective(
                        answers.output,
                        config.channels.outputs,
                    )
                    &&& result->Ok_0.inputs.width() == (if has_input {
                        effective(answers.input, config.channels.inputs)
                    } else {
                        config.channels.inputs.width()
                    })
                },
            }
        }),
{
    broadcast use crate::bus::a_layout_is_that_wide;

    reveal_with_fuel(conclusion, 8);
}

/// Only the input side of a unit that has one is ever asked about.
pub proof fn a_unit_without_input_is_not_asked_about_it(a: StreamApply)
    requires
        a.wf(),
        !a.config.channels.has_input,
    ensures
        a.asks() matches StreamRequest::SetSampleRate { direction, .. } ==> direction
            == BusDirection::Output,
        a.asks() matches StreamRequest::SetFormat { direction, .. } ==> direction
            == BusDirection::Output,
        a.asks() matches StreamRequest::ReadFormat { direction } ==> direction
            == BusDirection::Output,
{
}

/// Whatever a unit is asked carries what is configured: the block size, the
/// sample rate, and of each side the width of that side.
pub proof fn every_request_carries_the_configuration(a: StreamApply)
    ensures
        a.asks() matches StreamRequest::SetMaximumFrames { frames } ==> frames
            == a.config.block_size,
        a.asks() matches StreamRequest::SetSampleRate { rate, .. } ==> rate == a.config.sample_rate,
        a.asks() matches StreamRequest::SetFormat { direction, rate, channels } ==> {
            &&& rate == a.config.sample_rate
            &&& direction == BusDirection::Input ==> channels == a.config.channels.inputs.width()
            &&& direction == BusDirection::Output ==> channels == a.config.channels.outputs.width()
        },
{
}

/// The requests that are made, in order, under given answers.
pub open spec fn exchanged(a: StreamApply, answers: ApplyAnswers) -> Seq<StreamRequest>
    decreases a.stage.requests_left(),
{
    match a.step(answers.to(a.stage)) {
        ApplyStep::Finished { .. } => seq![a.asks()],
        ApplyStep::Ask { next } => seq![a.asks()] + exchanged(next, answers),
    }
}

/// A unit that raises no objection is asked everything, once and in order: the
/// block size, the rate of each side, and for each side first its format and then
/// what became of it. A unit without input is asked about its output alone.
pub proof fn a_unit_is_asked_everything_in_order(config: StreamConfig, answers: ApplyAnswers)
    requires
        answers.maximum_frames == 0,
        answers.output matches Some(f) ==> f.rate_agrees,
        config.channels.has_input ==> (answers.input matches Some(f) ==> f.rate_agrees),
    ensures
        ({
            let asked = exchanged(config.applying(), answers);
            let rate = config.sample_rate;
            if config.channels.has_input {
                &&& asked.len() == 7
                &&& asked[0] == (StreamRequest::SetMaximumFrames { frames: config.block_size })
                &&& asked[1] == (StreamRequest::SetSampleRate {
                    direction: BusDirection::Output,
                    rate,
                })
                &&& asked[2] == (StreamRequest::SetSampleRate {
                    direction: BusDirection::Input,
                    rate,
                })
                &&& asked[3] == (StreamRequest::SetFormat {
                    direction: BusDirection::Output,
                    rate,
                    channels: config.channels.outputs.width(),
                })
                &&& asked[4] == (StreamRequest::ReadFormat { direction: BusDirection::Output })
                &&& asked[5] == (StreamRequest::SetFormat {
                    direction: BusDirection::Input,
                    rate,
                    channels: config.channels.inputs.width(),
                })
                &&& asked[6] == (StreamRequest::ReadFormat { direction: BusDirection::Input })
            } else {
                &&& asked.len() == 4
                &&& asked[0] == (StreamRequest::SetMaximumFrames { frames: config.block_size })
                &&& asked[1] == (StreamRequest::SetSampleRate {
                    direction: BusDirection::Output,
                    rate,
                })
                &&& asked[2] == (StreamRequest::SetFormat {
                    direction: BusDirection::Output,
                    rate,
                    channels: config.channels.outputs.width(),
                })
                &&& asked[3] == (StreamRequest::ReadFormat { direction: BusDirection::Output })
            }
        }),
{
    reveal_with_fuel(exchanged, 8);
}

/// A configuration takes effect as the unit reports it: each side is as wide as
/// the unit says, or as it was asked to be where the unit says nothing. A block
/// size that is not taken is an error with the unit's status, and a rate that does
/// not agree is one with the side, the rate asked for and the rate reported.
pub proof fn a_configuration_takes_effect_as_reported(
    config: StreamConfig,
    answers: ApplyAnswers,
)
    ensures
        ({
            let result = conclusion(config.applying(), answers);
            let out_disagrees = answers.output is Some && !answers.output->0.rate_agrees;
            let in_disagrees = config.channels.has_input && answers.input is Some
                && !answers.input->0.rate_agrees;
            &&& result is Ok <==> answers.maximum_frames == 0 && !out_disagrees && !in_disagrees
            &&& result matches Ok(l) ==> {
                &&& l.has_input == config.channels.has_input
                &&& answers.output is None ==> l.outputs.width() == config.channels.outputs.width()
                &&& answers.output is Some && answers.output->0.channels_per_frame <= 65535
                    ==> l.outputs.width() == answers.output->0.channels_per_frame
                &&& !config.channels.has_input || answers.input is None ==> l.inputs.width()
                    == config.channels.inputs.width()
                &&& config.channels.has_input && answers.input is Some
                    && answers.input->0.channels_per_frame <= 65535 ==> l.inputs.width()
                    == answers.input->0.channels_per_frame
            }
            &&& answers.maximum_frames != 0 ==> result == Err::<AuBusLayout, ErrorView>(
                ErrorView::OsStatus {
                    function: "AudioUnitSetProperty"@,
                    code: answers.maximum_frames,
                },
            )
            &&& answers.maximum_frames == 0 && out_disagrees ==> result == Err::<
                AuBusLayout,
                ErrorView,
            >(
                ErrorView::SampleRateRejected {
                    scope: "output"@,
                    requested: config.sample_rate,
                    accepted: answers.output->0.sample_rate,
                },
            )
            &&& answers.maximum_frames == 0 && !out_disagrees && in_disagrees ==> result == Err::<
                AuBusLayout,
                ErrorView,
            >(
                ErrorView::SampleRateRejected {
                    scope: "input"@,
                    requested: config.sample_rate,
                    accepted: answers.input->0.sample_rate,
                },
            )
        }),
{
    broadcast use crate::bus::a_layout_is_that_wide;

    reveal_with_fuel(conclusion, 8);
}

/// A probe takes a unit at its word: the widths it reports, stereo where it
/// reports none, and an input exactly where it has an input bus.
pub proof fn a_probe_takes_the_unit_at_its_word(
    output: Option<u32>,
    input_elements: u32,
    input: Option<u32>,
)
    ensures
        ({
            let l = probed(output, input_elements, input);
            &&& l.has_input <==> input_elements > 0
            &&& output matches Some(n) ==> n <= 65535 ==> l.outputs.width() == n
            &&& output is None ==> l.outputs.width() == 2
            &&& input_elements > 0 ==> (input matches Some(n) ==> n <= 65535 ==> l.inputs.width()
                == n)
            &&& input_elements > 0 && input is None ==> l.inputs.width() == 2
            &&& input_elements == 0 ==> l.inputs.width() == 0
        }),
{
    broadcast use crate::bus::a_layout_is_that_wide;

}

/// A block size is verified exactly where the unit says that it runs at it.
pub proof fn a_block_size_is_verified_by_the_unit(config: StreamConfig, status: i32, reported: u32)
    ensures
        config.block_size_verdict(status, reported) is Ok <==> status == 0 && reported
            == config.block_size,
        status != 0 ==> config.block_size_verdict(status, reported) == Err::<(), ErrorView>(
            ErrorView::OsStatus { function: "AudioUnitGetProperty"@, code: status },
        ),
        status == 0 && reported != config.block_size ==> config.block_size_verdict(status, reported)
            == Err::<(), ErrorView>(
            ErrorView::BlockSizeRejected { requested: config.block_size, accepted: reported },
        ),
{
}

} // verus!
