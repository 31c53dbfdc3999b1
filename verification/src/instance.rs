//! The life of an Audio Unit instance: loaded, ready to render, and the
//! exchanges with the unit that lead from one to the other.
//!
//! Every operation that involves the unit is a task: the instance says what to
//! ask the unit next, and takes the answer, until the operation is over. The
//! instance is whole between any two of those steps.
use vstd::prelude::*;
use vstd::string::*;
use crate::buffer::{
    emitted,
    is_bound,
    padded,
    silence_front,
    smaller,
    staged,
    RenderScratch,
};
use crate::error::{outcome, status_outcome, AuError, ErrorView};
use crate::ffi::check;
use crate::float::{Float32, Float64};
use crate::handle::{display_name, AuHandle, AuType, AudioUnit};
use crate::listener::set_parameter_notifying;
use crate::offline::{check_frames, flag_of, frames_refusal, output_is_silence, says_silence};
use crate::parameters::{get_at, list_at, listed, AuParameter, ParameterAnswer};
use crate::stream::{
    ApplyStep,
    AuBusLayout,
    StreamApply,
    StreamConfig,
    StreamReply,
    StreamRequest,
};
use crate::transport::{stopped, TransportInfo, TransportState};
use crate::types::{K_AUDIO_UNIT_ERR_UNINITIALIZED, NO_ERR};

verus! {

/// A unit that is configured and not initialized.
pub struct AuLoaded {
    pub handle: AuHandle,
    pub config: StreamConfig,
    /// The transport that the unit was given to pull, if any.
    pub transport: Option<TransportState>,
}

/// A unit that is initialized and can render.
pub struct AuReady<T> {
    pub loaded: AuLoaded,
    /// The buffers the unit renders into and pulls from. They live until the
    /// unit is no longer initialized.
    pub scratch: Box<RenderScratch<T>>,
}

/// The state of an instance.
pub enum State<T> {
    Loaded(AuLoaded),
    Ready(AuReady<T>),
    /// The unit could neither be set up nor taken down again, and is gone.
    Empty,
}

/// What a unit is asked.
#[derive(Clone, Copy, Debug, PartialEq)]
pub enum UnitRequest {
    Initialize,
    Uninitialize,
    /// Install the callback through which the unit pulls its input.
    InstallInputCallback,
    Stream(StreamRequest),
    /// Read the largest block back.
    ReadMaximumFrames,
    /// Take the unit apart as [`AuInstance::teardown`] says, up to what is freed:
    /// that happens once the answer is in.
    Discard,
}

/// What a unit answers.
#[derive(Clone, Copy, Debug, PartialEq)]
pub enum UnitReply {
    Status(i32),
    Stream(StreamReply),
    MaximumFrames { status: i32, frames: u32 },
}

/// What follows once the unit is taken down.
#[derive(Clone, Copy, Debug, PartialEq)]
pub enum Then {
    Nothing,
    SetSampleRate(Float64),
    SetBlockSize(u32),
}

/// Which setting is being changed, and what it was.
#[derive(Clone, Copy, Debug, PartialEq)]
pub enum Change {
    SampleRate { previous: Float64 },
    BlockSize { previous: u32 },
}

/// What an instance is doing: which request is out, and what it is for.
pub enum Task {
    Idle,
    /// Initializing; `failed` is an error of what came before, reported once the
    /// unit is ready again.
    Initialize { failed: Option<AuError> },
    /// Installing the input callback of a unit just initialized.
    InstallCallback { failed: Option<AuError> },
    /// Taking down a unit whose input callback could not be installed.
    BackOut { error: AuError },
    /// Getting rid of a unit that could not be taken down either.
    Discard { error: AuError },
    /// Taking a unit down.
    Uninitialize { then_do: Then },
    /// Applying a changed configuration.
    Apply { exchange: StreamApply, change: Change, was_ready: bool },
    /// Reading the block size back.
    ReadBlockSize { previous: u32, was_ready: bool },
    /// Applying the previous configuration again after a refused change.
    Restore { exchange: StreamApply, error: AuError, was_ready: bool },
}

/// Whether an instance is loaded, ready or gone.
pub ghost enum Phase {
    Loaded,
    Ready,
    Empty,
}

/// A task, its errors taken by their contents.
#[allow(inconsistent_fields)]
pub ghost enum TaskView {
    Idle,
    Initialize { failed: Option<ErrorView> },
    InstallCallback { failed: Option<ErrorView> },
    BackOut { error: ErrorView },
    Discard { error: ErrorView },
    Uninitialize { then_do: Then },
    Apply { exchange: StreamApply, change: Change, was_ready: bool },
    ReadBlockSize { previous: u32, was_ready: bool },
    Restore { exchange: StreamApply, error: ErrorView, was_ready: bool },
}

/// What decides how an operation goes on.
pub ghost struct InstanceView {
    pub phase: Phase,
    pub config: StreamConfig,
    pub task: TaskView,
}

/// The result of a step: what the instance is then, and if the operation is over,
/// what it came to.
pub ghost struct Stepped {
    pub instance: InstanceView,
    pub done: Option<Result<(), ErrorView>>,
}

/// An optional error by its contents.
pub open spec fn optional_error(e: Option<AuError>) -> Option<ErrorView> {
    match e {
        Some(e) => Some(e@),
        None => None,
    }
}

impl View for Task {
    type V = TaskView;

    open spec fn view(&self) -> TaskView {
        match *self {
            Task::Idle => TaskView::Idle,
            Task::Initialize { failed } => TaskView::Initialize { failed: optional_error(failed) },
            Task::InstallCallback { failed } => TaskView::InstallCallback {
                failed: optional_error(failed),
            },
            Task::BackOut { error } => TaskView::BackOut { error: error@ },
            Task::Discard { error } => TaskView::Discard { error: error@ },
            Task::Uninitialize { then_do } => TaskView::Uninitialize { then_do },
            Task::Apply { exchange, change, was_ready } => TaskView::Apply {
                exchange,
                change,
                was_ready,
            },
            Task::ReadBlockSize { previous, was_ready } => TaskView::ReadBlockSize {
                previous,
                was_ready,
            },
            Task::Restore { exchange, error, was_ready } => TaskView::Restore {
                exchange,
                error: error@,
                was_ready,
            },
        }
    }
}

impl TaskView {
    /// What the unit is asked.
    pub open spec fn asks(self) -> Option<UnitRequest> {
        match self {
            TaskView::Idle => None,
            TaskView::Initialize { .. } => Some(UnitRequest::Initialize),
            TaskView::InstallCallback { .. } => Some(UnitRequest::InstallInputCallback),
            TaskView::BackOut { .. } => Some(UnitRequest::Uninitialize),
            TaskView::Discard { .. } => Some(UnitRequest::Discard),
            TaskView::Uninitialize { .. } => Some(UnitRequest::Uninitialize),
            TaskView::Apply { exchange, .. } => Some(UnitRequest::Stream(exchange.asks())),
            TaskView::ReadBlockSize { .. } => Some(UnitRequest::ReadMaximumFrames),
            TaskView::Restore { exchange, .. } => Some(UnitRequest::Stream(exchange.asks())),
        }
    }

    /// Whether an answer is of the kind that the request calls for.
    pub open spec fn answered_by(self, reply: UnitReply) -> bool {
        match self {
            TaskView::Idle => false,
            TaskView::Apply { exchange, .. } => reply is Stream && exchange.answered_by(
                reply->Stream_0,
            ),
            TaskView::Restore { exchange, .. } => reply is Stream && exchange.answered_by(
                reply->Stream_0,
            ),
            TaskView::ReadBlockSize { .. } => reply is MaximumFrames,
            _ => reply is Status,
        }
    }

    /// How many requests may still come, the one that is out included.
    pub open spec fn requests_left(self) -> nat {
        match self {
            TaskView::Idle => 0,
            TaskView::Discard { .. } => 1,
            TaskView::BackOut { .. } => 2,
            TaskView::InstallCallback { .. } => 3,
            TaskView::Initialize { .. } => 4,
            TaskView::Restore { exchange, .. } => 4 + exchange.stage.requests_left(),
            TaskView::ReadBlockSize { .. } => 12,
            TaskView::Apply { exchange, .. } => 12 + exchange.stage.requests_left(),
            TaskView::Uninitialize { .. } => 20,
        }
    }
}

impl InstanceView {
    /// What holds of an instance between any two steps: a task is at work only
    /// in the phase it belongs to, and an exchange is about the configuration in
    /// place.
    pub open spec fn wf(self) -> bool {
        match self.task {
            TaskView::Idle => true,
            TaskView::Initialize { .. } => self.phase is Loaded,
            TaskView::InstallCallback { .. } => self.phase is Ready
                && self.config.channels.has_input,
            TaskView::BackOut { .. } => self.phase is Ready && self.config.channels.has_input,
            TaskView::Discard { .. } => self.phase is Ready && self.config.channels.has_input,
            TaskView::Uninitialize { .. } => self.phase is Ready,
            TaskView::Apply { exchange, .. } => self.phase is Loaded && exchange.wf()
                && exchange.config == self.config,
            TaskView::ReadBlockSize { .. } => self.phase is Loaded,
            TaskView::Restore { exchange, .. } => self.phase is Loaded && exchange.wf()
                && exchange.config == self.config,
        }
    }

    /// The instance with the operation over.
    pub open spec fn over(self, result: Result<(), ErrorView>) -> Stepped {
        Stepped { instance: InstanceView { task: TaskView::Idle, ..self }, done: Some(result) }
    }

    /// The instance at work on a task.
    pub open spec fn at(self, task: TaskView) -> Stepped {
        Stepped { instance: InstanceView { task, ..self }, done: None }
    }

    /// The instance in another phase.
    pub open spec fn in_phase(self, phase: Phase) -> InstanceView {
        InstanceView { phase, ..self }
    }

    /// The instance at another sample rate.
    pub open spec fn with_rate(self, sample_rate: Float64) -> InstanceView {
        InstanceView { config: StreamConfig { sample_rate, ..self.config }, ..self }
    }

    /// The instance at another block size.
    pub open spec fn with_block_size(self, block_size: u32) -> InstanceView {
        InstanceView { config: StreamConfig { block_size, ..self.config }, ..self }
    }

    /// The instance at other widths.
    pub open spec fn with_channels(self, channels: AuBusLayout) -> InstanceView {
        InstanceView { config: StreamConfig { channels, ..self.config }, ..self }
    }

    /// The end of a change: a unit that was ready is made ready again first.
    pub open spec fn settle(self, was_ready: bool, failed: Option<ErrorView>) -> Stepped {
        if was_ready {
            self.at(TaskView::Initialize { failed })
        } else {
            self.over(result_of(failed))
        }
    }

    /// Begins a change of the sample rate on a unit that is not initialized.
    pub open spec fn change_rate(self, rate: Float64, was_ready: bool) -> Stepped {
        let changed = self.with_rate(rate);
        changed.at(
            TaskView::Apply {
                exchange: changed.config.applying(),
                change: Change::SampleRate { previous: self.config.sample_rate },
                was_ready,
            },
        )
    }

    /// Begins a change of the block size on a unit that is not initialized.
    pub open spec fn change_block_size(self, frames: u32, was_ready: bool) -> Stepped {
        if frames == self.config.block_size {
            self.settle(was_ready, None)
        } else {
            let changed = self.with_block_size(frames);
            changed.at(
                TaskView::Apply {
                    exchange: changed.config.applying(),
                    change: Change::BlockSize { previous: self.config.block_size },
                    was_ready,
                },
            )
        }
    }

    /// Takes a change back: the previous setting is in place again and is applied
    /// to the unit.
    pub open spec fn roll_back(self, change: Change, error: ErrorView, was_ready: bool) -> Stepped {
        let previous = match change {
            Change::SampleRate { previous } => self.with_rate(previous),
            Change::BlockSize { previous } => self.with_block_size(previous),
        };
        previous.at(
            TaskView::Restore { exchange: previous.config.applying(), error, was_ready },
        )
    }

    /// Begins initialization.
    pub open spec fn initializing(self) -> Stepped {
        if self.phase is Ready {
            self.over(Ok(()))
        } else {
            self.at(TaskView::Initialize { failed: None })
        }
    }

    /// Begins taking the unit down.
    pub open spec fn uninitializing(self) -> Stepped {
        if self.phase is Loaded {
            self.over(Ok(()))
        } else {
            self.at(TaskView::Uninitialize { then_do: Then::Nothing })
        }
    }

    /// Begins a change of the sample rate. There is nothing to change where the
    /// unit is gone.
    pub open spec fn setting_rate(self, rate: Float64) -> Stepped {
        match self.phase {
            Phase::Ready => self.at(
                TaskView::Uninitialize { then_do: Then::SetSampleRate(rate) },
            ),
            Phase::Loaded => self.change_rate(rate, false),
            Phase::Empty => self.over(Ok(())),
        }
    }

    /// Begins a change of the block size. There is nothing to change where the
    /// unit is gone.
    pub open spec fn setting_block_size(self, frames: u32) -> Stepped {
        if frames == 0 {
            self.over(
                Err(ErrorView::InvalidBuffer { reason: "block_size must be non-zero"@ }),
            )
        } else {
            match self.phase {
                Phase::Ready => self.at(
                    TaskView::Uninitialize { then_do: Then::SetBlockSize(frames) },
                ),
                Phase::Loaded => self.change_block_size(frames, false),
                Phase::Empty => self.over(Ok(())),
            }
        }
    }

    /// What follows an answer of the unit.
    pub open spec fn resume(self, reply: UnitReply) -> Stepped {
        match self.task {
            TaskView::Idle => self.over(Ok(())),
            TaskView::Initialize { failed } => match status_outcome(
                "AudioUnitInitialize"@,
                reply->Status_0,
            ) {
                Err(e) => self.over(Err(e)),
                Ok(_) => if self.config.channels.has_input {
                    self.in_phase(Phase::Ready).at(TaskView::InstallCallback { failed })
                } else {
                    self.in_phase(Phase::Ready).over(result_of(failed))
                },
            },
            TaskView::InstallCallback { failed } => match status_outcome(
                "AudioUnitSetProperty"@,
                reply->Status_0,
            ) {
                Err(error) => self.at(TaskView::BackOut { error }),
                Ok(_) => self.over(result_of(failed)),
            },
            TaskView::BackOut { error } => if reply->Status_0 == NO_ERR {
                self.in_phase(Phase::Loaded).over(Err(error))
            } else {
                self.at(TaskView::Discard { error })
            },
            TaskView::Discard { error } => self.in_phase(Phase::Empty).over(Err(error)),
            TaskView::Uninitialize { then_do } => match status_outcome(
                "AudioUnitUninitialize"@,
                reply->Status_0,
            ) {
                Err(e) => self.over(Err(e)),
                Ok(_) => match then_do {
                    Then::Nothing => self.in_phase(Phase::Loaded).over(Ok(())),
                    Then::SetSampleRate(rate) => self.in_phase(Phase::Loaded).change_rate(
                        rate,
                        true,
                    ),
                    Then::SetBlockSize(frames) => self.in_phase(Phase::Loaded).change_block_size(
                        frames,
                        true,
                    ),
                },
            },
            TaskView::Apply { exchange, change, was_ready } => match exchange.step(
                reply->Stream_0,
            ) {
                ApplyStep::Ask { next } => self.at(
                    TaskView::Apply { exchange: next, change, was_ready },
                ),
                ApplyStep::Finished { result: Err(e) } => self.roll_back(change, e, was_ready),
                ApplyStep::Finished { result: Ok(channels) } => match change {
                    Change::SampleRate { .. } => self.with_channels(channels).settle(
                        was_ready,
                        None,
                    ),
                    Change::BlockSize { previous } => self.with_channels(channels).at(
                        TaskView::ReadBlockSize { previous, was_ready },
                    ),
                },
            },
            TaskView::ReadBlockSize { previous, was_ready } => match self.config.block_size_verdict(
                reply->status,
                reply->frames,
            ) {
                Err(e) => self.roll_back(Change::BlockSize { previous }, e, was_ready),
                Ok(_) => self.settle(was_ready, None),
            },
            TaskView::Restore { exchange, error, was_ready } => match exchange.step(
                reply->Stream_0,
            ) {
                ApplyStep::Ask { next } => self.at(
                    TaskView::Restore { exchange: next, error, was_ready },
                ),
                ApplyStep::Finished { .. } => self.settle(was_ready, Some(error)),
            },
        }
    }
}

/// What an operation reports once an error of its own is counted in.
pub open spec fn result_of(failed: Option<ErrorView>) -> Result<(), ErrorView> {
    match failed {
        Some(e) => Err(e),
        None => Ok(()),
    }
}

/// An instance of an Audio Unit.
pub struct AuInstance<T> {
    pub state: State<T>,
    pub task: Task,
    /// The value that stands for silence.
    pub silence: T,
}

impl AuLoaded {
    /// A loaded unit, given what applying its configuration came to. The layout
    /// recorded is the one that the unit took.
    pub fn with_layout(
        handle: AuHandle,
        config: StreamConfig,
        applied: Result<AuBusLayout, AuError>,
    ) -> (r: Result<AuLoaded, AuError>)
        ensures
            applied matches Ok(channels) ==> r == Ok::<AuLoaded, AuError>(
                AuLoaded {
                    handle,
                    config: StreamConfig { channels, ..config },
                    transport: None,
                },
            ),
            applied matches Err(e) ==> r == Err::<AuLoaded, AuError>(e),
    {
        match applied {
            Ok(channels) => Ok(
                AuLoaded {
                    handle,
                    config: StreamConfig {
                        sample_rate: config.sample_rate,
                        block_size: config.block_size,
                        channels,
                    },
                    transport: None,
                },
            ),
            Err(e) => Err(e),
        }
    }

    /// The unit's handle.
    pub fn handle(&self) -> (h: &AuHandle)
        ensures
            *h == self.handle,
    {
        &self.handle
    }

    /// The configuration in place.
    pub fn config(&self) -> (c: &StreamConfig)
        ensures
            *c == self.config,
    {
        &self.config
    }
}

impl<T> AuReady<T> {
    /// The unit's handle.
    pub fn handle(&self) -> (h: &AuHandle)
        ensures
            *h == self.loaded.handle,
    {
        &self.loaded.handle
    }

    /// The configuration in place.
    pub fn config(&self) -> (c: &StreamConfig)
        ensures
            *c == self.loaded.config,
    {
        &self.loaded.config
    }
}

impl<T: Copy> AuInstance<T> {
    /// The phase of the instance.
    pub open spec fn phase(&self) -> Phase {
        match self.state {
            State::Loaded(_) => Phase::Loaded,
            State::Ready(_) => Phase::Ready,
            State::Empty => Phase::Empty,
        }
    }

    /// The unit with its configuration, while there is one.
    pub open spec fn loaded(&self) -> AuLoaded
        recommends
            !(self.phase() is Empty),
    {
        match self.state {
            State::Loaded(l) => l,
            State::Ready(r) => r.loaded,
            State::Empty => arbitrary(),
        }
    }

    /// The buffers of a ready unit.
    pub open spec fn scratch(&self) -> RenderScratch<T>
        recommends
            self.phase() is Ready,
    {
        *self.state->Ready_0.scratch
    }

    /// What decides how an operation goes on.
    pub open spec fn view(&self) -> InstanceView {
        InstanceView { phase: self.phase(), config: self.loaded().config, task: self.task@ }
    }

    /// What holds of every instance: its task belongs to its phase, and the
    /// buffers of a ready unit are those of its configuration, with its silence.
    pub open spec fn wf(&self) -> bool {
        &&& self.view().wf()
        &&& self.phase() is Ready ==> self.scratch().fits(
            self.loaded().config.channels,
            self.loaded().config.block_size,
        )
        &&& self.phase() is Ready ==> self.scratch().silence == self.silence
    }

    /// Whether the buffers are those of another state, where both are ready.
    pub open spec fn same_buffers(&self, other: &AuInstance<T>) -> bool {
        self.phase() is Ready && other.phase() is Ready ==> self.scratch() == other.scratch()
    }

    /// Whether the unit itself, its transport and the silence value are those of
    /// another state.
    pub open spec fn same_unit(&self, other: &AuInstance<T>) -> bool {
        &&& self.silence == other.silence
        &&& !(self.phase() is Empty) && !(other.phase() is Empty) ==> self.loaded().handle
            == other.loaded().handle && self.loaded().transport == other.loaded().transport
    }

    /// Whether the instance went to the given step.
    pub open spec fn stepped(&self, done: Option<Result<(), AuError>>, step: Stepped) -> bool {
        &&& self.phase() == step.instance.phase
        &&& self.task@ == step.instance.task
        &&& !(self.phase() is Empty) ==> self.loaded().config == step.instance.config
        &&& done is None == step.done is None
        &&& done matches Some(r) ==> outcome(r) == step.done->0
    }

    /// An instance of a loaded unit.
    pub fn new(loaded: AuLoaded, silence: T) -> (i: AuInstance<T>)
        ensures
            i.wf(),
            i.phase() is Loaded,
            i.loaded() == loaded,
            i.task is Idle,
            i.silence == silence,
    {
        AuInstance { state: State::Loaded(loaded), task: Task::Idle, silence }
    }

    /// What to ask the unit next, while an operation is under way.
    pub fn request(&self) -> (r: Option<UnitRequest>)
        ensures
            r == self.task@.asks(),
    {
        match &self.task {
            Task::Idle => None,
            Task::Initialize { .. } => Some(UnitRequest::Initialize),
            Task::InstallCallback { .. } => Some(UnitRequest::InstallInputCallback),
            Task::BackOut { .. } => Some(UnitRequest::Uninitialize),
            Task::Discard { .. } => Some(UnitRequest::Discard),
            Task::Uninitialize { .. } => Some(UnitRequest::Uninitialize),
            Task::Apply { exchange, .. } => Some(UnitRequest::Stream(exchange.request())),
            Task::ReadBlockSize { .. } => Some(UnitRequest::ReadMaximumFrames),
            Task::Restore { exchange, .. } => Some(UnitRequest::Stream(exchange.request())),
        }
    }

    /// Begins making the unit ready. Nothing is to do where it is. `None` means
    /// that the unit has to be asked first.
    pub fn initialize(&mut self) -> (done: Option<Result<(), AuError>>)
        requires
            old(self).wf(),
            old(self).task is Idle,
            !(old(self).phase() is Empty),
        ensures
            final(self).wf(),
            final(self).same_unit(old(self)),
            final(self).state == old(self).state,
            final(self).stepped(done, old(self).view().initializing()),
    {
        if self.is_initialized() {
            return Some(Ok(()));
        }
        self.task = Task::Initialize { failed: None };
        None
    }

    /// Begins taking the unit down. Nothing is to do where it is not ready.
    pub fn uninitialize(&mut self) -> (done: Option<Result<(), AuError>>)
        requires
            old(self).wf(),
            old(self).task is Idle,
            !(old(self).phase() is Empty),
        ensures
            final(self).wf(),
            final(self).same_unit(old(self)),
            final(self).state == old(self).state,
            final(self).stepped(done, old(self).view().uninitializing()),
    {
        if !self.is_initialized() {
            return Some(Ok(()));
        }
        self.task = Task::Uninitialize { then_do: Then::Nothing };
        None
    }

    /// Begins a change of the sample rate. A unit that is ready is taken down,
    /// configured, and made ready again. Where the unit is gone, nothing is done.
    pub fn set_sample_rate(&mut self, rate: Float64) -> (done: Option<Result<(), AuError>>)
        requires
            old(self).wf(),
            old(self).task is Idle,
        ensures
            final(self).wf(),
            final(self).same_unit(old(self)),
            final(self).same_buffers(old(self)),
            final(self).stepped(done, old(self).view().setting_rate(rate)),
    {
        if self.is_initialized() {
            self.task = Task::Uninitialize { then_do: Then::SetSampleRate(rate) };
            return None;
        }
        if self.is_gone() {
            return Some(Ok(()));
        }
        self.change_rate(rate, false);
        None
    }

    /// Begins a change of the block size. A size of zero is refused; a unit that
    /// is ready is taken down, configured, and made ready again. Where the unit is
    /// gone, nothing is done.
    pub fn set_block_size(&mut self, frames: u32) -> (done: Option<Result<(), AuError>>)
        requires
            old(self).wf(),
            old(self).task is Idle,
        ensures
            final(self).wf(),
            final(self).same_unit(old(self)),
            final(self).same_buffers(old(self)),
            final(self).stepped(done, old(self).view().setting_block_size(frames)),
    {
        if frames == 0 {
            return Some(
                Err(AuError::InvalidBuffer("block_size must be non-zero".to_owned())),
            );
        }
        if self.is_initialized() {
            self.task = Task::Uninitialize { then_do: Then::SetBlockSize(frames) };
            return None;
        }
        if self.is_gone() {
            return Some(Ok(()));
        }
        self.change_block_size(frames, false)
    }

    fn is_gone(&self) -> (gone: bool)
        ensures
            gone == (self.phase() is Empty),
    {
        match &self.state {
            State::Empty => true,
            _ => false,
        }
    }

    fn change_rate(&mut self, rate: Float64, was_ready: bool)
        requires
            old(self).phase() is Loaded,
        ensures
            final(self).wf(),
            final(self).same_unit(old(self)),
            final(self).stepped(None, old(self).view().change_rate(rate, was_ready)),
    {
        if let State::Loaded(l) = &mut self.state {
            let previous = l.config.sample_rate;
            l.config.sample_rate = rate;
            let exchange = l.config.apply();
            self.task = Task::Apply {
                exchange,
                change: Change::SampleRate { previous },
                was_ready,
            };
        }
    }

    fn change_block_size(&mut self, frames: u32, was_ready: bool) -> (done: Option<
        Result<(), AuError>,
    >)
        requires
            old(self).phase() is Loaded,
        ensures
            final(self).wf(),
            final(self).same_unit(old(self)),
            final(self).stepped(done, old(self).view().change_block_size(frames, was_ready)),
    {
        if let State::Loaded(l) = &mut self.state {
            let previous = l.config.block_size;
            if previous != frames {
                l.config.block_size = frames;
                let exchange = l.config.apply();
                self.task = Task::Apply {
                    exchange,
                    change: Change::BlockSize { previous },
                    was_ready,
                };
                return None;
            }
        }
        self.settle(was_ready, None)
    }

    fn roll_back(&mut self, change: Change, error: AuError, was_ready: bool)
        requires
            old(self).phase() is Loaded,
        ensures
            final(self).wf(),
            final(self).same_unit(old(self)),
            final(self).stepped(None, old(self).view().roll_back(change, error@, was_ready)),
    {
        if let State::Loaded(l) = &mut self.state {
            match change {
                Change::SampleRate { previous } => {
                    l.config.sample_rate = previous;
                },
                Change::BlockSize { previous } => {
                    l.config.block_size = previous;
                },
            }
            let exchange = l.config.apply();
            self.task = Task::Restore { exchange, error, was_ready };
        }
    }

    fn settle(&mut self, was_ready: bool, failed: Option<AuError>) -> (done: Option<
        Result<(), AuError>,
    >)
        requires
            old(self).phase() is Loaded,
        ensures
            final(self).wf(),
            final(self).same_unit(old(self)),
            final(self).stepped(done, old(self).view().settle(was_ready, optional_error(failed))),
    {
        if was_ready {
            self.task = Task::Initialize { failed };
            return None;
        }
        self.task = Task::Idle;
        match failed {
            Some(e) => Some(Err(e)),
            None => Some(Ok(())),
        }
    }

    fn become_ready(&mut self)
        requires
            old(self).phase() is Loaded,
        ensures
            final(self).phase() is Ready,
            final(self).loaded() == old(self).loaded(),
            final(self).task == old(self).task,
            final(self).silence == old(self).silence,
            final(self).scratch().is_fresh(
                old(self).loaded().config.channels,
                old(self).loaded().config.block_size,
                old(self).silence,
            ),
    {
        let mut state = State::Empty;
        core::mem::swap(&mut self.state, &mut state);
        self.state = match state {
            State::Loaded(loaded) => {
                let scratch = Box::new(
                    RenderScratch::new(
                        loaded.config.channels,
                        loaded.config.block_size,
                        self.silence,
                    ),
                );
                State::Ready(AuReady { loaded, scratch })
            },
            other => other,
        };
    }

    fn become_loaded(&mut self)
        requires
            old(self).phase() is Ready,
        ensures
            final(self).phase() is Loaded,
            final(self).loaded() == old(self).loaded(),
            final(self).task == old(self).task,
            final(self).silence == old(self).silence,
    {
        let mut state = State::Empty;
        core::mem::swap(&mut self.state, &mut state);
        self.state = match state {
            State::Ready(ready) => State::Loaded(ready.loaded),
            other => other,
        };
    }

    /// Takes the unit's answer to the request that is out. `None` means that
    /// another request is out now; otherwise this is what the operation came to.
    /// A unit that becomes ready has fresh buffers; one that stays ready keeps the
    /// buffers it has, as they are.
    pub fn answer(&mut self, reply: UnitReply) -> (done: Option<Result<(), AuError>>)
        requires
            old(self).wf(),
            old(self).task@.answered_by(reply),
        ensures
            final(self).wf(),
            final(self).same_unit(old(self)),
            final(self).same_buffers(old(self)),
            old(self).phase() is Loaded && final(self).phase() is Ready
                ==> final(self).scratch().is_fresh(
                final(self).loaded().config.channels,
                final(self).loaded().config.block_size,
                old(self).silence,
            ),
            final(self).stepped(done, old(self).view().resume(reply)),
            final(self).task@.requests_left() < old(self).task@.requests_left(),
    {
        let mut task = Task::Idle;
        core::mem::swap(&mut self.task, &mut task);
        match reply {
            UnitReply::Status(status) => match task {
                Task::Initialize { failed } => {
                    if let Err(e) = check("AudioUnitInitialize", status) {
                        return Some(Err(e));
                    }
                    let has_input = match &self.state {
                        State::Loaded(l) => l.config.channels.has_input,
                        _ => false,
                    };
                    self.become_ready();
                    if has_input {
                        self.task = Task::InstallCallback { failed };
                        return None;
                    }
                    match failed {
                        Some(e) => Some(Err(e)),
                        None => Some(Ok(())),
                    }
                },
                Task::InstallCallback { failed } => {
                    if let Err(error) = check("AudioUnitSetProperty", status) {
                        self.task = Task::BackOut { error };
                        return None;
                    }
                    match failed {
                        Some(e) => Some(Err(e)),
                        None => Some(Ok(())),
                    }
                },
                Task::BackOut { error } => {
                    if status == NO_ERR {
                        self.become_loaded();
                        Some(Err(error))
                    } else {
                        self.task = Task::Discard { error };
                        None
                    }
                },
                Task::Discard { error } => {
                    self.state = State::Empty;
                    Some(Err(error))
                },
                Task::Uninitialize { then_do } => {
                    if let Err(e) = check("AudioUnitUninitialize", status) {
                        return Some(Err(e));
                    }
                    self.become_loaded();
                    match then_do {
                        Then::Nothing => Some(Ok(())),
                        Then::SetSampleRate(rate) => {
                            self.change_rate(rate, true);
                            None
                        },
                        Then::SetBlockSize(frames) => self.change_block_size(frames, true),
                    }
                },
                _ => None,
            },
            UnitReply::Stream(stream_reply) => match task {
                Task::Apply { exchange, change, was_ready } => {
                    let mut exchange = exchange;
                    match exchange.answer(stream_reply) {
                        None => {
                            self.task = Task::Apply { exchange, change, was_ready };
                            None
                        },
                        Some(Err(e)) => {
                            self.roll_back(change, e, was_ready);
                            None
                        },
                        Some(Ok(channels)) => {
                            if let State::Loaded(l) = &mut self.state {
                                l.config.channels = channels;
                            }
                            match change {
                                Change::SampleRate { .. } => self.settle(was_ready, None),
                                Change::BlockSize { previous } => {
                                    self.task = Task::ReadBlockSize { previous, was_ready };
                                    None
                                },
                            }
                        },
                    }
                },
                Task::Restore { exchange, error, was_ready } => {
                    let mut exchange = exchange;
                    match exchange.answer(stream_reply) {
                        None => {
                            self.task = Task::Restore { exchange, error, was_ready };
                            None
                        },
                        Some(_) => self.settle(was_ready, Some(error)),
                    }
                },
                _ => None,
            },
            UnitReply::MaximumFrames { status, frames } => match task {
                Task::ReadBlockSize { previous, was_ready } => {
                    let verdict = match &self.state {
                        State::Loaded(l) => l.config.verify_block_size(status, frames),
                        _ => Ok(()),
                    };
                    match verdict {
                        Ok(()) => self.settle(was_ready, None),
                        Err(e) => {
                            self.roll_back(Change::BlockSize { previous }, e, was_ready);
                            None
                        },
                    }
                },
                _ => None,
            },
        }
    }

    /// Whether the unit is ready to render.
    pub fn is_initialized(&self) -> (yes: bool)
        ensures
            yes == (self.phase() is Ready),
    {
        match &self.state {
            State::Ready(_) => true,
            _ => false,
        }
    }
}

// ---------------------------------------------------------------------------
// Rendering and settings
// ---------------------------------------------------------------------------
/// How rendering with a unit that is not ready is refused.
pub open spec fn not_ready() -> ErrorView {
    ErrorView::OsStatus {
        function: "AuInstance::process"@,
        code: K_AUDIO_UNIT_ERR_UNINITIALIZED,
    }
}

/// What is asked of the unit when it is torn down, and what is freed.
#[derive(Clone, Copy, Debug, PartialEq, Eq, Structural)]
pub enum TeardownStep {
    /// Take the unit down.
    Uninitialize,
    /// Withdraw the transport callbacks.
    WithdrawHostCallbacks,
    /// Dispose of the unit.
    Dispose,
    /// Free the transport that the unit pulled from.
    FreeTransport,
    /// Free the buffers that the unit rendered into.
    FreeScratch,
}

/// The steps that take an instance apart, in order.
pub open spec fn teardown_steps(ready: bool, transport: bool) -> Seq<TeardownStep> {
    let take_down = if ready {
        seq![TeardownStep::Uninitialize]
    } else {
        Seq::empty()
    };
    let withdraw = if transport {
        seq![TeardownStep::WithdrawHostCallbacks]
    } else {
        Seq::empty()
    };
    let free_transport = if transport {
        seq![TeardownStep::FreeTransport]
    } else {
        Seq::empty()
    };
    let free_scratch = if ready {
        seq![TeardownStep::FreeScratch]
    } else {
        Seq::empty()
    };
    take_down + withdraw + seq![TeardownStep::Dispose] + free_transport + free_scratch
}

impl<T: Copy> AuInstance<T> {
    /// The unit, to hand to AudioToolbox.
    pub fn raw_unit(&self) -> (u: AudioUnit)
        requires
            !(self.phase() is Empty),
        ensures
            u == self.loaded().handle.unit(),
    {
        self.loaded_part().handle.raw_unit()
    }

    /// What kind of unit it is.
    pub fn au_type(&self) -> (t: AuType)
        requires
            !(self.phase() is Empty),
        ensures
            t == self.loaded().handle.kind(),
    {
        self.loaded_part().handle.au_type()
    }

    fn loaded_part(&self) -> (l: &AuLoaded)
        requires
            !(self.phase() is Empty),
        ensures
            *l == self.loaded(),
    {
        match &self.state {
            State::Loaded(l) => l,
            State::Ready(r) => &r.loaded,
            State::Empty => vstd::pervasive::unreached(),
        }
    }

    /// The configuration in place.
    pub fn config(&self) -> (c: &StreamConfig)
        requires
            !(self.phase() is Empty),
        ensures
            *c == self.loaded().config,
    {
        &self.loaded_part().config
    }

    /// The configured input channels; none where the unit has no input.
    pub fn num_inputs(&self) -> (n: u32)
        requires
            !(self.phase() is Empty),
        ensures
            n == (if self.loaded().config.channels.has_input {
                self.loaded().config.channels.inputs.width()
            } else {
                0
            }),
    {
        let channels = self.config().channels;
        if channels.has_input {
            channels.inputs.count() as u32
        } else {
            0
        }
    }

    /// The configured output channels.
    pub fn num_outputs(&self) -> (n: u32)
        requires
            !(self.phase() is Empty),
        ensures
            n == self.loaded().config.channels.outputs.width(),
    {
        self.config().channels.outputs.count() as u32
    }

    /// The configured sample rate.
    pub fn sample_rate(&self) -> (r: Float64)
        requires
            !(self.phase() is Empty),
        ensures
            r == self.loaded().config.sample_rate,
    {
        self.config().sample_rate
    }

    /// The configured block size: no larger block is ever rendered.
    pub fn block_size(&self) -> (n: u32)
        requires
            !(self.phase() is Empty),
        ensures
            n == self.loaded().config.block_size,
    {
        self.config().block_size
    }

    /// Prepares a render: the caller's input is staged, the output list points at
    /// the output buffers, which stand at `addresses`, and the block's position
    /// is taken. A unit that is not ready and a block that is too large are
    /// refused, and nothing changes.
    pub fn begin_process(&mut self, input: &[&[T]], addresses: &[u64], num_frames: u32) -> (r:
        Result<u64, AuError>)
        requires
            old(self).wf(),
            old(self).task is Idle,
            !(old(self).phase() is Empty),
        ensures
            final(self).wf(),
            final(self).same_unit(old(self)),
            final(self).view() == old(self).view(),
            old(self).phase() is Loaded ==> outcome(r) == Err::<u64, ErrorView>(not_ready())
                && final(self).state == old(self).state,
            old(self).phase() is Ready && num_frames > old(self).loaded().config.block_size
                ==> outcome(r) == Err::<u64, ErrorView>(
                frames_refusal("num_frames"@, num_frames, old(self).loaded().config.block_size),
            ) && final(self).state == old(self).state,
            old(self).phase() is Ready && num_frames <= old(self).loaded().config.block_size ==> {
                let before = old(self).scratch();
                let after = final(self).scratch();
                &&& r == Ok::<u64, AuError>(before.sample_position)
                &&& staged(before.inputs@, after.inputs@, input@, num_frames)
                &&& is_bound(
                    before.list.storage@,
                    after.list.storage@,
                    before.list.channels.width(),
                    addresses@,
                    num_frames,
                )
                &&& after.outputs == before.outputs
                &&& after.silence == before.silence
                &&& after.sample_position == smaller(
                    before.sample_position + num_frames,
                    u64::MAX as int,
                )
            },
            r is Ok <==> old(self).phase() is Ready && num_frames
                <= old(self).loaded().config.block_size,
            r is Ok && old(self).scratch().sample_position + num_frames <= u64::MAX
                ==> final(self).scratch().sample_position == old(self).scratch().sample_position
                + num_frames,
            r is Ok ==> forall|ch: int, i: int|
                0 <= ch < old(self).scratch().inputs@.len() && 0 <= i
                    < old(self).scratch().inputs@[ch]@.len()
                    ==> #[trigger] final(self).scratch().inputs@[ch]@[i] == (if ch < input@.len()
                    && i < num_frames && i < input@[ch]@.len() {
                    input@[ch]@[i]
                } else {
                    old(self).scratch().inputs@[ch]@[i]
                }),
    {
        match &mut self.state {
            State::Ready(ready) => {
                match check_frames("num_frames", num_frames, ready.loaded.config.block_size) {
                    Err(e) => Err(e),
                    Ok(()) => {
                        ready.scratch.stage_input(input, num_frames);
                        ready.scratch.bind_output(addresses, num_frames);
                        Ok(ready.scratch.advance(num_frames))
                    },
                }
            },
            _ => Err(
                AuError::OsStatus {
                    function: "AuInstance::process",
                    code: K_AUDIO_UNIT_ERR_UNINITIALIZED,
                },
            ),
        }
    }

    /// Finishes a render: what the unit rendered is copied out, or silence where
    /// the unit says that its output is silent. A failed render is reported with
    /// what the unit recorded of it and leaves the caller's output alone.
    pub fn finish_process(
        &self,
        status: i32,
        last_render_error: Option<i32>,
        flags: u32,
        output: &mut [&mut [T]],
        num_frames: u32,
    ) -> (r: Result<(), AuError>)
        requires
            self.phase() is Ready,
        ensures
            outcome(r) == (if status == NO_ERR {
                Ok(())
            } else {
                Err(
                    ErrorView::RenderFailed {
                        function: "AudioUnitRender"@,
                        code: status,
                        last_render_error,
                    },
                )
            }),
            final(output)@.len() == old(output)@.len(),
            forall|ch: int|
                0 <= ch < old(output)@.len() ==> (*(#[trigger] final(output)@[ch]))@ == (
                if status != NO_ERR {
                    (*old(output)@[ch])@
                } else if says_silence(flags) {
                    padded(
                        (*old(output)@[ch])@,
                        Seq::empty(),
                        smaller(num_frames as int, (*old(output)@[ch])@.len() as int),
                        self.silence,
                    )
                } else {
                    emitted((*old(output)@[ch])@, self.scratch().outputs@, ch, num_frames)
                }),
            forall|ch: int, i: int|
                0 <= ch < old(output)@.len() && 0 <= i < (*old(output)@[ch])@.len()
                    ==> #[trigger] (*final(output)@[ch])@[i] == (if status != 0 || i >= num_frames {
                    (*old(output)@[ch])@[i]
                } else if says_silence(flags) {
                    self.silence
                } else if ch < self.scratch().outputs@.len() && i
                    < self.scratch().outputs@[ch]@.len() {
                    self.scratch().outputs@[ch]@[i]
                } else {
                    (*old(output)@[ch])@[i]
                }),
            forall|ch: int|
                0 <= ch < old(output)@.len() ==> final(#[trigger] final(output)@[ch])@
                    == final(old(output)@[ch])@,
    {
        if status != NO_ERR {
            return Err(AuError::render_failed("AudioUnitRender", status, last_render_error));
        }
        if output_is_silence(flags) {
            let ghost before = output@;
            let n: usize = output.len();
            for ch in 0..n
                invariant
                    n == before.len(),
                    output@.len() == n,
                    forall|c: int|
                        0 <= c < ch ==> (*(#[trigger] output@[c]))@ == padded(
                            (*before[c])@,
                            Seq::empty(),
                            smaller(num_frames as int, (*before[c])@.len() as int),
                            self.silence,
                        ),
                    forall|c: int| ch <= c < n ==> #[trigger] output@[c] == before[c],
                    forall|c: int| 0 <= c < n ==> final(#[trigger] output@[c])@ == final(before[c])@,
            {
                let len: usize = output[ch].len();
                let limit: usize = if (num_frames as usize) <= len {
                    num_frames as usize
                } else {
                    len
                };
                silence_front(output[ch], limit, self.silence);
            }
        } else if let State::Ready(ready) = &self.state {
            ready.scratch.emit_output(output, num_frames);
        }
        Ok(())
    }

    /// Takes the status of a reset of the unit's signal history. Where the unit
    /// flushed it, the clock that the history was measured against starts over
    /// too.
    pub fn finish_reset(&mut self, status: i32) -> (r: Result<(), AuError>)
        requires
            old(self).wf(),
            !(old(self).phase() is Empty),
        ensures
            outcome(r) == status_outcome("AudioUnitReset"@, status),
            final(self).wf(),
            final(self).same_unit(old(self)),
            final(self).view() == old(self).view(),
            status != NO_ERR || old(self).phase() is Loaded ==> final(self).state == old(
                self,
            ).state,
            status == NO_ERR && old(self).phase() is Ready ==> {
                let before = old(self).scratch();
                let after = final(self).scratch();
                &&& after.sample_position == 0
                &&& after.inputs == before.inputs
                &&& after.outputs == before.outputs
                &&& after.list == before.list
                &&& after.silence == before.silence
            },
    {
        match check("AudioUnitReset", status) {
            Err(e) => Err(e),
            Ok(()) => {
                if let State::Ready(ready) = &mut self.state {
                    ready.scratch.reset_position();
                }
                Ok(())
            },
        }
    }

    /// The display name of the unit, given the status of the name call and the
    /// text it delivered. There always is one.
    pub fn get_name(&self, status: i32, name: Option<String>) -> (r: Result<String, AuError>)
        requires
            !(self.phase() is Empty),
        ensures
            r matches Ok(text) && text@ == (if status == NO_ERR && name is Some {
                name->0@
            } else {
                "<unknown>"@
            }),
    {
        Ok(display_name(status, name))
    }

    /// The parameters of the unit, given what it reports under each id.
    pub fn get_parameter_list(&self, answers: &Vec<ParameterAnswer>) -> (params: Vec<AuParameter>)
        requires
            !(self.phase() is Empty),
        ensures
            listed(params@, answers@),
    {
        list_at(answers)
    }

    /// A parameter's value, given the unit's answer.
    pub fn get_parameter(&self, status: i32, value: Float32) -> (r: Result<Float32, AuError>)
        requires
            !(self.phase() is Empty),
        ensures
            outcome(r) == (match status_outcome("AudioUnitGetParameter"@, status) {
                Ok(_) => Ok(value),
                Err(e) => Err(e),
            }),
    {
        get_at(status, value)
    }

    /// What writing a parameter's value came to. The write is the one that tells
    /// every listener, the unit's own editor among them.
    pub fn set_parameter(&self, status: i32) -> (r: Result<(), AuError>)
        requires
            !(self.phase() is Empty),
        ensures
            outcome(r) == status_outcome("AUParameterSet"@, status),
    {
        set_parameter_notifying(status)
    }

    /// What switching the bypass came to, given the status of the write. A unit
    /// that has no bypass refuses, and the refusal is never absorbed.
    pub fn set_bypass(&self, status: i32) -> (r: Result<(), AuError>)
        requires
            !(self.phase() is Empty),
        ensures
            outcome(r) == status_outcome("AudioUnitSetProperty"@, status),
    {
        check("AudioUnitSetProperty", status)
    }

    /// Whether the unit is bypassed, given its answer. A unit that has no bypass
    /// refuses, and is never reported as not bypassed.
    pub fn is_bypassed(&self, status: i32, value: u32) -> (r: Result<bool, AuError>)
        requires
            !(self.phase() is Empty),
        ensures
            outcome(r) == (match status_outcome("AudioUnitGetProperty"@, status) {
                Ok(_) => Ok(value != 0),
                Err(e) => Err(e),
            }),
    {
        match check("AudioUnitGetProperty", status) {
            Ok(()) => Ok(flag_of(value)),
            Err(e) => Err(e),
        }
    }

    /// Prepares the transport that the unit is to pull from: a stopped one, or
    /// the one it already has, so that what the unit holds stays valid.
    pub fn prepare_host_callbacks(&mut self)
        requires
            old(self).wf(),
            !(old(self).phase() is Empty),
        ensures
            final(self).wf(),
            final(self).view() == old(self).view(),
            final(self).silence == old(self).silence,
            final(self).loaded().handle == old(self).loaded().handle,
            final(self).loaded().transport == Some(
                match old(self).loaded().transport {
                    Some(t) => t,
                    None => stopped(),
                },
            ),
            old(self).phase() is Ready ==> final(self).scratch() == old(self).scratch(),
    {
        let loaded = match &mut self.state {
            State::Loaded(l) => l,
            State::Ready(r) => &mut r.loaded,
            State::Empty => vstd::pervasive::unreached(),
        };
        if loaded.transport.is_none() {
            loaded.transport = Some(TransportState::new());
        }
    }

    /// The transport that the unit pulls from, if it was given one.
    pub fn transport(&self) -> (t: Option<&TransportState>)
        requires
            !(self.phase() is Empty),
        ensures
            t is Some == self.loaded().transport is Some,
            t matches Some(state) ==> *state == self.loaded().transport->0,
    {
        match &self.loaded_part().transport {
            Some(t) => Some(t),
            None => None,
        }
    }

    /// Publishes a transport snapshot. `false` says that the unit has no
    /// transport to pull.
    pub fn set_transport(&mut self, info: &TransportInfo, changed: bool) -> (published: bool)
        requires
            old(self).wf(),
            !(old(self).phase() is Empty),
        ensures
            final(self).wf(),
            final(self).view() == old(self).view(),
            final(self).silence == old(self).silence,
            final(self).loaded().handle == old(self).loaded().handle,
            published == (old(self).loaded().transport is Some),
            final(self).loaded().transport == (match old(self).loaded().transport {
                Some(t) => Some(t.published(*info, changed)),
                None => None,
            }),
            old(self).phase() is Ready ==> final(self).scratch() == old(self).scratch(),
    {
        let loaded = match &mut self.state {
            State::Loaded(l) => l,
            State::Ready(r) => &mut r.loaded,
            State::Empty => vstd::pervasive::unreached(),
        };
        match &mut loaded.transport {
            Some(t) => {
                t.set_transport(info, changed);
                true
            },
            None => false,
        }
    }

    /// The steps that take the instance apart. What the unit may still call into
    /// is freed only after it no longer can.
    pub fn teardown(&self) -> (steps: Vec<TeardownStep>)
        ensures
            steps@ == (if self.phase() is Empty {
                Seq::empty()
            } else {
                teardown_steps(self.phase() is Ready, self.loaded().transport is Some)
            }),
    {
        let mut steps: Vec<TeardownStep> = Vec::new();
        if let State::Empty = &self.state {
            return steps;
        }
        let ready = self.is_initialized();
        let has_transport = self.transport().is_some();
        if ready {
            steps.push(TeardownStep::Uninitialize);
        }
        if has_transport {
            steps.push(TeardownStep::WithdrawHostCallbacks);
        }
        steps.push(TeardownStep::Dispose);
        if has_transport {
            steps.push(TeardownStep::FreeTransport);
        }
        if ready {
            steps.push(TeardownStep::FreeScratch);
        }
        assert(steps@ =~= teardown_steps(ready, has_transport));
        steps
    }
}

// ---------------------------------------------------------------------------
// Laws
// ---------------------------------------------------------------------------
/// Memory that a unit can reach is freed only after the unit was told to let go
/// of it: buffers after it was taken down, the transport after the callbacks
/// were withdrawn, and both after the unit was disposed of.
pub proof fn nothing_is_freed_under_a_unit(ready: bool, transport: bool, i: int, j: int)
    requires
        0 <= i < teardown_steps(ready, transport).len(),
        0 <= j < teardown_steps(ready, transport).len(),
        teardown_steps(ready, transport)[i] == TeardownStep::FreeScratch || teardown_steps(
            ready,
            transport,
        )[i] == TeardownStep::FreeTransport,
        teardown_steps(ready, transport)[j] == TeardownStep::Uninitialize || teardown_steps(
            ready,
            transport,
        )[j] == TeardownStep::WithdrawHostCallbacks || teardown_steps(ready, transport)[j]
            == TeardownStep::Dispose,
    ensures
        j < i,
        ready ==> teardown_steps(ready, transport).contains(TeardownStep::Uninitialize),
        transport ==> teardown_steps(ready, transport).contains(
            TeardownStep::WithdrawHostCallbacks,
        ),
        teardown_steps(ready, transport).contains(TeardownStep::Dispose),
{
    let steps = teardown_steps(ready, transport);
    let withdrawn: int = if ready {
        1
    } else {
        0
    };
    let disposed: int = withdrawn + if transport {
        1int
    } else {
        0int
    };
    assert(steps[disposed] == TeardownStep::Dispose);
    assert(ready ==> steps[0] == TeardownStep::Uninitialize);
    assert(transport ==> steps[withdrawn] == TeardownStep::WithdrawHostCallbacks);
}

/// Where an operation ends under the given answers of the unit.
pub open spec fn concluded(step: Stepped, replies: Seq<UnitReply>) -> Stepped
    decreases replies.len(),
{
    if step.done is Some || replies.len() == 0 {
        step
    } else {
        concluded(step.instance.resume(replies[0]), replies.skip(1))
    }
}

/// Whether the answers are of the kinds that the requests call for.
pub open spec fn answers(step: Stepped, replies: Seq<UnitReply>) -> bool
    decreases replies.len(),
{
    step.done is Some || replies.len() == 0 || (step.instance.task.answered_by(replies[0])
        && answers(step.instance.resume(replies[0]), replies.skip(1)))
}

/// One step keeps an instance well formed, and brings the operation nearer to
/// its end.
proof fn resume_wf(i: InstanceView, reply: UnitReply)
    requires
        i.wf(),
        i.task.answered_by(reply),
    ensures
        i.resume(reply).instance.wf(),
        i.resume(reply).instance.task.requests_left() < i.task.requests_left(),
        i.resume(reply).done is None ==> !(i.resume(reply).instance.task is Idle),
{
}

/// Every operation ends: it asks the unit at most twenty times.
pub proof fn every_operation_ends(step: Stepped, replies: Seq<UnitReply>)
    requires
        step.instance.wf(),
        answers(step, replies),
        replies.len() >= step.instance.task.requests_left(),
        step.done is None ==> !(step.instance.task is Idle),
    ensures
        concluded(step, replies).done is Some,
        step.instance.task.requests_left() <= 20,
    decreases replies.len(),
{
    if step.done is None {
        resume_wf(step.instance, replies[0]);
        every_operation_ends(step.instance.resume(replies[0]), replies.skip(1));
    }
}

/// What holds while the sample rate of `start` is being changed.
spec fn changing_rate(i: InstanceView, start: InstanceView, rate: Float64) -> bool {
    &&& i.wf()
    &&& i.config.block_size == start.config.block_size
    &&& !(i.phase is Empty)
    &&& match i.task {
        TaskView::Uninitialize { then_do } => then_do == Then::SetSampleRate(rate) && i.config
            == start.config && start.phase is Ready,
        TaskView::Apply { change, was_ready, .. } => change == (Change::SampleRate {
            previous: start.config.sample_rate,
        }) && i.config.sample_rate == rate && was_ready == (start.phase is Ready),
        TaskView::Restore { was_ready, .. } => i.config.sample_rate == start.config.sample_rate
            && was_ready == (start.phase is Ready),
        TaskView::Initialize { failed } => start.phase is Ready && i.config.sample_rate == (
        if failed is Some {
            start.config.sample_rate
        } else {
            rate
        }),
        TaskView::InstallCallback { failed } => start.phase is Ready && i.config.sample_rate == (
        if failed is Some {
            start.config.sample_rate
        } else {
            rate
        }),
        TaskView::BackOut { error } => start.phase is Ready && error is OsStatus && (
        i.config.sample_rate == rate || i.config.sample_rate == start.config.sample_rate),
        TaskView::Discard { error } => start.phase is Ready && error is OsStatus && (
        i.config.sample_rate == rate || i.config.sample_rate == start.config.sample_rate),
        _ => false,
    }
}

/// What a finished change of the sample rate comes to.
pub open spec fn rate_change_kept(end: Stepped, start: InstanceView, rate: Float64) -> bool {
    let e = end.instance;
    match end.done {
        None => true,
        Some(Ok(_)) => e.phase == start.phase && e.config.sample_rate == rate
            && e.config.block_size == start.config.block_size,
        Some(Err(error)) => {
            &&& !(error is OsStatus) ==> e.phase == start.phase && e.config.sample_rate
                == start.config.sample_rate
            &&& e.config.block_size == start.config.block_size
            &&& e.config.sample_rate == start.config.sample_rate || e.config.sample_rate == rate
        },
    }
}

proof fn rate_change_steps(step: Stepped, start: InstanceView, rate: Float64, replies: Seq<UnitReply>)
    requires
        !(start.phase is Empty),
        answers(step, replies),
        step.done is None ==> changing_rate(step.instance, start, rate),
        rate_change_kept(step, start, rate),
    ensures
        rate_change_kept(concluded(step, replies), start, rate),
    decreases replies.len(),
{
    if step.done is None && replies.len() > 0 {
        let next = step.instance.resume(replies[0]);
        resume_wf(step.instance, replies[0]);
        rate_change_steps(next, start, rate, replies.skip(1));
    }
}

/// Changing the sample rate, whatever the unit answers: on success the unit is in
/// the phase it was in, at the new rate. If the unit turned the rate down, it is
/// in the phase it was in, at the old rate. Only a failed call can leave it
/// otherwise, and the block size is never touched.
pub proof fn a_rejected_rate_is_rolled_back(
    start: InstanceView,
    rate: Float64,
    replies: Seq<UnitReply>,
)
    requires
        start.task is Idle,
        !(start.phase is Empty),
        answers(start.setting_rate(rate), replies),
    ensures
        rate_change_kept(concluded(start.setting_rate(rate), replies), start, rate),
{
    rate_change_steps(start.setting_rate(rate), start, rate, replies);
}

/// What holds while the block size of `start` is being changed.
spec fn changing_size(i: InstanceView, start: InstanceView, frames: u32) -> bool {
    &&& i.wf()
    &&& i.config.sample_rate == start.config.sample_rate
    &&& !(i.phase is Empty)
    &&& match i.task {
        TaskView::Uninitialize { then_do } => then_do == Then::SetBlockSize(frames) && i.config
            == start.config && start.phase is Ready,
        TaskView::Apply { change, was_ready, .. } => change == (Change::BlockSize {
            previous: start.config.block_size,
        }) && i.config.block_size == frames && was_ready == (start.phase is Ready),
        TaskView::ReadBlockSize { previous, was_ready } => previous == start.config.block_size
            && i.config.block_size == frames && was_ready == (start.phase is Ready),
        TaskView::Restore { was_ready, .. } => i.config.block_size == start.config.block_size
            && was_ready == (start.phase is Ready),
        TaskView::Initialize { failed } => start.phase is Ready && i.config.block_size == (
        if failed is Some {
            start.config.block_size
        } else {
            frames
        }),
        TaskView::InstallCallback { failed } => start.phase is Ready && i.config.block_size == (
        if failed is Some {
            start.config.block_size
        } else {
            frames
        }),
        TaskView::BackOut { error } => start.phase is Ready && error is OsStatus && (
        i.config.block_size == frames || i.config.block_size == start.config.block_size),
        TaskView::Discard { error } => start.phase is Ready && error is OsStatus && (
        i.config.block_size == frames || i.config.block_size == start.config.block_size),
        _ => false,
    }
}

/// What a finished change of the block size comes to.
pub open spec fn size_change_kept(end: Stepped, start: InstanceView, frames: u32) -> bool {
    let e = end.instance;
    match end.done {
        None => true,
        Some(Ok(_)) => e.phase == start.phase && e.config.block_size == frames && frames > 0
            && e.config.sample_rate == start.config.sample_rate,
        Some(Err(error)) => {
            &&& !(error is OsStatus) ==> e.phase == start.phase && e.config.block_size
                == start.config.block_size
            &&& e.config.sample_rate == start.config.sample_rate
            &&& e.config.block_size == start.config.block_size || e.config.block_size == frames
        },
    }
}

proof fn size_change_steps(step: Stepped, start: InstanceView, frames: u32, replies: Seq<UnitReply>)
    requires
        frames > 0,
        !(start.phase is Empty),
        answers(step, replies),
        step.done is None ==> changing_size(step.instance, start, frames),
        size_change_kept(step, start, frames),
    ensures
        size_change_kept(concluded(step, replies), start, frames),
    decreases replies.len(),
{
    if step.done is None && replies.len() > 0 {
        let next = step.instance.resume(replies[0]);
        resume_wf(step.instance, replies[0]);
        size_change_steps(next, start, frames, replies.skip(1));
    }
}

/// Changing the block size, whatever the unit answers: on success the unit is in
/// the phase it was in, at the new size. If the size was refused, here or by the
/// unit, it is in the phase it was in, at the old size. Only a failed call can
/// leave it otherwise, and the sample rate is never touched.
pub proof fn a_rejected_block_size_is_rolled_back(
    start: InstanceView,
    frames: u32,
    replies: Seq<UnitReply>,
)
    requires
        start.task is Idle,
        !(start.phase is Empty),
        answers(start.setting_block_size(frames), replies),
    ensures
        size_change_kept(concluded(start.setting_block_size(frames), replies), start, frames),
{
    if frames > 0 {
        size_change_steps(start.setting_block_size(frames), start, frames, replies);
    }
}

/// Initializing, whatever the unit answers: on success the unit is ready, and a
/// refusal leaves it loaded as it was. Only a unit that takes no input callback
/// and then cannot be taken down either is gone.
pub proof fn a_refused_initialize_leaves_the_unit_loaded(
    start: InstanceView,
    initialize: i32,
    install: i32,
    back_out: i32,
    discard: i32,
)
    requires
        start.task is Idle,
        start.phase is Loaded,
    ensures
        ({
            let replies = seq![
                UnitReply::Status(initialize),
                UnitReply::Status(install),
                UnitReply::Status(back_out),
                UnitReply::Status(discard),
            ];
            let end = concluded(start.initializing(), replies);
            let installs = start.config.channels.has_input;
            &&& end.instance.config == start.config
            &&& end.done is Some
            &&& end.done->0 is Ok <==> initialize == NO_ERR && (!installs || install == NO_ERR)
            &&& end.done->0 is Ok ==> end.instance.phase is Ready
            &&& end.done->0 is Err ==> (end.instance.phase is Loaded || end.instance.phase is Empty)
            &&& end.instance.phase is Empty <==> initialize == NO_ERR && installs && install
                != NO_ERR && back_out != NO_ERR
        }),
{
    reveal_with_fuel(concluded, 5);
    let replies = seq![
        UnitReply::Status(initialize),
        UnitReply::Status(install),
        UnitReply::Status(back_out),
        UnitReply::Status(discard),
    ];
    assert(replies.skip(1)[0] == UnitReply::Status(install));
    assert(replies.skip(1).skip(1)[0] == UnitReply::Status(back_out));
    assert(replies.skip(1).skip(1).skip(1)[0] == UnitReply::Status(discard));
}

/// Taking a ready unit down, whatever it answers: on success it is loaded, and a
/// refusal leaves it ready as it was.
pub proof fn a_refused_uninitialize_leaves_the_unit_ready(start: InstanceView, status: i32)
    requires
        start.task is Idle,
        start.phase is Ready,
    ensures
        ({
            let end = concluded(start.uninitializing(), seq![UnitReply::Status(status)]);
            &&& end.instance.config == start.config
            &&& end.done is Some
            &&& end.done->0 is Ok <==> status == NO_ERR
            &&& end.done->0 is Ok ==> end.instance.phase is Loaded
            &&& end.done->0 is Err ==> end.instance.phase is Ready
        }),
{
    reveal_with_fuel(concluded, 2);
}

/// The buffers of a ready unit are given up only once the unit was taken down, or
/// was discarded: until then it may call back into them.
pub proof fn buffers_outlive_the_session(i: InstanceView, reply: UnitReply)
    requires
        i.wf(),
        i.phase is Ready,
        i.task.answered_by(reply),
        !(i.resume(reply).instance.phase is Ready),
    ensures
        i.task.asks() == Some(UnitRequest::Discard) || (i.task.asks() == Some(
            UnitRequest::Uninitialize,
        ) && reply == UnitReply::Status(NO_ERR)),
{
}

/// The input callback is installed on a unit just initialized, only where it has
/// an input, and once: the request comes up on no other way.
pub proof fn the_callback_is_installed_once(i: InstanceView, reply: UnitReply)
    requires
        i.wf(),
        i.task.answered_by(reply),
        i.resume(reply).instance.task is InstallCallback,
    ensures
        i.task is Initialize,
        i.phase is Loaded,
        reply == UnitReply::Status(NO_ERR),
        i.config.channels.has_input,
{
}

/// Every request is out for its task: what is begun by asking the unit to
/// initialize, to take its callback, to be taken down, to be discarded, to take a
/// stream setting or to read its block size back.
pub proof fn a_task_asks_what_it_is_for(t: TaskView)
    ensures
        t.asks() is None <==> t is Idle,
        t.asks() == Some(UnitRequest::Initialize) <==> t is Initialize,
        t.asks() == Some(UnitRequest::InstallInputCallback) <==> t is InstallCallback,
        t.asks() == Some(UnitRequest::Uninitialize) <==> t is Uninitialize || t is BackOut,
        t.asks() == Some(UnitRequest::Discard) <==> t is Discard,
        t.asks() == Some(UnitRequest::ReadMaximumFrames) <==> t is ReadBlockSize,
        t matches TaskView::Apply { exchange, .. } ==> t.asks() == Some(
            UnitRequest::Stream(exchange.asks()),
        ),
        t matches TaskView::Restore { exchange, .. } ==> t.asks() == Some(
            UnitRequest::Stream(exchange.asks()),
        ),
{
}

/// How an operation begins. A unit that is ready needs no initializing, one that
/// is not needs no taking down, and a ready unit is taken down before any of its
/// settings is changed. Nothing that the unit has is changed before it is asked,
/// but for the one setting that is being applied.
pub proof fn an_operation_begins_with_the_right_request(
    start: InstanceView,
    rate: Float64,
    frames: u32,
)
    requires
        start.task is Idle,
        !(start.phase is Empty),
    ensures
        start.phase is Ready ==> {
            &&& start.initializing().done == Some(Ok::<(), ErrorView>(()))
            &&& start.initializing().instance == start
            &&& start.uninitializing().instance.task.asks() == Some(UnitRequest::Uninitialize)
            &&& start.setting_rate(rate).instance.task.asks() == Some(UnitRequest::Uninitialize)
            &&& start.setting_rate(rate).instance.config == start.config
            &&& frames > 0 ==> start.setting_block_size(frames).instance.task.asks() == Some(
                UnitRequest::Uninitialize,
            )
            &&& start.setting_block_size(frames).instance.config == start.config
        },
        start.phase is Loaded ==> {
            &&& start.uninitializing().done == Some(Ok::<(), ErrorView>(()))
            &&& start.uninitializing().instance == start
            &&& start.initializing().instance.task.asks() == Some(UnitRequest::Initialize)
            &&& start.initializing().instance.config == start.config
            &&& start.setting_rate(rate).done is None
            &&& start.setting_rate(rate).instance.config.sample_rate == rate
            &&& start.setting_rate(rate).instance.config.block_size == start.config.block_size
            &&& start.setting_rate(rate).instance.config.channels == start.config.channels
            &&& frames > 0 && frames != start.config.block_size ==> {
                let begun = start.setting_block_size(frames);
                &&& begun.done is None
                &&& begun.instance.config.block_size == frames
                &&& begun.instance.config.sample_rate == start.config.sample_rate
                &&& begun.instance.config.channels == start.config.channels
            }
            &&& frames == start.config.block_size && frames > 0 ==> start.setting_block_size(
                frames,
            ).done == Some(Ok::<(), ErrorView>(()))
        },
        frames == 0 ==> start.setting_block_size(frames).done == Some(
            Err::<(), ErrorView>(
                ErrorView::InvalidBuffer { reason: "block_size must be non-zero"@ },
            ),
        ),
        start.setting_rate(rate).instance.phase == start.phase,
        start.setting_block_size(frames).instance.phase == start.phase,
{
}

/// How a unit is made ready: it is initialized, and given its input callback where
/// it has an input. Where the callback is refused, the unit is taken down again
/// and the refusal is what is reported. Its configuration is never touched.
pub proof fn making_ready_touches_no_setting(i: InstanceView, status: i32)
    requires
        i.task is Initialize || i.task is InstallCallback || i.task is BackOut || i.task is Discard,
    ensures
        ({
            let next = i.resume(UnitReply::Status(status));
            let e = ErrorView::OsStatus {
                function: if i.task is Initialize {
                    "AudioUnitInitialize"@
                } else {
                    "AudioUnitSetProperty"@
                },
                code: status,
            };
            &&& next.instance.config == i.config
            &&& i.task matches TaskView::Initialize { failed } ==> {
                &&& status != 0 ==> next.done == Some(Err::<(), ErrorView>(e))
                    && next.instance.phase == i.phase
                &&& status == 0 ==> next.instance.phase is Ready
                &&& status == 0 && i.config.channels.has_input ==> next.done is None
                    && next.instance.task.asks() == Some(UnitRequest::InstallInputCallback)
                &&& status == 0 && !i.config.channels.has_input && failed is None ==> next.done
                    == Some(Ok::<(), ErrorView>(()))
                &&& status == 0 && !i.config.channels.has_input && failed is Some ==> next.done
                    == Some(Err::<(), ErrorView>(failed->0))
            }
            &&& i.task matches TaskView::InstallCallback { failed } ==> {
                &&& next.instance.phase == i.phase
                &&& status != 0 ==> next.done is None && next.instance.task == (TaskView::BackOut {
                    error: e,
                })
                &&& status == 0 && failed is None ==> next.done == Some(Ok::<(), ErrorView>(()))
                &&& status == 0 && failed is Some ==> next.done == Some(
                    Err::<(), ErrorView>(failed->0),
                )
            }
            &&& i.task matches TaskView::BackOut { error } ==> {
                &&& status == 0 ==> next.instance.phase is Loaded && next.done == Some(
                    Err::<(), ErrorView>(error),
                )
                &&& status != 0 ==> next.instance.phase == i.phase && next.done is None
                    && next.instance.task == (TaskView::Discard { error })
            }
            &&& i.task matches TaskView::Discard { error } ==> next.instance.phase is Empty
                && next.done == Some(Err::<(), ErrorView>(error))
        }),
{
}

/// How a unit is taken down: a refusal leaves it as it is and is reported; on
/// success what was to follow begins with the setting that was asked for.
pub proof fn taking_down_leads_to_the_change(i: InstanceView, status: i32)
    requires
        i.task is Uninitialize,
        i.phase is Ready,
    ensures
        ({
            let next = i.resume(UnitReply::Status(status));
            &&& status != 0 ==> next.instance.phase is Ready && next.instance.config == i.config
                && next.done == Some(
                Err::<(), ErrorView>(
                    ErrorView::OsStatus { function: "AudioUnitUninitialize"@, code: status },
                ),
            )
            &&& status == 0 ==> next.instance.phase is Loaded && next.instance.config.channels
                == i.config.channels
            &&& status == 0 ==> match i.task->Uninitialize_then_do {
                Then::Nothing => next.instance.config == i.config && next.done == Some(
                    Ok::<(), ErrorView>(()),
                ),
                Then::SetSampleRate(rate) => next.done is None && next.instance.config.sample_rate
                    == rate && next.instance.config.block_size == i.config.block_size,
                Then::SetBlockSize(frames) => next.done is None && next.instance.config.block_size
                    == frames && next.instance.config.sample_rate == i.config.sample_rate,
            }
        }),
{
}

/// How a change goes on once the unit said what it runs: the layout that it runs
/// is recorded and nothing else, and a unit that was ready is initialized again. A
/// block size is read back first. A change that was turned down is put back, with
/// the error kept until the end, and the old setting is applied again.
pub proof fn a_change_records_what_the_unit_runs(i: InstanceView, reply: StreamReply)
    requires
        i.wf(),
        i.task is Apply,
        i.task.answered_by(UnitReply::Stream(reply)),
        i.task->Apply_exchange.step(reply) is Finished,
    ensures
        ({
            let next = i.resume(UnitReply::Stream(reply));
            let result = i.task->Apply_exchange.step(reply)->result;
            let was_ready = i.task->Apply_was_ready;
            &&& next.instance.phase is Loaded
            &&& result matches Ok(channels) ==> {
                &&& next.instance.config.channels == channels
                &&& next.instance.config.sample_rate == i.config.sample_rate
                &&& next.instance.config.block_size == i.config.block_size
                &&& i.task->Apply_change is BlockSize ==> next.done is None
                    && next.instance.task.asks() == Some(UnitRequest::ReadMaximumFrames)
                &&& i.task->Apply_change is SampleRate && was_ready ==> next.done is None
                    && next.instance.task.asks() == Some(UnitRequest::Initialize)
                &&& i.task->Apply_change is SampleRate && !was_ready ==> next.done == Some(
                    Ok::<(), ErrorView>(()),
                )
            }
            &&& result matches Err(e) ==> {
                &&& next.done is None
                &&& next.instance.config.channels == i.config.channels
                &&& match i.task->Apply_change {
                    Change::SampleRate { previous } => next.instance.config.sample_rate == previous
                        && next.instance.config.block_size == i.config.block_size,
                    Change::BlockSize { previous } => next.instance.config.block_size == previous
                        && next.instance.config.sample_rate == i.config.sample_rate,
                }
                &&& next.instance.task is Restore
                &&& next.instance.task->Restore_error == e
                &&& next.instance.task->Restore_was_ready == was_ready
                &&& next.instance.task.asks() == Some(
                    UnitRequest::Stream(
                        StreamRequest::SetMaximumFrames {
                            frames: next.instance.config.block_size,
                        },
                    ),
                )
            }
        }),
{
}

/// A block size that the unit does not run at is put back, and the error says what
/// was asked for and what the unit runs at; one that it runs at is kept.
pub proof fn a_block_size_is_kept_where_the_unit_runs_at_it(
    i: InstanceView,
    status: i32,
    frames: u32,
)
    requires
        i.task is ReadBlockSize,
        i.phase is Loaded,
    ensures
        ({
            let next = i.resume(UnitReply::MaximumFrames { status, frames });
            let previous = i.task->ReadBlockSize_previous;
            let was_ready = i.task->ReadBlockSize_was_ready;
            let kept = status == 0 && frames == i.config.block_size;
            &&& next.instance.phase is Loaded
            &&& next.instance.config.channels == i.config.channels
            &&& next.instance.config.sample_rate == i.config.sample_rate
            &&& kept ==> next.instance.config.block_size == i.config.block_size
            &&& kept && was_ready ==> next.done is None && next.instance.task == (
            TaskView::Initialize { failed: None })
            &&& kept && !was_ready ==> next.done == Some(Ok::<(), ErrorView>(()))
            &&& !kept ==> {
                &&& next.done is None
                &&& next.instance.config.block_size == previous
                &&& next.instance.task is Restore
                &&& next.instance.task->Restore_was_ready == was_ready
                &&& status == 0 ==> next.instance.task->Restore_error == (
                ErrorView::BlockSizeRejected {
                    requested: i.config.block_size,
                    accepted: frames,
                })
                &&& status != 0 ==> next.instance.task->Restore_error == (ErrorView::OsStatus {
                    function: "AudioUnitGetProperty"@,
                    code: status,
                })
            }
        }),
{
}

/// Putting a setting back changes nothing further, whatever the unit says of it,
/// and ends in the error that it was put back for.
pub proof fn putting_back_ends_in_the_error(i: InstanceView, reply: StreamReply)
    requires
        i.wf(),
        i.task is Restore,
        i.task.answered_by(UnitReply::Stream(reply)),
    ensures
        ({
            let next = i.resume(UnitReply::Stream(reply));
            let error = i.task->Restore_error;
            let was_ready = i.task->Restore_was_ready;
            let over = i.task->Restore_exchange.step(reply) is Finished;
            &&& next.instance.config == i.config
            &&& next.instance.phase is Loaded
            &&& over && was_ready ==> next.done is None && next.instance.task == (
            TaskView::Initialize { failed: Some(error) })
            &&& over && !was_ready ==> next.done == Some(Err::<(), ErrorView>(error))
            &&& !over ==> next.done is None && next.instance.task is Restore
                && next.instance.task->Restore_error == error
                && next.instance.task->Restore_was_ready == was_ready
        }),
{
}

/// An exchange of settings goes on with the same change until the unit has said
/// everything.
pub proof fn a_change_goes_on_with_its_exchange(i: InstanceView, reply: StreamReply)
    requires
        i.wf(),
        i.task is Apply,
        i.task.answered_by(UnitReply::Stream(reply)),
        i.task->Apply_exchange.step(reply) is Ask,
    ensures
        ({
            let next = i.resume(UnitReply::Stream(reply));
            &&& next.done is None
            &&& next.instance.config == i.config
            &&& next.instance.phase == i.phase
            &&& next.instance.task == (TaskView::Apply {
                exchange: i.task->Apply_exchange.step(reply)->next,
                change: i.task->Apply_change,
                was_ready: i.task->Apply_was_ready,
            })
        }),
{
}

/// Taking an instance apart takes each step once: the unit is taken down where it
/// is ready, its callbacks are withdrawn where it has a transport, it is disposed
/// of, and what it could reach is freed.
pub proof fn an_instance_is_taken_apart_once(ready: bool, transport: bool)
    ensures
        ({
            let steps = teardown_steps(ready, transport);
            let count: int = 1 + (if ready {
                2int
            } else {
                0
            }) + (if transport {
                2int
            } else {
                0
            });
            &&& steps.len() == count
            &&& forall|i: int, j: int| 0 <= i < j < steps.len() ==> #[trigger] steps[i]
                != #[trigger] steps[j]
            &&& steps.contains(TeardownStep::Dispose)
            &&& ready ==> steps.contains(TeardownStep::Uninitialize) && steps.contains(
                TeardownStep::FreeScratch,
            )
            &&& transport ==> steps.contains(TeardownStep::WithdrawHostCallbacks)
                && steps.contains(TeardownStep::FreeTransport)
        }),
{
    let steps = teardown_steps(ready, transport);
    let w: int = if ready {
        1
    } else {
        0
    };
    let d: int = if transport {
        w + 1
    } else {
        w
    };
    assert(steps[d] == TeardownStep::Dispose);
    if ready {
        assert(steps[0] == TeardownStep::Uninitialize);
        assert(steps[steps.len() - 1] == TeardownStep::FreeScratch);
    }
    if transport {
        assert(steps[w] == TeardownStep::WithdrawHostCallbacks);
        assert(steps[d + 1] == TeardownStep::FreeTransport);
    }
}

/// A step is taken in full: the instance is in the phase, at the task and at the
/// configuration of the step, and is done exactly where the step is, with its
/// result.
pub proof fn a_step_is_taken_in_full<T: Copy>(
    i: AuInstance<T>,
    done: Option<Result<(), AuError>>,
    step: Stepped,
)
    requires
        i.stepped(done, step),
    ensures
        i.phase() == step.instance.phase,
        i.task@ == step.instance.task,
        !(i.phase() is Empty) ==> i.loaded().config == step.instance.config,
        done is None <==> step.done is None,
        done matches Some(Ok(_)) ==> step.done == Some(Ok::<(), ErrorView>(())),
        done matches Some(Err(e)) ==> step.done == Some(Err::<(), ErrorView>(e@)),
{
}

/// What an operation leaves alone: the unit, its transport and the silence value,
/// and the buffers while the unit is ready.
pub proof fn an_operation_keeps_the_unit<T: Copy>(a: AuInstance<T>, b: AuInstance<T>)
    requires
        a.same_unit(&b),
        a.same_buffers(&b),
    ensures
        a.silence == b.silence,
        !(a.phase() is Empty) && !(b.phase() is Empty) ==> a.loaded().handle == b.loaded().handle
            && a.loaded().transport == b.loaded().transport,
        a.phase() is Ready && b.phase() is Ready ==> a.scratch() == b.scratch(),
{
}

/// What every instance keeps: its buffers are those of its configuration, as many
/// outputs as it is wide and each as long as its block, with its silence.
pub proof fn a_ready_unit_has_buffers_of_its_size<T: Copy>(i: AuInstance<T>, ch: int)
    requires
        i.wf(),
        i.phase() is Ready,
    ensures
        i.view().wf(),
        i.scratch().silence == i.silence,
        i.scratch().outputs@.len() == i.loaded().config.channels.outputs.width(),
        i.scratch().inputs@.len() >= i.scratch().outputs@.len(),
        i.loaded().config.channels.has_input ==> i.scratch().inputs@.len()
            >= i.loaded().config.channels.inputs.width(),
        0 <= ch < i.scratch().outputs@.len() ==> i.scratch().outputs@[ch]@.len()
            == i.loaded().config.block_size,
        0 <= ch < i.scratch().inputs@.len() ==> i.scratch().inputs@[ch]@.len()
            == i.loaded().config.block_size,
{
}

/// An instance is seen as it is: loaded, ready or gone by its state, with the
/// configuration of its unit, and at its task, errors included.
pub proof fn an_instance_is_seen_as_it_is<T: Copy>(i: AuInstance<T>)
    ensures
        i.phase() is Loaded <==> i.state is Loaded,
        i.phase() is Ready <==> i.state is Ready,
        i.phase() is Empty <==> i.state is Empty,
        i.state matches State::Loaded(l) ==> i.loaded() == l,
        i.state matches State::Ready(r) ==> i.loaded() == r.loaded && i.scratch() == *r.scratch,
        i.view().phase == i.phase(),
        i.view().config == i.loaded().config,
        i.view().task == i.task@,
        i.task is Idle <==> i.task@ is Idle,
        i.task matches Task::Initialize { failed: Some(e) } ==> i.task@ == (TaskView::Initialize {
            failed: Some(e@),
        }),
        i.task matches Task::Initialize { failed: None } ==> i.task@ == (TaskView::Initialize {
            failed: None,
        }),
        i.task matches Task::InstallCallback { failed: Some(e) } ==> i.task@ == (
        TaskView::InstallCallback { failed: Some(e@) }),
        i.task matches Task::InstallCallback { failed: None } ==> i.task@ == (
        TaskView::InstallCallback { failed: None }),
        i.task matches Task::BackOut { error } ==> i.task@ == (TaskView::BackOut { error: error@ }),
        i.task matches Task::Discard { error } ==> i.task@ == (TaskView::Discard { error: error@ }),
        i.task matches Task::Uninitialize { then_do } ==> i.task@ == (TaskView::Uninitialize {
            then_do,
        }),
        i.task matches Task::Apply { exchange, change, was_ready } ==> i.task@ == (TaskView::Apply {
            exchange,
            change,
            was_ready,
        }),
        i.task matches Task::ReadBlockSize { previous, was_ready } ==> i.task@ == (
        TaskView::ReadBlockSize { previous, was_ready }),
        i.task matches Task::Restore { exchange, error, was_ready } ==> i.task@ == (
        TaskView::Restore { exchange, error: error@, was_ready }),
{
}

/// Rendering with a unit that is not ready is refused with the status that says
/// so.
pub proof fn a_unit_that_is_not_ready_says_so()
    ensures
        not_ready() == (ErrorView::OsStatus { function: "AuInstance::process"@, code: -10867i32 }),
{
}

} // verus!
