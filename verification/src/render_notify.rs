//! Notifications around a unit's render, and parameter events scheduled into
//! one.
use vstd::prelude::*;
use crate::buffer::smaller;
use crate::error::{outcome, status_outcome, AuError};
use crate::ffi::check;
use crate::float::Float32;
use crate::types::{
    K_AUDIO_UNIT_ERR_CANNOT_DO_IN_CURRENT_CONTEXT,
    K_AUDIO_UNIT_RENDER_ACTION_POST_RENDER,
    K_AUDIO_UNIT_RENDER_ACTION_PRE_RENDER,
    K_AUDIO_UNIT_SCOPE_GLOBAL,
    K_PARAMETER_EVENT_IMMEDIATE,
    K_PARAMETER_EVENT_RAMPED,
    NO_ERR,
};

verus! {

/// On which side of a render a notification comes.
#[derive(Clone, Copy, Debug, PartialEq, Eq, Hash, Structural)]
pub enum RenderPhase {
    Pre,
    Post,
}

impl RenderPhase {
    /// The phase that the flags of a notification state.
    pub open spec fn stated(flags: u32) -> Option<RenderPhase> {
        if flags & K_AUDIO_UNIT_RENDER_ACTION_PRE_RENDER != 0 {
            Some(RenderPhase::Pre)
        } else if flags & K_AUDIO_UNIT_RENDER_ACTION_POST_RENDER != 0 {
            Some(RenderPhase::Post)
        } else {
            None
        }
    }

    /// The phase that the flags of a notification state, if they state one.
    pub fn from_flags(flags: u32) -> (p: Option<RenderPhase>)
        ensures
            p == RenderPhase::stated(flags),
    {
        if flags & K_AUDIO_UNIT_RENDER_ACTION_PRE_RENDER != 0 {
            Some(RenderPhase::Pre)
        } else if flags & K_AUDIO_UNIT_RENDER_ACTION_POST_RENDER != 0 {
            Some(RenderPhase::Post)
        } else {
            None
        }
    }
}

/// A notification, besides the buffers and the time it is about.
#[derive(Clone, Copy, Debug, PartialEq, Eq, Structural)]
pub struct RenderNotification {
    pub phase: RenderPhase,
    pub flags: u32,
    pub frames: u32,
    pub bus: u32,
}

/// The notification that a call of the unit stands for. A call without a
/// registration behind it or without flags, and one that states no phase, are
/// none.
pub fn notification(has_state: bool, flags: Option<u32>, bus: u32, frames: u32) -> (n: Option<
    RenderNotification,
>)
    ensures
        n == (if !has_state || flags is None {
            None
        } else {
            match RenderPhase::stated(flags->0) {
                Some(phase) => Some(RenderNotification { phase, flags: flags->0, frames, bus }),
                None => None,
            }
        }),
{
    if !has_state {
        return None;
    }
    match flags {
        None => None,
        Some(flags) => match RenderPhase::from_flags(flags) {
            Some(phase) => Some(RenderNotification { phase, flags, frames, bus }),
            None => None,
        },
    }
}

/// What a callback reports to the unit: success, unless the host's part of it
/// panicked.
pub fn callback_status(panicked: bool) -> (status: i32)
    ensures
        status == (if panicked {
            K_AUDIO_UNIT_ERR_CANNOT_DO_IN_CURRENT_CONTEXT
        } else {
            NO_ERR
        }),
{
    if panicked {
        K_AUDIO_UNIT_ERR_CANNOT_DO_IN_CURRENT_CONTEXT
    } else {
        NO_ERR
    }
}

/// A change of a parameter within a block.
#[derive(Clone, Copy, Debug, PartialEq)]
pub enum ParamEvent {
    /// A step at an offset into the block.
    Immediate { buffer_offset: u32, value: Float32 },
    /// A ramp. A negative start says that it began in an earlier block.
    Ramped {
        start_buffer_offset: i32,
        duration_frames: u32,
        start_value: Float32,
        end_value: Float32,
    },
}

/// Where a scheduled parameter lives.
#[derive(Clone, Copy, Debug, PartialEq, Eq, Hash, Structural)]
pub struct ScheduleAddress {
    pub scope: u32,
    pub element: u32,
}

impl ScheduleAddress {
    /// The global scope at element zero.
    pub open spec fn global_address() -> ScheduleAddress {
        ScheduleAddress { scope: K_AUDIO_UNIT_SCOPE_GLOBAL, element: 0 }
    }

    /// The global scope at element zero.
    pub fn global() -> (a: ScheduleAddress)
        ensures
            a == ScheduleAddress::global_address(),
    {
        ScheduleAddress { scope: K_AUDIO_UNIT_SCOPE_GLOBAL, element: 0 }
    }
}

impl Default for ScheduleAddress {
    fn default() -> (a: ScheduleAddress)
        ensures
            a == ScheduleAddress::global_address(),
    {
        ScheduleAddress::global()
    }
}

/// Bytes of a scheduled event: four words that address it and four of values.
pub const PARAMETER_EVENT_SIZE: usize = 32;

/// A scheduled event as the unit takes it. The four value words are the step's
/// offset and value, or the ramp's start, duration and two values, by the type
/// of the event.
#[derive(Clone, Copy, Debug, PartialEq, Eq, Structural)]
pub struct AudioUnitParameterEvent {
    pub scope: u32,
    pub element: u32,
    pub parameter: u32,
    pub event_type: u32,
    pub value0: u32,
    pub value1: u32,
    pub value2: u32,
    pub value3: u32,
}

impl ParamEvent {
    /// The event as the unit takes it.
    pub open spec fn raw(self, id: u32, address: ScheduleAddress) -> AudioUnitParameterEvent {
        match self {
            ParamEvent::Immediate { buffer_offset, value } => AudioUnitParameterEvent {
                scope: address.scope,
                element: address.element,
                parameter: id,
                event_type: K_PARAMETER_EVENT_IMMEDIATE,
                value0: buffer_offset,
                value1: value.bits,
                value2: 0,
                value3: 0,
            },
            ParamEvent::Ramped { start_buffer_offset, duration_frames, start_value, end_value } =>
            AudioUnitParameterEvent {
                scope: address.scope,
                element: address.element,
                parameter: id,
                event_type: K_PARAMETER_EVENT_RAMPED,
                value0: start_buffer_offset as u32,
                value1: duration_frames,
                value2: start_value.bits,
                value3: end_value.bits,
            },
        }
    }

    /// The event that the unit reads out of its words.
    pub open spec fn read_back(raw: AudioUnitParameterEvent) -> Option<ParamEvent> {
        if raw.event_type == K_PARAMETER_EVENT_IMMEDIATE {
            Some(
                ParamEvent::Immediate {
                    buffer_offset: raw.value0,
                    value: Float32 { bits: raw.value1 },
                },
            )
        } else if raw.event_type == K_PARAMETER_EVENT_RAMPED {
            Some(
                ParamEvent::Ramped {
                    start_buffer_offset: raw.value0 as i32,
                    duration_frames: raw.value1,
                    start_value: Float32 { bits: raw.value2 },
                    end_value: Float32 { bits: raw.value3 },
                },
            )
        } else {
            None
        }
    }

    /// The event as the unit takes it.
    pub fn to_raw(self, id: u32, address: ScheduleAddress) -> (raw: AudioUnitParameterEvent)
        ensures
            raw == self.raw(id, address),
    {
        match self {
            ParamEvent::Immediate { buffer_offset, value } => AudioUnitParameterEvent {
                scope: address.scope,
                element: address.element,
                parameter: id,
                event_type: K_PARAMETER_EVENT_IMMEDIATE,
                value0: buffer_offset,
                value1: value.bits,
                value2: 0,
                value3: 0,
            },
            ParamEvent::Ramped { start_buffer_offset, duration_frames, start_value, end_value } =>
            AudioUnitParameterEvent {
                scope: address.scope,
                element: address.element,
                parameter: id,
                event_type: K_PARAMETER_EVENT_RAMPED,
                value0: #[verifier::truncate]
                (start_buffer_offset as u32),
                value1: duration_frames,
                value2: start_value.bits,
                value3: end_value.bits,
            },
        }
    }
}

/// An event survives being handed over: the unit reads the event that was
/// scheduled, at its address, a negative start included.
pub proof fn an_event_is_read_as_scheduled(e: ParamEvent, id: u32, address: ScheduleAddress)
    ensures
        ParamEvent::read_back(e.raw(id, address)) == Some(e),
        e.raw(id, address).parameter == id,
        e.raw(id, address).scope == address.scope,
        e.raw(id, address).element == address.element,
{
    if let ParamEvent::Ramped { start_buffer_offset, .. } = e {
        assert((start_buffer_offset as u32) as i32 == start_buffer_offset) by (bit_vector);
    }
}

/// How many events are handed over in one call.
pub const SCHEDULE_CHUNK: usize = 16;

/// How many of the remaining events go into the next call.
pub fn group_len(remaining: usize) -> (n: usize)
    ensures
        n == smaller(remaining as int, SCHEDULE_CHUNK as int),
{
    if remaining <= SCHEDULE_CHUNK {
        remaining
    } else {
        SCHEDULE_CHUNK
    }
}

/// The events of all calls, one call after the other.
pub open spec fn handed_over(groups: Seq<Vec<AudioUnitParameterEvent>>) -> Seq<
    AudioUnitParameterEvent,
>
    decreases groups.len(),
{
    if groups.len() == 0 {
        Seq::empty()
    } else {
        handed_over(groups.drop_last()) + groups.last()@
    }
}

/// The calls that schedule events: all of them, in order, in groups of at most
/// sixteen, none empty. For no events there is no call.
pub fn schedule(id: u32, address: ScheduleAddress, events: &[ParamEvent]) -> (groups: Vec<
    Vec<AudioUnitParameterEvent>,
>)
    ensures
        handed_over(groups@) == events@.map_values(|e: ParamEvent| e.raw(id, address)),
        handed_over(groups@).len() == events@.len(),
        forall|i: int|
            0 <= i < events@.len() ==> #[trigger] handed_over(groups@)[i] == events@[i].raw(
                id,
                address,
            ),
        forall|i: int|
            0 <= i < groups@.len() - 1 ==> (#[trigger] groups@[i])@.len() == SCHEDULE_CHUNK,
        groups@.len() > 0 ==> 1 <= groups@.last()@.len() <= SCHEDULE_CHUNK,
        events@.len() == 0 ==> groups@.len() == 0,
{
    let ghost raws = events@.map_values(|e: ParamEvent| e.raw(id, address));
    let mut groups: Vec<Vec<AudioUnitParameterEvent>> = Vec::new();
    let mut at: usize = 0;
    assert(handed_over(groups@) =~= raws.take(0));
    while at < events.len()
        invariant
            at <= events@.len(),
            raws == events@.map_values(|e: ParamEvent| e.raw(id, address)),
            handed_over(groups@) == raws.take(at as int),
            at < events@.len() ==> forall|i: int|
                0 <= i < groups@.len() ==> (#[trigger] groups@[i])@.len() == SCHEDULE_CHUNK,
            forall|i: int|
                0 <= i < groups@.len() - 1 ==> (#[trigger] groups@[i])@.len() == SCHEDULE_CHUNK,
            groups@.len() > 0 ==> 1 <= groups@.last()@.len() <= SCHEDULE_CHUNK,
            events@.len() == 0 ==> groups@.len() == 0,
        decreases events@.len() - at,
    {
        let n: usize = group_len(events.len() - at);
        let mut group: Vec<AudioUnitParameterEvent> = Vec::new();
        for k in 0..n
            invariant
                at + n <= events@.len(),
                at + n <= usize::MAX,
                raws == events@.map_values(|e: ParamEvent| e.raw(id, address)),
                group@ == raws.subrange(at as int, at + k),
        {
            group.push(events[at + k].to_raw(id, address));
            assert(raws.subrange(at as int, at + k + 1) =~= raws.subrange(at as int, at + k).push(
                raws[at + k],
            ));
        }
        let ghost before = groups@;
        groups.push(group);
        proof {
            assert(groups@.drop_last() =~= before);
            assert(raws.take(at + n) =~= raws.take(at as int) + raws.subrange(at as int, at + n));
        }
        at = at + n;
    }
    assert(raws.take(raws.len() as int) =~= raws);
    groups
}

/// What a call that schedules events came to. A failed call ends the schedule.
pub fn scheduled(status: i32) -> (r: Result<(), AuError>)
    ensures
        outcome(r) == status_outcome("AudioUnitScheduleParameters"@, status),
{
    check("AudioUnitScheduleParameters", status)
}

/// A scheduled event is addressed as it was, and its words are those of its kind:
/// for a step its place and value, for a ramp its start, its length and the values
/// at its start and end.
pub proof fn an_event_has_the_words_of_its_kind(e: ParamEvent, id: u32, address: ScheduleAddress)
    ensures
        e.raw(id, address).scope == address.scope,
        e.raw(id, address).element == address.element,
        e.raw(id, address).parameter == id,
        e matches ParamEvent::Immediate { buffer_offset, value } ==> e.raw(id, address).event_type
            == 1 && e.raw(id, address).value0 == buffer_offset && e.raw(id, address).value1
            == value.bits,
        e matches ParamEvent::Ramped {
            start_buffer_offset,
            duration_frames,
            start_value,
            end_value,
        } ==> e.raw(id, address).event_type == 2 && (start_buffer_offset >= 0 ==> e.raw(
            id,
            address,
        ).value0 == start_buffer_offset) && (start_buffer_offset < 0 ==> e.raw(id, address).value0
            == start_buffer_offset + 0x1_0000_0000) && e.raw(id, address).value1 == duration_frames
            && e.raw(id, address).value2 == start_value.bits && e.raw(id, address).value3
            == end_value.bits,
{
    if let ParamEvent::Ramped { start_buffer_offset, .. } = e {
        let n = start_buffer_offset;
        if n < 0 {
            assert((n as u32) as i64 == n as i64 + 0x1_0000_0000) by (bit_vector)
                requires
                    n < 0,
            ;
        }
    }
}

/// All that is handed over is every group, whole and in order.
pub proof fn every_group_is_handed_over(groups: Seq<Vec<AudioUnitParameterEvent>>)
    ensures
        groups.len() == 0 ==> handed_over(groups).len() == 0,
        groups.len() > 0 ==> handed_over(groups) == handed_over(groups.take(groups.len() - 1))
            + groups[groups.len() - 1]@,
{
    if groups.len() > 0 {
        assert(groups.drop_last() =~= groups.take(groups.len() - 1));
    }
}

/// A notification comes before the render where the third bit of its flags is set,
/// after it where only the fourth is, and is none without either.
pub proof fn a_phase_is_stated_by_its_flag(flags: u32)
    ensures
        RenderPhase::stated(flags) == Some(RenderPhase::Pre) <==> flags / 4 % 2 == 1,
        RenderPhase::stated(flags) == Some(RenderPhase::Post) <==> flags / 4 % 2 == 0 && flags / 8
            % 2 == 1,
        RenderPhase::stated(flags) is None <==> flags / 4 % 2 == 0 && flags / 8 % 2 == 0,
{
    assert((flags & 4 != 0 <==> flags / 4 % 2 == 1) && (flags & 8 != 0 <==> flags / 8 % 2 == 1))
        by (bit_vector);
}

/// The global address is scope zero, element zero.
pub proof fn the_global_address_is_zero()
    ensures
        ScheduleAddress::global_address().scope == 0,
        ScheduleAddress::global_address().element == 0,
{
}

} // verus!
