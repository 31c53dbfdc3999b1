//! Events that a unit's listeners are told of.
use vstd::prelude::*;
use crate::error::{outcome, status_outcome, AuError, ErrorView};
use crate::ffi::check;
use crate::float::Float32;
use crate::types::{
    K_AUDIO_UNIT_EVENT_BEGIN_PARAMETER_CHANGE_GESTURE,
    K_AUDIO_UNIT_EVENT_END_PARAMETER_CHANGE_GESTURE,
    K_AUDIO_UNIT_EVENT_PARAMETER_VALUE_CHANGE,
    K_AUDIO_UNIT_EVENT_PROPERTY_CHANGE,
    K_AUDIO_UNIT_SCOPE_GLOBAL,
    K_AU_PARAMETER_LISTENER_ANY_PARAMETER,
};

verus! {

/// What an event is about: the scope and the element.
#[derive(Clone, Copy, Debug, PartialEq, Eq, Hash, Structural)]
pub struct EventAddress {
    pub scope: u32,
    pub element: u32,
}

impl EventAddress {
    /// The global scope at element zero.
    pub open spec fn global_address() -> EventAddress {
        EventAddress { scope: K_AUDIO_UNIT_SCOPE_GLOBAL, element: 0 }
    }

    /// The global scope at element zero.
    pub fn global() -> (a: EventAddress)
        ensures
            a == EventAddress::global_address(),
    {
        EventAddress { scope: K_AUDIO_UNIT_SCOPE_GLOBAL, element: 0 }
    }
}

impl Default for EventAddress {
    fn default() -> (a: EventAddress)
        ensures
            a == EventAddress::global_address(),
    {
        EventAddress::global()
    }
}

/// An event as it is delivered. The number is a parameter's or a property's,
/// by the type of the event.
#[derive(Clone, Copy, Debug, PartialEq, Eq, Structural)]
pub struct AudioUnitEvent {
    pub event_type: u32,
    pub id: u32,
    pub address: EventAddress,
}

/// An event.
#[derive(Clone, Copy, Debug, PartialEq)]
pub enum AuEvent {
    /// A parameter has another value.
    ParameterChanged { id: u32, address: EventAddress, value: Float32 },
    /// The user took hold of a parameter's control.
    BeginGesture { id: u32, address: EventAddress },
    /// The user let go of a parameter's control.
    EndGesture { id: u32, address: EventAddress },
    /// A property changed.
    PropertyChanged { id: u32, address: EventAddress },
}

impl AuEvent {
    /// The event that a delivered one stands for.
    pub open spec fn decoded(raw: AudioUnitEvent, value: Float32) -> Option<AuEvent> {
        let id = raw.id;
        let address = raw.address;
        if raw.event_type == K_AUDIO_UNIT_EVENT_PARAMETER_VALUE_CHANGE {
            Some(AuEvent::ParameterChanged { id, address, value })
        } else if raw.event_type == K_AUDIO_UNIT_EVENT_BEGIN_PARAMETER_CHANGE_GESTURE {
            Some(AuEvent::BeginGesture { id, address })
        } else if raw.event_type == K_AUDIO_UNIT_EVENT_END_PARAMETER_CHANGE_GESTURE {
            Some(AuEvent::EndGesture { id, address })
        } else if raw.event_type == K_AUDIO_UNIT_EVENT_PROPERTY_CHANGE {
            Some(AuEvent::PropertyChanged { id, address })
        } else {
            None
        }
    }

    /// Decodes a delivered event. Nothing delivered and an event of an unknown
    /// type are no event.
    pub fn from_raw(raw: Option<&AudioUnitEvent>, value: Float32) -> (e: Option<AuEvent>)
        ensures
            e == (match raw {
                Some(r) => AuEvent::decoded(*r, value),
                None => None,
            }),
    {
        match raw {
            None => None,
            Some(r) => {
                let id: u32 = r.id;
                let address = r.address;
                match r.event_type {
                    K_AUDIO_UNIT_EVENT_PARAMETER_VALUE_CHANGE => Some(
                        AuEvent::ParameterChanged { id, address, value },
                    ),
                    K_AUDIO_UNIT_EVENT_BEGIN_PARAMETER_CHANGE_GESTURE => Some(
                        AuEvent::BeginGesture { id, address },
                    ),
                    K_AUDIO_UNIT_EVENT_END_PARAMETER_CHANGE_GESTURE => Some(
                        AuEvent::EndGesture { id, address },
                    ),
                    K_AUDIO_UNIT_EVENT_PROPERTY_CHANGE => Some(
                        AuEvent::PropertyChanged { id, address },
                    ),
                    _ => None,
                }
            },
        }
    }
}

/// What a listener watches.
#[derive(Clone, Copy, Debug, PartialEq, Eq, Structural)]
pub enum Watch {
    /// The value of a parameter.
    Parameter,
    /// The gestures on a parameter's control, both ends of them.
    Gestures,
    /// A property.
    Property,
}

/// The event types that a listener registers for.
pub open spec fn watched_types(watch: Watch) -> Seq<u32> {
    match watch {
        Watch::Parameter => seq![K_AUDIO_UNIT_EVENT_PARAMETER_VALUE_CHANGE],
        Watch::Gestures => seq![
            K_AUDIO_UNIT_EVENT_BEGIN_PARAMETER_CHANGE_GESTURE,
            K_AUDIO_UNIT_EVENT_END_PARAMETER_CHANGE_GESTURE,
        ],
        Watch::Property => seq![K_AUDIO_UNIT_EVENT_PROPERTY_CHANGE],
    }
}

/// The registrations that a watch needs, in order.
pub fn watch_events(watch: Watch, id: u32, address: EventAddress) -> (events: Vec<AudioUnitEvent>)
    ensures
        events@ == watched_types(watch).map_values(
            |t: u32| AudioUnitEvent { event_type: t, id, address },
        ),
{
    let event = |event_type: u32| -> (e: AudioUnitEvent)
        ensures
            e == (AudioUnitEvent { event_type, id, address }),
        { AudioUnitEvent { event_type, id, address } };
    let events = match watch {
        Watch::Parameter => vec![event(K_AUDIO_UNIT_EVENT_PARAMETER_VALUE_CHANGE)],
        Watch::Gestures => vec![
            event(K_AUDIO_UNIT_EVENT_BEGIN_PARAMETER_CHANGE_GESTURE),
            event(K_AUDIO_UNIT_EVENT_END_PARAMETER_CHANGE_GESTURE),
        ],
        Watch::Property => vec![event(K_AUDIO_UNIT_EVENT_PROPERTY_CHANGE)],
    };
    assert(events@ =~= watched_types(watch).map_values(
        |t: u32| AudioUnitEvent { event_type: t, id, address },
    ));
    events
}

/// What registering came to: the first refusal, if there is one.
pub open spec fn registration(statuses: Seq<i32>) -> Result<(), ErrorView>
    decreases statuses.len(),
{
    if statuses.len() == 0 {
        Ok(())
    } else {
        match status_outcome("AUEventListenerAddEventType"@, statuses[0]) {
            Err(e) => Err(e),
            Ok(_) => registration(statuses.skip(1)),
        }
    }
}

/// What registering came to, given the statuses of the registrations that were
/// made, in order. Nothing after a refusal counts.
pub fn registered(statuses: &[i32]) -> (r: Result<(), AuError>)
    ensures
        outcome(r) == registration(statuses@),
{
    assert(statuses@.skip(0) =~= statuses@);
    for i in 0..statuses.len()
        invariant
            registration(statuses@) == registration(statuses@.skip(i as int)),
    {
        let ghost rest = statuses@.skip(i as int);
        assert(rest[0] == statuses@[i as int]);
        assert(rest.skip(1) =~= statuses@.skip(i + 1));
        if let Err(e) = check("AUEventListenerAddEventType", statuses[i]) {
            return Err(e);
        }
    }
    Ok(())
}

/// What writing a parameter's value, and telling every listener of it, came to.
pub fn set_parameter_notifying(status: i32) -> (r: Result<(), AuError>)
    ensures
        outcome(r) == status_outcome("AUParameterSet"@, status),
{
    check("AUParameterSet", status)
}

/// The event that tells a unit's listeners of a gesture of the host's.
pub fn emit_gesture(id: u32, address: EventAddress, begin: bool) -> (e: AudioUnitEvent)
    ensures
        e == (AudioUnitEvent {
            event_type: if begin {
                K_AUDIO_UNIT_EVENT_BEGIN_PARAMETER_CHANGE_GESTURE
            } else {
                K_AUDIO_UNIT_EVENT_END_PARAMETER_CHANGE_GESTURE
            },
            id,
            address,
        }),
{
    AudioUnitEvent {
        event_type: if begin {
            K_AUDIO_UNIT_EVENT_BEGIN_PARAMETER_CHANGE_GESTURE
        } else {
            K_AUDIO_UNIT_EVENT_END_PARAMETER_CHANGE_GESTURE
        },
        id,
        address,
    }
}

/// What a notification of all parameters names: the number that stands for any
/// parameter, in the global scope.
pub fn notify_all_parameters() -> (target: (u32, EventAddress))
    ensures
        target == (K_AU_PARAMETER_LISTENER_ANY_PARAMETER, EventAddress::global_address()),
{
    (K_AU_PARAMETER_LISTENER_ANY_PARAMETER, EventAddress::global())
}

/// What a listener watches for is what it is told of: every event of a watch
/// decodes, to the number and address that were watched.
pub proof fn what_is_watched_decodes(
    watch: Watch,
    id: u32,
    address: EventAddress,
    value: Float32,
    i: int,
)
    requires
        0 <= i < watched_types(watch).len(),
    ensures
        AuEvent::decoded(
            AudioUnitEvent { event_type: watched_types(watch)[i], id, address },
            value,
        ) == Some(
            match watch {
                Watch::Parameter => AuEvent::ParameterChanged { id, address, value },
                Watch::Gestures => if i == 0 {
                    AuEvent::BeginGesture { id, address }
                } else {
                    AuEvent::EndGesture { id, address }
                },
                Watch::Property => AuEvent::PropertyChanged { id, address },
            },
        ),
{
}

/// A delivered event is what its type says, of the number and at the address that
/// it names: a value of a parameter, the beginning or the end of a gesture, or a
/// property. Any other type is no event.
pub proof fn an_event_is_what_its_type_says(raw: AudioUnitEvent, value: Float32)
    ensures
        ({
            let e = AuEvent::decoded(raw, value);
            let id = raw.id;
            let address = raw.address;
            &&& raw.event_type == 0 ==> e == Some(AuEvent::ParameterChanged { id, address, value })
            &&& raw.event_type == 1 ==> e == Some(AuEvent::BeginGesture { id, address })
            &&& raw.event_type == 2 ==> e == Some(AuEvent::EndGesture { id, address })
            &&& raw.event_type == 3 ==> e == Some(AuEvent::PropertyChanged { id, address })
            &&& raw.event_type > 3 ==> e is None
        }),
{
}

/// A watch on gestures takes both ends of them, the beginning first; any other
/// takes its one type.
pub proof fn a_watch_registers_for_its_types(watch: Watch)
    ensures
        watch is Parameter ==> watched_types(watch) == seq![0u32],
        watch is Gestures ==> watched_types(watch) == seq![1u32, 2u32],
        watch is Property ==> watched_types(watch) == seq![3u32],
{
}

/// Registering succeeds exactly where every registration does, and otherwise comes
/// to the status of the first that was refused.
pub proof fn the_first_refusal_is_reported(statuses: Seq<i32>, i: int)
    requires
        0 <= i <= statuses.len(),
        forall|j: int| 0 <= j < i ==> #[trigger] statuses[j] == 0,
        i < statuses.len() ==> statuses[i] != 0,
    ensures
        i == statuses.len() ==> registration(statuses) == Ok::<(), ErrorView>(()),
        i < statuses.len() ==> registration(statuses) == Err::<(), ErrorView>(
            ErrorView::OsStatus { function: "AUEventListenerAddEventType"@, code: statuses[i] },
        ),
    decreases statuses.len(),
{
    if i > 0 {
        let rest = statuses.skip(1);
        assert forall|j: int| 0 <= j < i - 1 implies #[trigger] rest[j] == 0 by {
            assert(rest[j] == statuses[j + 1]);
        }
        assert(statuses[0] == 0);
        if i < statuses.len() {
            assert(rest[i - 1] == statuses[i]);
        }
        the_first_refusal_is_reported(rest, i - 1);
    }
}

/// The global address is scope zero, element zero.
pub proof fn the_global_address_is_zero()
    ensures
        EventAddress::global_address().scope == 0,
        EventAddress::global_address().element == 0,
{
}

} // verus!
