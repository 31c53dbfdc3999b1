use tutti_au_host::error::AuError;
use tutti_au_host::float::Float32;
use tutti_au_host::listener::{
    emit_gesture, notify_all_parameters, registered, watch_events, AuEvent, AudioUnitEvent,
    EventAddress, Watch,
};
use tutti_au_host::parameters::ParamAddress;
use tutti_au_host::types::{
    K_AUDIO_UNIT_EVENT_BEGIN_PARAMETER_CHANGE_GESTURE,
    K_AUDIO_UNIT_EVENT_END_PARAMETER_CHANGE_GESTURE, K_AUDIO_UNIT_EVENT_PARAMETER_VALUE_CHANGE,
    K_AUDIO_UNIT_EVENT_PROPERTY_CHANGE, K_AUDIO_UNIT_SCOPE_GLOBAL,
    K_AU_PARAMETER_LISTENER_ANY_PARAMETER,
};

fn value(v: f32) -> Float32 {
    Float32 { bits: v.to_bits() }
}

#[test]
fn listener_the_event_type_constants_match_the_header() {
    assert_eq!(K_AUDIO_UNIT_EVENT_PARAMETER_VALUE_CHANGE, 0);
    assert_eq!(K_AUDIO_UNIT_EVENT_BEGIN_PARAMETER_CHANGE_GESTURE, 1);
    assert_eq!(K_AUDIO_UNIT_EVENT_END_PARAMETER_CHANGE_GESTURE, 2);
    assert_eq!(K_AUDIO_UNIT_EVENT_PROPERTY_CHANGE, 3);
    assert_eq!(K_AU_PARAMETER_LISTENER_ANY_PARAMETER, 0xFFFF_FFFF);
}

#[test]
fn the_global_address_agrees_with_the_parameter_modules() {
    assert_eq!(EventAddress::global().scope, ParamAddress::global().scope);
    assert_eq!(
        EventAddress::global().element,
        ParamAddress::global().element
    );
    assert_eq!(EventAddress::default(), EventAddress::global());
}

#[test]
fn each_event_type_decodes_into_its_variant() {
    let addr = EventAddress {
        scope: K_AUDIO_UNIT_SCOPE_GLOBAL,
        element: 3,
    };
    let cases = [
        (
            K_AUDIO_UNIT_EVENT_PARAMETER_VALUE_CHANGE,
            AuEvent::ParameterChanged {
                id: 7,
                address: addr,
                value: value(0.25),
            },
        ),
        (
            K_AUDIO_UNIT_EVENT_BEGIN_PARAMETER_CHANGE_GESTURE,
            AuEvent::BeginGesture {
                id: 7,
                address: addr,
            },
        ),
        (
            K_AUDIO_UNIT_EVENT_END_PARAMETER_CHANGE_GESTURE,
            AuEvent::EndGesture {
                id: 7,
                address: addr,
            },
        ),
        (
            K_AUDIO_UNIT_EVENT_PROPERTY_CHANGE,
            AuEvent::PropertyChanged {
                id: 7,
                address: addr,
            },
        ),
    ];
    for (tag, expected) in cases {
        let raw = AudioUnitEvent {
            event_type: tag,
            id: 7,
            address: addr,
        };
        let decoded = AuEvent::from_raw(Some(&raw), value(0.25));
        assert_eq!(decoded, Some(expected), "event type {tag} decoded wrongly");
    }
}

#[test]
fn an_unknown_event_type_decodes_to_none() {
    let raw = AudioUnitEvent {
        event_type: 99,
        id: 0,
        address: EventAddress::global(),
    };
    assert_eq!(AuEvent::from_raw(Some(&raw), value(1.0)), None);
}

#[test]
fn a_null_event_decodes_to_none() {
    assert_eq!(AuEvent::from_raw(None, value(1.0)), None);
}

#[test]
fn watching_gestures_registers_both_ends() {
    let address = EventAddress {
        scope: 1,
        element: 2,
    };
    let events = watch_events(Watch::Gestures, 5, address);
    assert_eq!(events.len(), 2);
    assert_eq!(events[0], emit_gesture(5, address, true));
    assert_eq!(events[1], emit_gesture(5, address, false));
    let events = watch_events(Watch::Parameter, 5, address);
    assert_eq!(events.len(), 1);
    assert_eq!(
        events[0].event_type,
        K_AUDIO_UNIT_EVENT_PARAMETER_VALUE_CHANGE
    );
    let events = watch_events(Watch::Property, 5, address);
    assert_eq!(events[0].event_type, K_AUDIO_UNIT_EVENT_PROPERTY_CHANGE);
}

#[test]
fn the_first_refused_registration_is_reported() {
    assert!(registered(&[0, 0]).is_ok());
    assert!(registered(&[]).is_ok());
    assert!(matches!(
        registered(&[0, -50, -4]),
        Err(AuError::OsStatus {
            function: "AUEventListenerAddEventType",
            code: -50
        })
    ));
}

#[test]
fn a_full_notification_names_any_parameter() {
    assert_eq!(
        notify_all_parameters(),
        (0xFFFF_FFFF, EventAddress::global())
    );
}
