use tutti_au_host::error::AuError;
use tutti_au_host::float::Float32;
use tutti_au_host::listener::EventAddress;
use tutti_au_host::parameters::ParamAddress;
use tutti_au_host::render_notify::{
    callback_status, group_len, notification, schedule, scheduled, ParamEvent, RenderPhase,
    ScheduleAddress, PARAMETER_EVENT_SIZE, SCHEDULE_CHUNK,
};
use tutti_au_host::types::{
    K_AUDIO_UNIT_ERR_CANNOT_DO_IN_CURRENT_CONTEXT, K_AUDIO_UNIT_RENDER_ACTION_POST_RENDER,
    K_AUDIO_UNIT_RENDER_ACTION_PRE_RENDER, K_AUDIO_UNIT_SCOPE_GLOBAL, K_PARAMETER_EVENT_IMMEDIATE,
    K_PARAMETER_EVENT_RAMPED, NO_ERR,
};

fn value(v: f32) -> Float32 {
    Float32 { bits: v.to_bits() }
}

#[test]
fn render_notify_the_event_type_constants_match_the_header() {
    assert_eq!(K_PARAMETER_EVENT_IMMEDIATE, 1);
    assert_eq!(K_PARAMETER_EVENT_RAMPED, 2);
}

#[test]
fn the_render_action_flags_match_the_header() {
    assert_eq!(K_AUDIO_UNIT_RENDER_ACTION_PRE_RENDER, 1 << 2);
    assert_eq!(K_AUDIO_UNIT_RENDER_ACTION_POST_RENDER, 1 << 3);
}

#[test]
fn the_parameter_event_struct_matches_the_c_layout() {
    assert_eq!(
        PARAMETER_EVENT_SIZE, 32,
        "16-byte header + 16-byte union, no padding"
    );
    assert_eq!(
        std::mem::size_of::<tutti_au_host::render_notify::AudioUnitParameterEvent>(),
        32
    );
    assert_eq!(
        std::mem::align_of::<tutti_au_host::render_notify::AudioUnitParameterEvent>(),
        4,
        "every member is a 4-byte scalar, so no 8-byte alignment applies"
    );
}

#[test]
fn each_variant_lowers_into_its_own_union_arm() {
    let addr = ScheduleAddress {
        scope: K_AUDIO_UNIT_SCOPE_GLOBAL,
        element: 3,
    };

    let imm = ParamEvent::Immediate {
        buffer_offset: 64,
        value: value(0.25),
    }
    .to_raw(7, addr);
    assert_eq!(imm.event_type, K_PARAMETER_EVENT_IMMEDIATE);
    assert_eq!(imm.parameter, 7);
    assert_eq!(imm.scope, K_AUDIO_UNIT_SCOPE_GLOBAL);
    assert_eq!(imm.element, 3);
    assert_eq!(imm.value0, 64);
    assert_eq!(f32::from_bits(imm.value1), 0.25);

    let ramp = ParamEvent::Ramped {
        start_buffer_offset: -128,
        duration_frames: 512,
        start_value: value(-1.0),
        end_value: value(1.0),
    }
    .to_raw(9, addr);
    assert_eq!(ramp.event_type, K_PARAMETER_EVENT_RAMPED);
    assert_eq!(ramp.parameter, 9);
    assert_eq!(
        ramp.value0 as i32, -128,
        "a negative offset must survive the lowering — it is how a \
         re-scheduled ramp says it began in an earlier block"
    );
    assert_eq!(ramp.value1, 512);
    assert_eq!(f32::from_bits(ramp.value2), -1.0);
    assert_eq!(f32::from_bits(ramp.value3), 1.0);
}

#[test]
fn the_global_address_agrees_with_the_other_address_types() {
    assert_eq!(
        ScheduleAddress::global().scope,
        ParamAddress::global().scope
    );
    assert_eq!(
        ScheduleAddress::global().element,
        ParamAddress::global().element
    );
    assert_eq!(
        ScheduleAddress::global().scope,
        EventAddress::global().scope
    );
    assert_eq!(ScheduleAddress::default(), ScheduleAddress::global());
}

#[test]
fn scheduling_nothing_is_a_no_op() {
    let calls = schedule(0, ScheduleAddress::global(), &[]);
    assert!(
        calls.is_empty(),
        "an empty schedule must be done without a call"
    );
}

#[test]
fn a_long_schedule_goes_out_in_groups() {
    let events: Vec<ParamEvent> = (0..35u32)
        .map(|n| ParamEvent::Immediate {
            buffer_offset: n,
            value: value(n as f32),
        })
        .collect();
    let calls = schedule(4, ScheduleAddress::global(), &events);
    let sizes: Vec<usize> = calls.iter().map(|c| c.len()).collect();
    assert_eq!(sizes, vec![SCHEDULE_CHUNK, SCHEDULE_CHUNK, 3]);
    let offsets: Vec<u32> = calls.iter().flatten().map(|e| e.value0).collect();
    assert_eq!(offsets, (0..35u32).collect::<Vec<u32>>());
    assert_eq!(group_len(35), 16);
    assert_eq!(group_len(3), 3);
    assert!(scheduled(0).is_ok());
    assert!(matches!(
        scheduled(-50),
        Err(AuError::OsStatus {
            function: "AudioUnitScheduleParameters",
            code: -50
        })
    ));
}

#[test]
fn a_notification_states_its_phase_or_is_none() {
    let pre = notification(true, Some(K_AUDIO_UNIT_RENDER_ACTION_PRE_RENDER | 64), 1, 512).unwrap();
    assert_eq!(pre.phase, RenderPhase::Pre);
    assert_eq!(pre.flags, K_AUDIO_UNIT_RENDER_ACTION_PRE_RENDER | 64);
    assert_eq!((pre.bus, pre.frames), (1, 512));
    let post = notification(true, Some(K_AUDIO_UNIT_RENDER_ACTION_POST_RENDER), 0, 64).unwrap();
    assert_eq!(post.phase, RenderPhase::Post);
    assert_eq!(notification(true, Some(16), 0, 64), None);
    assert_eq!(notification(true, None, 0, 64), None);
    assert_eq!(notification(false, Some(4), 0, 64), None);
    assert_eq!(callback_status(false), NO_ERR);
    assert_eq!(
        callback_status(true),
        K_AUDIO_UNIT_ERR_CANNOT_DO_IN_CURRENT_CONTEXT
    );
}
