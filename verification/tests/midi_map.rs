use tutti_au_host::error::AuError;
use tutti_au_host::float::{Float32, Float64};
use tutti_au_host::midi_map::{
    add, all, arm_hot_map, clear_table, decode_table, encode_table, hot_map, hot_map_pending,
    read_raw, remove, set_all, supports_parameter_midi_mapping, AuMidiMapping,
    AuParameterMidiMappingRaw, MidiTrigger, SetAllStep, MAPPING_SIZE, MAPPING_STATUS_OFFSET,
};
use tutti_au_host::types::{
    K_AUDIO_UNIT_PROPERTY_ADD_PARAMETER_MIDI_MAPPING,
    K_AUDIO_UNIT_PROPERTY_ALL_PARAMETER_MIDI_MAPPINGS,
    K_AUDIO_UNIT_PROPERTY_HOT_MAP_PARAMETER_MIDI_MAPPING,
    K_AUDIO_UNIT_PROPERTY_REMOVE_PARAMETER_MIDI_MAPPING, K_AUDIO_UNIT_SCOPE_INPUT,
    K_AU_PARAMETER_MIDI_MAPPING_ANY_CHANNEL, K_AU_PARAMETER_MIDI_MAPPING_ANY_NOTE,
    K_AU_PARAMETER_MIDI_MAPPING_BIPOLAR, K_AU_PARAMETER_MIDI_MAPPING_BIPOLAR_ON,
    K_AU_PARAMETER_MIDI_MAPPING_SUB_RANGE, K_AU_PARAMETER_MIDI_MAPPING_TOGGLE,
};

fn value(v: f32) -> Float32 {
    Float32 { bits: v.to_bits() }
}

fn range(lo: f32, hi: f32) -> Option<(Float32, Float32)> {
    Some((value(lo), value(hi)))
}

fn empty_raw() -> AuParameterMidiMappingRaw {
    AuParameterMidiMappingRaw {
        scope: 0,
        element: 0,
        parameter_id: 0,
        flags: 0,
        sub_range_min: value(0.0),
        sub_range_max: value(0.0),
        status: 0,
        data1: 0,
        reserved1: 0,
        reserved2: 0,
        reserved3: 0,
    }
}

#[test]
fn the_mapping_struct_matches_the_c_abi() {
    assert_eq!(MAPPING_SIZE, 32);
    assert_eq!(std::mem::size_of::<AuParameterMidiMappingRaw>(), 32);
    assert_eq!(std::mem::align_of::<AuParameterMidiMappingRaw>(), 4);
    assert_eq!(MAPPING_STATUS_OFFSET, 24);

    // One recognisable value per field, read back where the header puts it.
    let mut bytes = vec![0u8; 32];
    bytes[0] = 1;
    bytes[4] = 2;
    bytes[8] = 3;
    bytes[12] = 4;
    bytes[16] = 5;
    bytes[20] = 6;
    bytes[24] = 7;
    bytes[25] = 8;
    bytes[28] = 9;
    let raw = read_raw(&bytes, 0);
    assert_eq!(raw.scope, 1);
    assert_eq!(raw.element, 2);
    assert_eq!(raw.parameter_id, 3);
    assert_eq!(raw.flags, 4);
    assert_eq!(raw.sub_range_min.bits, 5);
    assert_eq!(raw.sub_range_max.bits, 6);
    assert_eq!(raw.status, 7);
    assert_eq!(raw.data1, 8);
    assert_eq!(raw.reserved3, 9);
}

#[test]
fn the_flag_bits_match_the_header() {
    assert_eq!(K_AU_PARAMETER_MIDI_MAPPING_ANY_CHANNEL, 1);
    assert_eq!(K_AU_PARAMETER_MIDI_MAPPING_ANY_NOTE, 2);
    assert_eq!(K_AU_PARAMETER_MIDI_MAPPING_SUB_RANGE, 4);
    assert_eq!(K_AU_PARAMETER_MIDI_MAPPING_TOGGLE, 8);
    assert_eq!(K_AU_PARAMETER_MIDI_MAPPING_BIPOLAR, 16);
    assert_eq!(K_AU_PARAMETER_MIDI_MAPPING_BIPOLAR_ON, 32);
    assert_eq!(K_AUDIO_UNIT_PROPERTY_ALL_PARAMETER_MIDI_MAPPINGS, 41);
    assert_eq!(K_AUDIO_UNIT_PROPERTY_ADD_PARAMETER_MIDI_MAPPING, 42);
    assert_eq!(K_AUDIO_UNIT_PROPERTY_REMOVE_PARAMETER_MIDI_MAPPING, 43);
    assert_eq!(K_AUDIO_UNIT_PROPERTY_HOT_MAP_PARAMETER_MIDI_MAPPING, 44);
}

#[test]
fn trigger_round_trips_through_the_status_byte() {
    let cases = [
        (MidiTrigger::NoteOff { note: 60 }, 0x80u8, 60u8),
        (MidiTrigger::NoteOn { note: 61 }, 0x90, 61),
        (MidiTrigger::KeyPressure { note: 62 }, 0xA0, 62),
        (MidiTrigger::ControlChange { controller: 1 }, 0xB0, 1),
        (MidiTrigger::ProgramChange { patch: 5 }, 0xC0, 5),
        (MidiTrigger::ChannelPressure, 0xD0, 0),
        (MidiTrigger::PitchBend, 0xE0, 0),
    ];
    for (trigger, nibble, data1) in cases {
        let m = AuMidiMapping {
            trigger,
            channel: 3,
            ..AuMidiMapping::control_change(0, 3, 0)
        };
        let raw = m.to_raw();
        assert_eq!(
            raw.status,
            nibble | 3,
            "{trigger:?} must encode status {nibble:#x} | channel 3"
        );
        assert_eq!(raw.data1, data1, "{trigger:?} mData1");
        assert_eq!(
            AuMidiMapping::from_raw(&raw).trigger,
            trigger,
            "{trigger:?} must survive the round trip"
        );
        assert_eq!(AuMidiMapping::from_raw(&raw).channel, 3);
    }
}

#[test]
fn unknown_status_bytes_decode_to_other() {
    for status in [0xF8u8, 0xFF, 0x00, 0x7F] {
        let raw = AuParameterMidiMappingRaw {
            status,
            data1: 42,
            ..empty_raw()
        };
        assert_eq!(
            AuMidiMapping::from_raw(&raw).trigger,
            MidiTrigger::Other { status, data1: 42 },
            "status {status:#x} must not be decoded as a known command"
        );
        assert_eq!(AuMidiMapping::from_raw(&raw).to_raw(), raw);
    }
}

#[test]
fn an_out_of_range_channel_cannot_corrupt_the_command_nibble() {
    let cases = [
        (64u8, 0xF0u8, 0u8),
        (100, 0xF0, 4),
        (255, 0xF0, 15),
        (17, 0xB0, 1),
    ];
    for (channel, unmasked_nibble, expected_low) in cases {
        let raw = AuMidiMapping::control_change(7, channel, 74).to_raw();
        assert_eq!(
            raw.status & 0xF0,
            0xB0,
            "channel {channel} must not bleed into the command nibble — \
             unmasked it would produce {unmasked_nibble:#x}"
        );
        assert_eq!(
            raw.status & 0x0F,
            expected_low,
            "channel {channel} must mask to its low nibble"
        );
        assert_eq!(
            AuMidiMapping::from_raw(&raw).trigger,
            MidiTrigger::ControlChange { controller: 74 },
            "channel {channel} must still decode as a control change"
        );
    }
    assert!(
        cases.iter().any(|(_, unmasked, _)| *unmasked != 0xB0),
        "the case table must contain a channel the unmasked path corrupts"
    );
}

#[test]
fn each_flag_round_trips_independently() {
    let base = AuMidiMapping::control_change(1, 0, 1);

    let cases: [(&str, AuMidiMapping, u32); 5] = [
        (
            "any_channel",
            AuMidiMapping {
                any_channel: true,
                ..base
            },
            K_AU_PARAMETER_MIDI_MAPPING_ANY_CHANNEL,
        ),
        (
            "any_note",
            AuMidiMapping {
                any_note: true,
                ..base
            },
            K_AU_PARAMETER_MIDI_MAPPING_ANY_NOTE,
        ),
        (
            "toggle",
            AuMidiMapping {
                toggle: true,
                ..base
            },
            K_AU_PARAMETER_MIDI_MAPPING_TOGGLE,
        ),
        (
            "bipolar",
            AuMidiMapping {
                bipolar: true,
                ..base
            },
            K_AU_PARAMETER_MIDI_MAPPING_BIPOLAR,
        ),
        (
            "bipolar_on",
            AuMidiMapping {
                bipolar_on: true,
                ..base
            },
            K_AU_PARAMETER_MIDI_MAPPING_BIPOLAR_ON,
        ),
    ];
    for (name, mapping, bit) in cases {
        let raw = mapping.to_raw();
        assert_eq!(raw.flags, bit, "{name} must set exactly bit {bit}");
        assert_eq!(
            AuMidiMapping::from_raw(&raw),
            mapping,
            "{name} must survive the round trip"
        );
    }

    let every = AuMidiMapping {
        any_channel: true,
        any_note: true,
        sub_range: range(0.25, 0.75),
        toggle: true,
        bipolar: true,
        bipolar_on: true,
        ..base
    };
    let raw = every.to_raw();
    assert_eq!(raw.flags, 0b11_1111, "all six flags");
    assert_eq!(AuMidiMapping::from_raw(&raw), every);
}

#[test]
fn sub_range_travels_with_its_flag() {
    let none = AuMidiMapping::control_change(1, 0, 1);
    let raw = none.to_raw();
    assert_eq!(raw.flags & K_AU_PARAMETER_MIDI_MAPPING_SUB_RANGE, 0);
    assert_eq!(
        (raw.sub_range_min, raw.sub_range_max),
        (value(0.0), value(0.0)),
        "a None sub-range must zero the bounds, not leave them stale"
    );

    let stale = AuParameterMidiMappingRaw {
        flags: 0,
        sub_range_min: value(0.1),
        sub_range_max: value(0.9),
        status: 0xB0,
        ..empty_raw()
    };
    assert_eq!(
        AuMidiMapping::from_raw(&stale).sub_range,
        None,
        "bounds without the flag must read as no sub-range"
    );

    let dbs = AuMidiMapping {
        sub_range: range(-24.0, 6.0),
        ..AuMidiMapping::control_change(900, 0, 7)
    };
    let raw = dbs.to_raw();
    assert_ne!(raw.flags & K_AU_PARAMETER_MIDI_MAPPING_SUB_RANGE, 0);
    assert_eq!(
        (raw.sub_range_min, raw.sub_range_max),
        (value(-24.0), value(6.0))
    );
    assert_eq!(AuMidiMapping::from_raw(&raw), dbs);
}

#[test]
fn reserved_fields_are_always_zero() {
    let m = AuMidiMapping {
        sub_range: range(0.1, 0.2),
        any_channel: true,
        toggle: true,
        ..AuMidiMapping::control_change(9, 5, 64)
    };
    let raw = m.to_raw();
    assert_eq!((raw.reserved1, raw.reserved2, raw.reserved3), (0, 0, 0));
}

#[test]
fn decode_table_handles_whole_and_partial_buffers() {
    let mappings = [
        AuMidiMapping::control_change(900, 0, 1),
        AuMidiMapping {
            sub_range: range(0.25, 0.75),
            toggle: true,
            ..AuMidiMapping::control_change(901, 3, 74)
        },
    ];
    let bytes = encode_table(&mappings);
    assert_eq!(bytes.len(), 64);
    assert_eq!(decode_table(&bytes), mappings);

    assert_eq!(decode_table(&bytes[..63]), mappings[..1]);
    assert!(decode_table(&bytes[..31]).is_empty());
    assert!(decode_table(&[]).is_empty());
}

#[test]
fn targets_same_parameter_keys_on_the_documented_triple() {
    let a = AuMidiMapping::control_change(900, 0, 1);
    let b = AuMidiMapping {
        trigger: MidiTrigger::PitchBend,
        channel: 9,
        toggle: true,
        sub_range: range(0.0, 0.5),
        ..a
    };
    assert!(
        a.targets_same_parameter(&b),
        "trigger and flags must not count"
    );

    let other_param = AuMidiMapping::control_change(901, 0, 1);
    assert!(!a.targets_same_parameter(&other_param));

    let other_element = AuMidiMapping { element: 1, ..a };
    assert!(
        !a.targets_same_parameter(&other_element),
        "the element is part of the key"
    );

    let other_scope = AuMidiMapping {
        scope: K_AUDIO_UNIT_SCOPE_INPUT,
        ..a
    };
    assert!(
        !a.targets_same_parameter(&other_scope),
        "the scope is part of the key"
    );
}

#[test]
fn any_channel_constructor_sets_the_flag() {
    let m = AuMidiMapping::control_change_any_channel(900, 1);
    assert!(m.any_channel);
    assert_eq!(m.channel, 0);
    assert_eq!(m.trigger, MidiTrigger::ControlChange { controller: 1 });
    assert_ne!(
        m.to_raw().flags & K_AU_PARAMETER_MIDI_MAPPING_ANY_CHANNEL,
        0
    );
    assert_ne!(m, AuMidiMapping::control_change(900, 0, 1));
}

#[test]
fn only_note_commands_are_note_commands() {
    assert!(MidiTrigger::NoteOn { note: 0 }.is_note_command());
    assert!(MidiTrigger::NoteOff { note: 0 }.is_note_command());
    assert!(MidiTrigger::KeyPressure { note: 0 }.is_note_command());
    assert!(!MidiTrigger::ControlChange { controller: 1 }.is_note_command());
    assert!(!MidiTrigger::ProgramChange { patch: 0 }.is_note_command());
    assert!(!MidiTrigger::ChannelPressure.is_note_command());
    assert!(!MidiTrigger::PitchBend.is_note_command());
    assert!(!MidiTrigger::Other {
        status: 0xF8,
        data1: 0
    }
    .is_note_command());
}

#[test]
fn an_empty_edit_writes_nothing() {
    assert!(add(&[]).is_none());
    assert!(remove(&[]).is_none());
    assert!(matches!(set_all(&[]), SetAllStep::ReadThenRemove));

    let one = [AuMidiMapping::control_change(900, 0, 1)];
    let write = add(&one).unwrap();
    assert_eq!(write.property, 42);
    assert_eq!(decode_table(&write.bytes), one);
    assert_eq!(remove(&one).unwrap().property, 43);
    match set_all(&one) {
        SetAllStep::Write(write) => {
            assert_eq!(write.property, 41);
            assert_eq!(write.bytes, encode_table(&one));
        }
        SetAllStep::ReadThenRemove => panic!("a table with entries is written"),
    }
    let armed = arm_hot_map(&one[0]);
    assert_eq!(armed.property, 44);
    assert_eq!(armed.bytes, encode_table(&one));
}

#[test]
fn clearing_removes_every_entry_that_was_read() {
    let installed = [
        AuMidiMapping::control_change(900, 0, 1),
        AuMidiMapping::control_change(901, 2, 3),
    ];
    let write = clear_table(Ok(encode_table(&installed))).unwrap().unwrap();
    assert_eq!(write.property, 43);
    assert_eq!(decode_table(&write.bytes), installed);
    assert!(clear_table(Ok(vec![])).unwrap().is_none());
    let refused = AuError::OsStatus {
        function: "AudioUnitGetPropertyInfo",
        code: -10879,
    };
    assert!(matches!(
        clear_table(Err(refused.clone())),
        Err(AuError::OsStatus { code: -10879, .. })
    ));
    assert!(matches!(
        all(Err(refused)),
        Err(AuError::OsStatus { code: -10879, .. })
    ));
    assert_eq!(all(Ok(encode_table(&installed))).unwrap(), installed);
}

#[test]
fn nothing_learned_is_told_by_the_status_byte() {
    assert_eq!(hot_map(None), None);
    assert_eq!(hot_map(Some(empty_raw())), None);
    assert!(!hot_map_pending(Some(empty_raw())));
    let learned = AuMidiMapping::control_change(2, 0, 11);
    assert_eq!(hot_map(Some(learned.to_raw())), Some(learned));
    assert!(hot_map_pending(Some(learned.to_raw())));
    assert!(supports_parameter_midi_mapping(0));
    assert!(!supports_parameter_midi_mapping(-10879));
}

#[test]
fn mappings_compare_their_bounds_as_numbers() {
    let with = |lo: f32, hi: f32| AuMidiMapping {
        sub_range: Some((
            Float32 { bits: lo.to_bits() },
            Float32 { bits: hi.to_bits() },
        )),
        ..AuMidiMapping::control_change(1, 0, 7)
    };
    assert_eq!(with(0.0, 1.0), with(-0.0, 1.0));
    assert_ne!(with(0.0, 1.0), with(0.0, 2.0));
    assert_ne!(with(f32::NAN, 1.0), with(f32::NAN, 1.0));
    assert_eq!(
        with(f32::NEG_INFINITY, f32::MAX),
        with(f32::NEG_INFINITY, f32::MAX)
    );
    let same = with(-0.0, 1.0).to_raw();
    assert_eq!(same.sub_range_min.bits, (-0.0f32).to_bits());
}

#[test]
fn floats_compare_as_numbers() {
    let singles = [
        0.0f32,
        -0.0,
        1.0,
        -1.0,
        f32::MIN_POSITIVE,
        1.0e-45,
        f32::MAX,
        f32::INFINITY,
        f32::NEG_INFINITY,
        f32::NAN,
        -f32::NAN,
    ];
    for a in singles {
        for b in singles {
            let (x, y) = (Float32 { bits: a.to_bits() }, Float32 { bits: b.to_bits() });
            assert_eq!(x == y, a == b, "{a} {b}");
            let (a, b) = (f64::from(a), f64::from(b));
            let (x, y) = (Float64 { bits: a.to_bits() }, Float64 { bits: b.to_bits() });
            assert_eq!(x == y, a == b, "{a} {b}");
        }
    }
}

#[test]
fn an_all_zero_answer_is_no_learned_mapping() {
    assert_eq!(hot_map(Some(AuParameterMidiMappingRaw::default())), None);
    assert!(!hot_map_pending(Some(AuParameterMidiMappingRaw::default())));
}
