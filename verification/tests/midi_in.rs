use tutti_au_host::midi_in::{
    legacy_message, midi2_cc_to_midi1, midi2_pitch_bend_to_midi1, midi2_velocity_to_midi1,
    send_midi, LegacyMidi, MidiEvent, MidiMessage,
};
use tutti_au_host::midi_out::split_messages;

#[test]
fn resolutions_are_scaled_down() {
    assert_eq!(midi2_velocity_to_midi1(0xFFFF), 127);
    assert_eq!(midi2_velocity_to_midi1(0x8000), 64);
    assert_eq!(midi2_velocity_to_midi1(0x01FF), 0);
    assert_eq!(midi2_cc_to_midi1(u32::MAX), 127);
    assert_eq!(midi2_cc_to_midi1(0x8000_0000), 64);
    assert_eq!(midi2_pitch_bend_to_midi1(0x8000_0000), 0x2000);
    assert_eq!(midi2_pitch_bend_to_midi1(u32::MAX), 0x3FFF);
}

#[test]
fn every_family_has_its_legacy_form() {
    let cases = [
        (
            MidiMessage::NoteOn {
                channel: 2,
                note: 60,
                velocity: 0xFFFF,
            },
            Some((0x92, 60, 127)),
        ),
        (
            MidiMessage::NoteOn {
                channel: 18,
                note: 200,
                velocity: 0,
            },
            Some((0x92, 72, 0)),
        ),
        (
            MidiMessage::NoteOff {
                channel: 0,
                note: 60,
                velocity: 0x8000,
            },
            Some((0x80, 60, 64)),
        ),
        (
            MidiMessage::KeyPressure {
                channel: 4,
                note: 61,
                pressure: 0x8000_0000,
            },
            Some((0xA4, 61, 64)),
        ),
        (
            MidiMessage::KeyPressure {
                channel: 20,
                note: 189,
                pressure: u32::MAX,
            },
            Some((0xA4, 61, 127)),
        ),
        (
            MidiMessage::ControlChange {
                channel: 15,
                index: 7,
                value: 0x8000_0000,
            },
            Some((0xBF, 7, 64)),
        ),
        (
            MidiMessage::ProgramChange {
                channel: 1,
                program: 5,
            },
            Some((0xC1, 5, 0)),
        ),
        (
            MidiMessage::ChannelPressure {
                channel: 1,
                pressure: u32::MAX,
            },
            Some((0xD1, 127, 0)),
        ),
        (
            MidiMessage::PitchBend {
                channel: 3,
                value: 0x8000_0000,
            },
            Some((0xE3, 0, 64)),
        ),
        (MidiMessage::Other, None),
    ];
    for (message, expected) in cases {
        assert_eq!(legacy_message(message), expected, "{message:?}");
    }
}

#[test]
fn events_without_a_legacy_form_are_skipped() {
    let events = [
        MidiEvent {
            frame_offset: 3,
            message: MidiMessage::ProgramChange {
                channel: 0,
                program: 1,
            },
        },
        MidiEvent {
            frame_offset: 4,
            message: MidiMessage::Other,
        },
        MidiEvent {
            frame_offset: 5,
            message: MidiMessage::NoteOn {
                channel: 0,
                note: 1,
                velocity: 0x0200,
            },
        },
    ];
    assert_eq!(
        send_midi(&events),
        vec![
            LegacyMidi {
                status: 0xC0,
                data1: 1,
                data2: 0,
                frame_offset: 3
            },
            LegacyMidi {
                status: 0x90,
                data1: 1,
                data2: 1,
                frame_offset: 5
            },
        ]
    );
}

#[test]
fn what_is_sent_would_be_read_back() {
    let (status, data1, data2) = legacy_message(MidiMessage::PitchBend {
        channel: 9,
        value: 0xFFFF_FFFF,
    })
    .unwrap();
    assert_eq!(
        split_messages(&[status, data1, data2], 7),
        vec![(7, vec![0xE9, 127, 127])]
    );
}

#[test]
fn key_pressure_is_sent_at_its_offset() {
    let events = [
        MidiEvent {
            frame_offset: 1,
            message: MidiMessage::Other,
        },
        MidiEvent {
            frame_offset: 17,
            message: MidiMessage::KeyPressure {
                channel: 5,
                note: 60,
                pressure: 0x4000_0000,
            },
        },
    ];
    assert_eq!(
        send_midi(&events),
        vec![LegacyMidi {
            status: 0xA5,
            data1: 60,
            data2: 32,
            frame_offset: 17
        }]
    );
}

#[test]
fn every_channel_voice_command_is_read_and_sent_alike() {
    let sent = [
        MidiMessage::NoteOff {
            channel: 1,
            note: 60,
            velocity: 0x8000,
        },
        MidiMessage::NoteOn {
            channel: 1,
            note: 60,
            velocity: 0x8000,
        },
        MidiMessage::KeyPressure {
            channel: 1,
            note: 60,
            pressure: 0x8000_0000,
        },
        MidiMessage::ControlChange {
            channel: 1,
            index: 60,
            value: 0x8000_0000,
        },
        MidiMessage::ProgramChange {
            channel: 1,
            program: 60,
        },
        MidiMessage::ChannelPressure {
            channel: 1,
            pressure: 0x7800_0000,
        },
        MidiMessage::PitchBend {
            channel: 1,
            value: (60 + 128 * 64) << 18,
        },
    ];
    for (i, message) in sent.into_iter().enumerate() {
        let status = 0x81 + 0x10 * i as u8;
        let (s, data1, data2) = legacy_message(message).unwrap();
        assert_eq!((s, data1), (status, 60));
        let read = split_messages(&[s, data1, data2], 0);
        assert_eq!(read[0].1[..2], [status, 60]);
        match read[0].1.get(2) {
            Some(b) => assert_eq!((*b, data2), (64, 64)),
            None => assert_eq!(data2, 0),
        }
    }
}
