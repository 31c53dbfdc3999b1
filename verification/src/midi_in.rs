//! MIDI sent to a unit: events in their own resolution, as the three-byte
//! messages that the unit takes.
use vstd::prelude::*;
use crate::midi_out::{data_bytes_of, is_channel_voice, is_message};

verus! {

/// A MIDI message in its own resolution.
#[derive(Clone, Copy, Debug, PartialEq, Eq, Structural)]
pub enum MidiMessage {
    NoteOn { channel: u8, note: u8, velocity: u16 },
    NoteOff { channel: u8, note: u8, velocity: u16 },
    /// Polyphonic key pressure.
    KeyPressure { channel: u8, note: u8, pressure: u32 },
    ControlChange { channel: u8, index: u8, value: u32 },
    ProgramChange { channel: u8, program: u8 },
    ChannelPressure { channel: u8, pressure: u32 },
    PitchBend { channel: u8, value: u32 },
    /// Anything that is no channel-voice message of three bytes: system exclusive,
    /// per-note and system real-time messages.
    Other,
}

/// A message and where in the block it falls.
#[derive(Clone, Copy, Debug, PartialEq, Eq, Structural)]
pub struct MidiEvent {
    pub frame_offset: u32,
    pub message: MidiMessage,
}

/// A message as the unit takes it.
#[derive(Clone, Copy, Debug, PartialEq, Eq, Structural)]
pub struct LegacyMidi {
    pub status: u8,
    pub data1: u8,
    pub data2: u8,
    pub frame_offset: u32,
}

/// A 16-bit velocity scaled down to seven bits. This library scales by dropping
/// the low bits, so the smallest velocities become zero.
pub fn midi2_velocity_to_midi1(velocity: u16) -> (v: u8)
    ensures
        v == velocity / 0x200,
        v < 0x80,
{
    (velocity / 0x200) as u8
}

/// A 32-bit controller or pressure value scaled down to seven bits, by dropping
/// the low bits.
pub fn midi2_cc_to_midi1(value: u32) -> (v: u8)
    ensures
        v == value / 0x200_0000,
        v < 0x80,
{
    (value / 0x200_0000) as u8
}

/// A 32-bit bend scaled down to fourteen bits, by dropping the low bits.
pub fn midi2_pitch_bend_to_midi1(value: u32) -> (v: u16)
    ensures
        v == value / 0x4_0000,
        v < 0x4000,
{
    (value / 0x4_0000) as u16
}

/// The three bytes of a message, or `None` where it has no such form. A
/// note-on whose velocity scales to zero stays a note-on.
pub open spec fn legacy_bytes(message: MidiMessage) -> Option<(u8, u8, u8)> {
    match message {
        MidiMessage::NoteOn { channel, note, velocity } => Some(
            ((0x90 + channel % 16) as u8, (note % 128) as u8, (velocity / 0x200) as u8),
        ),
        MidiMessage::NoteOff { channel, note, velocity } => Some(
            ((0x80 + channel % 16) as u8, (note % 128) as u8, (velocity / 0x200) as u8),
        ),
        MidiMessage::KeyPressure { channel, note, pressure } => Some(
            ((0xA0 + channel % 16) as u8, (note % 128) as u8, (pressure / 0x200_0000) as u8),
        ),
        MidiMessage::ControlChange { channel, index, value } => Some(
            ((0xB0 + channel % 16) as u8, (index % 128) as u8, (value / 0x200_0000) as u8),
        ),
        MidiMessage::ProgramChange { channel, program } => Some(
            ((0xC0 + channel % 16) as u8, (program % 128) as u8, 0),
        ),
        MidiMessage::ChannelPressure { channel, pressure } => Some(
            ((0xD0 + channel % 16) as u8, (pressure / 0x200_0000) as u8, 0),
        ),
        MidiMessage::PitchBend { channel, value } => Some(
            (
                (0xE0 + channel % 16) as u8,
                (value / 0x4_0000 % 128) as u8,
                (value / 0x200_0000) as u8,
            ),
        ),
        MidiMessage::Other => None,
    }
}

/// The three-byte form of a message, or `None` where it has none.
pub fn legacy_message(message: MidiMessage) -> (bytes: Option<(u8, u8, u8)>)
    ensures
        bytes == legacy_bytes(message),
{
    match message {
        MidiMessage::NoteOn { channel, note, velocity } => Some(
            (0x90 + channel % 16, note % 128, midi2_velocity_to_midi1(velocity)),
        ),
        MidiMessage::NoteOff { channel, note, velocity } => Some(
            (0x80 + channel % 16, note % 128, midi2_velocity_to_midi1(velocity)),
        ),
        MidiMessage::KeyPressure { channel, note, pressure } => Some(
            (0xA0 + channel % 16, note % 128, midi2_cc_to_midi1(pressure)),
        ),
        MidiMessage::ControlChange { channel, index, value } => Some(
            (0xB0 + channel % 16, index % 128, midi2_cc_to_midi1(value)),
        ),
        MidiMessage::ProgramChange { channel, program } => Some(
            (0xC0 + channel % 16, program % 128, 0),
        ),
        MidiMessage::ChannelPressure { channel, pressure } => Some(
            (0xD0 + channel % 16, midi2_cc_to_midi1(pressure), 0),
        ),
        MidiMessage::PitchBend { channel, value } => {
            let bend14: u16 = midi2_pitch_bend_to_midi1(value);
            Some((0xE0 + channel % 16, (bend14 % 128) as u8, (bend14 / 128) as u8))
        },
        MidiMessage::Other => None,
    }
}

/// The messages to deliver for a block of events, in order; events without a
/// three-byte form are left out.
pub open spec fn delivered_as(events: Seq<MidiEvent>) -> Seq<LegacyMidi>
    decreases events.len(),
{
    if events.len() == 0 {
        Seq::empty()
    } else {
        let front = delivered_as(events.drop_last());
        match legacy_bytes(events.last().message) {
            Some(b) => front.push(
                LegacyMidi {
                    status: b.0,
                    data1: b.1,
                    data2: b.2,
                    frame_offset: events.last().frame_offset,
                },
            ),
            None => front,
        }
    }
}

/// The messages to deliver for a block of events, each at its frame offset.
pub fn send_midi(events: &[MidiEvent]) -> (out: Vec<LegacyMidi>)
    ensures
        out@ == delivered_as(events@),
        (forall|i: int| 0 <= i < events@.len() ==> !((#[trigger] events@[i]).message is Other))
            ==> out@.len() == events@.len(),
        out@.len() <= events@.len(),
{
    let mut out: Vec<LegacyMidi> = Vec::new();
    assert(delivered_as(events@.take(0)) =~= out@);
    for i in 0..events.len()
        invariant
            out@ == delivered_as(events@.take(i as int)),
    {
        let event = events[i];
        assert(events@.take(i + 1).drop_last() =~= events@.take(i as int));
        if let Some((status, data1, data2)) = legacy_message(event.message) {
            out.push(LegacyMidi { status, data1, data2, frame_offset: event.frame_offset });
        }
    }
    assert(events@.take(events@.len() as int) =~= events@);
    proof {
        nothing_sendable_is_lost(events@);
    }
    out
}

/// Every message sent is a complete channel-voice message: its status names a
/// channel and a command, its data bytes are seven bits wide, and the byte that
/// a short message does not use is zero.
pub proof fn what_is_sent_is_a_complete_message(message: MidiMessage)
    requires
        legacy_bytes(message) is Some,
    ensures
        ({
            let (status, data1, data2) = legacy_bytes(message)->0;
            let n = data_bytes_of(status)->0;
            &&& is_channel_voice(status)
            &&& is_message(seq![status, data1, data2].take(1 + n as int))
            &&& n == 1 ==> data2 == 0
        }),
{
    let (status, data1, data2) = legacy_bytes(message)->0;
    let n = data_bytes_of(status)->0;
    let m = seq![status, data1, data2].take(1 + n as int);
    assert(m[0] == status);
    assert(data1 < 0x80 && data2 < 0x80);
}

/// A message whose three bytes are those of a channel-voice message.
pub open spec fn message_for(status: u8, data1: u8, data2: u8) -> MidiMessage {
    let channel = (status % 16) as u8;
    let command = status / 16;
    if command == 8 {
        MidiMessage::NoteOff { channel, note: data1, velocity: (data2 * 0x200) as u16 }
    } else if command == 9 {
        MidiMessage::NoteOn { channel, note: data1, velocity: (data2 * 0x200) as u16 }
    } else if command == 10 {
        MidiMessage::KeyPressure { channel, note: data1, pressure: (data2 * 0x200_0000) as u32 }
    } else if command == 11 {
        MidiMessage::ControlChange { channel, index: data1, value: (data2 * 0x200_0000) as u32 }
    } else if command == 12 {
        MidiMessage::ProgramChange { channel, program: data1 }
    } else if command == 13 {
        MidiMessage::ChannelPressure { channel, pressure: (data1 * 0x200_0000) as u32 }
    } else {
        MidiMessage::PitchBend { channel, value: ((data1 + 0x80 * data2) * 0x4_0000) as u32 }
    }
}

/// The two directions agree: every channel-voice message that can be read from a
/// unit can be sent to one, as the same bytes. A second data byte that the
/// message lacks is sent as zero.
pub proof fn what_is_read_can_be_sent(m: Seq<u8>)
    requires
        is_message(m),
        is_channel_voice(m[0]),
    ensures
        ({
            let data2 = if m.len() > 2 {
                m[2]
            } else {
                0
            };
            &&& legacy_bytes(message_for(m[0], m[1], data2)) == Some((m[0], m[1], data2))
            &&& exists|message: MidiMessage|
                #[trigger] legacy_bytes(message) == Some((m[0], m[1], data2))
        }),
{
    let data2 = if m.len() > 2 {
        m[2]
    } else {
        0
    };
    assert(m[1] < 0x80 && data2 < 0x80);
    assert(legacy_bytes(message_for(m[0], m[1], data2)) == Some((m[0], m[1], data2)));
}

/// The events that have a three-byte form, in order.
pub open spec fn sendable(events: Seq<MidiEvent>) -> Seq<MidiEvent> {
    events.filter(|e: MidiEvent| !(e.message is Other))
}

/// Whether a message sent is that of an event: its bytes, at its place in the
/// block.
pub open spec fn is_form_of(sent: LegacyMidi, event: MidiEvent) -> bool {
    &&& legacy_bytes(event.message) == Some((sent.status, sent.data1, sent.data2))
    &&& sent.frame_offset == event.frame_offset
}

/// Nothing is lost, added or moved: one message is sent for each event that has a
/// three-byte form, in order, with the bytes of that event and at its place in the
/// block. Where every event has such a form, every event is sent.
pub proof fn nothing_sendable_is_lost(events: Seq<MidiEvent>)
    ensures
        delivered_as(events).len() == sendable(events).len(),
        forall|k: int|
            0 <= k < sendable(events).len() ==> is_form_of(
                #[trigger] delivered_as(events)[k],
                sendable(events)[k],
            ),
        delivered_as(events).len() <= events.len(),
        (forall|i: int| 0 <= i < events.len() ==> !((#[trigger] events[i]).message is Other))
            ==> delivered_as(events).len() == events.len() && forall|i: int|
            0 <= i < events.len() ==> is_form_of(#[trigger] delivered_as(events)[i], events[i]),
    decreases events.len(),
{
    reveal(Seq::filter);
    if events.len() > 0 {
        let front = events.drop_last();
        nothing_sendable_is_lost(front);
        let whole = delivered_as(events);
        let before = delivered_as(front);
        assert forall|k: int| 0 <= k < sendable(events).len() implies is_form_of(
            #[trigger] whole[k],
            sendable(events)[k],
        ) by {
            if k < before.len() {
                assert(whole[k] == before[k]);
                assert(is_form_of(before[k], sendable(front)[k]));
            }
        }
        if forall|i: int| 0 <= i < events.len() ==> !((#[trigger] events[i]).message is Other) {
            assert forall|i: int| 0 <= i < front.len() implies !((#[trigger] front[i]).message
                is Other) by {
                assert(front[i] == events[i]);
            }
            assert forall|i: int| 0 <= i < events.len() implies is_form_of(
                #[trigger] whole[i],
                events[i],
            ) by {
                if i < before.len() {
                    assert(whole[i] == before[i]);
                    assert(is_form_of(before[i], front[i]));
                }
            }
        }
    }
}

/// Sending two blocks one after the other sends what the joined block sends.
pub proof fn blocks_are_sent_one_after_the_other(a: Seq<MidiEvent>, b: Seq<MidiEvent>)
    ensures
        delivered_as(a + b) == delivered_as(a) + delivered_as(b),
    decreases b.len(),
{
    if b.len() == 0 {
        assert(a + b =~= a);
        assert(delivered_as(a) + delivered_as(b) =~= delivered_as(a));
    } else {
        blocks_are_sent_one_after_the_other(a, b.drop_last());
        assert((a + b).drop_last() =~= a + b.drop_last());
        assert(delivered_as(a + b) =~= delivered_as(a) + delivered_as(b));
    }
}

/// What the three bytes of a message are. The upper half of the first names the
/// command and the lower the channel. The data bytes are the note, controller or
/// program, and the value in its seven highest bits; a bend comes in fourteen, the
/// lower seven first.
pub proof fn a_message_has_the_bytes_of_its_command(message: MidiMessage)
    ensures
        legacy_bytes(message) is None <==> message is Other,
        legacy_bytes(message) matches Some((status, data1, data2)) ==> match message {
            MidiMessage::NoteOff { channel, note, velocity } => status == 0x80 + channel % 16
                && data1 == note % 128 && data2 * 0x200 <= velocity < (data2 + 1) * 0x200,
            MidiMessage::NoteOn { channel, note, velocity } => status == 0x90 + channel % 16
                && data1 == note % 128 && data2 * 0x200 <= velocity < (data2 + 1) * 0x200,
            MidiMessage::KeyPressure { channel, note, pressure } => status == 0xA0 + channel % 16
                && data1 == note % 128 && data2 * 0x200_0000 <= pressure < (data2 + 1)
                * 0x200_0000,
            MidiMessage::ControlChange { channel, index, value } => status == 0xB0 + channel % 16
                && data1 == index % 128 && data2 * 0x200_0000 <= value < (data2 + 1) * 0x200_0000,
            MidiMessage::ProgramChange { channel, program } => status == 0xC0 + channel % 16
                && data1 == program % 128 && data2 == 0,
            MidiMessage::ChannelPressure { channel, pressure } => status == 0xD0 + channel % 16
                && data1 * 0x200_0000 <= pressure < (data1 + 1) * 0x200_0000 && data2 == 0,
            MidiMessage::PitchBend { channel, value } => status == 0xE0 + channel % 16 && data1
                < 128 && (data1 + 128 * data2) * 0x4_0000 <= value < (data1 + 128 * data2 + 1)
                * 0x4_0000,
            MidiMessage::Other => false,
        },
{
}

} // verus!
