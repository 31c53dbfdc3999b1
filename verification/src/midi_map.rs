//! The table by which a unit maps MIDI messages to its parameters.
use vstd::prelude::*;
use crate::bytes::{push_u32, read_u32, u32_at, u32_bytes, u32_round_trip};
use crate::error::AuError;
use crate::float::Float32;
use crate::types::{
    K_AUDIO_UNIT_PROPERTY_ADD_PARAMETER_MIDI_MAPPING,
    K_AUDIO_UNIT_PROPERTY_ALL_PARAMETER_MIDI_MAPPINGS,
    K_AUDIO_UNIT_PROPERTY_HOT_MAP_PARAMETER_MIDI_MAPPING,
    K_AUDIO_UNIT_PROPERTY_REMOVE_PARAMETER_MIDI_MAPPING,
    K_AUDIO_UNIT_SCOPE_GLOBAL,
    K_AU_PARAMETER_MIDI_MAPPING_ANY_CHANNEL,
    K_AU_PARAMETER_MIDI_MAPPING_ANY_NOTE,
    K_AU_PARAMETER_MIDI_MAPPING_BIPOLAR,
    K_AU_PARAMETER_MIDI_MAPPING_BIPOLAR_ON,
    K_AU_PARAMETER_MIDI_MAPPING_SUB_RANGE,
    K_AU_PARAMETER_MIDI_MAPPING_TOGGLE,
    NO_ERR,
};

verus! {

/// Bytes of one mapping in the unit's table.
pub const MAPPING_SIZE: usize = 32;

/// Where the status byte of a mapping stands.
pub const MAPPING_STATUS_OFFSET: usize = 24;

/// A mapping as it stands in the unit's table. The reserved fields are zero in
/// everything that is written.
#[derive(Clone, Copy, Debug, PartialEq)]
pub struct AuParameterMidiMappingRaw {
    pub scope: u32,
    pub element: u32,
    pub parameter_id: u32,
    pub flags: u32,
    pub sub_range_min: Float32,
    pub sub_range_max: Float32,
    pub status: u8,
    pub data1: u8,
    pub reserved1: u8,
    pub reserved2: u8,
    pub reserved3: u32,
}

impl Default for AuParameterMidiMappingRaw {
    /// All zero, as a unit answers where nothing was learned.
    fn default() -> (raw: AuParameterMidiMappingRaw)
        ensures
            raw == (AuParameterMidiMappingRaw {
                scope: 0,
                element: 0,
                parameter_id: 0,
                flags: 0,
                sub_range_min: Float32 { bits: 0 },
                sub_range_max: Float32 { bits: 0 },
                status: 0,
                data1: 0,
                reserved1: 0,
                reserved2: 0,
                reserved3: 0,
            }),
    {
        AuParameterMidiMappingRaw {
            scope: 0,
            element: 0,
            parameter_id: 0,
            flags: 0,
            sub_range_min: Float32::zero(),
            sub_range_max: Float32::zero(),
            status: 0,
            data1: 0,
            reserved1: 0,
            reserved2: 0,
            reserved3: 0,
        }
    }
}

/// The MIDI message that a mapping listens for. What the data byte means depends
/// on the command, and two commands have none.
#[derive(Clone, Copy, Debug, PartialEq, Eq, Structural)]
pub enum MidiTrigger {
    NoteOff { note: u8 },
    NoteOn { note: u8 },
    KeyPressure { note: u8 },
    ControlChange { controller: u8 },
    ProgramChange { patch: u8 },
    ChannelPressure,
    PitchBend,
    /// A status byte that is none of the seven commands.
    Other { status: u8, data1: u8 },
}

impl MidiTrigger {
    /// The command nibble of the status byte.
    pub open spec fn nibble(self) -> u8 {
        match self {
            MidiTrigger::NoteOff { .. } => 0x80,
            MidiTrigger::NoteOn { .. } => 0x90,
            MidiTrigger::KeyPressure { .. } => 0xA0,
            MidiTrigger::ControlChange { .. } => 0xB0,
            MidiTrigger::ProgramChange { .. } => 0xC0,
            MidiTrigger::ChannelPressure => 0xD0,
            MidiTrigger::PitchBend => 0xE0,
            MidiTrigger::Other { status, .. } => (status - status % 16) as u8,
        }
    }

    /// The data byte; zero where the command has none.
    pub open spec fn data(self) -> u8 {
        match self {
            MidiTrigger::NoteOff { note } => note,
            MidiTrigger::NoteOn { note } => note,
            MidiTrigger::KeyPressure { note } => note,
            MidiTrigger::ControlChange { controller } => controller,
            MidiTrigger::ProgramChange { patch } => patch,
            MidiTrigger::ChannelPressure => 0,
            MidiTrigger::PitchBend => 0,
            MidiTrigger::Other { data1, .. } => data1,
        }
    }

    /// The trigger that a status and a data byte name.
    pub open spec fn decoded(status: u8, data1: u8) -> MidiTrigger {
        let command = status / 16;
        if command == 8 {
            MidiTrigger::NoteOff { note: data1 }
        } else if command == 9 {
            MidiTrigger::NoteOn { note: data1 }
        } else if command == 10 {
            MidiTrigger::KeyPressure { note: data1 }
        } else if command == 11 {
            MidiTrigger::ControlChange { controller: data1 }
        } else if command == 12 {
            MidiTrigger::ProgramChange { patch: data1 }
        } else if command == 13 {
            MidiTrigger::ChannelPressure
        } else if command == 14 {
            MidiTrigger::PitchBend
        } else {
            MidiTrigger::Other { status, data1 }
        }
    }

    /// The command nibble of the status byte.
    pub fn status_nibble(&self) -> (n: u8)
        ensures
            n == self.nibble(),
    {
        match *self {
            MidiTrigger::NoteOff { .. } => 0x80,
            MidiTrigger::NoteOn { .. } => 0x90,
            MidiTrigger::KeyPressure { .. } => 0xA0,
            MidiTrigger::ControlChange { .. } => 0xB0,
            MidiTrigger::ProgramChange { .. } => 0xC0,
            MidiTrigger::ChannelPressure => 0xD0,
            MidiTrigger::PitchBend => 0xE0,
            MidiTrigger::Other { status, .. } => status - status % 16,
        }
    }

    /// The data byte; zero where the command has none.
    pub fn data1(&self) -> (d: u8)
        ensures
            d == self.data(),
    {
        match *self {
            MidiTrigger::NoteOff { note } => note,
            MidiTrigger::NoteOn { note } => note,
            MidiTrigger::KeyPressure { note } => note,
            MidiTrigger::ControlChange { controller } => controller,
            MidiTrigger::ProgramChange { patch } => patch,
            MidiTrigger::ChannelPressure => 0,
            MidiTrigger::PitchBend => 0,
            MidiTrigger::Other { data1, .. } => data1,
        }
    }

    /// Decodes a status and a data byte. Every pair decodes.
    pub fn from_raw(status: u8, data1: u8) -> (t: MidiTrigger)
        ensures
            t == MidiTrigger::decoded(status, data1),
    {
        match status / 16 {
            8 => MidiTrigger::NoteOff { note: data1 },
            9 => MidiTrigger::NoteOn { note: data1 },
            10 => MidiTrigger::KeyPressure { note: data1 },
            11 => MidiTrigger::ControlChange { controller: data1 },
            12 => MidiTrigger::ProgramChange { patch: data1 },
            13 => MidiTrigger::ChannelPressure,
            14 => MidiTrigger::PitchBend,
            _ => MidiTrigger::Other { status, data1 },
        }
    }

    /// Whether the trigger is one of the three commands that name a note.
    pub fn is_note_command(&self) -> (yes: bool)
        ensures
            yes == (self is NoteOff || self is NoteOn || self is KeyPressure),
    {
        match *self {
            MidiTrigger::NoteOff { .. } => true,
            MidiTrigger::NoteOn { .. } => true,
            MidiTrigger::KeyPressure { .. } => true,
            _ => false,
        }
    }
}

/// One mapping: which MIDI message drives which parameter, and how the
/// controller's value is read.
#[derive(Clone, Copy, Debug, PartialEq)]
pub struct AuMidiMapping {
    pub scope: u32,
    pub element: u32,
    pub parameter_id: u32,
    pub trigger: MidiTrigger,
    /// The channel, 0 to 15. A unit ignores it where any channel matches.
    pub channel: u8,
    /// The message matches on every channel.
    pub any_channel: bool,
    /// The message matches for every note.
    pub any_note: bool,
    /// The part of the parameter's range that the controller covers, in the
    /// parameter's own unit; `None` is all of it.
    pub sub_range: Option<(Float32, Float32)>,
    /// The message flips the parameter.
    pub toggle: bool,
    /// The controller switches between two states.
    pub bipolar: bool,
    /// Which end of a two-state controller is on.
    pub bipolar_on: bool,
}

/// A flag's bit where it is set.
pub open spec fn bit_if(set: bool, bit: u32) -> u32 {
    if set {
        bit
    } else {
        0
    }
}

impl AuMidiMapping {
    /// The flags word.
    pub open spec fn flags(self) -> u32 {
        bit_if(self.any_channel, K_AU_PARAMETER_MIDI_MAPPING_ANY_CHANNEL) | bit_if(
            self.any_note,
            K_AU_PARAMETER_MIDI_MAPPING_ANY_NOTE,
        ) | bit_if(self.sub_range is Some, K_AU_PARAMETER_MIDI_MAPPING_SUB_RANGE) | bit_if(
            self.toggle,
            K_AU_PARAMETER_MIDI_MAPPING_TOGGLE,
        ) | bit_if(self.bipolar, K_AU_PARAMETER_MIDI_MAPPING_BIPOLAR) | bit_if(
            self.bipolar_on,
            K_AU_PARAMETER_MIDI_MAPPING_BIPOLAR_ON,
        )
    }

    /// The mapping as it is written: the channel in the low nibble of the status
    /// byte, the bounds zero without a sub-range, the reserved fields zero.
    pub open spec fn raw(self) -> AuParameterMidiMappingRaw {
        AuParameterMidiMappingRaw {
            scope: self.scope,
            element: self.element,
            parameter_id: self.parameter_id,
            flags: self.flags(),
            sub_range_min: match self.sub_range {
                Some(r) => r.0,
                None => Float32 { bits: 0 },
            },
            sub_range_max: match self.sub_range {
                Some(r) => r.1,
                None => Float32 { bits: 0 },
            },
            status: (self.trigger.nibble() + self.channel % 16) as u8,
            data1: self.trigger.data(),
            reserved1: 0,
            reserved2: 0,
            reserved3: 0,
        }
    }

    /// The mapping that a raw one stands for.
    pub open spec fn decoded(raw: AuParameterMidiMappingRaw) -> AuMidiMapping {
        AuMidiMapping {
            scope: raw.scope,
            element: raw.element,
            parameter_id: raw.parameter_id,
            trigger: MidiTrigger::decoded(raw.status, raw.data1),
            channel: (raw.status % 16) as u8,
            any_channel: raw.flags & K_AU_PARAMETER_MIDI_MAPPING_ANY_CHANNEL != 0,
            any_note: raw.flags & K_AU_PARAMETER_MIDI_MAPPING_ANY_NOTE != 0,
            sub_range: if raw.flags & K_AU_PARAMETER_MIDI_MAPPING_SUB_RANGE != 0 {
                Some((raw.sub_range_min, raw.sub_range_max))
            } else {
                None
            },
            toggle: raw.flags & K_AU_PARAMETER_MIDI_MAPPING_TOGGLE != 0,
            bipolar: raw.flags & K_AU_PARAMETER_MIDI_MAPPING_BIPOLAR != 0,
            bipolar_on: raw.flags & K_AU_PARAMETER_MIDI_MAPPING_BIPOLAR_ON != 0,
        }
    }

    /// Whether the mapping is what some raw one decodes to: its channel is one,
    /// and a status that is none of the seven commands carries that channel.
    pub open spec fn is_canonical(self) -> bool {
        &&& self.channel < 16
        &&& self.trigger matches MidiTrigger::Other { status, .. } ==> (status < 0x80 || status
            >= 0xF0) && status % 16 == self.channel
    }

    /// A controller on one channel that drives a parameter's whole range.
    pub fn control_change(parameter_id: u32, channel: u8, controller: u8) -> (m: AuMidiMapping)
        ensures
            m == (AuMidiMapping {
                scope: K_AUDIO_UNIT_SCOPE_GLOBAL,
                element: 0,
                parameter_id,
                trigger: MidiTrigger::ControlChange { controller },
                channel,
                any_channel: false,
                any_note: false,
                sub_range: None,
                toggle: false,
                bipolar: false,
                bipolar_on: false,
            }),
    {
        AuMidiMapping {
            scope: K_AUDIO_UNIT_SCOPE_GLOBAL,
            element: 0,
            parameter_id,
            trigger: MidiTrigger::ControlChange { controller },
            channel,
            any_channel: false,
            any_note: false,
            sub_range: None,
            toggle: false,
            bipolar: false,
            bipolar_on: false,
        }
    }

    /// The same on every channel.
    pub fn control_change_any_channel(parameter_id: u32, controller: u8) -> (m: AuMidiMapping)
        ensures
            m == (AuMidiMapping {
                scope: K_AUDIO_UNIT_SCOPE_GLOBAL,
                element: 0,
                parameter_id,
                trigger: MidiTrigger::ControlChange { controller },
                channel: 0,
                any_channel: true,
                any_note: false,
                sub_range: None,
                toggle: false,
                bipolar: false,
                bipolar_on: false,
            }),
    {
        let mut m = AuMidiMapping::control_change(parameter_id, 0, controller);
        m.any_channel = true;
        m
    }

    /// Decodes a mapping. Every raw mapping decodes; bounds without their flag
    /// are no sub-range.
    pub fn from_raw(raw: &AuParameterMidiMappingRaw) -> (m: AuMidiMapping)
        ensures
            m == AuMidiMapping::decoded(*raw),
    {
        AuMidiMapping {
            scope: raw.scope,
            element: raw.element,
            parameter_id: raw.parameter_id,
            trigger: MidiTrigger::from_raw(raw.status, raw.data1),
            channel: raw.status % 16,
            any_channel: raw.flags & K_AU_PARAMETER_MIDI_MAPPING_ANY_CHANNEL != 0,
            any_note: raw.flags & K_AU_PARAMETER_MIDI_MAPPING_ANY_NOTE != 0,
            sub_range: if raw.flags & K_AU_PARAMETER_MIDI_MAPPING_SUB_RANGE != 0 {
                Some((raw.sub_range_min, raw.sub_range_max))
            } else {
                None
            },
            toggle: raw.flags & K_AU_PARAMETER_MIDI_MAPPING_TOGGLE != 0,
            bipolar: raw.flags & K_AU_PARAMETER_MIDI_MAPPING_BIPOLAR != 0,
            bipolar_on: raw.flags & K_AU_PARAMETER_MIDI_MAPPING_BIPOLAR_ON != 0,
        }
    }

    /// Encodes the mapping. A channel beyond the sixteen is reduced to its low
    /// four bits and never touches the command.
    pub fn to_raw(self) -> (raw: AuParameterMidiMappingRaw)
        ensures
            raw == self.raw(),
    {
        let any_channel: u32 = if self.any_channel {
            K_AU_PARAMETER_MIDI_MAPPING_ANY_CHANNEL
        } else {
            0
        };
        let any_note: u32 = if self.any_note {
            K_AU_PARAMETER_MIDI_MAPPING_ANY_NOTE
        } else {
            0
        };
        let sub_range: u32 = if self.sub_range.is_some() {
            K_AU_PARAMETER_MIDI_MAPPING_SUB_RANGE
        } else {
            0
        };
        let toggle: u32 = if self.toggle {
            K_AU_PARAMETER_MIDI_MAPPING_TOGGLE
        } else {
            0
        };
        let bipolar: u32 = if self.bipolar {
            K_AU_PARAMETER_MIDI_MAPPING_BIPOLAR
        } else {
            0
        };
        let bipolar_on: u32 = if self.bipolar_on {
            K_AU_PARAMETER_MIDI_MAPPING_BIPOLAR_ON
        } else {
            0
        };
        let (lo, hi) = match self.sub_range {
            Some(r) => r,
            None => (Float32::zero(), Float32::zero()),
        };
        AuParameterMidiMappingRaw {
            scope: self.scope,
            element: self.element,
            parameter_id: self.parameter_id,
            flags: any_channel | any_note | sub_range | toggle | bipolar | bipolar_on,
            sub_range_min: lo,
            sub_range_max: hi,
            status: self.trigger.status_nibble() + self.channel % 16,
            data1: self.trigger.data1(),
            reserved1: 0,
            reserved2: 0,
            reserved3: 0,
        }
    }

    /// The parameter that the mapping is for.
    pub open spec fn target(self) -> (u32, u32, u32) {
        (self.scope, self.element, self.parameter_id)
    }

    /// Whether two mappings are for the same parameter: a unit holds one mapping
    /// per parameter, and removes by parameter.
    pub fn targets_same_parameter(&self, other: &AuMidiMapping) -> (same: bool)
        ensures
            same == (self.target() == other.target()),
    {
        self.scope == other.scope && self.element == other.element && self.parameter_id
            == other.parameter_id
    }
}

/// Each flag can be read back from a word put together of the six.
proof fn flags_are_apart(a: u32, n: u32, s: u32, t: u32, b: u32, o: u32)
    requires
        a == 0 || a == 1,
        n == 0 || n == 2,
        s == 0 || s == 4,
        t == 0 || t == 8,
        b == 0 || b == 16,
        o == 0 || o == 32,
    ensures
        (a | n | s | t | b | o) & 1 == a,
        (a | n | s | t | b | o) & 2 == n,
        (a | n | s | t | b | o) & 4 == s,
        (a | n | s | t | b | o) & 8 == t,
        (a | n | s | t | b | o) & 16 == b,
        (a | n | s | t | b | o) & 32 == o,
{
    let w = a | n | s | t | b | o;
    assert(w & 1 == a && w & 2 == n && w & 4 == s && w & 8 == t && w & 16 == b && w & 32 == o)
        by (bit_vector)
        requires
            w == a | n | s | t | b | o,
            a == 0 || a == 1,
            n == 0 || n == 2,
            s == 0 || s == 4,
            t == 0 || t == 8,
            b == 0 || b == 16,
            o == 0 || o == 32,
    ;
}

/// A word below 64 is put together of its six flags.
proof fn flags_are_all(w: u32)
    requires
        w < 64,
    ensures
        (w & 1) | (w & 2) | (w & 4) | (w & 8) | (w & 16) | (w & 32) == w,
        w & 1 == 0 || w & 1 == 1,
        w & 2 == 0 || w & 2 == 2,
        w & 4 == 0 || w & 4 == 4,
        w & 8 == 0 || w & 8 == 8,
        w & 16 == 0 || w & 16 == 16,
        w & 32 == 0 || w & 32 == 32,
{
    assert((w & 1) | (w & 2) | (w & 4) | (w & 8) | (w & 16) | (w & 32) == w) by (bit_vector)
        requires
            w < 64,
    ;
    assert((w & 1 == 0 || w & 1 == 1) && (w & 2 == 0 || w & 2 == 2) && (w & 4 == 0 || w & 4 == 4)
        && (w & 8 == 0 || w & 8 == 8) && (w & 16 == 0 || w & 16 == 16) && (w & 32 == 0 || w & 32
        == 32)) by (bit_vector);
}

/// A mapping survives being written and read back, every flag by itself. So does
/// its parameter and its command even where its channel is beyond the sixteen.
pub proof fn a_mapping_round_trips(m: AuMidiMapping)
    ensures
        m.is_canonical() ==> AuMidiMapping::decoded(m.raw()) == m,
        AuMidiMapping::decoded(m.raw()).target() == m.target(),
        !(m.trigger is Other) ==> AuMidiMapping::decoded(m.raw()) == (AuMidiMapping {
            channel: (m.channel % 16) as u8,
            ..m
        }),
        m.raw().reserved1 == 0,
        m.raw().reserved2 == 0,
        m.raw().reserved3 == 0,
{
    flags_are_apart(
        bit_if(m.any_channel, 1),
        bit_if(m.any_note, 2),
        bit_if(m.sub_range is Some, 4),
        bit_if(m.toggle, 8),
        bit_if(m.bipolar, 16),
        bit_if(m.bipolar_on, 32),
    );
    let status = m.raw().status;
    assert(m.trigger.nibble() % 16 == 0);
    assert(status == m.trigger.nibble() + m.channel % 16);
    assert(status % 16 == m.channel % 16);
    assert(status / 16 == m.trigger.nibble() / 16);
}

/// A raw mapping survives being read and written back, where it holds nothing
/// that a mapping does not: no reserved field, no flag beyond the six, no bounds
/// without their flag and no data byte for a command without one.
pub proof fn a_raw_mapping_round_trips(raw: AuParameterMidiMappingRaw)
    requires
        raw.reserved1 == 0,
        raw.reserved2 == 0,
        raw.reserved3 == 0,
        raw.flags < 64,
        raw.flags & K_AU_PARAMETER_MIDI_MAPPING_SUB_RANGE == 0 ==> raw.sub_range_min.bits == 0
            && raw.sub_range_max.bits == 0,
        raw.status / 16 == 13 || raw.status / 16 == 14 ==> raw.data1 == 0,
    ensures
        AuMidiMapping::decoded(raw).raw() == raw,
        AuMidiMapping::decoded(raw).is_canonical(),
{
    flags_are_all(raw.flags);
    let m = AuMidiMapping::decoded(raw);
    assert(m.flags() == raw.flags);
    assert(m.trigger.nibble() == raw.status - raw.status % 16);
}

// ---------------------------------------------------------------------------
// Tables
// ---------------------------------------------------------------------------
/// The bytes of a raw mapping.
pub open spec fn raw_bytes(raw: AuParameterMidiMappingRaw) -> Seq<u8> {
    u32_bytes(raw.scope) + u32_bytes(raw.element) + u32_bytes(raw.parameter_id) + u32_bytes(
        raw.flags,
    ) + u32_bytes(raw.sub_range_min.bits) + u32_bytes(raw.sub_range_max.bits) + seq![
        raw.status,
        raw.data1,
        raw.reserved1,
        raw.reserved2,
    ] + u32_bytes(raw.reserved3)
}

/// The raw mapping whose bytes stand at `at`.
pub open spec fn raw_at(bytes: Seq<u8>, at: int) -> AuParameterMidiMappingRaw {
    AuParameterMidiMappingRaw {
        scope: u32_at(bytes, at) as u32,
        element: u32_at(bytes, at + 4) as u32,
        parameter_id: u32_at(bytes, at + 8) as u32,
        flags: u32_at(bytes, at + 12) as u32,
        sub_range_min: Float32 { bits: u32_at(bytes, at + 16) as u32 },
        sub_range_max: Float32 { bits: u32_at(bytes, at + 20) as u32 },
        status: bytes[at + 24],
        data1: bytes[at + 25],
        reserved1: bytes[at + 26],
        reserved2: bytes[at + 27],
        reserved3: u32_at(bytes, at + 28) as u32,
    }
}

/// The bytes of a table of mappings.
pub open spec fn table_bytes(mappings: Seq<AuMidiMapping>) -> Seq<u8>
    decreases mappings.len(),
{
    if mappings.len() == 0 {
        Seq::empty()
    } else {
        table_bytes(mappings.drop_last()) + raw_bytes(mappings.last().raw())
    }
}

/// The mappings in the bytes of a table.
pub open spec fn table_in(bytes: Seq<u8>) -> Seq<AuMidiMapping> {
    Seq::new(bytes.len() / 32, |i: int| AuMidiMapping::decoded(raw_at(bytes, 32 * i)))
}

/// Reads the raw mapping at `at`.
pub fn read_raw(bytes: &[u8], at: usize) -> (raw: AuParameterMidiMappingRaw)
    requires
        at + MAPPING_SIZE <= bytes@.len(),
    ensures
        raw == raw_at(bytes@, at as int),
{
    assert(bytes@.len() == bytes.len());
    AuParameterMidiMappingRaw {
        scope: read_u32(bytes, at),
        element: read_u32(bytes, at + 4),
        parameter_id: read_u32(bytes, at + 8),
        flags: read_u32(bytes, at + 12),
        sub_range_min: Float32 { bits: read_u32(bytes, at + 16) },
        sub_range_max: Float32 { bits: read_u32(bytes, at + 20) },
        status: bytes[at + 24],
        data1: bytes[at + 25],
        reserved1: bytes[at + 26],
        reserved2: bytes[at + 27],
        reserved3: read_u32(bytes, at + 28),
    }
}

/// Appends the bytes of a raw mapping.
pub fn push_raw(out: &mut Vec<u8>, raw: &AuParameterMidiMappingRaw)
    ensures
        final(out)@ == old(out)@ + raw_bytes(*raw),
{
    let ghost before = out@;
    push_u32(out, raw.scope);
    push_u32(out, raw.element);
    push_u32(out, raw.parameter_id);
    push_u32(out, raw.flags);
    push_u32(out, raw.sub_range_min.bits);
    push_u32(out, raw.sub_range_max.bits);
    out.push(raw.status);
    out.push(raw.data1);
    out.push(raw.reserved1);
    out.push(raw.reserved2);
    push_u32(out, raw.reserved3);
    assert(out@ =~= before + raw_bytes(*raw));
}

/// Decodes a table. Only whole mappings are decoded; a fragment at the end is
/// dropped.
pub fn decode_table(bytes: &[u8]) -> (mappings: Vec<AuMidiMapping>)
    ensures
        mappings@ == table_in(bytes@),
{
    let n: usize = bytes.len() / MAPPING_SIZE;
    let mut mappings: Vec<AuMidiMapping> = Vec::new();
    for i in 0..n
        invariant
            n == bytes@.len() / 32,
            bytes@.len() <= usize::MAX,
            mappings@ == table_in(bytes@).take(i as int),
    {
        let raw = read_raw(bytes, MAPPING_SIZE * i);
        mappings.push(AuMidiMapping::from_raw(&raw));
        assert(table_in(bytes@).take(i + 1) =~= table_in(bytes@).take(i as int).push(
            AuMidiMapping::decoded(raw),
        ));
    }
    assert(table_in(bytes@).take(n as int) =~= table_in(bytes@));
    mappings
}

/// Encodes a table.
pub fn encode_table(mappings: &[AuMidiMapping]) -> (bytes: Vec<u8>)
    ensures
        bytes@ == table_bytes(mappings@),
{
    let mut bytes: Vec<u8> = Vec::new();
    assert(table_bytes(mappings@.take(0)) =~= bytes@);
    for i in 0..mappings.len()
        invariant
            bytes@ == table_bytes(mappings@.take(i as int)),
    {
        let raw = mappings[i].to_raw();
        push_raw(&mut bytes, &raw);
        assert(mappings@.take(i + 1).drop_last() =~= mappings@.take(i as int));
    }
    assert(mappings@.take(mappings@.len() as int) =~= mappings@);
    bytes
}

/// Where the fields of a raw mapping stand among its bytes.
proof fn raw_fields(raw: AuParameterMidiMappingRaw)
    ensures
        raw_bytes(raw).len() == 32,
        raw_bytes(raw).subrange(0, 4) == u32_bytes(raw.scope),
        raw_bytes(raw).subrange(4, 8) == u32_bytes(raw.element),
        raw_bytes(raw).subrange(8, 12) == u32_bytes(raw.parameter_id),
        raw_bytes(raw).subrange(12, 16) == u32_bytes(raw.flags),
        raw_bytes(raw).subrange(16, 20) == u32_bytes(raw.sub_range_min.bits),
        raw_bytes(raw).subrange(20, 24) == u32_bytes(raw.sub_range_max.bits),
        raw_bytes(raw)[24] == raw.status,
        raw_bytes(raw)[25] == raw.data1,
        raw_bytes(raw)[26] == raw.reserved1,
        raw_bytes(raw)[27] == raw.reserved2,
        raw_bytes(raw).subrange(28, 32) == u32_bytes(raw.reserved3),
{
    let b = raw_bytes(raw);
    assert(b.subrange(0, 4) =~= u32_bytes(raw.scope));
    assert(b.subrange(4, 8) =~= u32_bytes(raw.element));
    assert(b.subrange(8, 12) =~= u32_bytes(raw.parameter_id));
    assert(b.subrange(12, 16) =~= u32_bytes(raw.flags));
    assert(b.subrange(16, 20) =~= u32_bytes(raw.sub_range_min.bits));
    assert(b.subrange(20, 24) =~= u32_bytes(raw.sub_range_max.bits));
    assert(b.subrange(28, 32) =~= u32_bytes(raw.reserved3));
}

/// A number whose bytes stand at `at` is read there.
proof fn field_at(s: Seq<u8>, at: int, v: u32)
    requires
        0 <= at,
        at + 4 <= s.len(),
        s.subrange(at, at + 4) == u32_bytes(v),
    ensures
        u32_at(s, at) == v,
{
    u32_round_trip(v, s.take(at), s.skip(at + 4));
    assert(s =~= s.take(at) + s.subrange(at, at + 4) + s.skip(at + 4));
}

/// What is read of a raw mapping's bytes, wherever they stand, is that mapping.
proof fn raw_round_trip(raw: AuParameterMidiMappingRaw, before: Seq<u8>, after: Seq<u8>)
    ensures
        raw_at(before + raw_bytes(raw) + after, before.len() as int) == raw,
        raw_bytes(raw).len() == 32,
{
    let b = raw_bytes(raw);
    let s = before + b + after;
    let n = before.len() as int;
    raw_fields(raw);
    assert(s.subrange(n, n + 4) =~= b.subrange(0, 4));
    assert(s.subrange(n + 4, n + 8) =~= b.subrange(4, 8));
    assert(s.subrange(n + 8, n + 12) =~= b.subrange(8, 12));
    assert(s.subrange(n + 12, n + 16) =~= b.subrange(12, 16));
    assert(s.subrange(n + 16, n + 20) =~= b.subrange(16, 20));
    assert(s.subrange(n + 20, n + 24) =~= b.subrange(20, 24));
    assert(s.subrange(n + 28, n + 32) =~= b.subrange(28, 32));
    field_at(s, n, raw.scope);
    field_at(s, n + 4, raw.element);
    field_at(s, n + 8, raw.parameter_id);
    field_at(s, n + 12, raw.flags);
    field_at(s, n + 16, raw.sub_range_min.bits);
    field_at(s, n + 20, raw.sub_range_max.bits);
    field_at(s, n + 28, raw.reserved3);
}

/// The bytes of a table are 32 for each mapping.
pub proof fn table_length(mappings: Seq<AuMidiMapping>)
    ensures
        table_bytes(mappings).len() == 32 * mappings.len(),
    decreases mappings.len(),
{
    if mappings.len() > 0 {
        table_length(mappings.drop_last());
        raw_round_trip(mappings.last().raw(), Seq::empty(), Seq::empty());
    }
}

/// The mapping that was written at a place of a table stands there, whatever
/// follows the table.
proof fn table_place(mappings: Seq<AuMidiMapping>, after: Seq<u8>, i: int)
    requires
        0 <= i < mappings.len(),
    ensures
        raw_at(table_bytes(mappings) + after, 32 * i) == mappings[i].raw(),
    decreases mappings.len(),
{
    let front = mappings.drop_last();
    let last = raw_bytes(mappings.last().raw());
    table_length(front);
    assert(table_bytes(mappings) + after =~= table_bytes(front) + (last + after));
    if i < front.len() {
        table_place(front, last + after, i);
    } else {
        raw_round_trip(mappings.last().raw(), table_bytes(front), after);
        assert(table_bytes(front) + last + after =~= table_bytes(mappings) + after);
    }
}

/// A table survives being written and read back, and so does what stands before
/// a fragment at its end.
pub proof fn a_table_round_trips(mappings: Seq<AuMidiMapping>, fragment: Seq<u8>)
    requires
        forall|i: int| 0 <= i < mappings.len() ==> (#[trigger] mappings[i]).is_canonical(),
        fragment.len() < 32,
    ensures
        table_in(table_bytes(mappings) + fragment) == mappings,
{
    let bytes = table_bytes(mappings) + fragment;
    table_length(mappings);
    assert(bytes.len() / 32 == mappings.len());
    assert forall|i: int| 0 <= i < mappings.len() implies #[trigger] table_in(bytes)[i]
        == mappings[i] by {
        table_place(mappings, fragment, i);
        a_mapping_round_trips(mappings[i]);
    }
    assert(table_in(bytes) =~= mappings);
}

// ---------------------------------------------------------------------------
// Edits
// ---------------------------------------------------------------------------
/// A write to the unit: which property, and the bytes of a table.
#[derive(Debug)]
pub struct MappingWrite {
    pub property: u32,
    pub bytes: Vec<u8>,
}

/// Whether a write is that of a table to a property.
pub open spec fn writes(w: MappingWrite, property: u32, mappings: Seq<AuMidiMapping>) -> bool {
    w.property == property && w.bytes@ == table_bytes(mappings)
}

/// The mappings of a unit, given what reading its table came to. An empty table
/// is not an error; a unit without a table is.
pub fn all(read: Result<Vec<u8>, AuError>) -> (r: Result<Vec<AuMidiMapping>, AuError>)
    ensures
        read matches Err(e) ==> r == Err::<Vec<AuMidiMapping>, AuError>(e),
        read matches Ok(bytes) ==> r is Ok && r->Ok_0@ == table_in(bytes@),
{
    match read {
        Err(e) => Err(e),
        Ok(bytes) => Ok(decode_table(bytes.as_slice())),
    }
}

/// The write that makes a unit map the next message it sees to the parameter of
/// `mapping`.
pub fn arm_hot_map(mapping: &AuMidiMapping) -> (w: MappingWrite)
    ensures
        w.property == K_AUDIO_UNIT_PROPERTY_HOT_MAP_PARAMETER_MIDI_MAPPING,
        w.bytes@ == raw_bytes(mapping.raw()),
{
    let mut bytes: Vec<u8> = Vec::new();
    let raw = mapping.to_raw();
    push_raw(&mut bytes, &raw);
    assert(Seq::<u8>::empty() + raw_bytes(raw) =~= raw_bytes(raw));
    MappingWrite { property: K_AUDIO_UNIT_PROPERTY_HOT_MAP_PARAMETER_MIDI_MAPPING, bytes }
}

/// The write that adds mappings to a unit's table. For none there is nothing to
/// write: units refuse an empty table.
pub fn add(mappings: &[AuMidiMapping]) -> (w: Option<MappingWrite>)
    ensures
        mappings@.len() == 0 ==> w is None,
        mappings@.len() > 0 ==> (w matches Some(write) && writes(
            write,
            K_AUDIO_UNIT_PROPERTY_ADD_PARAMETER_MIDI_MAPPING,
            mappings@,
        )),
{
    if mappings.len() == 0 {
        return None;
    }
    Some(
        MappingWrite {
            property: K_AUDIO_UNIT_PROPERTY_ADD_PARAMETER_MIDI_MAPPING,
            bytes: encode_table(mappings),
        },
    )
}

/// The write that removes the mappings of some parameters from a unit's table.
/// For none there is nothing to write.
pub fn remove(mappings: &[AuMidiMapping]) -> (w: Option<MappingWrite>)
    ensures
        mappings@.len() == 0 ==> w is None,
        mappings@.len() > 0 ==> (w matches Some(write) && writes(
            write,
            K_AUDIO_UNIT_PROPERTY_REMOVE_PARAMETER_MIDI_MAPPING,
            mappings@,
        )),
{
    if mappings.len() == 0 {
        return None;
    }
    Some(
        MappingWrite {
            property: K_AUDIO_UNIT_PROPERTY_REMOVE_PARAMETER_MIDI_MAPPING,
            bytes: encode_table(mappings),
        },
    )
}

/// How a unit's whole table is replaced: by one write, or, since units refuse an
/// empty table, by reading what is there and removing it.
#[derive(Debug)]
pub enum SetAllStep {
    Write(MappingWrite),
    ReadThenRemove,
}

/// How to replace a unit's whole table.
pub fn set_all(mappings: &[AuMidiMapping]) -> (s: SetAllStep)
    ensures
        mappings@.len() == 0 ==> s is ReadThenRemove,
        mappings@.len() > 0 ==> (s matches SetAllStep::Write(write) && writes(
            write,
            K_AUDIO_UNIT_PROPERTY_ALL_PARAMETER_MIDI_MAPPINGS,
            mappings@,
        )),
{
    if mappings.len() == 0 {
        return SetAllStep::ReadThenRemove;
    }
    SetAllStep::Write(
        MappingWrite {
            property: K_AUDIO_UNIT_PROPERTY_ALL_PARAMETER_MIDI_MAPPINGS,
            bytes: encode_table(mappings),
        },
    )
}

/// The write that empties a unit's table, given what reading the table came to.
/// An empty table needs none, and a failed read is the failure of the whole.
pub fn clear_table(read: Result<Vec<u8>, AuError>) -> (r: Result<Option<MappingWrite>, AuError>)
    ensures
        read matches Err(e) ==> r == Err::<Option<MappingWrite>, AuError>(e),
        read matches Ok(bytes) ==> r is Ok && (r->Ok_0 is None) == (bytes@.len() < 32),
        read matches Ok(bytes) ==> r->Ok_0 matches Some(write) ==> writes(
            write,
            K_AUDIO_UNIT_PROPERTY_REMOVE_PARAMETER_MIDI_MAPPING,
            table_in(bytes@),
        ),
{
    match read {
        Err(e) => Err(e),
        Ok(bytes) => {
            let existing = decode_table(bytes.as_slice());
            Ok(remove(existing.as_slice()))
        },
    }
}

/// The mapping that a unit learned, given its answer to reading it. Units answer
/// with zeros where nothing was learned, so the status byte decides: no message
/// has a zero one.
pub fn hot_map(answer: Option<AuParameterMidiMappingRaw>) -> (m: Option<AuMidiMapping>)
    ensures
        m == (match answer {
            Some(raw) => if raw.status != 0 {
                Some(AuMidiMapping::decoded(raw))
            } else {
                None
            },
            None => None,
        }),
{
    match answer {
        Some(raw) => if raw.status != 0 {
            Some(AuMidiMapping::from_raw(&raw))
        } else {
            None
        },
        None => None,
    }
}

/// Whether a unit has learned a mapping that waits to be read.
pub fn hot_map_pending(answer: Option<AuParameterMidiMappingRaw>) -> (pending: bool)
    ensures
        pending == (answer is Some && answer->0.status != 0),
{
    hot_map(answer).is_some()
}

/// Whether a unit has a mapping table at all, given the status of asking for its
/// size. An empty table answers too.
pub fn supports_parameter_midi_mapping(size_status: i32) -> (yes: bool)
    ensures
        yes == (size_status == NO_ERR),
{
    size_status == NO_ERR
}

/// Emptying a table names every parameter that the table maps, and no other.
pub proof fn clearing_names_every_parameter(bytes: Seq<u8>, i: int)
    requires
        0 <= i < table_in(bytes).len(),
    ensures
        ({
            let removed = table_bytes(table_in(bytes));
            &&& table_in(removed).len() == table_in(bytes).len()
            &&& table_in(removed)[i].target() == table_in(bytes)[i].target()
        }),
{
    let existing = table_in(bytes);
    table_length(existing);
    table_place(existing, Seq::empty(), i);
    assert(table_bytes(existing) + Seq::<u8>::empty() =~= table_bytes(existing));
    a_mapping_round_trips(existing[i]);
}

/// A mapping is written field by field: where its parameter lives, its command in
/// the upper half of the status byte and its channel in the lower, its data byte,
/// each of its switches as a bit of its own, and its bounds where it has some.
pub proof fn a_mapping_is_written_field_by_field(m: AuMidiMapping)
    ensures
        m.raw().scope == m.scope,
        m.raw().element == m.element,
        m.raw().parameter_id == m.parameter_id,
        m.raw().status % 16 == m.channel % 16,
        m.trigger is NoteOff ==> m.raw().status / 16 == 8 && m.raw().data1 == m.trigger->NoteOff_note,
        m.trigger is NoteOn ==> m.raw().status / 16 == 9 && m.raw().data1 == m.trigger->NoteOn_note,
        m.trigger is KeyPressure ==> m.raw().status / 16 == 10 && m.raw().data1
            == m.trigger->KeyPressure_note,
        m.trigger is ControlChange ==> m.raw().status / 16 == 11 && m.raw().data1
            == m.trigger->controller,
        m.trigger is ProgramChange ==> m.raw().status / 16 == 12 && m.raw().data1
            == m.trigger->patch,
        m.trigger is ChannelPressure ==> m.raw().status / 16 == 13 && m.raw().data1 == 0,
        m.trigger is PitchBend ==> m.raw().status / 16 == 14 && m.raw().data1 == 0,
        m.trigger matches MidiTrigger::Other { status, data1 } ==> m.raw().status / 16 == status / 16
            && m.raw().data1 == data1,
        m.raw().flags & 1 != 0 <==> m.any_channel,
        m.raw().flags & 2 != 0 <==> m.any_note,
        m.raw().flags & 4 != 0 <==> m.sub_range is Some,
        m.raw().flags & 8 != 0 <==> m.toggle,
        m.raw().flags & 16 != 0 <==> m.bipolar,
        m.raw().flags & 32 != 0 <==> m.bipolar_on,
        m.raw().flags < 64,
        m.sub_range matches Some(r) ==> m.raw().sub_range_min == r.0 && m.raw().sub_range_max == r.1,
        m.sub_range is None ==> m.raw().sub_range_min.bits == 0 && m.raw().sub_range_max.bits == 0,
        m.raw().reserved1 == 0,
        m.raw().reserved2 == 0,
        m.raw().reserved3 == 0,
{
    let a = bit_if(m.any_channel, 1);
    let n = bit_if(m.any_note, 2);
    let t = bit_if(m.sub_range is Some, 4);
    let g = bit_if(m.toggle, 8);
    let b = bit_if(m.bipolar, 16);
    let o = bit_if(m.bipolar_on, 32);
    flags_are_apart(a, n, t, g, b, o);
    assert(a | n | t | g | b | o < 64) by (bit_vector)
        requires
            a <= 1,
            n <= 2,
            t <= 4,
            g <= 8,
            b <= 16,
            o <= 32,
    ;
}

/// A raw mapping is read field by field, every one of them: the command from the
/// upper half of the status byte and the channel from the lower, each switch from
/// its bit, and bounds only where their bit says so.
pub proof fn a_mapping_is_read_field_by_field(raw: AuParameterMidiMappingRaw)
    ensures
        ({
            let m = AuMidiMapping::decoded(raw);
            &&& m.scope == raw.scope
            &&& m.element == raw.element
            &&& m.parameter_id == raw.parameter_id
            &&& m.channel == raw.status % 16
            &&& m.any_channel <==> raw.flags & 1 != 0
            &&& m.any_note <==> raw.flags & 2 != 0
            &&& m.toggle <==> raw.flags & 8 != 0
            &&& m.bipolar <==> raw.flags & 16 != 0
            &&& m.bipolar_on <==> raw.flags & 32 != 0
            &&& raw.flags & 4 != 0 ==> m.sub_range == Some(
                (raw.sub_range_min, raw.sub_range_max),
            )
            &&& raw.flags & 4 == 0 ==> m.sub_range is None
            &&& raw.status / 16 == 8 ==> m.trigger == (MidiTrigger::NoteOff { note: raw.data1 })
            &&& raw.status / 16 == 9 ==> m.trigger == (MidiTrigger::NoteOn { note: raw.data1 })
            &&& raw.status / 16 == 10 ==> m.trigger == (MidiTrigger::KeyPressure { note: raw.data1 })
            &&& raw.status / 16 == 11 ==> m.trigger == (MidiTrigger::ControlChange {
                controller: raw.data1,
            })
            &&& raw.status / 16 == 12 ==> m.trigger == (MidiTrigger::ProgramChange {
                patch: raw.data1,
            })
            &&& raw.status / 16 == 13 ==> m.trigger is ChannelPressure
            &&& raw.status / 16 == 14 ==> m.trigger is PitchBend
            &&& raw.status / 16 < 8 || raw.status / 16 == 15 ==> m.trigger == (MidiTrigger::Other {
                status: raw.status,
                data1: raw.data1,
            })
        }),
{
}

/// The value of four bytes, lowest first.
pub open spec fn little_endian(b0: u8, b1: u8, b2: u8, b3: u8) -> int {
    b0 + 256 * (b1 + 256 * (b2 + 256 * b3))
}

/// The bytes of a number, found at a place, have its value.
proof fn word_at(b: Seq<u8>, k: int, v: u32)
    requires
        0 <= k,
        k + 4 <= b.len(),
        b.subrange(k, k + 4) == u32_bytes(v),
    ensures
        little_endian(b[k], b[k + 1], b[k + 2], b[k + 3]) == v,
{
    let w = b.subrange(k, k + 4);
    assert(w[0] == b[k] && w[1] == b[k + 1] && w[2] == b[k + 2] && w[3] == b[k + 3]);
}

/// A raw mapping takes 32 bytes: six numbers of four bytes each, the status and
/// the data byte, and the reserved ones.
pub proof fn a_raw_mapping_is_written_in_its_places(raw: AuParameterMidiMappingRaw)
    ensures
        ({
            let b = raw_bytes(raw);
            &&& b.len() == 32
            &&& little_endian(b[0], b[1], b[2], b[3]) == raw.scope
            &&& little_endian(b[4], b[5], b[6], b[7]) == raw.element
            &&& little_endian(b[8], b[9], b[10], b[11]) == raw.parameter_id
            &&& little_endian(b[12], b[13], b[14], b[15]) == raw.flags
            &&& little_endian(b[16], b[17], b[18], b[19]) == raw.sub_range_min.bits
            &&& little_endian(b[20], b[21], b[22], b[23]) == raw.sub_range_max.bits
            &&& b[24] == raw.status
            &&& b[25] == raw.data1
            &&& b[26] == raw.reserved1
            &&& b[27] == raw.reserved2
            &&& little_endian(b[28], b[29], b[30], b[31]) == raw.reserved3
        }),
{
    raw_fields(raw);
    let b = raw_bytes(raw);
    word_at(b, 0, raw.scope);
    word_at(b, 4, raw.element);
    word_at(b, 8, raw.parameter_id);
    word_at(b, 12, raw.flags);
    word_at(b, 16, raw.sub_range_min.bits);
    word_at(b, 20, raw.sub_range_max.bits);
    word_at(b, 28, raw.reserved3);
}

/// A raw mapping is read at the places where one is written.
pub proof fn a_raw_mapping_is_read_in_its_places(bytes: Seq<u8>, at: int)
    requires
        0 <= at,
        at + 32 <= bytes.len(),
    ensures
        ({
            let r = raw_at(bytes, at);
            let word = |k: int|
                little_endian(bytes[k], bytes[k + 1], bytes[k + 2], bytes[k + 3]);
            &&& r.scope == word(at)
            &&& r.element == word(at + 4)
            &&& r.parameter_id == word(at + 8)
            &&& r.flags == word(at + 12)
            &&& r.sub_range_min.bits == word(at + 16)
            &&& r.sub_range_max.bits == word(at + 20)
            &&& r.status == bytes[at + 24]
            &&& r.data1 == bytes[at + 25]
            &&& r.reserved1 == bytes[at + 26]
            &&& r.reserved2 == bytes[at + 27]
            &&& r.reserved3 == word(at + 28)
        }),
{
}

/// A table is its mappings, 32 bytes each, in order; and reading one gives as many
/// mappings as it has whole places, each read off its own.
pub proof fn a_table_is_its_mappings(mappings: Seq<AuMidiMapping>, bytes: Seq<u8>, i: int)
    requires
        0 <= i,
    ensures
        table_bytes(mappings).len() == 32 * mappings.len(),
        mappings.len() > 0 ==> table_bytes(mappings) == table_bytes(
            mappings.take(mappings.len() - 1),
        ) + raw_bytes(mappings[mappings.len() - 1].raw()),
        table_in(bytes).len() * 32 <= bytes.len() < (table_in(bytes).len() + 1) * 32,
        i < table_in(bytes).len() ==> table_in(bytes)[i] == AuMidiMapping::decoded(
            raw_at(bytes, 32 * i),
        ),
{
    table_length(mappings);
    if mappings.len() > 0 {
        assert(mappings.drop_last() =~= mappings.take(mappings.len() - 1));
    }
}

/// A write goes to its property, with the bytes of its mappings; and two mappings
/// have the same target where scope, element and parameter are the same.
pub proof fn a_write_is_of_its_mappings(
    w: MappingWrite,
    property: u32,
    mappings: Seq<AuMidiMapping>,
    a: AuMidiMapping,
    b: AuMidiMapping,
)
    ensures
        writes(w, property, mappings) <==> w.property == property && w.bytes@ == table_bytes(
            mappings,
        ),
        a.target() == b.target() <==> a.scope == b.scope && a.element == b.element && a.parameter_id
            == b.parameter_id,
{
}

} // verus!
