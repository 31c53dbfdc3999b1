//! The AudioToolbox constants that decisions depend on.
use vstd::prelude::*;

verus! {

/// The status of a call that succeeded.
pub const NO_ERR: i32 = 0;

pub const K_AUDIO_UNIT_SCOPE_GLOBAL: u32 = 0;

pub const K_AUDIO_UNIT_SCOPE_INPUT: u32 = 1;

pub const K_AUDIO_UNIT_SCOPE_OUTPUT: u32 = 2;

pub const K_AUDIO_UNIT_ERR_INVALID_PROPERTY: i32 = -10879;

pub const K_AUDIO_UNIT_ERR_INVALID_PARAMETER: i32 = -10878;

pub const K_AUDIO_UNIT_ERR_INVALID_ELEMENT: i32 = -10877;

pub const K_AUDIO_UNIT_ERR_NO_CONNECTION: i32 = -10876;

pub const K_AUDIO_UNIT_ERR_FAILED_INITIALIZATION: i32 = -10875;

pub const K_AUDIO_UNIT_ERR_TOO_MANY_FRAMES_TO_PROCESS: i32 = -10874;

pub const K_AUDIO_UNIT_ERR_INVALID_FILE: i32 = -10871;

pub const K_AUDIO_UNIT_ERR_UNKNOWN_FILE_TYPE: i32 = -10870;

pub const K_AUDIO_UNIT_ERR_FILE_NOT_SPECIFIED: i32 = -10869;

pub const K_AUDIO_UNIT_ERR_FORMAT_NOT_SUPPORTED: i32 = -10868;

pub const K_AUDIO_UNIT_ERR_UNINITIALIZED: i32 = -10867;

pub const K_AUDIO_UNIT_ERR_INVALID_SCOPE: i32 = -10866;

pub const K_AUDIO_UNIT_ERR_PROPERTY_NOT_WRITABLE: i32 = -10865;

pub const K_AUDIO_UNIT_ERR_CANNOT_DO_IN_CURRENT_CONTEXT: i32 = -10863;

pub const K_AUDIO_UNIT_ERR_INVALID_PROPERTY_VALUE: i32 = -10851;

pub const K_AUDIO_UNIT_ERR_PROPERTY_NOT_IN_USE: i32 = -10850;

pub const K_AUDIO_UNIT_ERR_INITIALIZED: i32 = -10849;

pub const K_AUDIO_UNIT_ERR_INVALID_OFFLINE_RENDER: i32 = -10848;

pub const K_AUDIO_UNIT_ERR_UNAUTHORIZED: i32 = -10847;

/// Set on components that only the asynchronous call can instantiate.
pub const K_AUDIO_COMPONENT_FLAG_REQUIRES_ASYNC_INSTANTIATION: u32 = 4;

pub const K_AUDIO_UNIT_TYPE_EFFECT: u32 = 0x6175_6678;

pub const K_AUDIO_UNIT_TYPE_MUSIC_DEVICE: u32 = 0x6175_6D75;

pub const K_AUDIO_UNIT_TYPE_MUSIC_EFFECT: u32 = 0x6175_6D66;

pub const K_AUDIO_UNIT_TYPE_GENERATOR: u32 = 0x6175_676E;

pub const K_AUDIO_UNIT_TYPE_MIXER: u32 = 0x6175_6D78;

/// Set on a notification before the unit renders.
pub const K_AUDIO_UNIT_RENDER_ACTION_PRE_RENDER: u32 = 4;

/// Set on a notification after the unit rendered.
pub const K_AUDIO_UNIT_RENDER_ACTION_POST_RENDER: u32 = 8;

/// Set by a unit whose output is silent.
pub const K_AUDIO_UNIT_RENDER_ACTION_OUTPUT_IS_SILENCE: u32 = 16;

/// The whole mapping table of a unit.
pub const K_AUDIO_UNIT_PROPERTY_ALL_PARAMETER_MIDI_MAPPINGS: u32 = 41;

/// Adding to the mapping table.
pub const K_AUDIO_UNIT_PROPERTY_ADD_PARAMETER_MIDI_MAPPING: u32 = 42;

/// Removing from the mapping table.
pub const K_AUDIO_UNIT_PROPERTY_REMOVE_PARAMETER_MIDI_MAPPING: u32 = 43;

/// The mapping that is being learned.
pub const K_AUDIO_UNIT_PROPERTY_HOT_MAP_PARAMETER_MIDI_MAPPING: u32 = 44;

pub const K_AU_PARAMETER_MIDI_MAPPING_ANY_CHANNEL: u32 = 1;

pub const K_AU_PARAMETER_MIDI_MAPPING_ANY_NOTE: u32 = 2;

pub const K_AU_PARAMETER_MIDI_MAPPING_SUB_RANGE: u32 = 4;

pub const K_AU_PARAMETER_MIDI_MAPPING_TOGGLE: u32 = 8;

pub const K_AU_PARAMETER_MIDI_MAPPING_BIPOLAR: u32 = 16;

pub const K_AU_PARAMETER_MIDI_MAPPING_BIPOLAR_ON: u32 = 32;

pub const K_AUDIO_CHANNEL_LAYOUT_TAG_USE_CHANNEL_DESCRIPTIONS: u32 = 0;

pub const K_AUDIO_CHANNEL_LAYOUT_TAG_USE_CHANNEL_BITMAP: u32 = 0x1_0000;

pub const K_AUDIO_CHANNEL_LAYOUT_TAG_MONO: u32 = 0x64_0001;

pub const K_AUDIO_CHANNEL_LAYOUT_TAG_STEREO: u32 = 0x65_0002;

pub const K_AUDIO_CHANNEL_LAYOUT_TAG_STEREO_HEADPHONES: u32 = 0x66_0002;

pub const K_AUDIO_CHANNEL_LAYOUT_TAG_MATRIX_STEREO: u32 = 0x67_0002;

pub const K_AUDIO_CHANNEL_LAYOUT_TAG_MID_SIDE: u32 = 0x68_0002;

pub const K_AUDIO_CHANNEL_LAYOUT_TAG_XY: u32 = 0x69_0002;

pub const K_AUDIO_CHANNEL_LAYOUT_TAG_BINAURAL: u32 = 0x6A_0002;

pub const K_AUDIO_CHANNEL_LAYOUT_TAG_AMBISONIC_B_FORMAT: u32 = 0x6B_0004;

pub const K_AUDIO_CHANNEL_LAYOUT_TAG_QUADRAPHONIC: u32 = 0x6C_0004;

pub const K_AUDIO_CHANNEL_LAYOUT_TAG_PENTAGONAL: u32 = 0x6D_0005;

pub const K_AUDIO_CHANNEL_LAYOUT_TAG_HEXAGONAL: u32 = 0x6E_0006;

pub const K_AUDIO_CHANNEL_LAYOUT_TAG_OCTAGONAL: u32 = 0x6F_0008;

pub const K_AUDIO_CHANNEL_LAYOUT_TAG_CUBE: u32 = 0x70_0008;

pub const K_AUDIO_CHANNEL_LAYOUT_TAG_AUDIO_UNIT_5_0: u32 = 0x76_0005;

pub const K_AUDIO_CHANNEL_LAYOUT_TAG_AUDIO_UNIT_5_1: u32 = 0x79_0006;

pub const K_AUDIO_CHANNEL_LAYOUT_TAG_AUDIO_UNIT_6_0: u32 = 0x8B_0006;

pub const K_AUDIO_CHANNEL_LAYOUT_TAG_AUDIO_UNIT_7_0: u32 = 0x8C_0007;

pub const K_AUDIO_CHANNEL_LAYOUT_TAG_AUDIO_UNIT_7_1: u32 = 0x80_0008;

pub const K_AUDIO_CHANNEL_LAYOUT_TAG_AUDIO_UNIT_4: u32 = 0x6C_0004;

pub const K_AUDIO_CHANNEL_LAYOUT_TAG_AUDIO_UNIT_6: u32 = 0x6E_0006;

pub const K_AUDIO_CHANNEL_LAYOUT_TAG_AUDIO_UNIT_8: u32 = 0x6F_0008;

pub const K_AUDIO_CHANNEL_LAYOUT_TAG_MPEG_5_0_B: u32 = 0x76_0005;

pub const K_AUDIO_CHANNEL_LAYOUT_TAG_MPEG_5_1_A: u32 = 0x79_0006;

pub const K_AUDIO_CHANNEL_LAYOUT_TAG_MPEG_7_1_C: u32 = 0x80_0008;

pub const K_AUDIO_UNIT_PARAMETER_UNIT_GENERIC: u32 = 0;

pub const K_AUDIO_UNIT_PARAMETER_UNIT_BOOLEAN: u32 = 2;

pub const K_AUDIO_UNIT_PARAMETER_UNIT_PERCENT: u32 = 3;

pub const K_AUDIO_UNIT_PARAMETER_UNIT_SECONDS: u32 = 4;

pub const K_AUDIO_UNIT_PARAMETER_UNIT_HERTZ: u32 = 8;

pub const K_AUDIO_UNIT_PARAMETER_UNIT_MIDI_CONTROLLER: u32 = 12;

pub const K_AUDIO_UNIT_PARAMETER_UNIT_DECIBELS: u32 = 13;

pub const K_AUDIO_UNIT_PARAMETER_UNIT_LINEAR_GAIN: u32 = 14;

pub const K_AUDIO_UNIT_PARAMETER_FLAG_OMIT_FROM_PRESETS: u32 = 0x2000;

pub const K_AUDIO_UNIT_PARAMETER_FLAG_METER_READ_ONLY: u32 = 0x8000;

pub const K_AUDIO_UNIT_PARAMETER_FLAG_DISPLAY_MASK: u32 = 0x47_0000;

pub const K_AUDIO_UNIT_PARAMETER_FLAG_DISPLAY_SQUARE_ROOT: u32 = 0x1_0000;

pub const K_AUDIO_UNIT_PARAMETER_FLAG_DISPLAY_SQUARED: u32 = 0x2_0000;

pub const K_AUDIO_UNIT_PARAMETER_FLAG_DISPLAY_CUBED: u32 = 0x3_0000;

pub const K_AUDIO_UNIT_PARAMETER_FLAG_DISPLAY_CUBE_ROOT: u32 = 0x4_0000;

pub const K_AUDIO_UNIT_PARAMETER_FLAG_DISPLAY_EXPONENTIAL: u32 = 0x5_0000;

pub const K_AUDIO_UNIT_PARAMETER_FLAG_HAS_CLUMP: u32 = 0x10_0000;

pub const K_AUDIO_UNIT_PARAMETER_FLAG_VALUES_HAVE_STRINGS: u32 = 0x20_0000;

pub const K_AUDIO_UNIT_PARAMETER_FLAG_DISPLAY_LOGARITHMIC: u32 = 0x40_0000;

pub const K_AUDIO_UNIT_PARAMETER_FLAG_CAN_RAMP: u32 = 0x200_0000;

pub const K_AUDIO_UNIT_PARAMETER_FLAG_HAS_CF_NAME_STRING: u32 = 0x800_0000;

pub const K_AUDIO_UNIT_PARAMETER_FLAG_IS_READABLE: u32 = 0x4000_0000;

pub const K_AUDIO_UNIT_PARAMETER_FLAG_IS_WRITABLE: u32 = 0x8000_0000;

pub const K_AUDIO_UNIT_EVENT_PARAMETER_VALUE_CHANGE: u32 = 0;

pub const K_AUDIO_UNIT_EVENT_BEGIN_PARAMETER_CHANGE_GESTURE: u32 = 1;

pub const K_AUDIO_UNIT_EVENT_END_PARAMETER_CHANGE_GESTURE: u32 = 2;

pub const K_AUDIO_UNIT_EVENT_PROPERTY_CHANGE: u32 = 3;

/// The number that stands for any parameter.
pub const K_AU_PARAMETER_LISTENER_ANY_PARAMETER: u32 = 0xFFFF_FFFF;

pub const K_PARAMETER_EVENT_IMMEDIATE: u32 = 1;

pub const K_PARAMETER_EVENT_RAMPED: u32 = 2;

} // verus!
