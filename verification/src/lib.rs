//! The decision logic of an Audio Unit host: channel and bus models, MIDI
//! splitting and mapping, preset identity, buffer staging, stream
//! configuration and the instance life cycle. Everything here works on plain
//! values; the calls into AudioToolbox are made by the program around it.
pub mod aupreset;
pub mod buffer;
pub mod bus;
pub mod bytes;
pub mod channel_layout;
pub mod editor;
pub mod error;
pub mod ffi;
pub mod float;
pub mod handle;
pub mod identity;
pub mod instance;
pub mod listener;
pub mod midi_in;
pub mod midi_map;
pub mod midi_out;
pub mod offline;
pub mod parameters;
pub mod preset;
pub mod render_notify;
pub mod restore;
pub mod stream;
pub mod text;
pub mod topology;
pub mod transport;
pub mod types;
