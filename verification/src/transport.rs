//! The host's transport as a unit pulls it: tempo and beat, the place in the
//! bar, and whether the transport runs, records or cycles.
use vstd::prelude::*;
use crate::float::Float64;
use crate::types::{K_AUDIO_UNIT_ERR_CANNOT_DO_IN_CURRENT_CONTEXT, NO_ERR};

verus! {

/// 120 beats per minute, by its bit pattern.
pub const DEFAULT_TEMPO_BITS: u64 = 0x405E_0000_0000_0000;

/// A tempo in beats per minute.
#[derive(Clone, Copy, Debug, PartialEq)]
pub struct Bpm(pub Float64);

/// A position in beats.
#[derive(Clone, Copy, Debug, PartialEq)]
pub struct Beat(pub Float64);

/// A snapshot of the host's transport.
#[derive(Clone, Copy, Debug, PartialEq)]
pub struct TransportInfo {
    pub tempo: Bpm,
    /// Beats per bar as notated: 7 in 7/8.
    pub beats_per_bar: u32,
    /// Note value as notated: 8 in 7/8.
    pub note_value: u32,
    pub position: Beat,
    /// The sample position on the project timeline, where the host has one.
    pub samples: Option<i64>,
    /// The beat on which the current bar begins.
    pub bar_start: Beat,
    pub loop_start: Beat,
    pub loop_end: Beat,
    pub playing: bool,
    pub recording: bool,
    pub cycle_active: bool,
}

/// The transport as a unit can pull it.
#[derive(Clone, Copy, Debug, PartialEq)]
pub struct TransportState {
    pub tempo: Bpm,
    pub beat: Beat,
    pub sample_time: i64,
    pub measure_downbeat: Beat,
    pub cycle_start: Beat,
    pub cycle_end: Beat,
    pub time_sig_numerator: u32,
    pub time_sig_denominator: u32,
    /// Samples from the start of the next block to the next whole beat.
    pub samples_to_next_beat: u32,
    pub playing: bool,
    pub recording: bool,
    pub cycling: bool,
    /// Whether the transport jumped, started or stopped since a unit last
    /// asked.
    pub state_changed: bool,
}

/// Where in the bar the next block falls.
#[derive(Clone, Copy, Debug, PartialEq)]
pub struct MusicalTimeLocation {
    pub delta_to_next_beat: u32,
    pub time_sig_numerator: u32,
    pub time_sig_denominator: u32,
    pub measure_downbeat: Beat,
}

/// What both transport queries answer.
#[derive(Clone, Copy, Debug, PartialEq)]
pub struct TransportReading {
    pub is_playing: bool,
    /// Whether the transport changed since a unit last asked; `None` where this
    /// unit did not ask.
    pub state_changed: Option<bool>,
    pub sample_in_timeline: i64,
    pub is_cycling: bool,
    pub cycle_start: Beat,
    pub cycle_end: Beat,
}

/// Positive zero, by its bit pattern.
pub open spec fn beat_zero() -> Beat {
    Beat(Float64 { bits: 0 })
}

/// A stopped transport at 120 beats per minute in 4/4, at the first beat.
pub open spec fn stopped() -> TransportState {
    TransportState {
        tempo: Bpm(Float64 { bits: DEFAULT_TEMPO_BITS }),
        beat: beat_zero(),
        sample_time: 0,
        measure_downbeat: beat_zero(),
        cycle_start: beat_zero(),
        cycle_end: beat_zero(),
        time_sig_numerator: 4,
        time_sig_denominator: 4,
        samples_to_next_beat: 0,
        playing: false,
        recording: false,
        cycling: false,
        state_changed: false,
    }
}

impl Default for TransportState {
    /// A stopped transport, coherent enough for a unit that asks before the host
    /// has published anything.
    fn default() -> (t: TransportState)
        ensures
            t == stopped(),
    {
        let zero = Beat(Float64 { bits: 0 });
        TransportState {
            tempo: Bpm(Float64 { bits: DEFAULT_TEMPO_BITS }),
            beat: zero,
            sample_time: 0,
            measure_downbeat: zero,
            cycle_start: zero,
            cycle_end: zero,
            time_sig_numerator: 4,
            time_sig_denominator: 4,
            samples_to_next_beat: 0,
            playing: false,
            recording: false,
            cycling: false,
            state_changed: false,
        }
    }
}

impl TransportState {
    /// The transport after a snapshot was published. Publishing never withdraws
    /// a change that no unit has seen yet, and leaves the distance to the next
    /// beat alone.
    pub open spec fn published(self, info: TransportInfo, changed: bool) -> TransportState {
        TransportState {
            tempo: info.tempo,
            beat: info.position,
            sample_time: match info.samples {
                Some(n) => n,
                None => 0,
            },
            measure_downbeat: info.bar_start,
            cycle_start: info.loop_start,
            cycle_end: info.loop_end,
            time_sig_numerator: info.beats_per_bar,
            time_sig_denominator: info.note_value,
            samples_to_next_beat: self.samples_to_next_beat,
            playing: info.playing,
            recording: info.recording,
            cycling: info.cycle_active,
            state_changed: self.state_changed || changed,
        }
    }

    /// What a transport query is answered.
    pub open spec fn reading(self, asks_change: bool) -> TransportReading {
        TransportReading {
            is_playing: self.playing,
            state_changed: if asks_change {
                Some(self.state_changed)
            } else {
                None
            },
            sample_in_timeline: self.sample_time,
            is_cycling: self.cycling,
            cycle_start: self.cycle_start,
            cycle_end: self.cycle_end,
        }
    }

    /// The transport after a query: asking for the change consumes it.
    pub open spec fn after_reading(self, asks_change: bool) -> TransportState {
        TransportState { state_changed: self.state_changed && !asks_change, ..self }
    }

    /// A stopped transport at the musical defaults.
    pub fn new() -> (t: TransportState)
        ensures
            t == stopped(),
    {
        TransportState::default()
    }

    /// Publishes a snapshot. `changed` says that the transport started, stopped
    /// or jumped.
    pub fn set_transport(&mut self, info: &TransportInfo, changed: bool)
        ensures
            *final(self) == old(self).published(*info, changed),
            final(self).tempo == info.tempo,
            final(self).beat == info.position,
            final(self).playing == info.playing,
            final(self).recording == info.recording,
            final(self).cycling == info.cycle_active,
    {
        self.tempo = info.tempo;
        self.beat = info.position;
        self.sample_time = match info.samples {
            Some(n) => n,
            None => 0,
        };
        self.measure_downbeat = info.bar_start;
        self.cycle_start = info.loop_start;
        self.cycle_end = info.loop_end;
        self.time_sig_numerator = info.beats_per_bar;
        self.time_sig_denominator = info.note_value;
        self.playing = info.playing;
        self.recording = info.recording;
        self.cycling = info.cycle_active;
        if changed {
            self.state_changed = true;
        }
    }

    /// Sets how many samples remain from the start of the next block to the next
    /// whole beat.
    pub fn set_samples_to_next_beat(&mut self, samples: u32)
        ensures
            *final(self) == (TransportState { samples_to_next_beat: samples, ..*old(self) }),
    {
        self.samples_to_next_beat = samples;
    }

    /// The tempo.
    pub fn tempo(&self) -> (t: Bpm)
        ensures
            t == self.tempo,
    {
        self.tempo
    }

    /// The position in beats.
    pub fn beat(&self) -> (b: Beat)
        ensures
            b == self.beat,
    {
        self.beat
    }

    /// Whether the transport rolls.
    pub fn is_playing(&self) -> (yes: bool)
        ensures
            yes == self.playing,
    {
        self.playing
    }

    /// Whether the host records.
    pub fn is_recording(&self) -> (yes: bool)
        ensures
            yes == self.recording,
    {
        self.recording
    }

    /// Whether the host cycles.
    pub fn is_cycling(&self) -> (yes: bool)
        ensures
            yes == self.cycling,
    {
        self.cycling
    }

    /// Reads and clears the pending change.
    pub fn take_state_changed(&mut self) -> (changed: bool)
        ensures
            changed == old(self).state_changed,
            *final(self) == old(self).after_reading(true),
    {
        let changed = self.state_changed;
        self.state_changed = false;
        changed
    }

    /// Whether a change is pending, without consuming it.
    pub fn state_changed_pending(&self) -> (pending: bool)
        ensures
            pending == self.state_changed,
    {
        self.state_changed
    }

    /// Answers the query for beat and tempo.
    pub fn beat_and_tempo(&self) -> (bt: (Beat, Bpm))
        ensures
            bt == (self.beat, self.tempo),
    {
        (self.beat, self.tempo)
    }

    /// Answers the query for the place in the bar.
    pub fn musical_time_location(&self) -> (m: MusicalTimeLocation)
        ensures
            m == (MusicalTimeLocation {
                delta_to_next_beat: self.samples_to_next_beat,
                time_sig_numerator: self.time_sig_numerator,
                time_sig_denominator: self.time_sig_denominator,
                measure_downbeat: self.measure_downbeat,
            }),
    {
        MusicalTimeLocation {
            delta_to_next_beat: self.samples_to_next_beat,
            time_sig_numerator: self.time_sig_numerator,
            time_sig_denominator: self.time_sig_denominator,
            measure_downbeat: self.measure_downbeat,
        }
    }

    /// Answers the first transport query. The pending change is consumed only
    /// where the unit asks for it.
    pub fn transport_state(&mut self, asks_change: bool) -> (r: TransportReading)
        ensures
            r == old(self).reading(asks_change),
            *final(self) == old(self).after_reading(asks_change),
    {
        let state_changed = if asks_change {
            Some(self.take_state_changed())
        } else {
            None
        };
        TransportReading {
            is_playing: self.playing,
            state_changed,
            sample_in_timeline: self.sample_time,
            is_cycling: self.cycling,
            cycle_start: self.cycle_start,
            cycle_end: self.cycle_end,
        }
    }

    /// Answers the second transport query, which also asks whether the host
    /// records. What it shares with the first it answers alike.
    pub fn transport_state2(&mut self, asks_change: bool) -> (r: (bool, TransportReading))
        ensures
            r.0 == old(self).recording,
            r.1 == old(self).reading(asks_change),
            *final(self) == old(self).after_reading(asks_change),
    {
        (self.recording, self.transport_state(asks_change))
    }
}

/// The status of a transport query: without a transport to read the host cannot
/// answer.
pub fn query_status(has_state: bool) -> (status: i32)
    ensures
        status == (if has_state {
            NO_ERR
        } else {
            K_AUDIO_UNIT_ERR_CANNOT_DO_IN_CURRENT_CONTEXT
        }),
{
    if has_state {
        NO_ERR
    } else {
        K_AUDIO_UNIT_ERR_CANNOT_DO_IN_CURRENT_CONTEXT
    }
}

/// A jump of the transport is reported once: queries that do not ask leave it
/// pending, snapshots without a change leave it pending, the first query that
/// asks gets it, and the next one does not.
pub proof fn a_change_is_reported_once(t: TransportState, info: TransportInfo, later: TransportInfo)
    ensures
        ({
            let jumped = t.published(info, true);
            let idle = jumped.after_reading(false).published(later, false);
            &&& idle.state_changed
            &&& idle.reading(true).state_changed == Some(true)
            &&& idle.after_reading(true).reading(true).state_changed == Some(false)
            &&& !idle.after_reading(true).published(later, false).state_changed
        }),
{
}

/// Reading changes nothing but the pending change.
pub proof fn reading_keeps_the_transport(t: TransportState, asks_change: bool)
    ensures
        ({
            let after = t.after_reading(asks_change);
            TransportState { state_changed: t.state_changed, ..after } == t
        }),
{
}

/// What is published is what a unit pulls: each value of the snapshot under the
/// meaning it has there. A position that the host does not have is zero, the
/// distance to the next beat is not part of a snapshot, and a change stays pending
/// until it is asked for.
pub proof fn what_is_published_is_pulled(t: TransportState, info: TransportInfo, changed: bool)
    ensures
        ({
            let p = t.published(info, changed);
            &&& p.tempo == info.tempo
            &&& p.beat == info.position
            &&& p.measure_downbeat == info.bar_start
            &&& p.cycle_start == info.loop_start
            &&& p.cycle_end == info.loop_end
            &&& p.time_sig_numerator == info.beats_per_bar
            &&& p.time_sig_denominator == info.note_value
            &&& p.playing == info.playing
            &&& p.recording == info.recording
            &&& p.cycling == info.cycle_active
            &&& info.samples matches Some(n) ==> p.sample_time == n
            &&& info.samples is None ==> p.sample_time == 0
            &&& p.samples_to_next_beat == t.samples_to_next_beat
            &&& p.state_changed <==> t.state_changed || changed
        }),
{
}

/// A transport query answers with the transport as it stands, and the change only
/// where it is asked for. It takes the change and nothing else.
pub proof fn a_query_answers_with_the_transport(t: TransportState, asks_change: bool)
    ensures
        ({
            let r = t.reading(asks_change);
            let after = t.after_reading(asks_change);
            &&& r.is_playing == t.playing
            &&& r.is_cycling == t.cycling
            &&& r.sample_in_timeline == t.sample_time
            &&& r.cycle_start == t.cycle_start
            &&& r.cycle_end == t.cycle_end
            &&& asks_change ==> r.state_changed == Some(t.state_changed)
            &&& !asks_change ==> r.state_changed is None
            &&& after.state_changed <==> t.state_changed && !asks_change
            &&& after.tempo == t.tempo
            &&& after.beat == t.beat
            &&& after.sample_time == t.sample_time
            &&& after.measure_downbeat == t.measure_downbeat
            &&& after.cycle_start == t.cycle_start
            &&& after.cycle_end == t.cycle_end
            &&& after.time_sig_numerator == t.time_sig_numerator
            &&& after.time_sig_denominator == t.time_sig_denominator
            &&& after.samples_to_next_beat == t.samples_to_next_beat
            &&& after.playing == t.playing
            &&& after.recording == t.recording
            &&& after.cycling == t.cycling
        }),
{
}

/// A query that follows a snapshot answers with that snapshot, whatever the
/// transport was before.
pub proof fn a_snapshot_replaces_the_one_before(
    a: TransportState,
    b: TransportState,
    info: TransportInfo,
)
    ensures
        ({
            let r = a.published(info, true).reading(true);
            &&& r == b.published(info, true).reading(true)
            &&& r.is_playing == info.playing
            &&& r.is_cycling == info.cycle_active
            &&& r.cycle_start == info.loop_start
            &&& r.cycle_end == info.loop_end
            &&& r.state_changed == Some(true)
        }),
{
}

/// Before anything is published the transport is stopped at the first beat, in
/// four quarters, at 120 beats per minute: 1.875 times 64.
pub proof fn an_unpublished_transport_is_stopped()
    ensures
        stopped().tempo.0.bits == 0x405E_0000_0000_0000,
        stopped().beat.0.bits == 0,
        stopped().measure_downbeat.0.bits == 0,
        stopped().cycle_start.0.bits == 0,
        stopped().cycle_end.0.bits == 0,
        stopped().sample_time == 0,
        stopped().time_sig_numerator == 4,
        stopped().time_sig_denominator == 4,
        stopped().samples_to_next_beat == 0,
        !stopped().playing,
        !stopped().recording,
        !stopped().cycling,
        !stopped().state_changed,
{
}

} // verus!
