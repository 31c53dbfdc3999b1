use tutti_au_host::float::Float64;
use tutti_au_host::transport::{query_status, Beat, Bpm, TransportInfo, TransportState};

fn double(v: f64) -> Float64 {
    Float64 { bits: v.to_bits() }
}

fn info() -> TransportInfo {
    TransportInfo {
        tempo: Bpm(double(93.5)),
        beats_per_bar: 7,
        note_value: 8,
        position: Beat(double(17.25)),
        samples: Some(-441),
        bar_start: Beat(double(14.0)),
        loop_start: Beat(double(8.0)),
        loop_end: Beat(double(24.0)),
        playing: true,
        recording: true,
        cycle_active: true,
    }
}

#[test]
fn a_fresh_transport_is_stopped_at_the_musical_defaults() {
    let t = TransportState::new();
    assert_eq!(t, TransportState::default());
    assert_eq!(t.tempo(), Bpm(double(120.0)));
    assert_eq!(t.beat(), Beat(double(0.0)));
    assert!(!t.is_playing() && !t.is_recording() && !t.is_cycling());
    assert!(!t.state_changed_pending());
    let m = t.musical_time_location();
    assert_eq!((m.time_sig_numerator, m.time_sig_denominator), (4, 4));
}

#[test]
fn a_snapshot_is_published_whole() {
    let mut t = TransportState::new();
    t.set_samples_to_next_beat(99);
    t.set_transport(&info(), false);
    assert_eq!(
        t.beat_and_tempo(),
        (Beat(double(17.25)), Bpm(double(93.5)))
    );
    let m = t.musical_time_location();
    assert_eq!(m.delta_to_next_beat, 99);
    assert_eq!((m.time_sig_numerator, m.time_sig_denominator), (7, 8));
    assert_eq!(m.measure_downbeat, Beat(double(14.0)));
    let (recording, r) = t.transport_state2(false);
    assert!(recording && r.is_playing && r.is_cycling);
    assert_eq!(r.sample_in_timeline, -441);
    assert_eq!(r.cycle_start, Beat(double(8.0)));
    assert_eq!(r.cycle_end, Beat(double(24.0)));
    assert_eq!(r.state_changed, None);
    t.set_transport(
        &TransportInfo {
            samples: None,
            ..info()
        },
        false,
    );
    assert_eq!(t.transport_state(false).sample_in_timeline, 0);
}

#[test]
fn a_locate_is_reported_once() {
    let mut t = TransportState::new();
    t.set_transport(&info(), true);
    t.set_transport(&info(), false);
    assert!(t.state_changed_pending());
    assert_eq!(t.transport_state(false).state_changed, None);
    assert!(
        t.state_changed_pending(),
        "a query that does not ask leaves it"
    );
    assert_eq!(t.transport_state(true).state_changed, Some(true));
    assert_eq!(t.transport_state2(true).1.state_changed, Some(false));
    t.set_transport(&info(), true);
    assert!(t.take_state_changed());
    assert!(!t.take_state_changed());
}

#[test]
fn both_queries_agree_on_what_they_share() {
    let mut a = TransportState::new();
    a.set_transport(&info(), true);
    let mut b = a;
    assert_eq!(a.transport_state(true), b.transport_state2(true).1);
    assert_eq!(a, b);
}

#[test]
fn a_query_without_a_transport_cannot_be_answered() {
    assert_eq!(query_status(true), 0);
    assert_eq!(query_status(false), -10863);
}
