use tutti_au_host::channel_layout::AuLayoutTag;
use tutti_au_host::topology::{search_order, tag_for, topology_of, ChannelTopology, Speaker};

fn surround_5_1() -> Vec<Speaker> {
    vec![
        Speaker::FrontLeft,
        Speaker::FrontRight,
        Speaker::FrontCenter,
        Speaker::LowFrequency,
        Speaker::SideLeft,
        Speaker::SideRight,
    ]
}

#[test]
fn every_topology_matches_the_tags_own_channel_count() {
    for tag in search_order() {
        let topology = topology_of(tag).expect("every searched tag has a topology");
        assert_eq!(
            Some(topology.layout().count()),
            tag.channel_count(),
            "{tag:?} topology width disagrees with the count in its tag"
        );
    }
}

#[test]
fn every_topology_round_trips_to_an_equivalent_tag() {
    for tag in search_order() {
        let topology = topology_of(tag).expect("searched tags have topologies");
        let back = tag_for(&topology).expect("a table entry must be findable");
        assert_eq!(
            topology_of(back),
            Some(topology),
            "{tag:?} round-tripped to {back:?}, which is a different order"
        );
    }
}

#[test]
fn the_audiounit_surround_tags_match_the_engines_smpte_order() {
    assert_eq!(
        topology_of(AuLayoutTag::AudioUnit5_1),
        Some(ChannelTopology::new(surround_5_1())),
        "AudioUnit_5_1 is L R C LFE Ls Rs, the engine's own 5.1 order"
    );
    let mut surround_7_1 = surround_5_1();
    surround_7_1.push(Speaker::BackLeft);
    surround_7_1.push(Speaker::BackRight);
    assert_eq!(
        topology_of(AuLayoutTag::AudioUnit7_1),
        Some(ChannelTopology::new(surround_7_1)),
        "AudioUnit_7_1 is L R C LFE Ls Rs Rls Rrs, the engine's own 7.1 order"
    );
}

#[test]
fn the_50_and_51_tags_disagree_about_what_each_index_means() {
    let five_oh = topology_of(AuLayoutTag::AudioUnit5_0).expect("5.0 has an order");
    let five_one = topology_of(AuLayoutTag::AudioUnit5_1).expect("5.1 has an order");

    assert_eq!(five_oh.positions()[2], Speaker::SideLeft);
    assert_eq!(five_one.positions()[2], Speaker::FrontCenter);
    assert_eq!(five_oh.index_of(Speaker::FrontCenter), Some(4));
    assert_eq!(five_one.index_of(Speaker::FrontCenter), Some(2));
    assert_eq!(five_oh.index_of(Speaker::LowFrequency), None);
}

#[test]
fn hexagonal_and_audiounit_60_share_an_order() {
    assert_eq!(
        topology_of(AuLayoutTag::Hexagonal),
        topology_of(AuLayoutTag::AudioUnit6_0)
    );
}

#[test]
fn a_tag_that_names_no_placement_declines() {
    for tag in [
        AuLayoutTag::StereoHeadphones,
        AuLayoutTag::MatrixStereo,
        AuLayoutTag::MidSide,
        AuLayoutTag::XY,
        AuLayoutTag::Binaural,
        AuLayoutTag::AmbisonicBFormat,
        AuLayoutTag::UseChannelDescriptions,
        AuLayoutTag::UseChannelBitmap,
        AuLayoutTag::Unknown(0xDEAD_BEEF),
    ] {
        assert_eq!(
            topology_of(tag),
            None,
            "{tag:?} names no speaker placement and must not be given one"
        );
    }
}

#[test]
fn the_wide_and_cube_layouts_decline_for_want_of_speaker_names() {
    assert_eq!(topology_of(AuLayoutTag::Octagonal), None);
    assert_eq!(topology_of(AuLayoutTag::Cube), None);
    assert_eq!(AuLayoutTag::Octagonal.channel_count(), Some(8));
    assert_eq!(AuLayoutTag::Cube.channel_count(), Some(8));
}

#[test]
fn b_format_and_quadraphonic_are_both_four_channels_but_only_one_has_speakers() {
    assert_eq!(
        AuLayoutTag::AmbisonicBFormat.channel_count(),
        AuLayoutTag::Quadraphonic.channel_count()
    );
    assert_eq!(topology_of(AuLayoutTag::AmbisonicBFormat), None);
    assert!(topology_of(AuLayoutTag::Quadraphonic).is_some());
}

#[test]
fn an_order_no_tag_describes_is_refused() {
    let rear_quad = ChannelTopology::new(vec![
        Speaker::FrontLeft,
        Speaker::FrontRight,
        Speaker::BackLeft,
        Speaker::BackRight,
    ]);
    assert_eq!(tag_for(&rear_quad), None);
    assert_eq!(tag_for(&ChannelTopology::new(vec![])), None);
}

#[test]
fn the_audio_unit_spelling_is_preferred() {
    let pentagonal = topology_of(AuLayoutTag::Pentagonal).unwrap();
    assert_eq!(tag_for(&pentagonal), Some(AuLayoutTag::AudioUnit5_0));
    let hexagonal = topology_of(AuLayoutTag::Hexagonal).unwrap();
    assert_eq!(tag_for(&hexagonal), Some(AuLayoutTag::AudioUnit6_0));
}

#[test]
fn the_search_order_has_no_duplicates() {
    let order = search_order();
    for (i, a) in order.iter().enumerate() {
        for b in &order[i + 1..] {
            assert_ne!(a, b, "{a:?} appears twice in the search order");
        }
    }
}
