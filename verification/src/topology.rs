//! The speakers behind a layout tag.
//!
//! A tag names an order of speakers, and only a tag does: five channels are one
//! order under one tag and another under the next, so nothing here goes by the
//! number of channels. Tags that name a processing relationship rather than
//! speakers have no order at all.
use vstd::prelude::*;
use crate::bus::ChannelLayout;
use crate::channel_layout::AuLayoutTag;

verus! {

/// A loudspeaker position.
#[derive(Clone, Copy, Debug, PartialEq, Eq, Structural)]
pub enum Speaker {
    FrontLeft,
    FrontRight,
    FrontCenter,
    LowFrequency,
    SideLeft,
    SideRight,
    BackLeft,
    BackRight,
    BackCenter,
}

/// Which speaker each channel of a bus feeds.
#[derive(Clone, Debug, PartialEq, Eq)]
pub struct ChannelTopology {
    positions: Vec<Speaker>,
}

impl ChannelTopology {
    /// The speakers in channel order.
    pub closed spec fn view(&self) -> Seq<Speaker> {
        self.positions@
    }

    /// A topology of the given speakers.
    pub fn new(positions: Vec<Speaker>) -> (t: ChannelTopology)
        ensures
            t.view() == positions@,
    {
        ChannelTopology { positions }
    }

    /// The speakers in channel order.
    pub fn positions(&self) -> (p: &[Speaker])
        ensures
            p@ == self.view(),
    {
        self.positions.as_slice()
    }

    /// How many channels there are.
    pub fn layout(&self) -> (l: ChannelLayout)
        requires
            self.view().len() <= u16::MAX,
        ensures
            l.width() == self.view().len(),
    {
        ChannelLayout::new(self.positions.len() as u16)
    }

    /// The first channel that feeds a speaker.
    pub fn index_of(&self, speaker: Speaker) -> (i: Option<usize>)
        ensures
            i matches Some(n) ==> n < self.view().len() && self.view()[n as int] == speaker
                && forall|j: int| 0 <= j < n ==> #[trigger] self.view()[j] != speaker,
            i is None ==> !self.view().contains(speaker),
    {
        for n in 0..self.positions.len()
            invariant
                forall|j: int| 0 <= j < n ==> #[trigger] self.view()[j] != speaker,
        {
            if self.positions[n] == speaker {
                return Some(n);
            }
        }
        None
    }

    /// Whether two topologies have the same speakers in the same order.
    pub fn same_order(&self, other: &ChannelTopology) -> (same: bool)
        ensures
            same == (self.view() == other.view()),
    {
        if self.positions.len() != other.positions.len() {
            return false;
        }
        for i in 0..self.positions.len()
            invariant
                self.view().len() == other.view().len(),
                forall|j: int| 0 <= j < i ==> #[trigger] self.view()[j] == other.view()[j],
        {
            if self.positions[i] != other.positions[i] {
                assert(self.view()[i as int] != other.view()[i as int]);
                return false;
            }
        }
        assert(self.view() =~= other.view());
        true
    }
}

/// The order of speakers that a tag names, or `None` where it names none.
///
/// The octagon and the cube have speakers that this vocabulary does not name; a
/// partly named order would hide the channels it gets wrong.
pub open spec fn order_of(tag: AuLayoutTag) -> Option<Seq<Speaker>> {
    match tag {
        AuLayoutTag::Mono => Some(
            seq![
                Speaker::FrontCenter,
            ],
        ),
        AuLayoutTag::Stereo => Some(
            seq![
                Speaker::FrontLeft,
                Speaker::FrontRight,
            ],
        ),
        AuLayoutTag::Quadraphonic => Some(
            seq![
                Speaker::FrontLeft,
                Speaker::FrontRight,
                Speaker::SideLeft,
                Speaker::SideRight,
            ],
        ),
        AuLayoutTag::Pentagonal => Some(
            seq![
                Speaker::FrontLeft,
                Speaker::FrontRight,
                Speaker::SideLeft,
                Speaker::SideRight,
                Speaker::FrontCenter,
            ],
        ),
        AuLayoutTag::Hexagonal => Some(
            seq![
                Speaker::FrontLeft,
                Speaker::FrontRight,
                Speaker::SideLeft,
                Speaker::SideRight,
                Speaker::FrontCenter,
                Speaker::BackCenter,
            ],
        ),
        AuLayoutTag::AudioUnit5_0 => Some(
            seq![
                Speaker::FrontLeft,
                Speaker::FrontRight,
                Speaker::SideLeft,
                Speaker::SideRight,
                Speaker::FrontCenter,
            ],
        ),
        AuLayoutTag::AudioUnit5_1 => Some(
            seq![
                Speaker::FrontLeft,
                Speaker::FrontRight,
                Speaker::FrontCenter,
                Speaker::LowFrequency,
                Speaker::SideLeft,
                Speaker::SideRight,
            ],
        ),
        AuLayoutTag::AudioUnit6_0 => Some(
            seq![
                Speaker::FrontLeft,
                Speaker::FrontRight,
                Speaker::SideLeft,
                Speaker::SideRight,
                Speaker::FrontCenter,
                Speaker::BackCenter,
            ],
        ),
        AuLayoutTag::AudioUnit7_0 => Some(
            seq![
                Speaker::FrontLeft,
                Speaker::FrontRight,
                Speaker::SideLeft,
                Speaker::SideRight,
                Speaker::FrontCenter,
                Speaker::BackLeft,
                Speaker::BackRight,
            ],
        ),
        AuLayoutTag::AudioUnit7_1 => Some(
            seq![
                Speaker::FrontLeft,
                Speaker::FrontRight,
                Speaker::FrontCenter,
                Speaker::LowFrequency,
                Speaker::SideLeft,
                Speaker::SideRight,
                Speaker::BackLeft,
                Speaker::BackRight,
            ],
        ),
        _ => None,
    }
}

/// The order of speakers that a tag names, or `None` where it names none.
pub fn topology_of(tag: AuLayoutTag) -> (t: Option<ChannelTopology>)
    ensures
        t is Some == order_of(tag) is Some,
        t matches Some(topology) ==> topology.view() == order_of(tag)->0,
{
    let positions = match tag {
        AuLayoutTag::Mono => vec![
            Speaker::FrontCenter,
        ],
        AuLayoutTag::Stereo => vec![
            Speaker::FrontLeft,
            Speaker::FrontRight,
        ],
        AuLayoutTag::Quadraphonic => vec![
            Speaker::FrontLeft,
            Speaker::FrontRight,
            Speaker::SideLeft,
            Speaker::SideRight,
        ],
        AuLayoutTag::Pentagonal => vec![
            Speaker::FrontLeft,
            Speaker::FrontRight,
            Speaker::SideLeft,
            Speaker::SideRight,
            Speaker::FrontCenter,
        ],
        AuLayoutTag::Hexagonal => vec![
            Speaker::FrontLeft,
            Speaker::FrontRight,
            Speaker::SideLeft,
            Speaker::SideRight,
            Speaker::FrontCenter,
            Speaker::BackCenter,
        ],
        AuLayoutTag::AudioUnit5_0 => vec![
            Speaker::FrontLeft,
            Speaker::FrontRight,
            Speaker::SideLeft,
            Speaker::SideRight,
            Speaker::FrontCenter,
        ],
        AuLayoutTag::AudioUnit5_1 => vec![
            Speaker::FrontLeft,
            Speaker::FrontRight,
            Speaker::FrontCenter,
            Speaker::LowFrequency,
            Speaker::SideLeft,
            Speaker::SideRight,
        ],
        AuLayoutTag::AudioUnit6_0 => vec![
            Speaker::FrontLeft,
            Speaker::FrontRight,
            Speaker::SideLeft,
            Speaker::SideRight,
            Speaker::FrontCenter,
            Speaker::BackCenter,
        ],
        AuLayoutTag::AudioUnit7_0 => vec![
            Speaker::FrontLeft,
            Speaker::FrontRight,
            Speaker::SideLeft,
            Speaker::SideRight,
            Speaker::FrontCenter,
            Speaker::BackLeft,
            Speaker::BackRight,
        ],
        AuLayoutTag::AudioUnit7_1 => vec![
            Speaker::FrontLeft,
            Speaker::FrontRight,
            Speaker::FrontCenter,
            Speaker::LowFrequency,
            Speaker::SideLeft,
            Speaker::SideRight,
            Speaker::BackLeft,
            Speaker::BackRight,
        ],
        _ => {
            return None;
        },
    };
    assert(positions@ =~= order_of(tag)->0);
    Some(ChannelTopology::new(positions))
}

/// The tags that [`tag_for`] goes through, in order of preference. Where two tags
/// name one order, the one documented for Audio Units comes first.
pub open spec fn preference() -> Seq<AuLayoutTag> {
    seq![
        AuLayoutTag::Mono,
        AuLayoutTag::Stereo,
        AuLayoutTag::Quadraphonic,
        AuLayoutTag::AudioUnit5_0,
        AuLayoutTag::AudioUnit5_1,
        AuLayoutTag::AudioUnit6_0,
        AuLayoutTag::AudioUnit7_0,
        AuLayoutTag::AudioUnit7_1,
        AuLayoutTag::Pentagonal,
        AuLayoutTag::Hexagonal,
    ]
}

/// The tags that [`tag_for`] goes through, in order of preference.
pub fn search_order() -> (tags: Vec<AuLayoutTag>)
    ensures
        tags@ == preference(),
{
    let tags = vec![
        AuLayoutTag::Mono,
        AuLayoutTag::Stereo,
        AuLayoutTag::Quadraphonic,
        AuLayoutTag::AudioUnit5_0,
        AuLayoutTag::AudioUnit5_1,
        AuLayoutTag::AudioUnit6_0,
        AuLayoutTag::AudioUnit7_0,
        AuLayoutTag::AudioUnit7_1,
        AuLayoutTag::Pentagonal,
        AuLayoutTag::Hexagonal,
    ];
    assert(tags@ =~= preference());
    tags
}

/// The first tag of `tags` that names an order.
pub open spec fn first_naming(tags: Seq<AuLayoutTag>, order: Seq<Speaker>) -> Option<AuLayoutTag>
    decreases tags.len(),
{
    if tags.len() == 0 {
        None
    } else if order_of(tags[0]) == Some(order) {
        Some(tags[0])
    } else {
        first_naming(tags.skip(1), order)
    }
}

/// The tag whose order is exactly that of a topology, or `None` where no tag
/// names it. A nearest tag would be another order.
pub fn tag_for(topology: &ChannelTopology) -> (t: Option<AuLayoutTag>)
    ensures
        t == first_naming(preference(), topology.view()),
{
    let tags = search_order();
    assert(tags@.skip(0) =~= tags@);
    for i in 0..tags.len()
        invariant
            tags@ == preference(),
            first_naming(preference(), topology.view()) == first_naming(
                tags@.skip(i as int),
                topology.view(),
            ),
    {
        let ghost rest = tags@.skip(i as int);
        assert(rest[0] == tags@[i as int]);
        assert(rest.skip(1) =~= tags@.skip(i + 1));
        if let Some(candidate) = topology_of(tags[i]) {
            if candidate.same_order(topology) {
                return Some(tags[i]);
            }
        }
    }
    None
}

/// What the search finds has the order that was looked for; where it finds
/// nothing, no tag in the list has it.
proof fn search_is_sound(tags: Seq<AuLayoutTag>, order: Seq<Speaker>)
    ensures
        first_naming(tags, order) matches Some(t) ==> order_of(t) == Some(order) && tags.contains(t),
        first_naming(tags, order) is None ==> forall|i: int|
            0 <= i < tags.len() ==> order_of(#[trigger] tags[i]) != Some(order),
    decreases tags.len(),
{
    if tags.len() > 0 {
        search_is_sound(tags.skip(1), order);
        assert(tags.contains(tags[0]));
        assert forall|i: int|
            0 <= i < tags.len() && first_naming(tags, order) is None implies order_of(
            #[trigger] tags[i],
        ) != Some(order) by {
            if i > 0 {
                assert(tags.skip(1)[i - 1] == tags[i]);
            }
        }
        if first_naming(tags.skip(1), order) is Some {
            let t = first_naming(tags.skip(1), order)->0;
            let k = choose|k: int| 0 <= k < tags.skip(1).len() && tags.skip(1)[k] == t;
            assert(tags[k + 1] == t);
        }
    }
}

/// The order survives: the tag found for the order that a tag names has that
/// order. It need not be the same tag, since two tags may name one order.
pub proof fn an_order_round_trips(tag: AuLayoutTag)
    requires
        order_of(tag) is Some,
    ensures
        first_naming(preference(), order_of(tag)->0) matches Some(t) && order_of(t) == order_of(
            tag,
        ),
{
    search_is_sound(preference(), order_of(tag)->0);
    preference_is_complete(tag);
}

/// Every tag that names an order is searched.
proof fn preference_is_complete(tag: AuLayoutTag)
    requires
        order_of(tag) is Some,
    ensures
        exists|i: int| 0 <= i < preference().len() && #[trigger] preference()[i] == tag,
{
    let p = preference();
    assert(p[0] == AuLayoutTag::Mono && p[1] == AuLayoutTag::Stereo && p[2]
        == AuLayoutTag::Quadraphonic && p[3] == AuLayoutTag::AudioUnit5_0 && p[4]
        == AuLayoutTag::AudioUnit5_1 && p[5] == AuLayoutTag::AudioUnit6_0 && p[6]
        == AuLayoutTag::AudioUnit7_0 && p[7] == AuLayoutTag::AudioUnit7_1 && p[8]
        == AuLayoutTag::Pentagonal && p[9] == AuLayoutTag::Hexagonal);
}

/// An order for which no tag is found is named by no tag at all.
pub proof fn an_order_without_a_tag_has_none(order: Seq<Speaker>, tag: AuLayoutTag)
    requires
        first_naming(preference(), order) is None,
    ensures
        order_of(tag) != Some(order),
{
    search_is_sound(preference(), order);
    if order_of(tag) is Some {
        preference_is_complete(tag);
    }
}

/// An order has as many speakers as its tag states channels.
pub proof fn an_order_is_as_wide_as_its_tag(tag: AuLayoutTag)
    requires
        order_of(tag) is Some,
    ensures
        tag.width() == Some(order_of(tag)->0.len() as u16),
        order_of(tag)->0.len() <= 8,
{
}

/// No order names a speaker twice.
pub proof fn an_order_names_a_speaker_once(tag: AuLayoutTag, i: int, j: int)
    requires
        order_of(tag) is Some,
        0 <= i < j < order_of(tag)->0.len(),
    ensures
        order_of(tag)->0[i] != order_of(tag)->0[j],
{
}

/// No tag is searched twice.
pub proof fn the_search_order_repeats_nothing(i: int, j: int)
    requires
        0 <= i < j < preference().len(),
    ensures
        preference()[i] != preference()[j],
{
}

/// Which channel feeds which speaker. All orders but mono begin with the front
/// pair. Where there is a low-frequency channel, the centre comes third, that
/// channel fourth and the surround pair behind it; otherwise the surround pair
/// comes first and the centre behind it. Whatever else there is comes last: the
/// back centre, or the back pair.
pub proof fn each_channel_feeds_its_speaker(tag: AuLayoutTag)
    requires
        order_of(tag) is Some,
    ensures
        ({
            let o = order_of(tag)->0;
            let n = o.len();
            let low = tag is AudioUnit5_1 || tag is AudioUnit7_1;
            &&& n == 1 ==> o[0] == Speaker::FrontCenter
            &&& n >= 2 ==> o[0] == Speaker::FrontLeft && o[1] == Speaker::FrontRight
            &&& n >= 4 && low ==> o[2] == Speaker::FrontCenter && o[3] == Speaker::LowFrequency
                && o[4] == Speaker::SideLeft && o[5] == Speaker::SideRight
            &&& n >= 4 && !low ==> o[2] == Speaker::SideLeft && o[3] == Speaker::SideRight
            &&& n >= 5 && !low ==> o[4] == Speaker::FrontCenter
            &&& n == 6 && !low ==> o[5] == Speaker::BackCenter
            &&& n == 7 ==> o[5] == Speaker::BackLeft && o[6] == Speaker::BackRight
            &&& n == 8 ==> o[6] == Speaker::BackLeft && o[7] == Speaker::BackRight
            &&& o.contains(Speaker::LowFrequency) <==> low
        }),
{
    let o = order_of(tag)->0;
    if tag is AudioUnit5_1 || tag is AudioUnit7_1 {
        assert(o[3] == Speaker::LowFrequency);
    }
}

/// How many speakers a tag's order has, and which tags have one at all: those that
/// name a placement for which there are names.
pub proof fn a_placement_has_an_order(tag: AuLayoutTag)
    ensures
        order_of(tag) is Some <==> tag is Mono || tag is Stereo || tag is Quadraphonic || tag
            is Pentagonal || tag is Hexagonal || tag is AudioUnit5_0 || tag is AudioUnit5_1 || tag
            is AudioUnit6_0 || tag is AudioUnit7_0 || tag is AudioUnit7_1,
        tag is Mono ==> order_of(tag)->0.len() == 1,
        tag is Stereo ==> order_of(tag)->0.len() == 2,
        tag is Quadraphonic ==> order_of(tag)->0.len() == 4,
        tag is Pentagonal || tag is AudioUnit5_0 ==> order_of(tag)->0.len() == 5,
        tag is Hexagonal || tag is AudioUnit5_1 || tag is AudioUnit6_0 ==> order_of(tag)->0.len()
            == 6,
        tag is AudioUnit7_0 ==> order_of(tag)->0.len() == 7,
        tag is AudioUnit7_1 ==> order_of(tag)->0.len() == 8,
{
}

/// Every order is found under its own tag, but for the two that an Audio Unit tag
/// names as well: there that tag is preferred.
pub proof fn an_order_is_found_under_its_preferred_tag(tag: AuLayoutTag)
    requires
        order_of(tag) is Some,
    ensures
        ({
            let found = first_naming(preference(), order_of(tag)->0);
            &&& tag is Pentagonal ==> found == Some(AuLayoutTag::AudioUnit5_0)
            &&& tag is Hexagonal ==> found == Some(AuLayoutTag::AudioUnit6_0)
            &&& !(tag is Pentagonal) && !(tag is Hexagonal) ==> found == Some(tag)
        }),
{
    an_order_round_trips(tag);
    let found = first_naming(preference(), order_of(tag)->0)->0;
    each_channel_feeds_its_speaker(found);
    each_channel_feeds_its_speaker(tag);
    let p = preference();
    let order = order_of(tag)->0;
    assert(p.skip(1).skip(1) =~= p.skip(2));
    assert(p.skip(2).skip(1) =~= p.skip(3));
    assert(p.skip(3).skip(1) =~= p.skip(4));
    assert(p.skip(4).skip(1) =~= p.skip(5));
    assert(p.skip(5).skip(1) =~= p.skip(6));
    assert(p.skip(6).skip(1) =~= p.skip(7));
    assert(p.skip(7).skip(1) =~= p.skip(8));
    reveal_with_fuel(first_naming, 9);
}

} // verus!
