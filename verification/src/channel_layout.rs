//! The channel layouts of a bus: which tag it runs at, which it supports, and
//! what the bus is called.
use vstd::prelude::*;
use vstd::string::*;
use crate::bytes::{push_u32, read_u32, u32_at, u32_bytes};
use crate::error::{outcome, AuError, ErrorView};
use crate::ffi::check;
use crate::text::{hexadecimal, push_hexadecimal};
use crate::types::{
    K_AUDIO_CHANNEL_LAYOUT_TAG_AMBISONIC_B_FORMAT,
    K_AUDIO_CHANNEL_LAYOUT_TAG_AUDIO_UNIT_5_0,
    K_AUDIO_CHANNEL_LAYOUT_TAG_AUDIO_UNIT_5_1,
    K_AUDIO_CHANNEL_LAYOUT_TAG_AUDIO_UNIT_6_0,
    K_AUDIO_CHANNEL_LAYOUT_TAG_AUDIO_UNIT_7_0,
    K_AUDIO_CHANNEL_LAYOUT_TAG_AUDIO_UNIT_7_1,
    K_AUDIO_CHANNEL_LAYOUT_TAG_BINAURAL,
    K_AUDIO_CHANNEL_LAYOUT_TAG_CUBE,
    K_AUDIO_CHANNEL_LAYOUT_TAG_HEXAGONAL,
    K_AUDIO_CHANNEL_LAYOUT_TAG_MATRIX_STEREO,
    K_AUDIO_CHANNEL_LAYOUT_TAG_MID_SIDE,
    K_AUDIO_CHANNEL_LAYOUT_TAG_MONO,
    K_AUDIO_CHANNEL_LAYOUT_TAG_OCTAGONAL,
    K_AUDIO_CHANNEL_LAYOUT_TAG_PENTAGONAL,
    K_AUDIO_CHANNEL_LAYOUT_TAG_QUADRAPHONIC,
    K_AUDIO_CHANNEL_LAYOUT_TAG_STEREO,
    K_AUDIO_CHANNEL_LAYOUT_TAG_STEREO_HEADPHONES,
    K_AUDIO_CHANNEL_LAYOUT_TAG_USE_CHANNEL_BITMAP,
    K_AUDIO_CHANNEL_LAYOUT_TAG_USE_CHANNEL_DESCRIPTIONS,
    K_AUDIO_CHANNEL_LAYOUT_TAG_XY,
    K_AUDIO_UNIT_ERR_INVALID_PROPERTY_VALUE,
    NO_ERR,
};

verus! {

/// A channel layout by its tag. The tag, not the number of channels, says which
/// speaker each channel feeds: several orders of the same speakers exist.
#[derive(Clone, Copy, Debug, PartialEq, Eq, Hash, Structural)]
#[non_exhaustive]
pub enum AuLayoutTag {
    /// The channels are described one by one elsewhere.
    UseChannelDescriptions,
    /// The channels are given by a bitmap elsewhere.
    UseChannelBitmap,
    /// One channel.
    Mono,
    /// Left and right.
    Stereo,
    /// Left and right for headphones.
    StereoHeadphones,
    /// A matrix-encoded pair.
    MatrixStereo,
    /// A mid and a side signal.
    MidSide,
    /// A coincident microphone pair.
    XY,
    /// A binaural pair.
    Binaural,
    /// First-order ambisonics, W X Y Z.
    AmbisonicBFormat,
    /// L R Ls Rs.
    Quadraphonic,
    /// L R Ls Rs C.
    Pentagonal,
    /// L R Ls Rs C Cs.
    Hexagonal,
    /// L R Ls Rs C Cs Lw Rw.
    Octagonal,
    /// Eight speakers at the corners of a cube.
    Cube,
    /// L R Ls Rs C.
    AudioUnit5_0,
    /// L R C LFE Ls Rs.
    AudioUnit5_1,
    /// L R Ls Rs C Cs.
    AudioUnit6_0,
    /// L R Ls Rs C Rls Rrs.
    AudioUnit7_0,
    /// L R C LFE Ls Rs Rls Rrs.
    AudioUnit7_1,
    /// Any other tag, kept as it is.
    Unknown(u32),
}

impl AuLayoutTag {
    /// The number of the tag.
    pub open spec fn raw(self) -> u32 {
        match self {
            AuLayoutTag::UseChannelDescriptions => K_AUDIO_CHANNEL_LAYOUT_TAG_USE_CHANNEL_DESCRIPTIONS,
            AuLayoutTag::UseChannelBitmap => K_AUDIO_CHANNEL_LAYOUT_TAG_USE_CHANNEL_BITMAP,
            AuLayoutTag::Mono => K_AUDIO_CHANNEL_LAYOUT_TAG_MONO,
            AuLayoutTag::Stereo => K_AUDIO_CHANNEL_LAYOUT_TAG_STEREO,
            AuLayoutTag::StereoHeadphones => K_AUDIO_CHANNEL_LAYOUT_TAG_STEREO_HEADPHONES,
            AuLayoutTag::MatrixStereo => K_AUDIO_CHANNEL_LAYOUT_TAG_MATRIX_STEREO,
            AuLayoutTag::MidSide => K_AUDIO_CHANNEL_LAYOUT_TAG_MID_SIDE,
            AuLayoutTag::XY => K_AUDIO_CHANNEL_LAYOUT_TAG_XY,
            AuLayoutTag::Binaural => K_AUDIO_CHANNEL_LAYOUT_TAG_BINAURAL,
            AuLayoutTag::AmbisonicBFormat => K_AUDIO_CHANNEL_LAYOUT_TAG_AMBISONIC_B_FORMAT,
            AuLayoutTag::Quadraphonic => K_AUDIO_CHANNEL_LAYOUT_TAG_QUADRAPHONIC,
            AuLayoutTag::Pentagonal => K_AUDIO_CHANNEL_LAYOUT_TAG_PENTAGONAL,
            AuLayoutTag::Hexagonal => K_AUDIO_CHANNEL_LAYOUT_TAG_HEXAGONAL,
            AuLayoutTag::Octagonal => K_AUDIO_CHANNEL_LAYOUT_TAG_OCTAGONAL,
            AuLayoutTag::Cube => K_AUDIO_CHANNEL_LAYOUT_TAG_CUBE,
            AuLayoutTag::AudioUnit5_0 => K_AUDIO_CHANNEL_LAYOUT_TAG_AUDIO_UNIT_5_0,
            AuLayoutTag::AudioUnit5_1 => K_AUDIO_CHANNEL_LAYOUT_TAG_AUDIO_UNIT_5_1,
            AuLayoutTag::AudioUnit6_0 => K_AUDIO_CHANNEL_LAYOUT_TAG_AUDIO_UNIT_6_0,
            AuLayoutTag::AudioUnit7_0 => K_AUDIO_CHANNEL_LAYOUT_TAG_AUDIO_UNIT_7_0,
            AuLayoutTag::AudioUnit7_1 => K_AUDIO_CHANNEL_LAYOUT_TAG_AUDIO_UNIT_7_1,
            AuLayoutTag::Unknown(raw) => raw,
        }
    }

    /// Whether a number is none of the named tags'.
    pub open spec fn is_unnamed(raw: u32) -> bool {
        &&& raw != K_AUDIO_CHANNEL_LAYOUT_TAG_USE_CHANNEL_DESCRIPTIONS
        &&& raw != K_AUDIO_CHANNEL_LAYOUT_TAG_USE_CHANNEL_BITMAP
        &&& raw != K_AUDIO_CHANNEL_LAYOUT_TAG_MONO
        &&& raw != K_AUDIO_CHANNEL_LAYOUT_TAG_STEREO
        &&& raw != K_AUDIO_CHANNEL_LAYOUT_TAG_STEREO_HEADPHONES
        &&& raw != K_AUDIO_CHANNEL_LAYOUT_TAG_MATRIX_STEREO
        &&& raw != K_AUDIO_CHANNEL_LAYOUT_TAG_MID_SIDE
        &&& raw != K_AUDIO_CHANNEL_LAYOUT_TAG_XY
        &&& raw != K_AUDIO_CHANNEL_LAYOUT_TAG_BINAURAL
        &&& raw != K_AUDIO_CHANNEL_LAYOUT_TAG_AMBISONIC_B_FORMAT
        &&& raw != K_AUDIO_CHANNEL_LAYOUT_TAG_QUADRAPHONIC
        &&& raw != K_AUDIO_CHANNEL_LAYOUT_TAG_PENTAGONAL
        &&& raw != K_AUDIO_CHANNEL_LAYOUT_TAG_HEXAGONAL
        &&& raw != K_AUDIO_CHANNEL_LAYOUT_TAG_OCTAGONAL
        &&& raw != K_AUDIO_CHANNEL_LAYOUT_TAG_CUBE
        &&& raw != K_AUDIO_CHANNEL_LAYOUT_TAG_AUDIO_UNIT_5_0
        &&& raw != K_AUDIO_CHANNEL_LAYOUT_TAG_AUDIO_UNIT_5_1
        &&& raw != K_AUDIO_CHANNEL_LAYOUT_TAG_AUDIO_UNIT_6_0
        &&& raw != K_AUDIO_CHANNEL_LAYOUT_TAG_AUDIO_UNIT_7_0
        &&& raw != K_AUDIO_CHANNEL_LAYOUT_TAG_AUDIO_UNIT_7_1
    }

    /// Whether the tag is what its number decodes to.
    pub open spec fn is_canonical(self) -> bool {
        self matches AuLayoutTag::Unknown(raw) ==> AuLayoutTag::is_unnamed(raw)
    }

    /// The number of channels that the tag states, in the low half of its number;
    /// the two tags that point elsewhere state none.
    pub open spec fn width(self) -> Option<u16> {
        match self {
            AuLayoutTag::UseChannelDescriptions => None,
            AuLayoutTag::UseChannelBitmap => None,
            _ => Some((self.raw() % 0x1_0000) as u16),
        }
    }

    /// How the tag is written.
    pub open spec fn name(self) -> Seq<char> {
        match self {
            AuLayoutTag::UseChannelDescriptions => "UseChannelDescriptions"@,
            AuLayoutTag::UseChannelBitmap => "UseChannelBitmap"@,
            AuLayoutTag::Mono => "Mono"@,
            AuLayoutTag::Stereo => "Stereo"@,
            AuLayoutTag::StereoHeadphones => "StereoHeadphones"@,
            AuLayoutTag::MatrixStereo => "MatrixStereo"@,
            AuLayoutTag::MidSide => "MidSide"@,
            AuLayoutTag::XY => "XY"@,
            AuLayoutTag::Binaural => "Binaural"@,
            AuLayoutTag::AmbisonicBFormat => "AmbisonicBFormat"@,
            AuLayoutTag::Quadraphonic => "Quadraphonic"@,
            AuLayoutTag::Pentagonal => "Pentagonal"@,
            AuLayoutTag::Hexagonal => "Hexagonal"@,
            AuLayoutTag::Octagonal => "Octagonal"@,
            AuLayoutTag::Cube => "Cube"@,
            AuLayoutTag::AudioUnit5_0 => "AudioUnit_5_0"@,
            AuLayoutTag::AudioUnit5_1 => "AudioUnit_5_1"@,
            AuLayoutTag::AudioUnit6_0 => "AudioUnit_6_0"@,
            AuLayoutTag::AudioUnit7_0 => "AudioUnit_7_0"@,
            AuLayoutTag::AudioUnit7_1 => "AudioUnit_7_1"@,
            AuLayoutTag::Unknown(raw) => "Unknown("@ + hexadecimal(raw as nat) + ")"@,
        }
    }

    /// The tag of a number. Every number has one, and a named tag is never
    /// unknown.
    pub fn from_raw(raw: u32) -> (t: AuLayoutTag)
        ensures
            t.raw() == raw,
            t.is_canonical(),
    {
        match raw {
            K_AUDIO_CHANNEL_LAYOUT_TAG_USE_CHANNEL_DESCRIPTIONS => AuLayoutTag::UseChannelDescriptions,
            K_AUDIO_CHANNEL_LAYOUT_TAG_USE_CHANNEL_BITMAP => AuLayoutTag::UseChannelBitmap,
            K_AUDIO_CHANNEL_LAYOUT_TAG_MONO => AuLayoutTag::Mono,
            K_AUDIO_CHANNEL_LAYOUT_TAG_STEREO => AuLayoutTag::Stereo,
            K_AUDIO_CHANNEL_LAYOUT_TAG_STEREO_HEADPHONES => AuLayoutTag::StereoHeadphones,
            K_AUDIO_CHANNEL_LAYOUT_TAG_MATRIX_STEREO => AuLayoutTag::MatrixStereo,
            K_AUDIO_CHANNEL_LAYOUT_TAG_MID_SIDE => AuLayoutTag::MidSide,
            K_AUDIO_CHANNEL_LAYOUT_TAG_XY => AuLayoutTag::XY,
            K_AUDIO_CHANNEL_LAYOUT_TAG_BINAURAL => AuLayoutTag::Binaural,
            K_AUDIO_CHANNEL_LAYOUT_TAG_AMBISONIC_B_FORMAT => AuLayoutTag::AmbisonicBFormat,
            K_AUDIO_CHANNEL_LAYOUT_TAG_QUADRAPHONIC => AuLayoutTag::Quadraphonic,
            K_AUDIO_CHANNEL_LAYOUT_TAG_PENTAGONAL => AuLayoutTag::Pentagonal,
            K_AUDIO_CHANNEL_LAYOUT_TAG_HEXAGONAL => AuLayoutTag::Hexagonal,
            K_AUDIO_CHANNEL_LAYOUT_TAG_OCTAGONAL => AuLayoutTag::Octagonal,
            K_AUDIO_CHANNEL_LAYOUT_TAG_CUBE => AuLayoutTag::Cube,
            K_AUDIO_CHANNEL_LAYOUT_TAG_AUDIO_UNIT_5_0 => AuLayoutTag::AudioUnit5_0,
            K_AUDIO_CHANNEL_LAYOUT_TAG_AUDIO_UNIT_5_1 => AuLayoutTag::AudioUnit5_1,
            K_AUDIO_CHANNEL_LAYOUT_TAG_AUDIO_UNIT_6_0 => AuLayoutTag::AudioUnit6_0,
            K_AUDIO_CHANNEL_LAYOUT_TAG_AUDIO_UNIT_7_0 => AuLayoutTag::AudioUnit7_0,
            K_AUDIO_CHANNEL_LAYOUT_TAG_AUDIO_UNIT_7_1 => AuLayoutTag::AudioUnit7_1,
            other => AuLayoutTag::Unknown(other),
        }
    }

    /// The number of the tag.
    pub fn to_raw(self) -> (raw: u32)
        ensures
            raw == self.raw(),
    {
        match self {
            AuLayoutTag::UseChannelDescriptions => K_AUDIO_CHANNEL_LAYOUT_TAG_USE_CHANNEL_DESCRIPTIONS,
            AuLayoutTag::UseChannelBitmap => K_AUDIO_CHANNEL_LAYOUT_TAG_USE_CHANNEL_BITMAP,
            AuLayoutTag::Mono => K_AUDIO_CHANNEL_LAYOUT_TAG_MONO,
            AuLayoutTag::Stereo => K_AUDIO_CHANNEL_LAYOUT_TAG_STEREO,
            AuLayoutTag::StereoHeadphones => K_AUDIO_CHANNEL_LAYOUT_TAG_STEREO_HEADPHONES,
            AuLayoutTag::MatrixStereo => K_AUDIO_CHANNEL_LAYOUT_TAG_MATRIX_STEREO,
            AuLayoutTag::MidSide => K_AUDIO_CHANNEL_LAYOUT_TAG_MID_SIDE,
            AuLayoutTag::XY => K_AUDIO_CHANNEL_LAYOUT_TAG_XY,
            AuLayoutTag::Binaural => K_AUDIO_CHANNEL_LAYOUT_TAG_BINAURAL,
            AuLayoutTag::AmbisonicBFormat => K_AUDIO_CHANNEL_LAYOUT_TAG_AMBISONIC_B_FORMAT,
            AuLayoutTag::Quadraphonic => K_AUDIO_CHANNEL_LAYOUT_TAG_QUADRAPHONIC,
            AuLayoutTag::Pentagonal => K_AUDIO_CHANNEL_LAYOUT_TAG_PENTAGONAL,
            AuLayoutTag::Hexagonal => K_AUDIO_CHANNEL_LAYOUT_TAG_HEXAGONAL,
            AuLayoutTag::Octagonal => K_AUDIO_CHANNEL_LAYOUT_TAG_OCTAGONAL,
            AuLayoutTag::Cube => K_AUDIO_CHANNEL_LAYOUT_TAG_CUBE,
            AuLayoutTag::AudioUnit5_0 => K_AUDIO_CHANNEL_LAYOUT_TAG_AUDIO_UNIT_5_0,
            AuLayoutTag::AudioUnit5_1 => K_AUDIO_CHANNEL_LAYOUT_TAG_AUDIO_UNIT_5_1,
            AuLayoutTag::AudioUnit6_0 => K_AUDIO_CHANNEL_LAYOUT_TAG_AUDIO_UNIT_6_0,
            AuLayoutTag::AudioUnit7_0 => K_AUDIO_CHANNEL_LAYOUT_TAG_AUDIO_UNIT_7_0,
            AuLayoutTag::AudioUnit7_1 => K_AUDIO_CHANNEL_LAYOUT_TAG_AUDIO_UNIT_7_1,
            AuLayoutTag::Unknown(raw) => raw,
        }
    }

    /// The number of channels that the tag states, or `None` where the number is
    /// to be found elsewhere.
    pub fn channel_count(self) -> (n: Option<u16>)
        ensures
            n == self.width(),
    {
        match self {
            AuLayoutTag::UseChannelDescriptions => None,
            AuLayoutTag::UseChannelBitmap => None,
            other => Some((other.to_raw() % 0x1_0000) as u16),
        }
    }

    /// The tag as text.
    pub fn to_string(&self) -> (t: String)
        ensures
            t@ == self.name(),
    {
        match *self {
            AuLayoutTag::UseChannelDescriptions => "UseChannelDescriptions".to_owned(),
            AuLayoutTag::UseChannelBitmap => "UseChannelBitmap".to_owned(),
            AuLayoutTag::Mono => "Mono".to_owned(),
            AuLayoutTag::Stereo => "Stereo".to_owned(),
            AuLayoutTag::StereoHeadphones => "StereoHeadphones".to_owned(),
            AuLayoutTag::MatrixStereo => "MatrixStereo".to_owned(),
            AuLayoutTag::MidSide => "MidSide".to_owned(),
            AuLayoutTag::XY => "XY".to_owned(),
            AuLayoutTag::Binaural => "Binaural".to_owned(),
            AuLayoutTag::AmbisonicBFormat => "AmbisonicBFormat".to_owned(),
            AuLayoutTag::Quadraphonic => "Quadraphonic".to_owned(),
            AuLayoutTag::Pentagonal => "Pentagonal".to_owned(),
            AuLayoutTag::Hexagonal => "Hexagonal".to_owned(),
            AuLayoutTag::Octagonal => "Octagonal".to_owned(),
            AuLayoutTag::Cube => "Cube".to_owned(),
            AuLayoutTag::AudioUnit5_0 => "AudioUnit_5_0".to_owned(),
            AuLayoutTag::AudioUnit5_1 => "AudioUnit_5_1".to_owned(),
            AuLayoutTag::AudioUnit6_0 => "AudioUnit_6_0".to_owned(),
            AuLayoutTag::AudioUnit7_0 => "AudioUnit_7_0".to_owned(),
            AuLayoutTag::AudioUnit7_1 => "AudioUnit_7_1".to_owned(),
            AuLayoutTag::Unknown(raw) => {
                let mut t = "Unknown(".to_owned();
                push_hexadecimal(&mut t, raw);
                t.append(")");
                t
            },
        }
    }
}

/// A tag survives its number: what a number decodes to is the only tag with it,
/// so an unknown tag can be handed back to a unit unchanged.
pub proof fn a_tag_is_its_number(a: AuLayoutTag, b: AuLayoutTag)
    requires
        a.is_canonical(),
        b.is_canonical(),
    ensures
        a.raw() == b.raw() <==> a == b,
{
}

/// Bytes of a layout that holds a tag and nothing else: the tag, a bitmap and a
/// count of descriptions.
pub const TAG_ONLY_LAYOUT_SIZE: usize = 12;

/// Bytes of a layout with its one declared description.
pub const CHANNEL_LAYOUT_SIZE: usize = 32;

/// Where the tag of a layout stands.
pub const LAYOUT_TAG_OFFSET: usize = 0;

/// Where the bitmap of a layout stands.
pub const LAYOUT_BITMAP_OFFSET: usize = 4;

/// Where the count of descriptions of a layout stands.
pub const LAYOUT_DESCRIPTIONS_OFFSET: usize = 8;

/// Decodes a list of tags: one for every whole number, in order. Trailing bytes
/// are dropped.
pub fn decode_layout_tags(bytes: &[u8]) -> (tags: Vec<AuLayoutTag>)
    ensures
        tags@.len() == bytes@.len() / 4,
        forall|i: int|
            0 <= i < tags@.len() ==> (#[trigger] tags@[i]).raw() == u32_at(bytes@, 4 * i)
                && tags@[i].is_canonical(),
{
    let n: usize = bytes.len() / 4;
    let mut tags: Vec<AuLayoutTag> = Vec::new();
    for i in 0..n
        invariant
            n == bytes@.len() / 4,
            bytes@.len() <= usize::MAX,
            tags@.len() == i,
            forall|j: int|
                0 <= j < i ==> (#[trigger] tags@[j]).raw() == u32_at(bytes@, 4 * j)
                    && tags@[j].is_canonical(),
    {
        let raw: u32 = read_u32(bytes, 4 * i);
        tags.push(AuLayoutTag::from_raw(raw));
    }
    tags
}

/// The tags that a bus supports, given the unit's answer. A unit that refuses to
/// say publishes none.
pub fn supported_layout_tags(answer: Option<Vec<u8>>) -> (tags: Vec<AuLayoutTag>)
    ensures
        answer is None ==> tags@.len() == 0,
        answer matches Some(bytes) ==> tags@.len() == bytes@.len() / 4 && forall|i: int|
            0 <= i < tags@.len() ==> (#[trigger] tags@[i]).raw() == u32_at(bytes@, 4 * i)
                && tags@[i].is_canonical(),
{
    match answer {
        None => Vec::new(),
        Some(bytes) => decode_layout_tags(bytes.as_slice()),
    }
}

/// The tag that a bus runs at, given what reading its layout came to. Units
/// answer with layouts of different lengths; one too short for a tag is an
/// invalid value.
pub fn layout_tag(read: Result<Vec<u8>, AuError>) -> (r: Result<AuLayoutTag, AuError>)
    ensures
        read matches Err(e) ==> r == Err::<AuLayoutTag, AuError>(e),
        read matches Ok(bytes) ==> bytes@.len() < 4 ==> outcome(r) == Err::<AuLayoutTag, ErrorView>(
            ErrorView::OsStatus {
                function: "channel_layout::layout_tag"@,
                code: K_AUDIO_UNIT_ERR_INVALID_PROPERTY_VALUE,
            },
        ),
        read matches Ok(bytes) ==> bytes@.len() >= 4 ==> (r matches Ok(tag) && tag.raw() == u32_at(
            bytes@,
            0,
        ) && tag.is_canonical()),
{
    match read {
        Err(e) => Err(e),
        Ok(bytes) => {
            if bytes.len() < 4 {
                return Err(
                    AuError::OsStatus {
                        function: "channel_layout::layout_tag",
                        code: K_AUDIO_UNIT_ERR_INVALID_PROPERTY_VALUE,
                    },
                );
            }
            Ok(AuLayoutTag::from_raw(read_u32(bytes.as_slice(), 0)))
        },
    }
}

/// The layout to write for a tag: the tag, no bitmap and no descriptions, and
/// not a byte that would claim one.
pub fn set_layout_tag(tag: AuLayoutTag) -> (bytes: Vec<u8>)
    ensures
        bytes@ == u32_bytes(tag.raw()) + u32_bytes(0) + u32_bytes(0),
        bytes@.len() == TAG_ONLY_LAYOUT_SIZE,
{
    let mut bytes: Vec<u8> = Vec::new();
    push_u32(&mut bytes, tag.to_raw());
    push_u32(&mut bytes, 0);
    push_u32(&mut bytes, 0);
    assert(bytes@ =~= u32_bytes(tag.raw()) + u32_bytes(0) + u32_bytes(0));
    bytes
}

/// What a unit's answer to asking for a bus's name comes to.
#[derive(Debug)]
pub enum NameAnswer {
    /// The call failed.
    Refused(i32),
    /// The call delivered nothing.
    Null,
    /// The call delivered something that is not a text.
    NotText,
    /// The name.
    Name(String),
}

/// The name of a bus, given the unit's answer. A bus without a name, a bus that
/// does not exist and an answer that is no name are errors, never an empty name.
pub fn element_name(answer: NameAnswer) -> (r: Result<String, AuError>)
    ensures
        answer matches NameAnswer::Name(name) ==> r == Ok::<String, AuError>(name),
        answer matches NameAnswer::Refused(status) ==> status != NO_ERR ==> outcome(r) == Err::<
            String,
            ErrorView,
        >(ErrorView::OsStatus { function: "AudioUnitGetProperty"@, code: status }),
        answer is Null || answer is NotText || answer == NameAnswer::Refused(NO_ERR) ==> outcome(r)
            == Err::<String, ErrorView>(
            ErrorView::OsStatus {
                function: "channel_layout::element_name"@,
                code: K_AUDIO_UNIT_ERR_INVALID_PROPERTY_VALUE,
            },
        ),
{
    match answer {
        NameAnswer::Name(name) => {
            return Ok(name);
        },
        NameAnswer::Refused(status) => {
            if let Err(e) = check("AudioUnitGetProperty", status) {
                return Err(e);
            }
        },
        _ => {},
    }
    Err(
        AuError::OsStatus {
            function: "channel_layout::element_name",
            code: K_AUDIO_UNIT_ERR_INVALID_PROPERTY_VALUE,
        },
    )
}

/// The tags by their numbers. The upper half numbers the layout and the lower
/// counts its channels, but for the two that describe the channels elsewhere.
pub proof fn a_tag_has_the_number_of_its_layout(t: AuLayoutTag)
    ensures
        t is UseChannelDescriptions ==> t.raw() == 0,
        t is UseChannelBitmap ==> t.raw() == 0x1_0000,
        t is Mono ==> t.raw() == 100 * 0x1_0000 + 1,
        t is Stereo ==> t.raw() == 101 * 0x1_0000 + 2,
        t is StereoHeadphones ==> t.raw() == 102 * 0x1_0000 + 2,
        t is MatrixStereo ==> t.raw() == 103 * 0x1_0000 + 2,
        t is MidSide ==> t.raw() == 104 * 0x1_0000 + 2,
        t is XY ==> t.raw() == 105 * 0x1_0000 + 2,
        t is Binaural ==> t.raw() == 106 * 0x1_0000 + 2,
        t is AmbisonicBFormat ==> t.raw() == 107 * 0x1_0000 + 4,
        t is Quadraphonic ==> t.raw() == 108 * 0x1_0000 + 4,
        t is Pentagonal ==> t.raw() == 109 * 0x1_0000 + 5,
        t is Hexagonal ==> t.raw() == 110 * 0x1_0000 + 6,
        t is Octagonal ==> t.raw() == 111 * 0x1_0000 + 8,
        t is Cube ==> t.raw() == 112 * 0x1_0000 + 8,
        t is AudioUnit5_0 ==> t.raw() == 118 * 0x1_0000 + 5,
        t is AudioUnit5_1 ==> t.raw() == 121 * 0x1_0000 + 6,
        t is AudioUnit6_0 ==> t.raw() == 139 * 0x1_0000 + 6,
        t is AudioUnit7_0 ==> t.raw() == 140 * 0x1_0000 + 7,
        t is AudioUnit7_1 ==> t.raw() == 128 * 0x1_0000 + 8,
        t matches AuLayoutTag::Unknown(raw) ==> t.raw() == raw,
{
}

/// A tag states the number of channels in the lower half of its number, unknown
/// tags too; only the two that describe the channels elsewhere state none.
pub proof fn a_tag_counts_its_channels(t: AuLayoutTag)
    ensures
        t is UseChannelDescriptions || t is UseChannelBitmap <==> t.width() is None,
        t.width() matches Some(n) ==> n == t.raw() % 0x1_0000,
{
}

/// A number is none of the named tags' exactly where no named tag has it.
pub proof fn an_unnamed_number_is_no_tags(raw: u32, t: AuLayoutTag)
    requires
        AuLayoutTag::is_unnamed(raw),
        !(t is Unknown),
    ensures
        t.raw() != raw,
{
}

/// A named tag is written by its name, and any other by its number.
pub proof fn a_tag_is_written_by_its_name(t: AuLayoutTag)
    ensures
        t is Mono ==> t.name() == "Mono"@,
        t is Stereo ==> t.name() == "Stereo"@,
        t is StereoHeadphones ==> t.name() == "StereoHeadphones"@,
        t is MatrixStereo ==> t.name() == "MatrixStereo"@,
        t is MidSide ==> t.name() == "MidSide"@,
        t is XY ==> t.name() == "XY"@,
        t is Binaural ==> t.name() == "Binaural"@,
        t is AmbisonicBFormat ==> t.name() == "AmbisonicBFormat"@,
        t is Quadraphonic ==> t.name() == "Quadraphonic"@,
        t is Pentagonal ==> t.name() == "Pentagonal"@,
        t is Hexagonal ==> t.name() == "Hexagonal"@,
        t is Octagonal ==> t.name() == "Octagonal"@,
        t is Cube ==> t.name() == "Cube"@,
        t is AudioUnit5_0 ==> t.name() == "AudioUnit_5_0"@,
        t is AudioUnit5_1 ==> t.name() == "AudioUnit_5_1"@,
        t is AudioUnit6_0 ==> t.name() == "AudioUnit_6_0"@,
        t is AudioUnit7_0 ==> t.name() == "AudioUnit_7_0"@,
        t is AudioUnit7_1 ==> t.name() == "AudioUnit_7_1"@,
        t is UseChannelDescriptions ==> t.name() == "UseChannelDescriptions"@,
        t is UseChannelBitmap ==> t.name() == "UseChannelBitmap"@,
        t matches AuLayoutTag::Unknown(raw) ==> t.name() == "Unknown("@ + hexadecimal(raw as nat)
            + ")"@,
{
}

} // verus!
