//! Buses of an Audio Unit: which side they are on, how wide they are, and which
//! channel configurations the unit declares.
use vstd::prelude::*;
use vstd::string::*;
use crate::bytes::{as_signed_16, read_i16, u16_of};
use crate::error::{outcome, AuError, ErrorView};
use crate::ffi::check;
use crate::text::{decimal, push_decimal};
use crate::types::{K_AUDIO_UNIT_SCOPE_INPUT, K_AUDIO_UNIT_SCOPE_OUTPUT, NO_ERR};

verus! {

/// Which side of a unit a bus sits on.
#[derive(Clone, Copy, Debug, PartialEq, Eq, Hash, Structural)]
pub enum BusDirection {
    /// Buses the unit reads from.
    Input,
    /// Buses the unit writes to.
    Output,
}

impl BusDirection {
    /// The scope that addresses the direction.
    pub open spec fn scope_of(self) -> u32 {
        match self {
            BusDirection::Input => K_AUDIO_UNIT_SCOPE_INPUT,
            BusDirection::Output => K_AUDIO_UNIT_SCOPE_OUTPUT,
        }
    }

    /// How the direction is written.
    pub open spec fn name_of(self) -> Seq<char> {
        match self {
            BusDirection::Input => "input"@,
            BusDirection::Output => "output"@,
        }
    }

    /// The scope that addresses the direction.
    pub fn scope(self) -> (s: u32)
        ensures
            s == self.scope_of(),
    {
        match self {
            BusDirection::Input => K_AUDIO_UNIT_SCOPE_INPUT,
            BusDirection::Output => K_AUDIO_UNIT_SCOPE_OUTPUT,
        }
    }

    /// Both directions.
    pub fn all() -> (both: [BusDirection; 2])
        ensures
            both@ == seq![BusDirection::Input, BusDirection::Output],
    {
        [BusDirection::Input, BusDirection::Output]
    }

    /// The direction as it is written.
    pub fn name(self) -> (t: &'static str)
        ensures
            t@ == self.name_of(),
    {
        match self {
            BusDirection::Input => "input",
            BusDirection::Output => "output",
        }
    }

    /// The direction as text.
    pub fn to_string(&self) -> (t: String)
        ensures
            t@ == self.name_of(),
    {
        self.name().to_owned()
    }
}

/// One side of a channel configuration.
///
/// The raw field is a signed number whose negative values are not counts:
/// reading `-16` as a width, or taking its magnitude for one, gives a
/// configuration that the unit never declared.
#[derive(Clone, Copy, Debug, PartialEq, Eq, Structural)]
pub enum AuChannelCount {
    /// `0`: no buses on this side.
    NoElements,
    /// That many channels on any one bus.
    Exactly(u16),
    /// `-1` or `-2`: any number of channels. Which of the two it was decides,
    /// together with the other side, whether both must agree.
    Any { wildcard: i16 },
    /// Below `-2`: at most so many channels over all buses of this side.
    TotalAcrossBuses { max_total: u16 },
}

impl AuChannelCount {
    /// The raw field that a side is written as.
    pub open spec fn raw(self) -> int {
        match self {
            AuChannelCount::NoElements => 0,
            AuChannelCount::Exactly(n) => n as int,
            AuChannelCount::Any { wildcard } => wildcard as int,
            AuChannelCount::TotalAcrossBuses { max_total } => -max_total,
        }
    }

    /// Whether a side can come from a raw field.
    pub open spec fn wf(self) -> bool {
        match self {
            AuChannelCount::NoElements => true,
            AuChannelCount::Exactly(n) => 0 < n <= i16::MAX,
            AuChannelCount::Any { wildcard } => wildcard == -1 || wildcard == -2,
            AuChannelCount::TotalAcrossBuses { max_total } => 2 < max_total <= 0x8000,
        }
    }

    /// Which widths a single bus may have by this side alone.
    pub open spec fn permits(self, channels: u16) -> bool {
        match self {
            AuChannelCount::NoElements => channels == 0,
            AuChannelCount::Exactly(n) => n == channels,
            AuChannelCount::Any { .. } => true,
            AuChannelCount::TotalAcrossBuses { max_total } => channels <= max_total,
        }
    }

    /// How the side is written.
    pub open spec fn text(self) -> Seq<char> {
        match self {
            AuChannelCount::NoElements => "none"@,
            AuChannelCount::Exactly(n) => decimal(n as int),
            AuChannelCount::Any { wildcard } => "any("@ + decimal(wildcard as int) + ")"@,
            AuChannelCount::TotalAcrossBuses { max_total } => "<="@ + decimal(max_total as int)
                + " total"@,
        }
    }

    /// Decodes one raw field. Every value has its own meaning, and distinct
    /// values decode to distinct sides.
    pub fn from_raw(raw: i16) -> (c: AuChannelCount)
        ensures
            c.raw() == raw,
            c.wf(),
    {
        if raw == 0 {
            AuChannelCount::NoElements
        } else if raw == -1 || raw == -2 {
            AuChannelCount::Any { wildcard: raw }
        } else if raw < -2 {
            AuChannelCount::TotalAcrossBuses { max_total: (-(raw as i32)) as u16 }
        } else {
            AuChannelCount::Exactly(raw as u16)
        }
    }

    /// Whether `channels` is permitted on a single bus by this side alone. A
    /// cap on the total is an upper bound on every single bus; whether the sum
    /// keeps it is for a caller that knows all buses.
    pub fn admits(self, channels: u16) -> (yes: bool)
        ensures
            yes == self.permits(channels),
    {
        match self {
            AuChannelCount::NoElements => channels == 0,
            AuChannelCount::Exactly(n) => n == channels,
            AuChannelCount::Any { .. } => true,
            AuChannelCount::TotalAcrossBuses { max_total } => channels <= max_total,
        }
    }

    /// The side as text.
    pub fn to_string(&self) -> (t: String)
        ensures
            t@ == self.text(),
    {
        match *self {
            AuChannelCount::NoElements => "none".to_owned(),
            AuChannelCount::Exactly(n) => {
                let mut t = String::new();
                push_decimal(&mut t, n as i64);
                assert(t@ =~= decimal(n as int));
                t
            },
            AuChannelCount::Any { wildcard } => {
                let mut t = "any(".to_owned();
                push_decimal(&mut t, wildcard as i64);
                t.append(")");
                t
            },
            AuChannelCount::TotalAcrossBuses { max_total } => {
                let mut t = "<=".to_owned();
                push_decimal(&mut t, max_total as i64);
                t.append(" total");
                t
            },
        }
    }
}

/// Decoding loses nothing: two raw fields that decode alike are equal.
pub proof fn decoding_a_side_loses_nothing(a: AuChannelCount, b: AuChannelCount)
    requires
        a.wf(),
        b.wf(),
    ensures
        a.raw() == b.raw() <==> a == b,
{
}

/// The raw entry of a declared configuration.
#[derive(Clone, Copy, Debug, PartialEq, Eq, Structural)]
pub struct AuChannelInfo {
    pub in_channels: i16,
    pub out_channels: i16,
}

/// Bytes of one raw entry.
pub const CHANNEL_INFO_SIZE: usize = 4;

/// Where the input field of a raw entry stands.
pub const CHANNEL_INFO_IN_OFFSET: usize = 0;

/// Where the output field of a raw entry stands.
pub const CHANNEL_INFO_OUT_OFFSET: usize = 2;

/// A channel configuration that a unit declares it can run.
///
/// The two sides mean what they mean as a pair: with `-1` on both sides any
/// width is allowed as long as input and output agree, while `-1` with `-2`
/// leaves them independent.
#[derive(Clone, Copy, Debug, PartialEq, Eq, Structural)]
pub struct AuChannelConfig {
    pub inputs: AuChannelCount,
    pub outputs: AuChannelCount,
}

impl AuChannelConfig {
    /// Whether the configuration is the decoding of a raw entry.
    pub open spec fn decodes(self, raw: AuChannelInfo) -> bool {
        &&& self.inputs.wf()
        &&& self.outputs.wf()
        &&& self.inputs.raw() == raw.in_channels
        &&& self.outputs.raw() == raw.out_channels
    }

    /// Whether input and output must have the same width.
    pub open spec fn must_match(self) -> bool {
        &&& self.inputs matches AuChannelCount::Any { wildcard } && wildcard == -1
        &&& self.outputs matches AuChannelCount::Any { wildcard } && wildcard == -1
    }

    /// Which topologies satisfy the configuration.
    pub open spec fn permits(self, in_channels: u16, out_channels: u16) -> bool {
        &&& self.inputs.permits(in_channels)
        &&& self.outputs.permits(out_channels)
        &&& self.must_match() ==> in_channels == out_channels
    }

    /// How the configuration is written.
    pub open spec fn text(self) -> Seq<char> {
        "{"@ + self.inputs.text() + ", "@ + self.outputs.text() + "}"@
    }

    /// Decodes one raw entry.
    pub fn from_raw(raw: AuChannelInfo) -> (c: AuChannelConfig)
        ensures
            c.decodes(raw),
    {
        AuChannelConfig {
            inputs: AuChannelCount::from_raw(raw.in_channels),
            outputs: AuChannelCount::from_raw(raw.out_channels),
        }
    }

    /// Whether input and output must have the same width: with `-1` on both
    /// sides, and never otherwise.
    pub fn requires_matching_counts(&self) -> (yes: bool)
        ensures
            yes == self.must_match(),
    {
        self.inputs == (AuChannelCount::Any { wildcard: -1 }) && self.outputs == (
        AuChannelCount::Any { wildcard: -1 })
    }

    /// Whether a topology satisfies the configuration: each side admits its
    /// width, and the widths agree where they must.
    pub fn admits(&self, in_channels: u16, out_channels: u16) -> (yes: bool)
        ensures
            yes == self.permits(in_channels, out_channels),
    {
        if self.requires_matching_counts() && in_channels != out_channels {
            return false;
        }
        self.inputs.admits(in_channels) && self.outputs.admits(out_channels)
    }

    /// The configuration as text.
    pub fn to_string(&self) -> (t: String)
        ensures
            t@ == self.text(),
    {
        let inputs = self.inputs.to_string();
        let outputs = self.outputs.to_string();
        let mut t = "{".to_owned();
        t.append(inputs.as_str());
        t.append(", ");
        t.append(outputs.as_str());
        t.append("}");
        t
    }
}

/// The two wildcard spellings differ: `-1` on both sides admits exactly the
/// topologies with equal widths, every other pair of wildcards admits all.
pub proof fn the_wildcard_pairs_differ(config: AuChannelConfig, i: u16, o: u16)
    requires
        config.inputs is Any,
        config.outputs is Any,
        config.inputs.wf(),
        config.outputs.wf(),
    ensures
        config.inputs->wildcard == -1 && config.outputs->wildcard == -1 ==> config.permits(i, o)
            == (i == o),
        config.inputs->wildcard == -2 || config.outputs->wildcard == -2 ==> config.permits(i, o),
{
}

/// The raw entry at position `i` of a declared list.
pub open spec fn info_at(bytes: Seq<u8>, i: int) -> AuChannelInfo {
    AuChannelInfo {
        in_channels: as_signed_16(u16_of(bytes[4 * i], bytes[4 * i + 1])) as i16,
        out_channels: as_signed_16(u16_of(bytes[4 * i + 2], bytes[4 * i + 3])) as i16,
    }
}

/// Decodes a declared list: one configuration for every whole entry, in order.
/// Trailing bytes that are not a whole entry are dropped.
pub fn decode_channel_configs(bytes: &[u8]) -> (configs: Vec<AuChannelConfig>)
    ensures
        configs@.len() == bytes@.len() / 4,
        forall|i: int|
            0 <= i < configs@.len() ==> (#[trigger] configs@[i]).decodes(info_at(bytes@, i)),
{
    let n: usize = bytes.len() / CHANNEL_INFO_SIZE;
    let mut configs: Vec<AuChannelConfig> = Vec::new();
    for i in 0..n
        invariant
            n == bytes@.len() / 4,
            bytes@.len() <= usize::MAX,
            configs@.len() == i,
            forall|j: int|
                0 <= j < i ==> (#[trigger] configs@[j]).decodes(info_at(bytes@, j)),
    {
        let at: usize = CHANNEL_INFO_SIZE * i;
        let raw = AuChannelInfo {
            in_channels: read_i16(bytes, at + CHANNEL_INFO_IN_OFFSET),
            out_channels: read_i16(bytes, at + CHANNEL_INFO_OUT_OFFSET),
        };
        configs.push(AuChannelConfig::from_raw(raw));
    }
    configs
}

/// The configurations that a unit declares, given its answer to the property
/// read. A refusal and an empty list are the same answer: no constraint was
/// published.
pub fn supported_channel_configs(answer: Option<Vec<u8>>) -> (configs: Vec<AuChannelConfig>)
    ensures
        answer is None ==> configs@.len() == 0,
        answer matches Some(bytes) ==> configs@.len() == bytes@.len() / 4 && forall|i: int|
            0 <= i < configs@.len() ==> (#[trigger] configs@[i]).decodes(info_at(bytes@, i)),
{
    match answer {
        None => Vec::new(),
        Some(bytes) => decode_channel_configs(bytes.as_slice()),
    }
}

/// The width of a stream with so many channels per frame.
pub open spec fn stream_width(channels_per_frame: u32) -> u16 {
    if channels_per_frame <= u16::MAX {
        channels_per_frame as u16
    } else {
        u16::MAX
    }
}

/// How many channels a bus carries.
#[derive(Clone, Copy, Debug, PartialEq, Eq, Structural)]
pub struct ChannelLayout {
    channels: u16,
}

impl ChannelLayout {
    /// The number of channels.
    pub closed spec fn width(self) -> u16 {
        self.channels
    }

    /// The layout of so many channels.
    pub closed spec fn of_width(channels: u16) -> ChannelLayout {
        ChannelLayout { channels }
    }

    /// A layout of so many channels.
    pub fn new(channels: u16) -> (l: ChannelLayout)
        ensures
            l == ChannelLayout::of_width(channels),
            l.width() == channels,
    {
        ChannelLayout { channels }
    }

    /// The layout of a stream with so many channels per frame, as wide as a
    /// layout can be.
    pub fn of_stream(channels_per_frame: u32) -> (l: ChannelLayout)
        ensures
            l == ChannelLayout::of_width(stream_width(channels_per_frame)),
            l.width() == stream_width(channels_per_frame),
    {
        if channels_per_frame <= u16::MAX as u32 {
            ChannelLayout { channels: channels_per_frame as u16 }
        } else {
            ChannelLayout { channels: u16::MAX }
        }
    }

    /// One channel.
    pub fn mono() -> (l: ChannelLayout)
        ensures
            l == ChannelLayout::of_width(1),
            l.width() == 1,
    {
        ChannelLayout { channels: 1 }
    }

    /// Two channels.
    pub fn stereo() -> (l: ChannelLayout)
        ensures
            l == ChannelLayout::of_width(2),
            l.width() == 2,
    {
        ChannelLayout { channels: 2 }
    }

    /// Four channels.
    pub fn quad() -> (l: ChannelLayout)
        ensures
            l == ChannelLayout::of_width(4),
            l.width() == 4,
    {
        ChannelLayout { channels: 4 }
    }

    /// The number of channels.
    pub fn count(self) -> (n: u16)
        ensures
            n == self.width(),
    {
        self.channels
    }
}

/// A layout is its width: two layouts of one width are the same, and the layout
/// of so many channels has that width.
pub broadcast proof fn layouts_are_their_widths(a: ChannelLayout)
    ensures
        ChannelLayout::of_width(#[trigger] a.width()) == a,
{
}

/// The layout of so many channels is that wide.
pub broadcast proof fn a_layout_is_that_wide(channels: u16)
    ensures
        (#[trigger] ChannelLayout::of_width(channels)).width() == channels,
{
}

/// How many buses a unit has on one side, given its answer to the element-count
/// read: its status, and the count where that was success. A unit that refuses
/// to say has none to enumerate.
pub fn bus_count(status: i32, count: u32) -> (n: u32)
    ensures
        n == (if status == NO_ERR {
            count
        } else {
            0
        }),
{
    if status == NO_ERR {
        count
    } else {
        0
    }
}

/// The layout of a bus, given the unit's answer to the stream-format read. A bus
/// that does not exist is the unit's own error, never a made-up layout.
pub fn bus_layout(status: i32, channels_per_frame: u32) -> (r: Result<ChannelLayout, AuError>)
    ensures
        status == NO_ERR ==> (r matches Ok(l) && l.width() == stream_width(channels_per_frame)),
        status != NO_ERR ==> outcome(r) == Err::<ChannelLayout, ErrorView>(
            ErrorView::OsStatus { function: "AudioUnitGetProperty"@, code: status },
        ),
{
    match check("AudioUnitGetProperty", status) {
        Ok(()) => Ok(ChannelLayout::of_stream(channels_per_frame)),
        Err(e) => Err(e),
    }
}

/// What a declared number permits on one bus. A positive one permits that width
/// and zero permits none; minus one and minus two permit any, and below that it is
/// the number without its sign that no width exceeds.
pub proof fn a_declared_number_permits_its_widths(c: AuChannelCount, channels: u16)
    requires
        c.wf(),
    ensures
        c is NoElements <==> c.raw() == 0,
        c is Exactly <==> c.raw() > 0,
        c is Any <==> c.raw() == -1 || c.raw() == -2,
        c is TotalAcrossBuses <==> c.raw() < -2,
        c matches AuChannelCount::Exactly(n) ==> n == c.raw(),
        c matches AuChannelCount::Any { wildcard } ==> wildcard == c.raw(),
        c matches AuChannelCount::TotalAcrossBuses { max_total } ==> max_total == -c.raw(),
        c.raw() >= 0 ==> (c.permits(channels) <==> channels == c.raw()),
        c.raw() == -1 || c.raw() == -2 ==> c.permits(channels),
        c.raw() < -2 ==> (c.permits(channels) <==> channels <= -c.raw()),
{
}

/// What a declared pair permits: each side what its number permits, and with minus
/// one on both sides only equal widths.
pub proof fn a_declared_pair_permits_its_widths(
    c: AuChannelConfig,
    raw: AuChannelInfo,
    i: u16,
    o: u16,
)
    requires
        c.decodes(raw),
    ensures
        c.inputs.raw() == raw.in_channels,
        c.outputs.raw() == raw.out_channels,
        c.permits(i, o) <==> c.inputs.permits(i) && c.outputs.permits(o) && (raw.in_channels == -1
            && raw.out_channels == -1 ==> i == o),
        c.must_match() <==> raw.in_channels == -1 && raw.out_channels == -1,
        raw.in_channels > 0 && raw.out_channels > 0 ==> (c.permits(i, o) <==> i == raw.in_channels
            && o == raw.out_channels),
{
}

/// A declared entry is four bytes, two for each side, the lower first, read as
/// signed numbers.
pub proof fn a_declared_entry_has_its_places(bytes: Seq<u8>, i: int)
    requires
        0 <= i,
        4 * i + 4 <= bytes.len(),
    ensures
        ({
            let a = bytes[4 * i] + 256 * bytes[4 * i + 1];
            let b = bytes[4 * i + 2] + 256 * bytes[4 * i + 3];
            let entry = info_at(bytes, i);
            &&& a < 32768 ==> entry.in_channels == a
            &&& a >= 32768 ==> entry.in_channels == a - 65536
            &&& b < 32768 ==> entry.out_channels == b
            &&& b >= 32768 ==> entry.out_channels == b - 65536
        }),
{
}

/// A stream is as wide as it says, up to the widest there is.
pub proof fn a_stream_is_as_wide_as_it_says(n: u32)
    ensures
        n <= 65535 ==> stream_width(n) == n,
        n > 65535 ==> stream_width(n) == 65535,
{
}

/// Input is scope one and output scope two, and they are written so.
pub proof fn a_direction_is_its_scope(d: BusDirection)
    ensures
        d is Input ==> d.scope_of() == 1 && d.name_of() == "input"@,
        d is Output ==> d.scope_of() == 2 && d.name_of() == "output"@,
{
}

/// A side is written as its number where it is one, and otherwise says what it
/// means; a pair is written as its two sides.
pub proof fn a_side_is_written_by_its_meaning(c: AuChannelCount, pair: AuChannelConfig)
    ensures
        c is NoElements ==> c.text() == "none"@,
        c matches AuChannelCount::Exactly(n) ==> c.text() == decimal(n as int),
        c matches AuChannelCount::Any { wildcard } ==> c.text() == "any("@ + decimal(
            wildcard as int,
        ) + ")"@,
        c matches AuChannelCount::TotalAcrossBuses { max_total } ==> c.text() == "<="@ + decimal(
            max_total as int,
        ) + " total"@,
        pair.text() == "{"@ + pair.inputs.text() + ", "@ + pair.outputs.text() + "}"@,
{
}

} // verus!
