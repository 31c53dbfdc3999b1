//! Parameters of a unit: where they live, what they are called, and how their
//! values are to be shown.
use vstd::prelude::*;
use vstd::string::*;
use crate::bus::BusDirection;
use crate::bytes::{read_u32, u32_at};
use crate::error::{outcome, status_outcome, AuError};
use crate::ffi::check;
use crate::float::Float32;
use crate::handle::AudioUnit;
use crate::text::{c_name, decimal, push_decimal, until_zero, utf8_lossy};
use crate::types::{
    K_AUDIO_UNIT_PARAMETER_FLAG_CAN_RAMP,
    K_AUDIO_UNIT_PARAMETER_FLAG_DISPLAY_CUBED,
    K_AUDIO_UNIT_PARAMETER_FLAG_DISPLAY_CUBE_ROOT,
    K_AUDIO_UNIT_PARAMETER_FLAG_DISPLAY_EXPONENTIAL,
    K_AUDIO_UNIT_PARAMETER_FLAG_DISPLAY_LOGARITHMIC,
    K_AUDIO_UNIT_PARAMETER_FLAG_DISPLAY_MASK,
    K_AUDIO_UNIT_PARAMETER_FLAG_DISPLAY_SQUARED,
    K_AUDIO_UNIT_PARAMETER_FLAG_DISPLAY_SQUARE_ROOT,
    K_AUDIO_UNIT_PARAMETER_FLAG_HAS_CF_NAME_STRING,
    K_AUDIO_UNIT_PARAMETER_FLAG_HAS_CLUMP,
    K_AUDIO_UNIT_PARAMETER_FLAG_IS_WRITABLE,
    K_AUDIO_UNIT_PARAMETER_FLAG_METER_READ_ONLY,
    K_AUDIO_UNIT_PARAMETER_FLAG_OMIT_FROM_PRESETS,
    K_AUDIO_UNIT_PARAMETER_FLAG_VALUES_HAVE_STRINGS,
    K_AUDIO_UNIT_PARAMETER_UNIT_BOOLEAN,
    K_AUDIO_UNIT_PARAMETER_UNIT_DECIBELS,
    K_AUDIO_UNIT_PARAMETER_UNIT_GENERIC,
    K_AUDIO_UNIT_PARAMETER_UNIT_HERTZ,
    K_AUDIO_UNIT_PARAMETER_UNIT_LINEAR_GAIN,
    K_AUDIO_UNIT_PARAMETER_UNIT_MIDI_CONTROLLER,
    K_AUDIO_UNIT_PARAMETER_UNIT_PERCENT,
    K_AUDIO_UNIT_PARAMETER_UNIT_SECONDS,
    K_AUDIO_UNIT_SCOPE_GLOBAL,
    NO_ERR,
};

verus! {

/// Where a parameter lives. The two numbers are of one type and stand side by
/// side in every call, so they go by name.
#[derive(Clone, Copy, Debug, PartialEq, Eq, Hash, Structural)]
pub struct ParamAddress {
    pub scope: u32,
    pub element: u32,
}

impl ParamAddress {
    /// The global scope at element zero.
    pub open spec fn global_address() -> ParamAddress {
        ParamAddress { scope: K_AUDIO_UNIT_SCOPE_GLOBAL, element: 0 }
    }

    /// The global scope at element zero, where most units keep all parameters.
    pub fn global() -> (a: ParamAddress)
        ensures
            a == ParamAddress::global_address(),
    {
        ParamAddress { scope: K_AUDIO_UNIT_SCOPE_GLOBAL, element: 0 }
    }

    /// The parameters of one bus.
    pub fn on_bus(direction: BusDirection, bus: u32) -> (a: ParamAddress)
        ensures
            a == (ParamAddress { scope: direction.scope_of(), element: bus }),
    {
        ParamAddress { scope: direction.scope(), element: bus }
    }

    /// Where what is said of a parameter is asked for: such a question has the
    /// parameter's number in place of the element, which plays no part in it.
    pub fn description_of(self, id: u32) -> (a: ParamAddress)
        ensures
            a == (ParamAddress { scope: self.scope, element: id }),
    {
        ParamAddress { scope: self.scope, element: id }
    }
}

impl Default for ParamAddress {
    fn default() -> (a: ParamAddress)
        ensures
            a == ParamAddress::global_address(),
    {
        ParamAddress::global()
    }
}

/// What a parameter's value may be.
#[derive(Clone, Copy, Debug, PartialEq)]
pub struct ParamRange {
    pub min: Float32,
    pub max: Float32,
    pub default: Float32,
}

/// On what taper a parameter's value is shown and edited.
#[derive(Clone, Copy, Debug, PartialEq, Eq, Structural)]
pub enum DisplayCurve {
    Linear,
    Logarithmic,
    SquareRoot,
    Squared,
    Cubed,
    CubeRoot,
    Exponential,
}

impl Default for DisplayCurve {
    fn default() -> (c: DisplayCurve)
        ensures
            c == DisplayCurve::Linear,
    {
        DisplayCurve::Linear
    }
}

impl DisplayCurve {
    /// The bits that a curve is written as.
    pub open spec fn code(self) -> u32 {
        match self {
            DisplayCurve::Linear => 0,
            DisplayCurve::Logarithmic => K_AUDIO_UNIT_PARAMETER_FLAG_DISPLAY_LOGARITHMIC,
            DisplayCurve::SquareRoot => K_AUDIO_UNIT_PARAMETER_FLAG_DISPLAY_SQUARE_ROOT,
            DisplayCurve::Squared => K_AUDIO_UNIT_PARAMETER_FLAG_DISPLAY_SQUARED,
            DisplayCurve::Cubed => K_AUDIO_UNIT_PARAMETER_FLAG_DISPLAY_CUBED,
            DisplayCurve::CubeRoot => K_AUDIO_UNIT_PARAMETER_FLAG_DISPLAY_CUBE_ROOT,
            DisplayCurve::Exponential => K_AUDIO_UNIT_PARAMETER_FLAG_DISPLAY_EXPONENTIAL,
        }
    }

    /// Whether display bits are those of one of the curves.
    pub open spec fn is_defined(bits: u32) -> bool {
        exists|c: DisplayCurve| #[trigger] c.code() == bits
    }

    /// The curve that a parameter's flags name. Only the display bits count, and
    /// bits that are no curve's mean a linear one.
    pub fn from_flags(flags: u32) -> (c: DisplayCurve)
        ensures
            ({
                let bits = flags & K_AUDIO_UNIT_PARAMETER_FLAG_DISPLAY_MASK;
                if DisplayCurve::is_defined(bits) {
                    c.code() == bits
                } else {
                    c == DisplayCurve::Linear
                }
            }),
    {
        let bits: u32 = flags & K_AUDIO_UNIT_PARAMETER_FLAG_DISPLAY_MASK;
        let c = match bits {
            K_AUDIO_UNIT_PARAMETER_FLAG_DISPLAY_LOGARITHMIC => DisplayCurve::Logarithmic,
            K_AUDIO_UNIT_PARAMETER_FLAG_DISPLAY_SQUARE_ROOT => DisplayCurve::SquareRoot,
            K_AUDIO_UNIT_PARAMETER_FLAG_DISPLAY_SQUARED => DisplayCurve::Squared,
            K_AUDIO_UNIT_PARAMETER_FLAG_DISPLAY_CUBED => DisplayCurve::Cubed,
            K_AUDIO_UNIT_PARAMETER_FLAG_DISPLAY_CUBE_ROOT => DisplayCurve::CubeRoot,
            K_AUDIO_UNIT_PARAMETER_FLAG_DISPLAY_EXPONENTIAL => DisplayCurve::Exponential,
            _ => DisplayCurve::Linear,
        };
        proof {
            assert(c.code() == bits || c == DisplayCurve::Linear);
            if DisplayCurve::is_defined(bits) {
                let d = choose|d: DisplayCurve| #[trigger] d.code() == bits;
                assert(d.code() == bits);
            } else if c != DisplayCurve::Linear {
                assert(c.code() == bits);
            }
        }
        c
    }
}

/// Distinct curves are written as distinct bits.
pub proof fn a_curve_is_its_bits(a: DisplayCurve, b: DisplayCurve)
    ensures
        a.code() == b.code() <==> a == b,
{
}

/// In what a parameter's value is measured.
#[derive(Clone, Copy, Debug, PartialEq, Eq, Structural)]
pub enum ParameterUnit {
    Generic,
    Boolean,
    Percent,
    Seconds,
    Hertz,
    Decibels,
    LinearGain,
    /// The value is the number of a MIDI controller.
    MidiController,
    /// Any other code.
    Unknown(u32),
}

impl ParameterUnit {
    /// The code of a unit.
    pub open spec fn code(self) -> u32 {
        match self {
            ParameterUnit::Generic => K_AUDIO_UNIT_PARAMETER_UNIT_GENERIC,
            ParameterUnit::Boolean => K_AUDIO_UNIT_PARAMETER_UNIT_BOOLEAN,
            ParameterUnit::Percent => K_AUDIO_UNIT_PARAMETER_UNIT_PERCENT,
            ParameterUnit::Seconds => K_AUDIO_UNIT_PARAMETER_UNIT_SECONDS,
            ParameterUnit::Hertz => K_AUDIO_UNIT_PARAMETER_UNIT_HERTZ,
            ParameterUnit::Decibels => K_AUDIO_UNIT_PARAMETER_UNIT_DECIBELS,
            ParameterUnit::LinearGain => K_AUDIO_UNIT_PARAMETER_UNIT_LINEAR_GAIN,
            ParameterUnit::MidiController => K_AUDIO_UNIT_PARAMETER_UNIT_MIDI_CONTROLLER,
            ParameterUnit::Unknown(raw) => raw,
        }
    }

    /// Whether a unit is what its code decodes to.
    pub open spec fn is_canonical(self) -> bool {
        self matches ParameterUnit::Unknown(raw) ==> {
            &&& raw != K_AUDIO_UNIT_PARAMETER_UNIT_GENERIC
            &&& raw != K_AUDIO_UNIT_PARAMETER_UNIT_BOOLEAN
            &&& raw != K_AUDIO_UNIT_PARAMETER_UNIT_PERCENT
            &&& raw != K_AUDIO_UNIT_PARAMETER_UNIT_SECONDS
            &&& raw != K_AUDIO_UNIT_PARAMETER_UNIT_HERTZ
            &&& raw != K_AUDIO_UNIT_PARAMETER_UNIT_DECIBELS
            &&& raw != K_AUDIO_UNIT_PARAMETER_UNIT_LINEAR_GAIN
            &&& raw != K_AUDIO_UNIT_PARAMETER_UNIT_MIDI_CONTROLLER
        }
    }

    /// How a unit is written next to a value.
    pub open spec fn text(self) -> Seq<char> {
        match self {
            ParameterUnit::Generic => ""@,
            ParameterUnit::Boolean => "bool"@,
            ParameterUnit::Percent => "%"@,
            ParameterUnit::Seconds => "s"@,
            ParameterUnit::Hertz => "Hz"@,
            ParameterUnit::Decibels => "dB"@,
            ParameterUnit::LinearGain => "gain"@,
            ParameterUnit::MidiController => "CC"@,
            ParameterUnit::Unknown(raw) => "unit("@ + decimal(raw as int) + ")"@,
        }
    }

    /// The unit of a code. Every code has one, and a named unit is never unknown.
    pub fn from_raw(raw: u32) -> (u: ParameterUnit)
        ensures
            u.code() == raw,
            u.is_canonical(),
    {
        match raw {
            K_AUDIO_UNIT_PARAMETER_UNIT_GENERIC => ParameterUnit::Generic,
            K_AUDIO_UNIT_PARAMETER_UNIT_BOOLEAN => ParameterUnit::Boolean,
            K_AUDIO_UNIT_PARAMETER_UNIT_PERCENT => ParameterUnit::Percent,
            K_AUDIO_UNIT_PARAMETER_UNIT_SECONDS => ParameterUnit::Seconds,
            K_AUDIO_UNIT_PARAMETER_UNIT_HERTZ => ParameterUnit::Hertz,
            K_AUDIO_UNIT_PARAMETER_UNIT_DECIBELS => ParameterUnit::Decibels,
            K_AUDIO_UNIT_PARAMETER_UNIT_LINEAR_GAIN => ParameterUnit::LinearGain,
            K_AUDIO_UNIT_PARAMETER_UNIT_MIDI_CONTROLLER => ParameterUnit::MidiController,
            other => ParameterUnit::Unknown(other),
        }
    }

    /// The unit as text.
    pub fn to_string(&self) -> (t: String)
        ensures
            t@ == self.text(),
    {
        match *self {
            ParameterUnit::Generic => "".to_owned(),
            ParameterUnit::Boolean => "bool".to_owned(),
            ParameterUnit::Percent => "%".to_owned(),
            ParameterUnit::Seconds => "s".to_owned(),
            ParameterUnit::Hertz => "Hz".to_owned(),
            ParameterUnit::Decibels => "dB".to_owned(),
            ParameterUnit::LinearGain => "gain".to_owned(),
            ParameterUnit::MidiController => "CC".to_owned(),
            ParameterUnit::Unknown(raw) => {
                let mut t = "unit(".to_owned();
                push_decimal(&mut t, raw as i64);
                t.append(")");
                t
            },
        }
    }
}

/// Distinct codes are distinct units.
pub proof fn a_unit_is_its_code(a: ParameterUnit, b: ParameterUnit)
    requires
        a.is_canonical(),
        b.is_canonical(),
    ensures
        a.code() == b.code() <==> a == b,
{
}

/// What a unit reports of a parameter.
#[derive(Debug)]
pub struct ParameterInfo {
    pub flags: u32,
    pub unit: u32,
    pub clump_id: u32,
    pub min: Float32,
    pub max: Float32,
    pub default: Float32,
    /// The name as a text of its own, where the unit gave one.
    pub cf_name: Option<String>,
    /// The fixed-size name field.
    pub name: Vec<u8>,
}

/// A parameter.
#[derive(Clone, Debug)]
pub struct AuParameter {
    pub id: u32,
    pub name: String,
    pub range: ParamRange,
    pub unit: ParameterUnit,
    pub writable: bool,
    pub display: DisplayCurve,
    /// The value is a reading and takes no writes.
    pub meter_read_only: bool,
    /// The group of the parameter, where it has one.
    pub clump: Option<u32>,
    /// What the unit says of its value strings. It is known to leave this unset
    /// for parameters that have them.
    pub values_have_strings: bool,
    pub can_ramp: bool,
    pub omit_from_presets: bool,
}

/// The name of a parameter: the text of its own where the unit says there is one
/// and gave it, else what the fixed-size field holds up to a zero.
pub open spec fn name_of(info: ParameterInfo) -> Seq<char> {
    if info.flags & K_AUDIO_UNIT_PARAMETER_FLAG_HAS_CF_NAME_STRING != 0 && info.cf_name is Some {
        info.cf_name->0@
    } else {
        utf8_lossy(until_zero(info.name@))
    }
}

/// The name of a parameter.
pub fn extract_name(info: &ParameterInfo) -> (t: String)
    ensures
        t@ == name_of(*info),
{
    if info.flags & K_AUDIO_UNIT_PARAMETER_FLAG_HAS_CF_NAME_STRING != 0 {
        if let Some(name) = &info.cf_name {
            return name.clone();
        }
    }
    c_name(info.name.as_slice())
}

/// Whether a parameter is what a unit reports under an id. The group counts only
/// where the unit says that there is one.
pub open spec fn describes(p: AuParameter, id: u32, info: ParameterInfo) -> bool {
    &&& p.id == id
    &&& p.name@ == name_of(info)
    &&& p.range == (ParamRange { min: info.min, max: info.max, default: info.default })
    &&& p.unit.code() == info.unit
    &&& p.unit.is_canonical()
    &&& p.writable == (info.flags & K_AUDIO_UNIT_PARAMETER_FLAG_IS_WRITABLE != 0)
    &&& {
        let bits = info.flags & K_AUDIO_UNIT_PARAMETER_FLAG_DISPLAY_MASK;
        if DisplayCurve::is_defined(bits) {
            p.display.code() == bits
        } else {
            p.display == DisplayCurve::Linear
        }
    }
    &&& p.meter_read_only == (info.flags & K_AUDIO_UNIT_PARAMETER_FLAG_METER_READ_ONLY != 0)
    &&& p.clump == (if info.flags & K_AUDIO_UNIT_PARAMETER_FLAG_HAS_CLUMP != 0 {
        Some(info.clump_id)
    } else {
        None
    })
    &&& p.values_have_strings == (info.flags & K_AUDIO_UNIT_PARAMETER_FLAG_VALUES_HAVE_STRINGS
        != 0)
    &&& p.can_ramp == (info.flags & K_AUDIO_UNIT_PARAMETER_FLAG_CAN_RAMP != 0)
    &&& p.omit_from_presets == (info.flags & K_AUDIO_UNIT_PARAMETER_FLAG_OMIT_FROM_PRESETS != 0)
}

/// The parameter that a unit reports under an id.
pub fn describe(id: u32, info: &ParameterInfo) -> (p: AuParameter)
    ensures
        describes(p, id, *info),
{
    AuParameter {
        id,
        name: extract_name(info),
        range: ParamRange { min: info.min, max: info.max, default: info.default },
        unit: ParameterUnit::from_raw(info.unit),
        writable: info.flags & K_AUDIO_UNIT_PARAMETER_FLAG_IS_WRITABLE != 0,
        display: DisplayCurve::from_flags(info.flags),
        meter_read_only: info.flags & K_AUDIO_UNIT_PARAMETER_FLAG_METER_READ_ONLY != 0,
        clump: if info.flags & K_AUDIO_UNIT_PARAMETER_FLAG_HAS_CLUMP != 0 {
            Some(info.clump_id)
        } else {
            None
        },
        values_have_strings: info.flags & K_AUDIO_UNIT_PARAMETER_FLAG_VALUES_HAVE_STRINGS != 0,
        can_ramp: info.flags & K_AUDIO_UNIT_PARAMETER_FLAG_CAN_RAMP != 0,
        omit_from_presets: info.flags & K_AUDIO_UNIT_PARAMETER_FLAG_OMIT_FROM_PRESETS != 0,
    }
}

/// The parameter ids in a unit's list.
pub open spec fn ids_in(bytes: Seq<u8>) -> Seq<u32> {
    Seq::new(bytes.len() / 4, |i: int| u32_at(bytes, 4 * i) as u32)
}

/// The parameter ids of a unit, given its answer. A unit without a list has no
/// parameters there; trailing bytes that are not a whole id are dropped.
pub fn parameter_ids(answer: Option<Vec<u8>>) -> (ids: Vec<u32>)
    ensures
        ids@ == (match answer {
            Some(bytes) => ids_in(bytes@),
            None => Seq::empty(),
        }),
{
    let mut ids: Vec<u32> = Vec::new();
    if let Some(bytes) = answer {
        let n: usize = bytes.len() / 4;
        let list = bytes.as_slice();
        for i in 0..n
            invariant
                n == list@.len() / 4,
                list@.len() <= usize::MAX,
                ids@ == ids_in(list@).take(i as int),
        {
            ids.push(read_u32(list, 4 * i));
            assert(ids_in(list@).take(i + 1) =~= ids_in(list@).take(i as int).push(
                ids_in(list@)[i as int],
            ));
        }
        assert(ids_in(list@).take(n as int) =~= ids_in(list@));
    }
    ids
}

/// A parameter id with what the unit reports under it, if it does.
#[derive(Debug)]
pub struct ParameterAnswer {
    pub id: u32,
    pub info: Option<ParameterInfo>,
}

/// Whether parameters are those of the answers that report one, in order.
pub open spec fn listed(params: Seq<AuParameter>, answers: Seq<ParameterAnswer>) -> bool {
    let known = answers.filter(|a: ParameterAnswer| a.info is Some);
    &&& params.len() == known.len()
    &&& forall|i: int|
        0 <= i < params.len() ==> describes(
            #[trigger] params[i],
            known[i].id,
            known[i].info->0,
        )
}

/// The parameters of a unit, given what it reports under each id. An id that it
/// does not describe is left out.
pub fn list_at(answers: &Vec<ParameterAnswer>) -> (params: Vec<AuParameter>)
    ensures
        listed(params@, answers@),
{
    let mut params: Vec<AuParameter> = Vec::new();
    proof {
        reveal(Seq::filter);
        assert(listed(params@, answers@.take(0)));
    }
    for i in 0..answers.len()
        invariant
            listed(params@, answers@.take(i as int)),
    {
        proof {
            reveal(Seq::filter);
            assert(answers@.take(i + 1).drop_last() =~= answers@.take(i as int));
            assert(answers@.take(i + 1).last() == answers@[i as int]);
        }
        if let Some(info) = &answers[i].info {
            params.push(describe(answers[i].id, info));
        }
    }
    assert(answers@.take(answers@.len() as int) =~= answers@);
    params
}

/// A parameter's value, given the unit's answer to reading it. A refusal is the
/// unit's own error, never a made-up value.
pub fn get_at(status: i32, value: Float32) -> (r: Result<Float32, AuError>)
    ensures
        outcome(r) == (match status_outcome("AudioUnitGetParameter"@, status) {
            Ok(_) => Ok(value),
            Err(e) => Err(e),
        }),
{
    match check("AudioUnitGetParameter", status) {
        Ok(()) => Ok(value),
        Err(e) => Err(e),
    }
}

/// What writing a parameter's value came to, given the status of the write.
pub fn set_at(status: i32) -> (r: Result<(), AuError>)
    ensures
        outcome(r) == status_outcome("AudioUnitSetParameter"@, status),
{
    check("AudioUnitSetParameter", status)
}

/// The display strings of a parameter's values, given the unit's answer. A unit
/// that publishes none has none; that is not an error.
pub fn value_strings(answer: Option<Vec<String>>) -> (strings: Vec<String>)
    ensures
        strings@ == (match answer {
            Some(texts) => texts@,
            None => Seq::empty(),
        }),
{
    match answer {
        Some(texts) => texts,
        None => Vec::new(),
    }
}

/// The display string of one value, given the unit's answer.
pub fn string_from_value(status: i32, text: Option<String>) -> (t: Option<String>)
    ensures
        t == (if status == NO_ERR {
            text
        } else {
            None
        }),
{
    if status == NO_ERR {
        text
    } else {
        None
    }
}

/// The value of a display string, given the unit's answer. A value that is not
/// finite is none: it is what a unit leaves that did not write one.
pub fn value_from_string(status: i32, value: Float32) -> (v: Option<Float32>)
    ensures
        v == (if status == NO_ERR && value.finite() {
            Some(value)
        } else {
            None
        }),
{
    if status == NO_ERR && value.is_finite() {
        Some(value)
    } else {
        None
    }
}

/// Whether a group can have a name: group zero stands for no group and is never
/// asked about.
pub fn is_named_clump(clump: u32) -> (yes: bool)
    ensures
        yes == (clump != 0),
{
    clump != 0
}

/// The name of a group, given the unit's answer. Group zero has none, whatever
/// the unit says.
pub fn clump_name(clump: u32, status: i32, name: Option<String>) -> (t: Option<String>)
    ensures
        t == (if clump != 0 && status == NO_ERR {
            name
        } else {
            None
        }),
{
    if is_named_clump(clump) && status == NO_ERR {
        name
    } else {
        None
    }
}

/// The parameters of one unit, at the global scope: what a unit's answers there
/// come to.
#[derive(Clone, Copy, Debug, PartialEq, Eq, Structural)]
pub struct ParamView {
    pub unit: AudioUnit,
}

impl ParamView {
    /// The parameters of a unit.
    pub fn new(unit: AudioUnit) -> (v: ParamView)
        ensures
            v.unit == unit,
    {
        ParamView { unit }
    }

    /// The parameters of the unit.
    pub fn list(&self, answers: &Vec<ParameterAnswer>) -> (params: Vec<AuParameter>)
        ensures
            listed(params@, answers@),
    {
        list_at(answers)
    }

    /// A parameter's value.
    pub fn get(&self, status: i32, value: Float32) -> (r: Result<Float32, AuError>)
        ensures
            outcome(r) == (match status_outcome("AudioUnitGetParameter"@, status) {
                Ok(_) => Ok(value),
                Err(e) => Err(e),
            }),
    {
        get_at(status, value)
    }

    /// What writing a parameter's value came to.
    pub fn set(&self, status: i32) -> (r: Result<(), AuError>)
        ensures
            outcome(r) == status_outcome("AudioUnitSetParameter"@, status),
    {
        set_at(status)
    }

    /// The display string of one value.
    pub fn string_from_value(&self, status: i32, text: Option<String>) -> (t: Option<String>)
        ensures
            t == (if status == NO_ERR {
                text
            } else {
                None
            }),
    {
        string_from_value(status, text)
    }

    /// The value of a display string.
    pub fn value_from_string(&self, status: i32, value: Float32) -> (v: Option<Float32>)
        ensures
            v == (if status == NO_ERR && value.finite() {
                Some(value)
            } else {
                None
            }),
    {
        value_from_string(status, value)
    }

    /// The display strings of a parameter's values.
    pub fn value_strings(&self, answer: Option<Vec<String>>) -> (strings: Vec<String>)
        ensures
            strings@ == (match answer {
                Some(texts) => texts@,
                None => Seq::empty(),
            }),
    {
        value_strings(answer)
    }

    /// The name of a group.
    pub fn clump_name(&self, clump: u32, status: i32, name: Option<String>) -> (t: Option<String>)
        ensures
            t == (if clump != 0 && status == NO_ERR {
                name
            } else {
                None
            }),
    {
        clump_name(clump, status, name)
    }
}

// ---------------------------------------------------------------------------
// Laws
// ---------------------------------------------------------------------------
/// A parameter is what its unit reports of it: its number, its three values, each
/// of its switches from a bit of its own, and its group only where the unit says
/// that there is one.
pub proof fn a_parameter_is_what_its_unit_reports(p: AuParameter, id: u32, info: ParameterInfo)
    requires
        describes(p, id, info),
    ensures
        p.id == id,
        p.range.min == info.min,
        p.range.max == info.max,
        p.range.default == info.default,
        p.writable <==> info.flags & 0x8000_0000 != 0,
        p.can_ramp <==> info.flags & 0x200_0000 != 0,
        p.values_have_strings <==> info.flags & 0x20_0000 != 0,
        p.meter_read_only <==> info.flags & 0x8000 != 0,
        p.omit_from_presets <==> info.flags & 0x2000 != 0,
        info.flags & 0x10_0000 != 0 ==> p.clump == Some(info.clump_id),
        info.flags & 0x10_0000 == 0 ==> p.clump is None,
        info.flags & 0x800_0000 != 0 && info.cf_name is Some ==> p.name@ == info.cf_name->0@,
        info.flags & 0x800_0000 == 0 || info.cf_name is None ==> p.name@ == utf8_lossy(
            until_zero(info.name@),
        ),
{
}

/// A parameter's curve, from the bits that name one: three of them number a power
/// or a root, one stands for the logarithm, and anything else is linear.
pub proof fn a_curve_is_named_by_its_bits(p: AuParameter, id: u32, info: ParameterInfo)
    requires
        describes(p, id, info),
    ensures
        ({
            let bits = info.flags & 0x47_0000;
            &&& bits == 0x40_0000 ==> p.display is Logarithmic
            &&& bits == 0x1_0000 ==> p.display is SquareRoot
            &&& bits == 0x2_0000 ==> p.display is Squared
            &&& bits == 0x3_0000 ==> p.display is Cubed
            &&& bits == 0x4_0000 ==> p.display is CubeRoot
            &&& bits == 0x5_0000 ==> p.display is Exponential
            &&& bits != 0x40_0000 && bits != 0x1_0000 && bits != 0x2_0000 && bits != 0x3_0000
                && bits != 0x4_0000 && bits != 0x5_0000 ==> p.display is Linear
        }),
{
    let bits = info.flags & 0x47_0000;
    assert(DisplayCurve::Logarithmic.code() == 0x40_0000);
    assert(DisplayCurve::SquareRoot.code() == 0x1_0000);
    assert(DisplayCurve::Squared.code() == 0x2_0000);
    assert(DisplayCurve::Cubed.code() == 0x3_0000);
    assert(DisplayCurve::CubeRoot.code() == 0x4_0000);
    assert(DisplayCurve::Exponential.code() == 0x5_0000);
    if DisplayCurve::is_defined(bits) {
        assert(p.display.code() == bits);
    }
}

/// What a parameter is measured in, by the unit's code.
pub proof fn a_unit_is_named_by_its_code(u: ParameterUnit)
    requires
        u.is_canonical(),
    ensures
        u.code() == 0 <==> u is Generic,
        u.code() == 2 <==> u is Boolean,
        u.code() == 3 <==> u is Percent,
        u.code() == 4 <==> u is Seconds,
        u.code() == 8 <==> u is Hertz,
        u.code() == 12 <==> u is MidiController,
        u.code() == 13 <==> u is Decibels,
        u.code() == 14 <==> u is LinearGain,
        u matches ParameterUnit::Unknown(raw) ==> raw == u.code(),
{
}

/// How a unit of measurement is written.
pub proof fn a_unit_is_written_by_its_sign(u: ParameterUnit)
    ensures
        u is Generic ==> u.text() == ""@,
        u is Boolean ==> u.text() == "bool"@,
        u is Percent ==> u.text() == "%"@,
        u is Seconds ==> u.text() == "s"@,
        u is Hertz ==> u.text() == "Hz"@,
        u is Decibels ==> u.text() == "dB"@,
        u is LinearGain ==> u.text() == "gain"@,
        u is MidiController ==> u.text() == "CC"@,
        u matches ParameterUnit::Unknown(raw) ==> u.text() == "unit("@ + decimal(raw as int) + ")"@,
{
}

/// A list of ids is four bytes for each, the lowest first; a rest that is no whole
/// id counts for nothing.
pub proof fn ids_stand_one_after_the_other(bytes: Seq<u8>, i: int)
    requires
        0 <= i < ids_in(bytes).len(),
    ensures
        4 * ids_in(bytes).len() <= bytes.len() < 4 * ids_in(bytes).len() + 4,
        ids_in(bytes)[i] == bytes[4 * i] + 256 * (bytes[4 * i + 1] + 256 * (bytes[4 * i + 2] + 256
            * bytes[4 * i + 3])),
{
}

/// A unit's parameters are those that it describes, each once and in order; ids
/// that it does not describe are left out, and where it describes all none is.
pub proof fn every_described_parameter_is_listed(
    params: Seq<AuParameter>,
    answers: Seq<ParameterAnswer>,
)
    requires
        listed(params, answers),
    ensures
        ({
            let known = answers.filter(|a: ParameterAnswer| a.info is Some);
            &&& params.len() == known.len()
            &&& forall|i: int|
                0 <= i < params.len() ==> describes(
                    #[trigger] params[i],
                    known[i].id,
                    known[i].info->0,
                )
            &&& (forall|i: int| 0 <= i < answers.len() ==> (#[trigger] answers[i]).info is Some)
                ==> params.len() == answers.len() && forall|i: int|
                0 <= i < params.len() ==> (#[trigger] params[i]).id == answers[i].id
        }),
{
    let keep = |a: ParameterAnswer| a.info is Some;
    if forall|i: int| 0 <= i < answers.len() ==> (#[trigger] answers[i]).info is Some {
        all_are_kept(answers, keep);
        assert forall|i: int| 0 <= i < params.len() implies (#[trigger] params[i]).id
            == answers[i].id by {
            assert(describes(params[i], answers[i].id, answers[i].info->0));
        }
    }
}

/// A filter that every answer passes leaves them all.
proof fn all_are_kept(answers: Seq<ParameterAnswer>, keep: spec_fn(ParameterAnswer) -> bool)
    requires
        forall|i: int| 0 <= i < answers.len() ==> keep(#[trigger] answers[i]),
    ensures
        answers.filter(keep) == answers,
    decreases answers.len(),
{
    reveal(Seq::filter);
    if answers.len() > 0 {
        all_are_kept(answers.drop_last(), keep);
        assert(answers.drop_last().push(answers.last()) =~= answers);
    }
}

/// The global address is scope zero, element zero.
pub proof fn the_global_address_is_zero()
    ensures
        ParamAddress::global_address().scope == 0,
        ParamAddress::global_address().element == 0,
{
}

} // verus!
