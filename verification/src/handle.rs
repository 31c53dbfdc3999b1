//! Opening a component: what it is called, whether it can be instantiated
//! here, and the handle that stands for the instance.
use vstd::prelude::*;
use vstd::string::*;
use crate::error::{os_status_line, os_status_text, outcome, AuError, ErrorView, LoadStage};
use crate::text::{fourcc_text, fourcc_to_string};
use crate::types::{
    NO_ERR,
    K_AUDIO_COMPONENT_FLAG_REQUIRES_ASYNC_INSTANTIATION,
    K_AUDIO_UNIT_TYPE_EFFECT,
    K_AUDIO_UNIT_TYPE_MUSIC_DEVICE,
    K_AUDIO_UNIT_TYPE_MUSIC_EFFECT,
    K_AUDIO_UNIT_TYPE_GENERATOR,
    K_AUDIO_UNIT_TYPE_MIXER,
};

verus! {

/// What kind of Audio Unit a component type code names.
#[derive(Clone, Copy, Debug, PartialEq, Eq, Structural)]
pub enum AuType {
    Effect,
    Instrument,
    MusicEffect,
    Generator,
    Mixer,
    /// Any other code.
    Unknown(u32),
}

impl AuType {
    /// The code of the type.
    pub open spec fn code(self) -> u32 {
        match self {
            AuType::Effect => K_AUDIO_UNIT_TYPE_EFFECT,
            AuType::Instrument => K_AUDIO_UNIT_TYPE_MUSIC_DEVICE,
            AuType::MusicEffect => K_AUDIO_UNIT_TYPE_MUSIC_EFFECT,
            AuType::Generator => K_AUDIO_UNIT_TYPE_GENERATOR,
            AuType::Mixer => K_AUDIO_UNIT_TYPE_MIXER,
            AuType::Unknown(raw) => raw,
        }
    }

    /// The type that a code names.
    pub open spec fn named(raw: u32) -> AuType {
        if raw == K_AUDIO_UNIT_TYPE_EFFECT {
            AuType::Effect
        } else if raw == K_AUDIO_UNIT_TYPE_MUSIC_DEVICE {
            AuType::Instrument
        } else if raw == K_AUDIO_UNIT_TYPE_MUSIC_EFFECT {
            AuType::MusicEffect
        } else if raw == K_AUDIO_UNIT_TYPE_GENERATOR {
            AuType::Generator
        } else if raw == K_AUDIO_UNIT_TYPE_MIXER {
            AuType::Mixer
        } else {
            AuType::Unknown(raw)
        }
    }

    /// The type that a code names. Every code has one, and a known code is
    /// never `Unknown`.
    pub fn from_raw(raw: u32) -> (t: AuType)
        ensures
            t == AuType::named(raw),
            t.code() == raw,
    {
        match raw {
            K_AUDIO_UNIT_TYPE_EFFECT => AuType::Effect,
            K_AUDIO_UNIT_TYPE_MUSIC_DEVICE => AuType::Instrument,
            K_AUDIO_UNIT_TYPE_MUSIC_EFFECT => AuType::MusicEffect,
            K_AUDIO_UNIT_TYPE_GENERATOR => AuType::Generator,
            K_AUDIO_UNIT_TYPE_MIXER => AuType::Mixer,
            _ => AuType::Unknown(raw),
        }
    }
}

/// How the component registry describes a component.
#[derive(Clone, Copy, Debug, PartialEq, Eq, Structural)]
pub struct AudioComponentDescription {
    pub component_type: u32,
    pub component_sub_type: u32,
    pub component_manufacturer: u32,
    pub component_flags: u32,
}

/// A component by the address the registry knows it under.
#[derive(Clone, Copy, Debug, PartialEq, Eq, Structural)]
pub struct AudioComponent {
    pub address: usize,
}

/// An instantiated unit by the address AudioToolbox knows it under.
#[derive(Clone, Copy, Debug, PartialEq, Eq, Structural)]
pub struct AudioUnit {
    pub address: usize,
}

/// An instantiated, not necessarily initialized, Audio Unit.
#[derive(Debug, PartialEq, Eq, Structural)]
pub struct AuHandle {
    instance: AudioUnit,
    component: AudioComponent,
    au_type: AuType,
}

/// A component's identity as text: type, subtype and manufacturer.
pub open spec fn triple_text(desc: AudioComponentDescription) -> Seq<char> {
    fourcc_text(desc.component_type) + "/"@ + fourcc_text(desc.component_sub_type) + "/"@
        + fourcc_text(desc.component_manufacturer)
}

/// A component's identity as its decoded `type/subtype/manufacturer` triple.
pub fn component_triple(desc: &AudioComponentDescription) -> (t: String)
    ensures
        t@ == triple_text(*desc),
{
    let mut t = fourcc_to_string(desc.component_type);
    t.append("/");
    let sub_type = fourcc_to_string(desc.component_sub_type);
    t.append(sub_type.as_str());
    t.append("/");
    let manufacturer = fourcc_to_string(desc.component_manufacturer);
    t.append(manufacturer.as_str());
    t
}

/// Whether a component's flags bar the synchronous instantiation call.
pub open spec fn requires_async(desc: AudioComponentDescription) -> bool {
    desc.component_flags & K_AUDIO_COMPONENT_FLAG_REQUIRES_ASYNC_INSTANTIATION != 0
}

/// Whether a component may be described and opened: its handle must not be
/// null.
pub fn admit_component(component: AudioComponent) -> (r: Result<(), AuError>)
    ensures
        outcome(r) == (if component.address == 0 {
            Err(ErrorView::NullComponent)
        } else {
            Ok(())
        }),
{
    if component.address == 0 {
        Err(AuError::NullComponent)
    } else {
        Ok(())
    }
}

/// Whether a described component may be instantiated, given the status of the
/// description call.
///
/// A failed description is a failure at the opening stage. A component that
/// only the asynchronous call can create is refused before the synchronous one
/// is tried.
pub fn admit_description(status: i32, desc: &AudioComponentDescription) -> (r: Result<(), AuError>)
    ensures
        outcome(r) == (if status != NO_ERR {
            Err(
                ErrorView::LoadFailed {
                    component: "<undescribed>"@,
                    stage: LoadStage::Opening,
                    reason: os_status_line("AudioComponentGetDescription"@, status),
                },
            )
        } else if requires_async(*desc) {
            Err(ErrorView::RequiresAsyncInstantiation)
        } else {
            Ok(())
        }),
{
    if status != NO_ERR {
        return Err(
            AuError::load_failed(
                "<undescribed>".to_owned(),
                LoadStage::Opening,
                os_status_text("AudioComponentGetDescription", status),
            ),
        );
    }
    if desc.component_flags & K_AUDIO_COMPONENT_FLAG_REQUIRES_ASYNC_INSTANTIATION != 0 {
        return Err(AuError::RequiresAsyncInstantiation);
    }
    Ok(())
}

impl AuHandle {
    /// The unit this handle stands for.
    pub closed spec fn unit(&self) -> AudioUnit {
        self.instance
    }

    /// The component the unit was made from.
    pub closed spec fn factory(&self) -> AudioComponent {
        self.component
    }

    /// What kind of unit it is.
    pub closed spec fn kind(&self) -> AuType {
        self.au_type
    }

    /// The handle of what the instantiation call returned, or the failure of
    /// that call at the instantiation stage.
    pub fn new(
        component: AudioComponent,
        desc: &AudioComponentDescription,
        status: i32,
        instance: AudioUnit,
    ) -> (r: Result<AuHandle, AuError>)
        ensures
            status == NO_ERR ==> (r matches Ok(h) && h.unit() == instance && h.factory()
                == component && h.kind() == AuType::named(desc.component_type)),
            status != NO_ERR ==> outcome(r) == Err::<AuHandle, ErrorView>(
                ErrorView::LoadFailed {
                    component: triple_text(*desc),
                    stage: LoadStage::Instantiation,
                    reason: os_status_line("AudioComponentInstanceNew"@, status),
                },
            ),
    {
        if status != NO_ERR {
            return Err(
                AuError::load_failed(
                    component_triple(desc),
                    LoadStage::Instantiation,
                    os_status_text("AudioComponentInstanceNew", status),
                ),
            );
        }
        Ok(AuHandle { instance, component, au_type: AuType::from_raw(desc.component_type) })
    }

    /// The unit, to hand to AudioToolbox.
    pub fn raw_unit(&self) -> (u: AudioUnit)
        ensures
            u == self.unit(),
    {
        self.instance
    }

    /// The component the unit was made from.
    pub fn component(&self) -> (c: AudioComponent)
        ensures
            c == self.factory(),
    {
        self.component
    }

    /// What kind of unit it is, as classified when it was made.
    pub fn au_type(&self) -> (t: AuType)
        ensures
            t == self.kind(),
    {
        self.au_type
    }
}

/// The display name of a unit, given the status of the name call and the text
/// it delivered.
pub fn display_name(status: i32, name: Option<String>) -> (text: String)
    ensures
        text@ == (if status == NO_ERR && name is Some {
            name->0@
        } else {
            "<unknown>"@
        }),
{
    if status != NO_ERR {
        return "<unknown>".to_owned();
    }
    match name {
        Some(text) => text,
        None => "<unknown>".to_owned(),
    }
}

/// What kind of unit a code names, by the four characters that the code spells:
/// aufx, aumu, aumf, augn and aumx; any other code is kept as it is.
pub proof fn a_kind_is_spelled_by_its_code(raw: u32)
    ensures
        raw == 0x61756678 <==> AuType::named(raw) is Effect,
        raw == 0x61756D75 <==> AuType::named(raw) is Instrument,
        raw == 0x61756D66 <==> AuType::named(raw) is MusicEffect,
        raw == 0x6175676E <==> AuType::named(raw) is Generator,
        raw == 0x61756D78 <==> AuType::named(raw) is Mixer,
        AuType::named(raw) matches AuType::Unknown(code) ==> code == raw,
        AuType::named(raw).code() == raw,
{
}

/// A component can only be instantiated asynchronously where the third bit of its
/// flags says so.
pub proof fn asynchronous_is_one_flag(desc: AudioComponentDescription)
    ensures
        requires_async(desc) <==> desc.component_flags / 4 % 2 == 1,
{
    let flags = desc.component_flags;
    assert(flags & 4 != 0 <==> flags / 4 % 2 == 1) by (bit_vector);
}

/// A component is named by its three codes, type before subtype before
/// manufacturer, with a stroke between them.
pub proof fn a_component_is_named_by_its_codes(desc: AudioComponentDescription)
    ensures
        triple_text(desc) == fourcc_text(desc.component_type) + seq!['/'] + fourcc_text(
            desc.component_sub_type,
        ) + seq!['/'] + fourcc_text(desc.component_manufacturer),
{
    reveal_strlit("/");
    assert("/"@ =~= seq!['/']);
}

} // verus!
