//! Factory presets of a unit.
use vstd::prelude::*;
use vstd::string::*;

verus! {

/// A factory preset: the number that selects it and its display name. The
/// number is the unit's own and not a position in a list.
#[derive(Clone, Debug, PartialEq, Eq)]
pub struct AuPreset {
    pub number: i32,
    pub name: String,
}

/// The alignment of a preset in the unit's own table.
pub const PRESET_ALIGNMENT: usize = 8;

/// An element of a unit's preset array: where it stands, and what stands there
/// if that is a place for a preset.
#[derive(Debug)]
pub struct PresetSlot {
    pub address: usize,
    pub number: i32,
    /// The name, where the unit's table holds a readable one.
    pub name: Option<String>,
}

/// A preset, its name taken by its characters.
pub ghost struct PresetView {
    pub number: i32,
    pub name: Seq<char>,
}

impl View for AuPreset {
    type V = PresetView;

    open spec fn view(&self) -> PresetView {
        PresetView { number: self.number, name: self.name@ }
    }
}

/// Whether a preset can stand at an address.
pub open spec fn holds_preset(address: usize) -> bool {
    address != 0 && address % PRESET_ALIGNMENT == 0
}

/// Whether a preset can stand at an address: elsewhere nothing may be read.
pub fn is_preset_address(address: usize) -> (yes: bool)
    ensures
        yes == holds_preset(address),
{
    address != 0 && address % PRESET_ALIGNMENT == 0
}

/// The preset of a slot; without a readable name it has an empty one.
pub open spec fn preset_of(slot: PresetSlot) -> PresetView {
    PresetView {
        number: slot.number,
        name: match slot.name {
            Some(n) => n@,
            None => Seq::empty(),
        },
    }
}

/// The presets of the slots that hold one, in order.
pub open spec fn presets_of(slots: Seq<PresetSlot>) -> Seq<PresetView> {
    slots.filter(|s: PresetSlot| holds_preset(s.address)).map_values(|s: PresetSlot| preset_of(s))
}

/// The factory presets of a unit, given its preset array. A unit that publishes
/// none has none; that is not an error.
pub fn factory_presets(answer: Option<Vec<PresetSlot>>) -> (presets: Vec<AuPreset>)
    ensures
        presets@.map_values(|p: AuPreset| p@) == (match answer {
            Some(slots) => presets_of(slots@),
            None => Seq::empty(),
        }),
{
    let mut presets: Vec<AuPreset> = Vec::new();
    let slots = match answer {
        None => {
            assert(presets@.map_values(|p: AuPreset| p@) =~= Seq::empty());
            return presets;
        },
        Some(slots) => slots,
    };
    let ghost whole = slots@;
    proof {
        reveal(Seq::filter);
        assert(presets@.map_values(|p: AuPreset| p@) =~= presets_of(whole.take(0)));
    }
    for slot in it: slots
        invariant
            it.seq() == whole,
            presets@.map_values(|p: AuPreset| p@) == presets_of(whole.take(it.index() as int)),
    {
        let ghost done = it.index() as int;
        let ghost before = presets@;
        proof {
            reveal(Seq::filter);
            assert(whole.take(done + 1).drop_last() =~= whole.take(done));
            assert(whole.take(done + 1).last() == slot);
        }
        if is_preset_address(slot.address) {
            let name = match slot.name {
                Some(n) => n,
                None => String::new(),
            };
            let preset = AuPreset { number: slot.number, name };
            presets.push(preset);
            proof {
                let kept = |s: PresetSlot| holds_preset(s.address);
                let front = whole.take(done).filter(kept);
                assert(presets@.map_values(|p: AuPreset| p@) =~= before.map_values(
                    |p: AuPreset| p@,
                ).push(preset@));
                assert(front.push(slot).map_values(|s: PresetSlot| preset_of(s))
                    =~= front.map_values(|s: PresetSlot| preset_of(s)).push(preset_of(slot)));
            }
        }
    }
    assert(whole.take(whole.len() as int) =~= whole);
    presets
}

/// The active preset, given what the unit reports; without a readable name it
/// has an empty one.
pub fn current_preset(number: i32, name: Option<String>) -> (preset: AuPreset)
    ensures
        preset@ == (PresetView {
            number,
            name: match name {
                Some(n) => n@,
                None => Seq::empty(),
            },
        }),
{
    let name = match name {
        Some(n) => n,
        None => String::new(),
    };
    AuPreset { number, name }
}

/// A preset stands where an address is that of one, which is a multiple of eight
/// and not nothing; it has the number and the name of its slot, and an empty name
/// where the slot has none.
pub proof fn a_preset_is_its_slot(slot: PresetSlot)
    ensures
        holds_preset(slot.address) <==> slot.address != 0 && slot.address % 8 == 0,
        preset_of(slot).number == slot.number,
        slot.name matches Some(n) ==> preset_of(slot).name == n@,
        slot.name is None ==> preset_of(slot).name.len() == 0,
{
}

/// The presets of a unit are those of the slots that hold one, each once and in
/// order. One slot more is one preset more where it holds one.
pub proof fn every_slot_that_holds_one_is_a_preset(slots: Seq<PresetSlot>)
    ensures
        slots.len() == 0 ==> presets_of(slots).len() == 0,
        slots.len() > 0 ==> {
            let front = slots.take(slots.len() - 1);
            let last = slots[slots.len() - 1];
            &&& last.address != 0 && last.address % 8 == 0 ==> presets_of(slots) == presets_of(
                front,
            ).push(preset_of(last))
            &&& last.address == 0 || last.address % 8 != 0 ==> presets_of(slots) == presets_of(
                front,
            )
        },
{
    reveal(Seq::filter);
    if slots.len() > 0 {
        let keep = |s: PresetSlot| holds_preset(s.address);
        let front = slots.take(slots.len() - 1);
        let last = slots[slots.len() - 1];
        assert(slots.drop_last() =~= front);
        if holds_preset(last.address) {
            assert(front.filter(keep).push(last).map_values(|s: PresetSlot| preset_of(s))
                =~= front.filter(keep).map_values(|s: PresetSlot| preset_of(s)).push(
                preset_of(last),
            ));
        }
    } else {
        assert(presets_of(slots) =~= Seq::empty());
    }
}

/// A preset is seen by its number and the characters of its name.
pub proof fn a_preset_is_seen_as_it_is(p: AuPreset)
    ensures
        p@.number == p.number,
        p@.name == p.name@,
{
}

} // verus!
