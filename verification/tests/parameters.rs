use tutti_au_host::bus::BusDirection;
use tutti_au_host::error::AuError;
use tutti_au_host::float::Float32;
use tutti_au_host::handle::AudioUnit;
use tutti_au_host::parameters::{
    clump_name, describe, get_at, list_at, parameter_ids, set_at, string_from_value,
    value_from_string, value_strings, AuParameter, DisplayCurve, ParamAddress, ParamView, ParameterAnswer,
    ParameterInfo, ParameterUnit,
};
use tutti_au_host::types::{
    K_AUDIO_UNIT_PARAMETER_FLAG_CAN_RAMP, K_AUDIO_UNIT_PARAMETER_FLAG_DISPLAY_CUBE_ROOT,
    K_AUDIO_UNIT_PARAMETER_FLAG_DISPLAY_LOGARITHMIC, K_AUDIO_UNIT_PARAMETER_FLAG_DISPLAY_MASK,
    K_AUDIO_UNIT_PARAMETER_FLAG_DISPLAY_SQUARED, K_AUDIO_UNIT_PARAMETER_FLAG_HAS_CF_NAME_STRING,
    K_AUDIO_UNIT_PARAMETER_FLAG_HAS_CLUMP, K_AUDIO_UNIT_PARAMETER_FLAG_IS_WRITABLE,
    K_AUDIO_UNIT_PARAMETER_UNIT_MIDI_CONTROLLER, K_AUDIO_UNIT_SCOPE_GLOBAL,
    K_AUDIO_UNIT_SCOPE_INPUT, K_AUDIO_UNIT_SCOPE_OUTPUT,
};

fn value(v: f32) -> Float32 {
    Float32 { bits: v.to_bits() }
}

fn info(flags: u32) -> ParameterInfo {
    let mut name = b"Delay Time".to_vec();
    name.resize(52, 0);
    ParameterInfo {
        flags,
        unit: 4,
        clump_id: 7,
        min: value(0.0),
        max: value(2.0),
        default: value(1.0),
        cf_name: Some("Delay".to_string()),
        name,
    }
}

#[test]
fn the_global_address_is_the_global_scope_at_element_zero() {
    assert_eq!(ParamAddress::global().scope, K_AUDIO_UNIT_SCOPE_GLOBAL);
    assert_eq!(ParamAddress::global().element, 0);
    assert_eq!(ParamAddress::default(), ParamAddress::global());
}

#[test]
fn on_bus_puts_the_bus_in_the_element_slot() {
    let addr = ParamAddress::on_bus(BusDirection::Input, 3);
    assert_eq!(addr.scope, K_AUDIO_UNIT_SCOPE_INPUT);
    assert_eq!(addr.element, 3);

    let out = ParamAddress::on_bus(BusDirection::Output, 0);
    assert_eq!(out.scope, K_AUDIO_UNIT_SCOPE_OUTPUT);
    assert_eq!(out.element, 0);

    assert_ne!(out, ParamAddress::global());
}

#[test]
fn a_description_is_asked_for_by_parameter() {
    let addr = ParamAddress::on_bus(BusDirection::Input, 3);
    assert_eq!(
        addr.description_of(900),
        ParamAddress {
            scope: K_AUDIO_UNIT_SCOPE_INPUT,
            element: 900
        }
    );
}

#[test]
fn the_display_mask_spans_the_logarithmic_bit_too() {
    assert_eq!(
        K_AUDIO_UNIT_PARAMETER_FLAG_DISPLAY_MASK,
        (7 << 16) | (1 << 22)
    );
    assert_ne!(
        K_AUDIO_UNIT_PARAMETER_FLAG_DISPLAY_MASK & K_AUDIO_UNIT_PARAMETER_FLAG_DISPLAY_LOGARITHMIC,
        0,
        "the mask must cover the logarithmic bit, or every log parameter \
         decodes as linear"
    );
    assert_eq!(K_AUDIO_UNIT_PARAMETER_FLAG_DISPLAY_LOGARITHMIC, 1 << 22);
}

#[test]
fn the_midi_controller_unit_is_not_unknown() {
    assert_eq!(
        ParameterUnit::from_raw(K_AUDIO_UNIT_PARAMETER_UNIT_MIDI_CONTROLLER),
        ParameterUnit::MidiController
    );
    assert_eq!(K_AUDIO_UNIT_PARAMETER_UNIT_MIDI_CONTROLLER, 12);
    assert_eq!(ParameterUnit::from_raw(12), ParameterUnit::MidiController);
    assert_eq!(ParameterUnit::MidiController.to_string(), "CC");
    for code in [1u32, 5, 7, 9, 10, 16, 18, 21, 24, 25] {
        assert_eq!(
            ParameterUnit::from_raw(code),
            ParameterUnit::Unknown(code),
            "code {code} is measured on this machine and must stay Unknown"
        );
    }
}

#[test]
fn units_are_written_next_to_values() {
    assert_eq!(ParameterUnit::Generic.to_string(), "");
    assert_eq!(ParameterUnit::from_raw(2).to_string(), "bool");
    assert_eq!(ParameterUnit::from_raw(3).to_string(), "%");
    assert_eq!(ParameterUnit::from_raw(4).to_string(), "s");
    assert_eq!(ParameterUnit::from_raw(8).to_string(), "Hz");
    assert_eq!(ParameterUnit::from_raw(13).to_string(), "dB");
    assert_eq!(ParameterUnit::from_raw(14).to_string(), "gain");
    assert_eq!(ParameterUnit::from_raw(25).to_string(), "unit(25)");
}

#[test]
fn each_display_curve_decodes_to_its_own_variant() {
    for (flags, want, who) in [
        (0u32, DisplayCurve::Linear, "no flag set"),
        (0xc8c0_0000, DisplayCurve::Logarithmic, "AULowpass cutoff"),
        (0xc891_0000, DisplayCurve::SquareRoot, "AUDistortion delay"),
        (0xc893_0000, DisplayCurve::Cubed, "AUDistortion rounding"),
        (
            0xc805_0000,
            DisplayCurve::Exponential,
            "AUReverb2 low freq decay",
        ),
        (0xd810_0000, DisplayCurve::Linear, "AUNBandEQ type"),
    ] {
        assert_eq!(
            DisplayCurve::from_flags(flags),
            want,
            "{who}: flags {flags:#010x} must decode to {want:?}"
        );
    }
    assert_eq!(
        DisplayCurve::from_flags(K_AUDIO_UNIT_PARAMETER_FLAG_DISPLAY_SQUARED),
        DisplayCurve::Squared
    );
    assert_eq!(
        DisplayCurve::from_flags(K_AUDIO_UNIT_PARAMETER_FLAG_DISPLAY_CUBE_ROOT),
        DisplayCurve::CubeRoot
    );
    assert_eq!(DisplayCurve::default(), DisplayCurve::Linear);
}

#[test]
fn an_undefined_display_code_falls_back_to_linear() {
    assert_eq!(DisplayCurve::from_flags(6 << 16), DisplayCurve::Linear);
    assert_eq!(
        DisplayCurve::from_flags(!K_AUDIO_UNIT_PARAMETER_FLAG_DISPLAY_MASK),
        DisplayCurve::Linear
    );
}

#[test]
fn a_clump_id_is_only_read_when_the_au_advertises_one() {
    let plain = describe(1, &info(0));
    assert!(
        plain.clump.is_none(),
        "param {} ({:?}) reported clump {:?} without HasClump",
        plain.id,
        plain.name,
        plain.clump
    );
    let grouped = describe(1, &info(K_AUDIO_UNIT_PARAMETER_FLAG_HAS_CLUMP));
    assert_eq!(grouped.clump, Some(7));
}

#[test]
fn clump_zero_is_never_named() {
    assert_eq!(clump_name(0, 0, Some("stray".to_string())), None);
    assert_eq!(
        clump_name(3, 0, Some("Decimation".to_string())),
        Some("Decimation".to_string())
    );
    assert_eq!(clump_name(3, -10879, Some("stale".to_string())), None);
    let view = ParamView::new(AudioUnit { address: 0x1000 });
    assert_eq!(view.clump_name(0, 0, Some("stray".to_string())), None);
}

#[test]
fn a_name_of_its_own_is_preferred() {
    let named = describe(
        3,
        &info(K_AUDIO_UNIT_PARAMETER_FLAG_HAS_CF_NAME_STRING | K_AUDIO_UNIT_PARAMETER_FLAG_CAN_RAMP),
    );
    assert_eq!(named.name, "Delay");
    assert!(named.can_ramp);
    assert!(!named.writable);
    let fixed = describe(3, &info(K_AUDIO_UNIT_PARAMETER_FLAG_IS_WRITABLE));
    assert_eq!(fixed.name, "Delay Time", "the field ends at its zero byte");
    assert!(fixed.writable);
    assert_eq!(fixed.unit, ParameterUnit::Seconds);
    assert_eq!(fixed.range.max, value(2.0));
    let mut full = info(0);
    full.name = vec![b'x'; 52];
    assert_eq!(describe(3, &full).name, "x".repeat(52));
    full.name = vec![b'a', 0xFF, b'b', 0];
    assert_eq!(describe(3, &full).name, "a\u{FFFD}b");
}

#[test]
fn ids_without_a_description_are_left_out() {
    let mut bytes = Vec::new();
    bytes.extend_from_slice(&5u32.to_le_bytes());
    bytes.extend_from_slice(&0x0102_0304u32.to_le_bytes());
    bytes.push(9);
    assert_eq!(parameter_ids(Some(bytes)), vec![5, 0x0102_0304]);
    assert!(parameter_ids(None).is_empty());

    let params = list_at(&vec![
        ParameterAnswer {
            id: 5,
            info: Some(info(0)),
        },
        ParameterAnswer { id: 6, info: None },
        ParameterAnswer {
            id: 7,
            info: Some(info(0)),
        },
    ]);
    let ids: Vec<u32> = params.iter().map(|p| p.id).collect();
    assert_eq!(ids, vec![5, 7]);
}

#[test]
fn a_refused_value_is_an_error_and_never_a_default() {
    assert_eq!(get_at(0, value(0.5)).unwrap(), value(0.5));
    assert!(matches!(
        get_at(-10878, value(0.0)),
        Err(AuError::OsStatus {
            function: "AudioUnitGetParameter",
            code: -10878
        })
    ));
    assert!(set_at(0).is_ok());
    assert!(matches!(
        set_at(-10877),
        Err(AuError::OsStatus {
            function: "AudioUnitSetParameter",
            code: -10877
        })
    ));
}

#[test]
fn texts_and_values_are_taken_as_the_unit_gives_them() {
    let texts = vec!["Parametric".to_string(), "Band Pass".to_string()];
    assert_eq!(value_strings(Some(texts.clone())), texts);
    assert!(value_strings(None).is_empty());
    let view = ParamView::new(AudioUnit { address: 0x1000 });
    assert_eq!(view.value_strings(Some(texts.clone())), texts);
    assert_eq!(
        string_from_value(0, Some("-inf".to_string())),
        Some("-inf".to_string())
    );
    assert_eq!(string_from_value(-4, Some("x".to_string())), None);
    assert_eq!(value_from_string(0, value(5.0)), Some(value(5.0)));
    assert_eq!(value_from_string(-4, value(5.0)), None);
    assert_eq!(value_from_string(0, value(f32::NAN)), None);
    assert_eq!(value_from_string(0, value(f32::NEG_INFINITY)), None);
    assert_eq!(
        value_from_string(0, value(f32::MAX)),
        Some(value(f32::MAX))
    );
}

#[test]
fn a_view_answers_for_the_global_scope() {
    let view = ParamView::new(AudioUnit { address: 0x1000 });
    assert_eq!(view.get(0, value(0.25)).unwrap(), value(0.25));
    assert!(view.get(-10878, value(0.25)).is_err());
    assert!(view.set(0).is_ok());
    assert!(view.set(-10877).is_err());
    assert_eq!(
        view.string_from_value(0, Some("-6 dB".to_string())),
        Some("-6 dB".to_string())
    );
    assert_eq!(view.value_from_string(0, value(f32::NAN)), None);
    let params = view.list(&vec![
        ParameterAnswer { id: 1, info: None },
        ParameterAnswer {
            id: 2,
            info: Some(info(0)),
        },
    ]);
    assert_eq!(params.len(), 1);
    assert_eq!(params[0].id, 2);
}

/// A unit with two parameters at the global scope.
struct DelayUnit {
    list: Vec<u8>,
    values: Vec<(u32, f32)>,
}

fn delay_unit() -> DelayUnit {
    let mut list = Vec::new();
    list.extend_from_slice(&0u32.to_le_bytes());
    list.extend_from_slice(&1u32.to_le_bytes());
    DelayUnit {
        list,
        values: vec![(0, 1.0), (1, 1.0)],
    }
}

impl DelayUnit {
    fn list(&self) -> Vec<AuParameter> {
        let answers = parameter_ids(Some(self.list.clone()))
            .into_iter()
            .map(|id| ParameterAnswer {
                id,
                info: Some(info(K_AUDIO_UNIT_PARAMETER_FLAG_IS_WRITABLE)),
            })
            .collect();
        list_at(&answers)
    }

    fn set(&mut self, id: u32, v: f32) -> Result<(), AuError> {
        match self.values.iter_mut().find(|(i, _)| *i == id) {
            Some(slot) => {
                slot.1 = v;
                set_at(0)
            }
            None => set_at(-10878),
        }
    }

    fn get(&self, id: u32) -> Result<f32, AuError> {
        let (status, v) = match self.values.iter().find(|(i, _)| *i == id) {
            Some((_, v)) => (0, *v),
            None => (-10878, 0.0),
        };
        get_at(status, value(v)).map(|v| f32::from_bits(v.bits))
    }
}

#[test]
fn test_list() {
    let unit = delay_unit();
    let params = unit.list();
    assert!(!params.is_empty());
}

#[test]
fn test_get_set() {
    let mut unit = delay_unit();
    let params = unit.list();
    assert!(!params.is_empty());

    let p = &params[0];
    let mid = (f32::from_bits(p.range.min.bits) + f32::from_bits(p.range.max.bits)) * 0.5;
    unit.set(p.id, mid).unwrap();
    let val = unit.get(p.id).unwrap();
    assert!((val - mid).abs() < 0.01);
    assert!(unit.set(99, mid).is_err());
    assert!(unit.get(99).is_err());
}

#[test]
fn a_name_is_decoded_as_it_is_encoded() {
    let mut named = info(0);
    named.name = "R\u{e9}verb \u{266a}".as_bytes().to_vec();
    named.name.resize(52, 0);
    assert_eq!(describe(3, &named).name, "R\u{e9}verb \u{266a}");
}
