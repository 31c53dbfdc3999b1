use tutti_au_host::bytes::{push_u32, read_i16, read_u16, read_u32, read_u64};
use tutti_au_host::editor::{check_view_info, view_error, ViewFailure, COCOA_VIEW_INFO_SIZE};
use tutti_au_host::error::{
    os_status_message, os_status_text, AuError, LoadStage, PresetMismatch,
};
use tutti_au_host::ffi::{check, get_property_bytes, property_size};
use tutti_au_host::float::Float64;
use tutti_au_host::handle::{
    admit_component, admit_description, component_triple, display_name, AuHandle, AuType,
    AudioComponent, AudioComponentDescription, AudioUnit,
};
use tutti_au_host::identity::{named, parameters_for_overview, set_name, OverviewParameter};
use tutti_au_host::preset::{current_preset, factory_presets, is_preset_address, PresetSlot};
use tutti_au_host::restore::{
    load_document_state, load_state, restore_answer, save_state, Decoded, RestoreRequest,
    RestoreStep, SavedState,
};
use tutti_au_host::text::fourcc_to_string;

fn code(text: &[u8; 4]) -> u32 {
    u32::from_be_bytes(*text)
}

fn delay() -> AudioComponentDescription {
    AudioComponentDescription {
        component_type: code(b"aufx"),
        component_sub_type: code(b"dely"),
        component_manufacturer: code(b"appl"),
        component_flags: 0,
    }
}

#[test]
fn well_known_statuses_have_names() {
    for (status, name) in [
        (-10879, "invalid property"),
        (-10878, "invalid parameter"),
        (-10877, "invalid element"),
        (-10876, "no connection"),
        (-10875, "failed initialization"),
        (-10874, "too many frames to process"),
        (-10871, "invalid file"),
        (-10870, "unknown file type"),
        (-10869, "file not specified"),
        (-10868, "format not supported"),
        (-10867, "uninitialized"),
        (-10866, "invalid scope"),
        (-10865, "property not writable"),
        (-10863, "cannot do in current context"),
        (-10851, "invalid property value"),
        (-10850, "property not in use"),
        (-10849, "already initialized"),
        (-10848, "invalid offline render"),
        (-10847, "unauthorized"),
        (-50, "unknown error"),
        (0, "unknown error"),
    ] {
        assert_eq!(os_status_message(status), name);
        let e = AuError::OsStatus {
            function: "f",
            code: status,
        };
        assert_eq!(e.message(), name);
    }
    assert_eq!(
        os_status_text("AudioUnitInitialize", -10875),
        "AudioUnit error in AudioUnitInitialize: OSStatus -10875 (failed initialization)"
    );
    assert_eq!(
        os_status_text("f", 0),
        "AudioUnit error in f: OSStatus 0 (unknown error)"
    );
}

#[test]
fn every_error_has_a_message() {
    let rate = Float64 { bits: 0 };
    let empty = String::new;
    let cases = [
        (
            AuError::load_failed(empty(), LoadStage::Setup, empty()),
            "unknown error",
        ),
        (AuError::NullComponent, "null component"),
        (
            AuError::RequiresAsyncInstantiation,
            "component requires asynchronous instantiation (AUv3 with a view)",
        ),
        (
            AuError::CfStringAlloc,
            "CoreFoundation string allocation failed",
        ),
        (AuError::InvalidBuffer(empty()), "invalid buffer"),
        (
            AuError::SampleRateRejected {
                scope: "input",
                requested: rate,
                accepted: rate,
            },
            "sample rate rejected",
        ),
        (
            AuError::BlockSizeRejected {
                requested: 1,
                accepted: 2,
            },
            "block size rejected",
        ),
        (
            AuError::render_failed("AudioUnitRender", -10874, None),
            "too many frames to process",
        ),
        (AuError::preset_io(empty(), empty()), "preset file I/O failed"),
        (
            AuError::invalid_preset(empty(), empty()),
            "not a valid .aupreset",
        ),
        (
            AuError::PresetIdentityMismatch(Box::new(PresetMismatch {
                path: empty(),
                file_type: empty(),
                file_sub_type: empty(),
                file_manufacturer: empty(),
                au_type: empty(),
                au_sub_type: empty(),
                au_manufacturer: empty(),
            })),
            "preset belongs to a different Audio Unit",
        ),
    ];
    for (error, message) in cases {
        assert_eq!(error.message(), message);
    }
    match AuError::preset_io("/p".to_string(), "denied".to_string()) {
        AuError::PresetIo(e) => {
            assert_eq!((e.path.as_str(), e.message.as_str()), ("/p", "denied"))
        }
        _ => panic!("expected an i/o error"),
    }
}

#[test]
fn property_reads_are_cut_to_what_was_filled() {
    assert!(check("f", 0).is_ok());
    assert!(matches!(
        check("f", -1),
        Err(AuError::OsStatus {
            function: "f",
            code: -1
        })
    ));
    assert_eq!(property_size(0, 12).unwrap(), 12);
    assert!(matches!(
        property_size(-10879, 12),
        Err(AuError::OsStatus {
            function: "AudioUnitGetPropertyInfo",
            code: -10879
        })
    ));
    assert_eq!(get_property_bytes(0, vec![1, 2, 3], 2).unwrap(), vec![1, 2]);
    assert_eq!(
        get_property_bytes(0, vec![1, 2, 3], 9).unwrap(),
        vec![1, 2, 3]
    );
    assert!(matches!(
        get_property_bytes(-4, vec![1], 1),
        Err(AuError::OsStatus {
            function: "AudioUnitGetProperty",
            code: -4
        })
    ));
}

#[test]
fn numbers_are_little_endian() {
    let bytes = [0x01, 0x02, 0xFE, 0xFF, 0x05, 0x06, 0x07, 0x08, 0x09];
    assert_eq!(read_u16(&bytes, 0), 0x0201);
    assert_eq!(read_i16(&bytes, 2), -2);
    assert_eq!(read_i16(&bytes, 0), 0x0201);
    assert_eq!(read_u32(&bytes, 1), 0x05FF_FE02);
    assert_eq!(read_u64(&bytes, 1), 0x0908_0706_05FF_FE02);
    let mut out = vec![7];
    push_u32(&mut out, 0xDEAD_BEEF);
    assert_eq!(out, vec![7, 0xEF, 0xBE, 0xAD, 0xDE]);
}

#[test]
fn a_component_is_named_by_its_codes() {
    assert_eq!(component_triple(&delay()), "aufx/dely/appl");
    assert_eq!(fourcc_to_string(code(b"TOGU")), "TOGU");
    assert_eq!(fourcc_to_string(0x6100_FF62), "a\u{0}\u{FFFD}b");
}

#[test]
fn a_component_that_cannot_be_made_here_is_refused() {
    assert!(matches!(
        admit_component(AudioComponent { address: 0 }),
        Err(AuError::NullComponent)
    ));
    assert!(admit_component(AudioComponent { address: 8 }).is_ok());
    match admit_description(-50, &delay()) {
        Err(AuError::LoadFailed {
            component,
            stage,
            reason,
        }) => {
            assert_eq!(component, "<undescribed>");
            assert_eq!(stage, LoadStage::Opening);
            assert_eq!(
                reason,
                "AudioUnit error in AudioComponentGetDescription: OSStatus -50 (unknown error)"
            );
        }
        _ => panic!("expected a failed load"),
    }
    let v3 = AudioComponentDescription {
        component_flags: 0b110,
        ..delay()
    };
    assert!(matches!(
        admit_description(0, &v3),
        Err(AuError::RequiresAsyncInstantiation)
    ));
    assert!(admit_description(0, &delay()).is_ok());
}

#[test]
fn a_handle_remembers_what_it_was_made_of() {
    let component = AudioComponent { address: 8 };
    let unit = AudioUnit { address: 16 };
    let handle = AuHandle::new(component, &delay(), 0, unit).unwrap();
    assert_eq!(handle.raw_unit(), unit);
    assert_eq!(handle.component(), component);
    assert_eq!(handle.au_type(), AuType::Effect);
    match AuHandle::new(component, &delay(), -10863, unit) {
        Err(AuError::LoadFailed {
            component,
            stage,
            reason,
        }) => {
            assert_eq!(component, "aufx/dely/appl");
            assert_eq!(stage, LoadStage::Instantiation);
            assert_eq!(
                reason,
                "AudioUnit error in AudioComponentInstanceNew: OSStatus -10863 \
                 (cannot do in current context)"
            );
        }
        _ => panic!("expected a failed load"),
    }
    assert_eq!(AuType::from_raw(code(b"aumu")), AuType::Instrument);
    assert_eq!(AuType::from_raw(code(b"aumf")), AuType::MusicEffect);
    assert_eq!(AuType::from_raw(code(b"augn")), AuType::Generator);
    assert_eq!(AuType::from_raw(code(b"aumx")), AuType::Mixer);
    assert_eq!(AuType::from_raw(5), AuType::Unknown(5));
    assert_eq!(display_name(0, Some("AUDelay".to_string())), "AUDelay");
    assert_eq!(display_name(-1, Some("AUDelay".to_string())), "<unknown>");
    assert_eq!(display_name(0, None), "<unknown>");
}

#[test]
fn a_shortlist_is_decoded_without_its_handles() {
    let mut bytes = vec![0xAAu8; 24];
    bytes[8..12].copy_from_slice(&7u32.to_le_bytes());
    bytes[12..16].copy_from_slice(&0u32.to_le_bytes());
    bytes[16..20].copy_from_slice(&3u32.to_le_bytes());
    let mut two = bytes.clone();
    two.extend_from_slice(&bytes);
    two.extend_from_slice(&[1; 23]);
    let entry = OverviewParameter {
        id: 7,
        scope: 0,
        element: 3,
    };
    assert_eq!(
        parameters_for_overview(Ok(two)).unwrap(),
        vec![entry, entry]
    );
    assert!(parameters_for_overview(Ok(vec![])).unwrap().is_empty());
    assert!(matches!(
        parameters_for_overview(Err(AuError::NullComponent)),
        Err(AuError::NullComponent)
    ));
}

#[test]
fn a_name_that_was_not_set_is_never_reported_as_set() {
    assert!(set_name(true, 0).is_ok());
    assert!(matches!(set_name(false, 0), Err(AuError::CfStringAlloc)));
    assert!(matches!(
        set_name(true, -10879),
        Err(AuError::OsStatus {
            function: "AudioUnitSetProperty",
            code: -10879
        })
    ));
    assert_eq!(named(0, None).unwrap(), None);
    assert_eq!(
        named(0, Some("Bass".to_string())).unwrap(),
        Some("Bass".to_string())
    );
    assert!(named(-10879, None).is_err());
}

fn slot(address: usize, number: i32, name: Option<&str>) -> PresetSlot {
    PresetSlot {
        address,
        number,
        name: name.map(|n| n.to_string()),
    }
}

#[test]
fn a_preset_less_unit_reports_no_selection_rather_than_a_fabricated_preset() {
    assert!(factory_presets(Some(vec![])).is_empty());
    let current = current_preset(-1, Some("Untitled".to_string()));
    assert!(current.number < 0);
    assert_eq!(current.name, "Untitled");
    assert_eq!(current_preset(-1, None).name, "");
}

#[test]
fn only_real_slots_are_presets() {
    let presets = factory_presets(Some(vec![
        slot(0x1000, 0, Some("Default")),
        slot(0, 1, Some("null")),
        slot(0x1004, 2, Some("misaligned")),
        slot(0x1010, 40, None),
    ]));
    assert_eq!(presets.len(), 2);
    assert_eq!(presets[0].number, 0);
    assert_eq!(presets[0].name, "Default");
    assert_eq!(presets[1].number, 40);
    assert_eq!(presets[1].name, "");
    assert!(is_preset_address(8));
    assert!(!is_preset_address(0));
    assert!(!is_preset_address(12));
}

fn asks(step: RestoreStep) -> RestoreRequest {
    match step {
        RestoreStep::Ask(request) => request,
        RestoreStep::Done(_) => panic!("expected a request"),
    }
}

fn ends(step: RestoreStep) -> Result<(), AuError> {
    match step {
        RestoreStep::Done(result) => result,
        RestoreStep::Ask(_) => panic!("expected an end"),
    }
}

#[test]
fn a_document_is_offered_as_one_first() {
    assert_eq!(
        asks(load_document_state(&[1], Decoded::Plist)),
        RestoreRequest::SetFromDocument
    );
    assert_eq!(
        asks(restore_answer(RestoreRequest::SetFromDocument, -10879)),
        RestoreRequest::SetClassInfo
    );
    assert_eq!(
        asks(restore_answer(RestoreRequest::SetFromDocument, 0)),
        RestoreRequest::NotifyAllParameters
    );
    assert_eq!(
        asks(restore_answer(RestoreRequest::SetClassInfo, 0)),
        RestoreRequest::NotifyAllParameters
    );
    assert!(matches!(
        ends(restore_answer(RestoreRequest::SetClassInfo, -10851)),
        Err(AuError::OsStatus {
            function: "AudioUnitSetProperty",
            code: -10851
        })
    ));
    assert!(
        ends(restore_answer(RestoreRequest::NotifyAllParameters, -50)).is_ok(),
        "the state is in place whatever the notification came to"
    );
}

#[test]
fn bytes_that_are_no_state_never_reach_the_unit() {
    assert!(ends(load_state(&[], Decoded::Malformed)).is_ok());
    assert_eq!(
        asks(load_state(&[1], Decoded::Plist)),
        RestoreRequest::SetClassInfo
    );
    match ends(load_state(&[1], Decoded::Malformed)) {
        Err(AuError::InvalidBuffer(reason)) => assert_eq!(reason, "failed to decode plist"),
        _ => panic!("expected an invalid buffer"),
    }
    match ends(load_document_state(&[1], Decoded::Null)) {
        Err(AuError::InvalidBuffer(reason)) => assert_eq!(reason, "decoded plist was null"),
        _ => panic!("expected an invalid buffer"),
    }
}

#[test]
fn test_save_load_state() {
    let state = save_state(SavedState::Bytes(vec![1, 2, 3])).unwrap();
    assert!(!state.is_empty());
    assert_eq!(
        asks(load_state(&state, Decoded::Plist)),
        RestoreRequest::SetClassInfo
    );
    assert!(save_state(SavedState::Null).unwrap().is_empty());
    match save_state(SavedState::Unserializable) {
        Err(AuError::InvalidBuffer(reason)) => {
            assert_eq!(reason, "CFPropertyListCreateData failed")
        }
        _ => panic!("expected an invalid buffer"),
    }
}

#[test]
fn a_view_that_cannot_be_made_says_why() {
    assert!(check_view_info(COCOA_VIEW_INFO_SIZE, true, true).is_ok());
    assert!(check_view_info(8, true, true).is_ok());
    assert!(check_view_info(1, true, true).is_ok());
    assert!(matches!(
        check_view_info(0, true, true),
        Err(AuError::OsStatus {
            function: "GetProperty(CocoaUI)",
            code: -10879
        })
    ));
    let reason = |e: AuError| match e {
        AuError::InvalidBuffer(reason) => reason,
        _ => panic!("expected an invalid buffer"),
    };
    assert_eq!(
        reason(check_view_info(16, false, true).unwrap_err()),
        "CocoaUI info has null bundle URL"
    );
    assert_eq!(
        reason(check_view_info(16, true, false).unwrap_err()),
        "CocoaUI info has null class name"
    );
    assert_eq!(
        reason(check_view_info(8, true, false).unwrap_err()),
        "CocoaUI info has null class name"
    );
    assert_eq!(
        reason(view_error(ViewFailure::Bundle, "X")),
        "Failed to load AU view bundle"
    );
    assert_eq!(
        reason(view_error(ViewFailure::ClassName, "X")),
        "Invalid class name: X"
    );
    assert_eq!(
        reason(view_error(ViewFailure::Class, "X")),
        "ObjC class 'X' not found in bundle"
    );
    assert_eq!(
        reason(view_error(ViewFailure::Factory, "X")),
        "Failed to instantiate AU view factory"
    );
    assert_eq!(
        reason(view_error(ViewFailure::View, "X")),
        "AU view factory returned null view"
    );
}

#[test]
fn presets_and_file_errors_compare_by_content() {
    assert_eq!(
        current_preset(3, Some("Hall".to_string())),
        factory_presets(Some(vec![slot(0x1000, 3, Some("Hall"))]))[0]
    );
    assert_ne!(
        current_preset(3, Some("Hall".to_string())),
        current_preset(4, Some("Hall".to_string()))
    );
    let boxed = |e: AuError| match e {
        AuError::InvalidPreset(e) => *e,
        _ => panic!("expected an invalid preset"),
    };
    let error = |message: &str| {
        boxed(AuError::invalid_preset(
            "a.aupreset".to_string(),
            message.to_string(),
        ))
    };
    assert_eq!(error("empty"), error("empty"));
    assert_ne!(error("empty"), error("null"));
}
