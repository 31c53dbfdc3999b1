use tutti_au_host::aupreset::{
    accept_preset, class_info_dictionary, dictionary_i64, dictionary_string,
    identity_from_dictionary, load_preset_file, new_preset_error, parse_preset_dictionary,
    read_preset_metadata, rebuild_with_identity, save_preset_file, AuPresetIdentity, PlistRoot,
    PresetEntry, PresetFailure, PresetValue,
};
use tutti_au_host::error::AuError;
use tutti_au_host::handle::AudioComponentDescription;

fn code(text: &[u8; 4]) -> u32 {
    u32::from_be_bytes(*text)
}

fn delay() -> AudioComponentDescription {
    AudioComponentDescription {
        component_type: code(b"aufx"),
        component_sub_type: code(b"dely"),
        component_manufacturer: code(b"appl"),
        component_flags: 0,
    }
}

fn number(key: &str, value: i64) -> PresetEntry {
    PresetEntry {
        key: Some(key.to_string()),
        value: PresetValue::Number(value),
    }
}

fn text(key: &str, value: &str) -> PresetEntry {
    PresetEntry {
        key: Some(key.to_string()),
        value: PresetValue::Text(value.to_string()),
    }
}

fn blob(key: Option<&str>, handle: usize) -> PresetEntry {
    PresetEntry {
        key: key.map(|k| k.to_string()),
        value: PresetValue::Carried {
            handle,
            number: None,
            text: None,
        },
    }
}

fn preset() -> Vec<PresetEntry> {
    vec![
        number("type", code(b"aufx") as i64),
        number("subtype", code(b"dely") as i64),
        number("manufacturer", code(b"appl") as i64),
        number("version", 3),
        text("name", "Slapback"),
        blob(Some("data"), 5),
    ]
}

fn invalid(r: Result<AuPresetIdentity, AuError>) -> (String, String) {
    match r {
        Err(AuError::InvalidPreset(e)) => (e.path, e.message),
        _ => panic!("expected an invalid preset"),
    }
}

#[test]
fn an_identity_is_read() {
    let identity = identity_from_dictionary(&preset(), "p").unwrap();
    assert!(identity.matches(code(b"aufx"), code(b"dely"), code(b"appl")));
    assert!(!identity.matches(code(b"aufx"), code(b"dist"), code(b"appl")));
    assert!(!identity.matches(code(b"aumu"), code(b"dely"), code(b"appl")));
    assert!(!identity.matches(code(b"aufx"), code(b"dely"), code(b"TALX")));
    assert_eq!(identity.version, 3);
    assert_eq!(identity.name.as_deref(), Some("Slapback"));
}

#[test]
fn the_first_missing_key_is_named() {
    for (missing, key) in [(0, "type"), (1, "subtype"), (2, "manufacturer")] {
        let mut dict = preset();
        dict.remove(missing);
        let (path, message) = invalid(identity_from_dictionary(&dict, "/p.aupreset"));
        assert_eq!(path, "/p.aupreset");
        assert_eq!(
            message,
            format!(
                "missing or non-numeric `{key}` key; a .aupreset must carry \
                 type/subtype/manufacturer so a host can tell which AU it is for"
            )
        );
    }
    let mut dict = preset();
    dict[0] = text("type", "aufx");
    assert!(invalid(identity_from_dictionary(&dict, "p"))
        .1
        .contains("`type`"));
}

#[test]
fn version_and_name_may_be_absent() {
    let mut dict = preset();
    dict.truncate(3);
    dict.push(number("name", 4));
    let identity = identity_from_dictionary(&dict, "p").unwrap();
    assert_eq!(identity.version, 0);
    assert_eq!(identity.name, None);
    assert_eq!(dictionary_i64(&dict, "name"), Some(4));
    assert_eq!(dictionary_string(&dict, "name"), None);
    assert_eq!(dictionary_string(&dict, "nothing"), None);
}

#[test]
fn a_code_stored_as_a_negative_number_is_the_same_code() {
    let mut dict = preset();
    let top = 0xC0DE_0001u32;
    dict[1] = number("subtype", top as i32 as i64);
    let identity = identity_from_dictionary(&dict, "p").unwrap();
    assert_eq!(identity.sub_type, top);
}

#[test]
fn a_file_that_is_no_preset_says_why() {
    let message = |bytes: &[u8], root: PlistRoot| {
        match parse_preset_dictionary(bytes, root, "f") {
            Err(AuError::InvalidPreset(e)) => e.message,
            _ => panic!("expected an invalid preset"),
        }
    };
    assert_eq!(message(&[], PlistRoot::Malformed), "the file is empty");
    assert_eq!(
        message(&[1], PlistRoot::Malformed),
        "not a property list (corrupt, truncated, or not a preset at all)"
    );
    assert_eq!(
        message(&[1], PlistRoot::Null),
        "the property list decoded to null"
    );
    assert_eq!(
        message(&[1], PlistRoot::NotDictionary),
        "the property list's root is not a dictionary; a .aupreset root \
         must be the AU's ClassInfo dictionary"
    );
    assert_eq!(
        parse_preset_dictionary(&[1], PlistRoot::Dictionary(preset()), "f")
            .unwrap()
            .len(),
        6
    );
    match class_info_dictionary(PlistRoot::Null) {
        Err(AuError::InvalidPreset(e)) => {
            assert_eq!(e.path, "<AU ClassInfo>");
            assert_eq!(e.message, "the AU returned a null ClassInfo");
        }
        _ => panic!("expected an invalid preset"),
    }
    assert!(matches!(
        class_info_dictionary(PlistRoot::NotDictionary),
        Err(AuError::InvalidPreset(_))
    ));
    assert!(class_info_dictionary(PlistRoot::Dictionary(vec![])).is_ok());
}

#[test]
fn a_preset_of_another_unit_is_refused() {
    let identity = read_preset_metadata(&[1], PlistRoot::Dictionary(preset()), "p").unwrap();
    assert!(accept_preset(&identity, "p", &delay()).is_ok());
    let other = AudioComponentDescription {
        component_sub_type: code(b"dist"),
        ..delay()
    };
    match load_preset_file(&[1], PlistRoot::Dictionary(preset()), "p", &other) {
        Err(AuError::PresetIdentityMismatch(m)) => {
            assert_eq!(m.path, "p");
            assert_eq!(m.file_type, "aufx");
            assert_eq!(m.file_sub_type, "dely");
            assert_eq!(m.file_manufacturer, "appl");
            assert_eq!(m.au_type, "aufx");
            assert_eq!(m.au_sub_type, "dist");
            assert_eq!(m.au_manufacturer, "appl");
        }
        _ => panic!("expected a mismatch"),
    }
    let loaded =
        load_preset_file(&[1], PlistRoot::Dictionary(preset()), "p", &delay()).unwrap();
    assert_eq!(loaded.name.as_deref(), Some("Slapback"));
    let mut newer = preset();
    newer[3] = number("version", 99);
    assert!(load_preset_file(&[1], PlistRoot::Dictionary(newer), "p", &delay()).is_ok());
}

fn shape(entries: &[PresetEntry]) -> Vec<String> {
    entries
        .iter()
        .map(|e| {
            let key = e.key.clone().unwrap_or("?".to_string());
            match &e.value {
                PresetValue::Carried { handle, .. } => format!("{key}#{handle}"),
                PresetValue::Number(n) => format!("{key}={n}"),
                PresetValue::Text(t) => format!("{key}:{t}"),
            }
        })
        .collect()
}

#[test]
fn rebuilding_replaces_the_named_keys_and_carries_the_rest() {
    let source = vec![
        blob(Some("data"), 1),
        number("type", 7),
        blob(None, 2),
        text("name", "old"),
        blob(Some("render-quality"), 3),
    ];
    let out = rebuild_with_identity(source, &[("type", 1), ("subtype", 2)], "new");
    assert_eq!(
        shape(&out),
        vec![
            "data#1",
            "?#2",
            "render-quality#3",
            "type=1",
            "subtype=2",
            "name:new"
        ]
    );
}

#[test]
fn a_saved_preset_loads_into_its_own_unit() {
    let wrong = vec![
        number("type", 1),
        number("version", 12),
        blob(Some("data"), 9),
        text("name", "factory"),
    ];
    let saved = save_preset_file(wrong, &delay(), "My Patch");
    assert_eq!(
        shape(&saved),
        vec![
            "data#9".to_string(),
            format!("type={}", code(b"aufx")),
            format!("subtype={}", code(b"dely")),
            format!("manufacturer={}", code(b"appl")),
            "version=12".to_string(),
            "name:My Patch".to_string(),
        ]
    );
    let identity =
        load_preset_file(&[1], PlistRoot::Dictionary(saved), "p", &delay()).unwrap();
    assert_eq!(identity.version, 12);
    assert_eq!(identity.name.as_deref(), Some("My Patch"));

    let unversioned = save_preset_file(vec![], &delay(), "n");
    assert_eq!(dictionary_i64(&unversioned, "version"), Some(0));
}

#[test]
fn a_preset_that_could_not_be_made_says_so() {
    for (failure, expected) in [
        (PresetFailure::Dictionary, "CFDictionaryCreate failed"),
        (
            PresetFailure::Serialization,
            "CFPropertyListCreateData failed",
        ),
    ] {
        match new_preset_error(failure) {
            AuError::InvalidPreset(e) => {
                assert_eq!(e.path, "<new preset>");
                assert_eq!(e.message, expected);
            }
            _ => panic!("expected an invalid preset"),
        }
    }
}
