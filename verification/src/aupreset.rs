//! Preset files: which Audio Unit a preset belongs to, and what a saved preset
//! holds.
//!
//! A preset is a property list whose root dictionary is the state a unit
//! serialized itself into, together with the keys that say which unit that
//! was. A unit believes those keys and casts the state to its own, so they are
//! checked here before anything reaches it.
//!
//! The version is not part of the check: a preset must stay loadable across
//! updates of its plugin, and only the unit knows whether its format changed.
use vstd::prelude::*;
use vstd::string::*;
use crate::error::{outcome, AuError, ErrorView, PresetMismatch};
use crate::handle::AudioComponentDescription;
use crate::text::{fourcc_text, fourcc_to_string, same_text};

verus! {

/// The key of the component type.
pub const KEY_TYPE: &'static str = "type";

/// The key of the component subtype.
pub const KEY_SUBTYPE: &'static str = "subtype";

/// The key of the component manufacturer.
pub const KEY_MANUFACTURER: &'static str = "manufacturer";

/// The key of the unit's own state-format version.
pub const KEY_VERSION: &'static str = "version";

/// The key of the preset's display name.
pub const KEY_NAME: &'static str = "name";

// ---------------------------------------------------------------------------
// Dictionaries
// ---------------------------------------------------------------------------
/// A value of a preset dictionary.
#[derive(Debug)]
pub enum PresetValue {
    /// A value of the dictionary that was read, kept as it is: `handle` names
    /// the object, `number` and `text` are what it reads as where it is an
    /// integer or a string.
    Carried { handle: usize, number: Option<i64>, text: Option<String> },
    /// A new integer.
    Number(i64),
    /// A new text.
    Text(String),
}

/// An entry of a preset dictionary. The key is `None` where it is not a
/// readable text.
#[derive(Debug)]
pub struct PresetEntry {
    pub key: Option<String>,
    pub value: PresetValue,
}

/// A value, texts taken by their characters.
#[allow(inconsistent_fields)]
pub ghost enum ValueView {
    Carried { handle: usize, number: Option<i64>, text: Option<Seq<char>> },
    Number { value: i64 },
    Text { value: Seq<char> },
}

/// An entry, texts taken by their characters.
pub ghost struct EntryView {
    pub key: Option<Seq<char>>,
    pub value: ValueView,
}

/// An optional text by its characters.
pub open spec fn optional_text(t: Option<String>) -> Option<Seq<char>> {
    match t {
        Some(s) => Some(s@),
        None => None,
    }
}

impl View for PresetValue {
    type V = ValueView;

    open spec fn view(&self) -> ValueView {
        match *self {
            PresetValue::Carried { handle, number, text } => ValueView::Carried {
                handle,
                number,
                text: optional_text(text),
            },
            PresetValue::Number(value) => ValueView::Number { value },
            PresetValue::Text(value) => ValueView::Text { value: value@ },
        }
    }
}

impl View for PresetEntry {
    type V = EntryView;

    open spec fn view(&self) -> EntryView {
        EntryView { key: optional_text(self.key), value: self.value@ }
    }
}

impl ValueView {
    /// The integer that the value is, if it is one.
    pub open spec fn number(self) -> Option<i64> {
        match self {
            ValueView::Carried { number, .. } => number,
            ValueView::Number { value } => Some(value),
            ValueView::Text { .. } => None,
        }
    }

    /// The text that the value is, if it is one.
    pub open spec fn text(self) -> Option<Seq<char>> {
        match self {
            ValueView::Carried { text, .. } => text,
            ValueView::Number { .. } => None,
            ValueView::Text { value } => Some(value),
        }
    }
}

/// The entries of a dictionary.
pub open spec fn entries(dict: Seq<PresetEntry>) -> Seq<EntryView> {
    dict.map_values(|e: PresetEntry| e@)
}

/// The value under `key`.
pub open spec fn lookup(dict: Seq<EntryView>, key: Seq<char>) -> Option<ValueView>
    decreases dict.len(),
{
    if dict.len() == 0 {
        None
    } else if dict[0].key == Some(key) {
        Some(dict[0].value)
    } else {
        lookup(dict.skip(1), key)
    }
}

/// The integer under `key`.
pub open spec fn number_under(dict: Seq<EntryView>, key: Seq<char>) -> Option<i64> {
    match lookup(dict, key) {
        Some(value) => value.number(),
        None => None,
    }
}

/// The text under `key`.
pub open spec fn text_under(dict: Seq<EntryView>, key: Seq<char>) -> Option<Seq<char>> {
    match lookup(dict, key) {
        Some(value) => value.text(),
        None => None,
    }
}

/// The position of the entry under `key`.
fn position_of(dict: &Vec<PresetEntry>, key: &str) -> (at: Option<usize>)
    ensures
        at matches Some(i) ==> i < dict@.len() && lookup(entries(dict@), key@) == Some(
            dict@[i as int].value@,
        ),
        at is None ==> lookup(entries(dict@), key@) is None,
{
    let mut i: usize = 0;
    assert(entries(dict@).skip(0) =~= entries(dict@));
    while i < dict.len()
        invariant
            i <= dict@.len(),
            lookup(entries(dict@), key@) == lookup(entries(dict@).skip(i as int), key@),
        decreases dict@.len() - i,
    {
        let ghost rest = entries(dict@).skip(i as int);
        assert(rest[0] == dict@[i as int]@);
        assert(rest.skip(1) =~= entries(dict@).skip(i + 1));
        match &dict[i].key {
            Some(k) => {
                if same_text(k, key) {
                    return Some(i);
                }
            },
            None => {},
        }
        i = i + 1;
    }
    None
}

/// The integer under `key`, or `None` where the key is absent or its value is
/// not a number. A code stored as a text is not guessed at.
pub fn dictionary_i64(dict: &Vec<PresetEntry>, key: &str) -> (n: Option<i64>)
    ensures
        n == number_under(entries(dict@), key@),
{
    match position_of(dict, key) {
        None => None,
        Some(i) => match &dict[i].value {
            PresetValue::Carried { number, .. } => *number,
            PresetValue::Number(value) => Some(*value),
            PresetValue::Text(_) => None,
        },
    }
}

/// The text under `key`, or `None` where the key is absent or its value is not
/// a text.
pub fn dictionary_string(dict: &Vec<PresetEntry>, key: &str) -> (t: Option<String>)
    ensures
        optional_text(t) == text_under(entries(dict@), key@),
{
    match position_of(dict, key) {
        None => None,
        Some(i) => match &dict[i].value {
            PresetValue::Carried { text, .. } => match text {
                Some(t) => Some(t.clone()),
                None => None,
            },
            PresetValue::Number(_) => None,
            PresetValue::Text(value) => Some(value.clone()),
        },
    }
}

// ---------------------------------------------------------------------------
// Identity
// ---------------------------------------------------------------------------
/// Which unit a preset says it belongs to, and its display name.
///
/// The codes are numbers: decoded to text, two different codes may read the
/// same.
#[derive(Clone, Debug, PartialEq, Eq)]
pub struct AuPresetIdentity {
    pub component_type: u32,
    pub sub_type: u32,
    pub manufacturer: u32,
    /// The unit's own state-format version. Reported, never compared.
    pub version: i64,
    /// The display name, where the file has one.
    pub name: Option<String>,
}

/// An identity, its name taken by its characters.
pub ghost struct IdentityView {
    pub component_type: u32,
    pub sub_type: u32,
    pub manufacturer: u32,
    pub version: i64,
    pub name: Option<Seq<char>>,
}

impl View for AuPresetIdentity {
    type V = IdentityView;

    open spec fn view(&self) -> IdentityView {
        IdentityView {
            component_type: self.component_type,
            sub_type: self.sub_type,
            manufacturer: self.manufacturer,
            version: self.version,
            name: optional_text(self.name),
        }
    }
}

impl IdentityView {
    /// Whether the identity is that of a component: all three codes agree.
    pub open spec fn matches_component(self, desc: AudioComponentDescription) -> bool {
        &&& self.component_type == desc.component_type
        &&& self.sub_type == desc.component_sub_type
        &&& self.manufacturer == desc.component_manufacturer
    }
}

impl AuPresetIdentity {
    /// Whether a preset of this identity may be applied to the unit with the
    /// given codes. All three must agree; the version and the name do not
    /// count.
    pub fn matches(&self, component_type: u32, sub_type: u32, manufacturer: u32) -> (yes: bool)
        ensures
            yes == (self@.component_type == component_type && self@.sub_type == sub_type
                && self@.manufacturer == manufacturer),
    {
        self.component_type == component_type && self.sub_type == sub_type && self.manufacturer
            == manufacturer
    }
}

/// What is said of a file that lacks an identity key.
pub open spec fn missing_key_message(key: Seq<char>) -> Seq<char> {
    "missing or non-numeric `"@ + key
        + "` key; a .aupreset must carry type/subtype/manufacturer so a host can tell which AU it is for"@
}

/// The first identity key that a dictionary lacks or that is not a number.
pub open spec fn first_missing_key(dict: Seq<EntryView>) -> Option<Seq<char>> {
    if number_under(dict, KEY_TYPE@) is None {
        Some(KEY_TYPE@)
    } else if number_under(dict, KEY_SUBTYPE@) is None {
        Some(KEY_SUBTYPE@)
    } else if number_under(dict, KEY_MANUFACTURER@) is None {
        Some(KEY_MANUFACTURER@)
    } else {
        None
    }
}

/// The low 32 bits of a stored code. Codes are stored as signed integers, so
/// one with its top bit set may come as a negative number.
pub open spec fn code_of(stored: i64) -> u32 {
    stored as u32
}

/// The identity that a dictionary with all identity keys carries.
pub open spec fn identity_in(dict: Seq<EntryView>) -> IdentityView {
    IdentityView {
        component_type: code_of(number_under(dict, KEY_TYPE@)->0),
        sub_type: code_of(number_under(dict, KEY_SUBTYPE@)->0),
        manufacturer: code_of(number_under(dict, KEY_MANUFACTURER@)->0),
        version: match number_under(dict, KEY_VERSION@) {
            Some(v) => v,
            None => 0,
        },
        name: text_under(dict, KEY_NAME@),
    }
}

/// An identity outcome by its contents.
pub open spec fn identity_outcome(r: Result<AuPresetIdentity, AuError>) -> Result<
    IdentityView,
    ErrorView,
> {
    match r {
        Ok(i) => Ok(i@),
        Err(e) => Err(e@),
    }
}

/// What reading the identity of a dictionary gives.
pub open spec fn read_identity(dict: Seq<EntryView>, path: Seq<char>) -> Result<
    IdentityView,
    ErrorView,
> {
    match first_missing_key(dict) {
        Some(key) => Err(ErrorView::InvalidPreset { path, message: missing_key_message(key) }),
        None => Ok(identity_in(dict)),
    }
}

fn missing_key(path: &str, key: &str) -> (e: AuError)
    ensures
        e@ == (ErrorView::InvalidPreset { path: path@, message: missing_key_message(key@) }),
{
    let mut message = "missing or non-numeric `".to_owned();
    message.append(key);
    message.append(
        "` key; a .aupreset must carry type/subtype/manufacturer so a host can tell which AU it is for",
    );
    AuError::invalid_preset(path.to_owned(), message)
}

fn low_code(stored: i64) -> (code: u32)
    ensures
        code == code_of(stored),
{
    #[verifier::truncate]
    (stored as u32)
}

/// The identity that a preset dictionary carries, or an error that names the
/// first missing or non-numeric identity key. An absent version is zero; a
/// missing name is not an error.
pub fn identity_from_dictionary(dict: &Vec<PresetEntry>, path: &str) -> (r: Result<
    AuPresetIdentity,
    AuError,
>)
    ensures
        identity_outcome(r) == read_identity(entries(dict@), path@),
{
    let component_type = match dictionary_i64(dict, KEY_TYPE) {
        Some(v) => v,
        None => return Err(missing_key(path, KEY_TYPE)),
    };
    let sub_type = match dictionary_i64(dict, KEY_SUBTYPE) {
        Some(v) => v,
        None => return Err(missing_key(path, KEY_SUBTYPE)),
    };
    let manufacturer = match dictionary_i64(dict, KEY_MANUFACTURER) {
        Some(v) => v,
        None => return Err(missing_key(path, KEY_MANUFACTURER)),
    };
    let version = match dictionary_i64(dict, KEY_VERSION) {
        Some(v) => v,
        None => 0,
    };
    Ok(
        AuPresetIdentity {
            component_type: low_code(component_type),
            sub_type: low_code(sub_type),
            manufacturer: low_code(manufacturer),
            version,
            name: dictionary_string(dict, KEY_NAME),
        },
    )
}

// ---------------------------------------------------------------------------
// Reading a file
// ---------------------------------------------------------------------------
/// What a property-list parser makes of a file.
#[derive(Debug)]
pub enum PlistRoot {
    /// It is not a property list.
    Malformed,
    /// It decoded to nothing.
    Null,
    /// Its root is something other than a dictionary.
    NotDictionary,
    /// Its root dictionary.
    Dictionary(Vec<PresetEntry>),
}

/// Why a parsed file is not a preset dictionary, if it is not.
pub open spec fn root_fault(empty: bool, root: PlistRoot) -> Option<Seq<char>> {
    if empty {
        Some("the file is empty"@)
    } else {
        match root {
            PlistRoot::Malformed => Some(
                "not a property list (corrupt, truncated, or not a preset at all)"@,
            ),
            PlistRoot::Null => Some("the property list decoded to null"@),
            PlistRoot::NotDictionary => Some(
                "the property list's root is not a dictionary; a .aupreset root must be the AU's ClassInfo dictionary"@,
            ),
            PlistRoot::Dictionary(_) => None,
        }
    }
}

/// The dictionary of a preset file, given its bytes and what a property-list
/// parser makes of them. An empty file is named as such whatever the parser
/// says of it.
pub fn parse_preset_dictionary(bytes: &[u8], root: PlistRoot, path: &str) -> (r: Result<
    Vec<PresetEntry>,
    AuError,
>)
    ensures
        root_fault(bytes@.len() == 0, root) matches Some(message) ==> outcome(r) == Err::<
            Vec<PresetEntry>,
            ErrorView,
        >(ErrorView::InvalidPreset { path: path@, message }),
        root_fault(bytes@.len() == 0, root) is None ==> r == Ok::<Vec<PresetEntry>, AuError>(
            root->Dictionary_0,
        ),
{
    if bytes.len() == 0 {
        return Err(AuError::invalid_preset(path.to_owned(), "the file is empty".to_owned()));
    }
    match root {
        PlistRoot::Malformed => Err(
            AuError::invalid_preset(
                path.to_owned(),
                "not a property list (corrupt, truncated, or not a preset at all)".to_owned(),
            ),
        ),
        PlistRoot::Null => Err(
            AuError::invalid_preset(
                path.to_owned(),
                "the property list decoded to null".to_owned(),
            ),
        ),
        PlistRoot::NotDictionary => Err(
            AuError::invalid_preset(
                path.to_owned(),
                "the property list's root is not a dictionary; a .aupreset root must be the AU's ClassInfo dictionary".to_owned(),
            ),
        ),
        PlistRoot::Dictionary(dict) => Ok(dict),
    }
}

/// The dictionary that a unit hands over as its state. A unit that answers with
/// anything else cannot be saved as a preset.
pub fn class_info_dictionary(root: PlistRoot) -> (r: Result<Vec<PresetEntry>, AuError>)
    ensures
        root is Dictionary ==> r == Ok::<Vec<PresetEntry>, AuError>(root->Dictionary_0),
        root is Null ==> outcome(r) == Err::<Vec<PresetEntry>, ErrorView>(
            ErrorView::InvalidPreset {
                path: "<AU ClassInfo>"@,
                message: "the AU returned a null ClassInfo"@,
            },
        ),
        root is NotDictionary || root is Malformed ==> outcome(r) == Err::<
            Vec<PresetEntry>,
            ErrorView,
        >(
            ErrorView::InvalidPreset {
                path: "<AU ClassInfo>"@,
                message: "the AU's ClassInfo is not a dictionary, so it cannot be written as a .aupreset"@,
            },
        ),
{
    match root {
        PlistRoot::Dictionary(dict) => Ok(dict),
        PlistRoot::Null => Err(
            AuError::invalid_preset(
                "<AU ClassInfo>".to_owned(),
                "the AU returned a null ClassInfo".to_owned(),
            ),
        ),
        _ => Err(
            AuError::invalid_preset(
                "<AU ClassInfo>".to_owned(),
                "the AU's ClassInfo is not a dictionary, so it cannot be written as a .aupreset".to_owned(),
            ),
        ),
    }
}

/// What listing or loading a file makes of it before any unit is involved.
pub open spec fn file_identity(empty: bool, root: PlistRoot, path: Seq<char>) -> Result<
    IdentityView,
    ErrorView,
> {
    match root_fault(empty, root) {
        Some(message) => Err(ErrorView::InvalidPreset { path, message }),
        None => read_identity(entries(root->Dictionary_0@), path),
    }
}

/// The identity and name of a preset file, read without applying it to any
/// unit: what a preset browser lists.
pub fn read_preset_metadata(bytes: &[u8], root: PlistRoot, path: &str) -> (r: Result<
    AuPresetIdentity,
    AuError,
>)
    ensures
        identity_outcome(r) == file_identity(bytes@.len() == 0, root, path@),
{
    match parse_preset_dictionary(bytes, root, path) {
        Err(e) => Err(e),
        Ok(dict) => identity_from_dictionary(&dict, path),
    }
}

/// How a preset of another unit is refused.
pub open spec fn mismatch(
    path: Seq<char>,
    identity: IdentityView,
    desc: AudioComponentDescription,
) -> ErrorView {
    ErrorView::PresetIdentityMismatch {
        path,
        file_type: fourcc_text(identity.component_type),
        file_sub_type: fourcc_text(identity.sub_type),
        file_manufacturer: fourcc_text(identity.manufacturer),
        au_type: fourcc_text(desc.component_type),
        au_sub_type: fourcc_text(desc.component_sub_type),
        au_manufacturer: fourcc_text(desc.component_manufacturer),
    }
}

/// What loading a file into the unit that `desc` describes comes to, up to
/// handing the dictionary to the unit.
pub open spec fn load_outcome(
    empty: bool,
    root: PlistRoot,
    path: Seq<char>,
    desc: AudioComponentDescription,
) -> Result<IdentityView, ErrorView> {
    match file_identity(empty, root, path) {
        Err(e) => Err(e),
        Ok(identity) => if identity.matches_component(desc) {
            Ok(identity)
        } else {
            Err(mismatch(path, identity, desc))
        },
    }
}

/// Whether a preset of `identity` may be applied to the unit that `desc`
/// describes. A preset of another unit is refused with both triples as text.
pub fn accept_preset(
    identity: &AuPresetIdentity,
    path: &str,
    desc: &AudioComponentDescription,
) -> (r: Result<(), AuError>)
    ensures
        r is Ok <==> identity.component_type == desc.component_type && identity.sub_type
            == desc.component_sub_type && identity.manufacturer == desc.component_manufacturer,
        outcome(r) == (if identity@.matches_component(*desc) {
            Ok(())
        } else {
            Err(mismatch(path@, identity@, *desc))
        }),
{
    if identity.matches(
        desc.component_type,
        desc.component_sub_type,
        desc.component_manufacturer,
    ) {
        return Ok(());
    }
    Err(
        AuError::PresetIdentityMismatch(
            Box::new(
                PresetMismatch {
                    path: path.to_owned(),
                    file_type: fourcc_to_string(identity.component_type),
                    file_sub_type: fourcc_to_string(identity.sub_type),
                    file_manufacturer: fourcc_to_string(identity.manufacturer),
                    au_type: fourcc_to_string(desc.component_type),
                    au_sub_type: fourcc_to_string(desc.component_sub_type),
                    au_manufacturer: fourcc_to_string(desc.component_manufacturer),
                },
            ),
        ),
    )
}

/// Reads a preset file and decides whether it may be applied to the unit that
/// `desc` describes. The dictionary is handed to the unit, as it was read, only
/// where this returns the accepted identity.
pub fn load_preset_file(
    bytes: &[u8],
    root: PlistRoot,
    path: &str,
    desc: &AudioComponentDescription,
) -> (r: Result<AuPresetIdentity, AuError>)
    ensures
        identity_outcome(r) == load_outcome(bytes@.len() == 0, root, path@, *desc),
        r matches Ok(identity) ==> identity.component_type == desc.component_type
            && identity.sub_type == desc.component_sub_type && identity.manufacturer
            == desc.component_manufacturer,
{
    let identity = match read_preset_metadata(bytes, root, path) {
        Ok(identity) => identity,
        Err(e) => return Err(e),
    };
    match accept_preset(&identity, path, desc) {
        Ok(()) => Ok(identity),
        Err(e) => Err(e),
    }
}

// ---------------------------------------------------------------------------
// Writing a file
// ---------------------------------------------------------------------------
/// The integers that replace entries of a dictionary, by key.
pub open spec fn override_entries(overrides: Seq<(&'static str, i64)>) -> Seq<EntryView> {
    overrides.map_values(
        |o: (&'static str, i64)|
            EntryView { key: Some(o.0@), value: ValueView::Number { value: o.1 } },
    )
}

/// Whether `key` is one of the overridden keys.
pub open spec fn is_overridden(overrides: Seq<(&'static str, i64)>, key: Seq<char>) -> bool {
    exists|i: int| 0 <= i < overrides.len() && (#[trigger] overrides[i]).0@ == key
}

/// Whether an entry is replaced in a rebuilt dictionary: its key is readable
/// and is the name key or an overridden one.
pub open spec fn is_replaced(overrides: Seq<(&'static str, i64)>, entry: EntryView) -> bool {
    entry.key matches Some(key) && (key == KEY_NAME@ || is_overridden(overrides, key))
}

/// A dictionary with the overrides and the name in place: every other entry as
/// it was and in order, an unreadable key among them, followed by the overrides
/// and the name.
pub open spec fn rebuilt(
    source: Seq<EntryView>,
    overrides: Seq<(&'static str, i64)>,
    name: Seq<char>,
) -> Seq<EntryView> {
    source.filter(|e: EntryView| !is_replaced(overrides, e)) + override_entries(overrides).push(
        EntryView { key: Some(KEY_NAME@), value: ValueView::Text { value: name } },
    )
}

fn replaces(overrides: &[(&'static str, i64)], key: &String) -> (yes: bool)
    ensures
        yes == (key@ == KEY_NAME@ || is_overridden(overrides@, key@)),
{
    if same_text(key, KEY_NAME) {
        return true;
    }
    for i in 0..overrides.len()
        invariant
            forall|j: int| 0 <= j < i ==> (#[trigger] overrides@[j]).0@ != key@,
    {
        if same_text(key, overrides[i].0) {
            assert(overrides@[i as int].0@ == key@);
            return true;
        }
    }
    false
}

/// Rebuilds `source` with `overrides` applied and the name set. Every entry that
/// is not replaced is carried across untouched, whatever it holds.
pub fn rebuild_with_identity(
    source: Vec<PresetEntry>,
    overrides: &[(&'static str, i64)],
    name: &str,
) -> (out: Vec<PresetEntry>)
    ensures
        entries(out@) == rebuilt(entries(source@), overrides@, name@),
{
    let ghost whole = entries(source@);
    let ghost kept = |e: EntryView| !is_replaced(overrides@, e);
    let mut out: Vec<PresetEntry> = Vec::new();
    assert(whole.take(0).filter(kept) =~= Seq::empty()) by {
        reveal(Seq::filter);
    }
    assert(entries(out@) =~= Seq::empty());
    for entry in it: source
        invariant
            it.seq() == source@,
            whole == entries(source@),
            kept == (|e: EntryView| !is_replaced(overrides@, e)),
            entries(out@) == whole.take(it.index() as int).filter(kept),
    {
        let ghost done = it.index() as int;
        let ghost before = out@;
        proof {
            reveal(Seq::filter);
            assert(whole[done] == entry@);
            assert(whole.take(done + 1).drop_last() =~= whole.take(done));
            assert(whole.take(done + 1).last() == entry@);
        }
        let replaced = match &entry.key {
            Some(key) => replaces(overrides, key),
            None => false,
        };
        if !replaced {
            out.push(entry);
            assert(entries(out@) =~= entries(before).push(entry@));
        }
    }
    assert(whole.take(whole.len() as int) =~= whole);
    let ghost carried = out@;
    assert(override_entries(overrides@.take(0)) =~= Seq::empty());
    assert(entries(out@) =~= entries(carried) + override_entries(overrides@.take(0)));
    for i in 0..overrides.len()
        invariant
            entries(out@) == entries(carried) + override_entries(overrides@.take(i as int)),
    {
        let ghost before = out@;
        let (key, value) = overrides[i];
        let entry = PresetEntry { key: Some(key.to_owned()), value: PresetValue::Number(value) };
        out.push(entry);
        proof {
            assert(entries(out@) =~= entries(before).push(entry@));
            assert(override_entries(overrides@.take(i + 1)) =~= override_entries(
                overrides@.take(i as int),
            ).push(entry@));
        }
    }
    assert(overrides@.take(overrides@.len() as int) =~= overrides@);
    let ghost before = out@;
    let entry = PresetEntry {
        key: Some(KEY_NAME.to_owned()),
        value: PresetValue::Text(name.to_owned()),
    };
    out.push(entry);
    assert(entries(out@) =~= entries(before).push(entry@));
    out
}

/// The overrides of a saved preset: the codes of the unit's own component, and
/// the version of its state where it gave one, else zero.
pub open spec fn save_overrides(
    class_info: Seq<EntryView>,
    desc: AudioComponentDescription,
) -> Seq<(&'static str, i64)> {
    seq![
        (KEY_TYPE, desc.component_type as i64),
        (KEY_SUBTYPE, desc.component_sub_type as i64),
        (KEY_MANUFACTURER, desc.component_manufacturer as i64),
        (
            KEY_VERSION,
            match number_under(class_info, KEY_VERSION@) {
                Some(v) => v,
                None => 0,
            },
        ),
    ]
}

/// The dictionary written for a unit's state under a display name.
pub open spec fn saved(
    class_info: Seq<EntryView>,
    desc: AudioComponentDescription,
    name: Seq<char>,
) -> Seq<EntryView> {
    rebuilt(class_info, save_overrides(class_info, desc), name)
}

/// The dictionary to write for a unit's state. The identity is that of the
/// component itself, whatever the state says, and the name is the caller's.
pub fn save_preset_file(
    class_info: Vec<PresetEntry>,
    desc: &AudioComponentDescription,
    name: &str,
) -> (out: Vec<PresetEntry>)
    ensures
        entries(out@) == saved(entries(class_info@), *desc, name@),
{
    let version = match dictionary_i64(&class_info, KEY_VERSION) {
        Some(v) => v,
        None => 0,
    };
    let overrides: [(&'static str, i64); 4] = [
        (KEY_TYPE, desc.component_type as i64),
        (KEY_SUBTYPE, desc.component_sub_type as i64),
        (KEY_MANUFACTURER, desc.component_manufacturer as i64),
        (KEY_VERSION, version),
    ];
    assert(overrides@ =~= save_overrides(entries(class_info@), *desc));
    rebuild_with_identity(class_info, &overrides, name)
}

/// Why a new preset could not be put together.
#[derive(Clone, Copy, Debug, PartialEq, Eq, Structural)]
pub enum PresetFailure {
    /// The dictionary could not be made.
    Dictionary,
    /// The dictionary could not be serialized.
    Serialization,
}

/// The error of a new preset that could not be put together.
pub fn new_preset_error(failure: PresetFailure) -> (e: AuError)
    ensures
        e@ == (ErrorView::InvalidPreset {
            path: "<new preset>"@,
            message: match failure {
                PresetFailure::Dictionary => "CFDictionaryCreate failed"@,
                PresetFailure::Serialization => "CFPropertyListCreateData failed"@,
            },
        }),
{
    let message = match failure {
        PresetFailure::Dictionary => "CFDictionaryCreate failed",
        PresetFailure::Serialization => "CFPropertyListCreateData failed",
    };
    AuError::invalid_preset("<new preset>".to_owned(), message.to_owned())
}

// ---------------------------------------------------------------------------
// Laws
// ---------------------------------------------------------------------------
/// A key that no entry of the front part has is looked up in the back part.
proof fn lookup_skips(front: Seq<EntryView>, back: Seq<EntryView>, key: Seq<char>)
    requires
        forall|i: int| 0 <= i < front.len() ==> (#[trigger] front[i]).key != Some(key),
    ensures
        lookup(front + back, key) == lookup(back, key),
    decreases front.len(),
{
    if front.len() == 0 {
        assert(front + back =~= back);
    } else {
        lookup_skips(front.skip(1), back, key);
        assert((front + back).skip(1) =~= front.skip(1) + back);
        assert((front + back)[0] == front[0]);
    }
}

/// The front part answers for a key that it has.
proof fn lookup_stops(front: Seq<EntryView>, back: Seq<EntryView>, key: Seq<char>)
    requires
        lookup(front, key) is Some,
    ensures
        lookup(front + back, key) == lookup(front, key),
    decreases front.len(),
{
    assert((front + back)[0] == front[0]);
    if front[0].key != Some(key) {
        lookup_stops(front.skip(1), back, key);
        assert((front + back).skip(1) =~= front.skip(1) + back);
    }
}

/// What a filter keeps passes it.
proof fn kept_entries_pass(source: Seq<EntryView>, keep: spec_fn(EntryView) -> bool)
    ensures
        forall|i: int| 0 <= i < source.filter(keep).len() ==> keep(#[trigger] source.filter(keep)[i]),
    decreases source.len(),
{
    reveal(Seq::filter);
    if source.len() > 0 {
        kept_entries_pass(source.drop_last(), keep);
    }
}

/// A filter that keeps every entry of a key leaves the lookup of that key
/// alone.
proof fn lookup_survives_filter(
    source: Seq<EntryView>,
    keep: spec_fn(EntryView) -> bool,
    key: Seq<char>,
)
    requires
        forall|e: EntryView| e.key == Some(key) ==> keep(e),
    ensures
        lookup(source.filter(keep), key) == lookup(source, key),
    decreases source.len(),
{
    reveal(Seq::filter);
    if source.len() > 0 {
        let front = source.drop_last();
        let last = source.last();
        lookup_survives_filter(front, keep, key);
        assert(source =~= front + seq![last]);
        if lookup(front, key) is Some {
            lookup_stops(front, seq![last], key);
            if keep(last) {
                assert(source.filter(keep) =~= front.filter(keep) + seq![last]);
                lookup_stops(front.filter(keep), seq![last], key);
            }
        } else {
            absent_means_no_entry(front, key);
            lookup_skips(front, seq![last], key);
            if keep(last) {
                assert(source.filter(keep) =~= front.filter(keep) + seq![last]);
                absent_means_no_entry(front.filter(keep), key);
                lookup_skips(front.filter(keep), seq![last], key);
            } else {
                assert(seq![last].skip(1) =~= Seq::empty());
                assert(lookup(Seq::empty(), key) is None);
            }
        }
    }
}

/// A key that is not found is the key of no entry.
proof fn absent_means_no_entry(dict: Seq<EntryView>, key: Seq<char>)
    requires
        lookup(dict, key) is None,
    ensures
        forall|i: int| 0 <= i < dict.len() ==> (#[trigger] dict[i]).key != Some(key),
    decreases dict.len(),
{
    if dict.len() > 0 {
        absent_means_no_entry(dict.skip(1), key);
        assert forall|i: int| 0 <= i < dict.len() implies (#[trigger] dict[i]).key != Some(key) by {
            if i > 0 {
                assert(dict.skip(1)[i - 1] == dict[i]);
            }
        }
    }
}

/// The five keys that a saved preset sets itself are told apart.
proof fn keys_are_distinct()
    ensures
        KEY_TYPE@ != KEY_SUBTYPE@,
        KEY_TYPE@ != KEY_MANUFACTURER@,
        KEY_TYPE@ != KEY_VERSION@,
        KEY_TYPE@ != KEY_NAME@,
        KEY_SUBTYPE@ != KEY_MANUFACTURER@,
        KEY_SUBTYPE@ != KEY_VERSION@,
        KEY_SUBTYPE@ != KEY_NAME@,
        KEY_MANUFACTURER@ != KEY_VERSION@,
        KEY_MANUFACTURER@ != KEY_NAME@,
        KEY_VERSION@ != KEY_NAME@,
{
    reveal_strlit("type");
    reveal_strlit("subtype");
    reveal_strlit("manufacturer");
    reveal_strlit("version");
    reveal_strlit("name");
    assert(KEY_TYPE@.len() == 4 && KEY_NAME@.len() == 4);
    assert(KEY_TYPE@[0] == 't' && KEY_NAME@[0] == 'n');
    assert(KEY_SUBTYPE@.len() == 7 && KEY_VERSION@.len() == 7);
    assert(KEY_SUBTYPE@[0] == 's' && KEY_VERSION@[0] == 'v');
    assert(KEY_MANUFACTURER@.len() == 12);
}

/// A saved preset is loadable: whatever state it was saved from, it carries the
/// codes of its unit's component, the version the unit gave or zero, and the
/// name the caller chose; so the same unit accepts it.
pub proof fn a_saved_preset_is_accepted(
    class_info: Seq<EntryView>,
    desc: AudioComponentDescription,
    name: Seq<char>,
    path: Seq<char>,
)
    ensures
        ({
            let identity = IdentityView {
                component_type: desc.component_type,
                sub_type: desc.component_sub_type,
                manufacturer: desc.component_manufacturer,
                version: match number_under(class_info, KEY_VERSION@) {
                    Some(v) => v,
                    None => 0,
                },
                name: Some(name),
            };
            &&& read_identity(saved(class_info, desc, name), path) == Ok::<IdentityView, ErrorView>(
                identity,
            )
            &&& identity.matches_component(desc)
        }),
{
    let overrides = save_overrides(class_info, desc);
    let keep = |e: EntryView| !is_replaced(overrides, e);
    let front = class_info.filter(keep);
    let named = EntryView { key: Some(KEY_NAME@), value: ValueView::Text { value: name } };
    let back = override_entries(overrides).push(named);
    keys_are_distinct();
    kept_entries_pass(class_info, keep);
    assert(overrides[0].0@ == KEY_TYPE@);
    assert(overrides[1].0@ == KEY_SUBTYPE@);
    assert(overrides[2].0@ == KEY_MANUFACTURER@);
    assert(overrides[3].0@ == KEY_VERSION@);
    lookup_skips(front, back, KEY_TYPE@);
    lookup_skips(front, back, KEY_SUBTYPE@);
    lookup_skips(front, back, KEY_MANUFACTURER@);
    lookup_skips(front, back, KEY_VERSION@);
    lookup_skips(front, back, KEY_NAME@);
    assert(back.len() == 5);
    assert(back.skip(1).skip(1) =~= back.skip(2));
    assert(back.skip(2).skip(1) =~= back.skip(3));
    assert(back.skip(3).skip(1) =~= back.skip(4));
    reveal_with_fuel(lookup, 6);
}

/// Saving carries the rest of the state across: what a key holds that is not
/// one of the five set on saving is what it held in the unit's state.
pub proof fn saving_carries_the_state(
    class_info: Seq<EntryView>,
    desc: AudioComponentDescription,
    name: Seq<char>,
    key: Seq<char>,
)
    requires
        key != KEY_TYPE@,
        key != KEY_SUBTYPE@,
        key != KEY_MANUFACTURER@,
        key != KEY_VERSION@,
        key != KEY_NAME@,
    ensures
        lookup(saved(class_info, desc, name), key) == lookup(class_info, key),
{
    let overrides = save_overrides(class_info, desc);
    let keep = |e: EntryView| !is_replaced(overrides, e);
    let front = class_info.filter(keep);
    let named = EntryView { key: Some(KEY_NAME@), value: ValueView::Text { value: name } };
    let back = override_entries(overrides).push(named);
    assert(!is_overridden(overrides, key));
    lookup_survives_filter(class_info, keep, key);
    if lookup(front, key) is Some {
        lookup_stops(front, back, key);
    } else {
        absent_means_no_entry(front, key);
        lookup_skips(front, back, key);
        assert forall|i: int| 0 <= i < back.len() implies (#[trigger] back[i]).key != Some(key) by {}
        lookup_skips(back, Seq::empty(), key);
        assert(back + Seq::<EntryView>::empty() =~= back);
    }
}

/// A preset is accepted by exactly the units whose three codes it carries; its
/// version has no say.
pub proof fn the_version_does_not_decide(
    a: IdentityView,
    version: i64,
    desc: AudioComponentDescription,
)
    ensures
        a.matches_component(desc) == (IdentityView { version, ..a }).matches_component(desc),
{
}

/// A code survives being stored as a signed integer, whether it is stored as
/// its unsigned value or, with the top bit set, as a negative number.
pub proof fn a_code_survives_storage(code: u32)
    ensures
        code_of(code as i64) == code,
        code_of((code as i32) as i64) == code,
{
    assert(((code as i32) as i64) as u32 == code) by (bit_vector);
}

/// What stands under a key is the value of the first entry with that key, and
/// nothing where there is no such entry.
pub proof fn the_first_entry_of_a_key_counts(dict: Seq<EntryView>, key: Seq<char>, i: int)
    requires
        0 <= i <= dict.len(),
        forall|j: int| 0 <= j < i ==> (#[trigger] dict[j]).key != Some(key),
        i < dict.len() ==> dict[i].key == Some(key),
    ensures
        i < dict.len() ==> lookup(dict, key) == Some(dict[i].value),
        i == dict.len() ==> lookup(dict, key) is None,
{
    let front = dict.take(i);
    let back = dict.skip(i);
    assert forall|j: int| 0 <= j < front.len() implies (#[trigger] front[j]).key != Some(key) by {
        assert(front[j] == dict[j]);
    }
    lookup_skips(front, back, key);
    assert(dict =~= front + back);
    if i < dict.len() {
        assert(back[0] == dict[i]);
    }
}

/// A value is an integer or a text where it was read or made as one. A text is
/// never taken for a number, nor a number for a text.
pub proof fn a_value_is_read_as_what_it_is(dict: Seq<EntryView>, key: Seq<char>)
    ensures
        lookup(dict, key) is None ==> number_under(dict, key) is None && text_under(dict, key)
            is None,
        lookup(dict, key) matches Some(ValueView::Number { value }) ==> number_under(dict, key)
            == Some(value) && text_under(dict, key) is None,
        lookup(dict, key) matches Some(ValueView::Text { value }) ==> text_under(dict, key) == Some(
            value,
        ) && number_under(dict, key) is None,
        lookup(dict, key) matches Some(ValueView::Carried { number, text, .. }) ==> number_under(
            dict,
            key,
        ) == number && text_under(dict, key) == text,
{
}

/// The identity that a preset carries: its three codes are the low halves of the
/// numbers under their keys, its version is the number under its key or zero, and
/// its name the text under its key. Without one of the three numbers there is no
/// identity, and the first that is missing is named.
pub proof fn an_identity_is_read_off_its_keys(dict: Seq<EntryView>, path: Seq<char>)
    ensures
        ({
            let r = read_identity(dict, path);
            let component_type = number_under(dict, "type"@);
            let sub_type = number_under(dict, "subtype"@);
            let manufacturer = number_under(dict, "manufacturer"@);
            &&& r is Ok <==> component_type is Some && sub_type is Some && manufacturer is Some
            &&& r matches Ok(id) ==> {
                &&& id.component_type == component_type->0 & 0xFFFF_FFFF
                &&& id.sub_type == sub_type->0 & 0xFFFF_FFFF
                &&& id.manufacturer == manufacturer->0 & 0xFFFF_FFFF
                &&& number_under(dict, "version"@) matches Some(v) ==> id.version == v
                &&& number_under(dict, "version"@) is None ==> id.version == 0
                &&& id.name == text_under(dict, "name"@)
            }
            &&& component_type is None ==> r == Err::<IdentityView, ErrorView>(
                ErrorView::InvalidPreset { path, message: missing_key_message("type"@) },
            )
            &&& component_type is Some && sub_type is None ==> r == Err::<IdentityView, ErrorView>(
                ErrorView::InvalidPreset { path, message: missing_key_message("subtype"@) },
            )
            &&& component_type is Some && sub_type is Some && manufacturer is None ==> r == Err::<
                IdentityView,
                ErrorView,
            >(ErrorView::InvalidPreset { path, message: missing_key_message("manufacturer"@) })
        }),
{
    if let Some(n) = number_under(dict, "type"@) {
        low_half(n);
    }
    if let Some(n) = number_under(dict, "subtype"@) {
        low_half(n);
    }
    if let Some(n) = number_under(dict, "manufacturer"@) {
        low_half(n);
    }
}

/// A stored code is the low half of its number.
proof fn low_half(n: i64)
    ensures
        code_of(n) == n & 0xFFFF_FFFF,
{
    assert((n as u32) as i64 == n & 0xFFFF_FFFF) by (bit_vector);
}

/// A preset is taken by the unit that has all three of its codes, and by no other:
/// a different type, a different subtype or a different manufacturer is enough for
/// a refusal, which names both units. What is not a preset is refused as such, by
/// any unit.
pub proof fn a_preset_is_taken_by_its_own_unit_only(
    empty: bool,
    root: PlistRoot,
    path: Seq<char>,
    desc: AudioComponentDescription,
)
    ensures
        ({
            let r = load_outcome(empty, root, path, desc);
            let dict = entries(root->Dictionary_0@);
            let component_type = number_under(dict, "type"@);
            let sub_type = number_under(dict, "subtype"@);
            let manufacturer = number_under(dict, "manufacturer"@);
            let readable = !empty && root is Dictionary && component_type is Some && sub_type
                is Some && manufacturer is Some;
            let own = component_type->0 & 0xFFFF_FFFF == desc.component_type && sub_type->0
                & 0xFFFF_FFFF == desc.component_sub_type && manufacturer->0 & 0xFFFF_FFFF
                == desc.component_manufacturer;
            &&& r is Ok <==> readable && own
            &&& !readable ==> r is Err && r->Err_0 is InvalidPreset
            &&& readable && !own ==> {
                &&& r is Err
                &&& r->Err_0 is PresetIdentityMismatch
                &&& r->Err_0->PresetIdentityMismatch_path == path
                &&& r->Err_0->file_type == fourcc_text(
                    (component_type->0 & 0xFFFF_FFFF) as u32,
                )
                &&& r->Err_0->file_sub_type == fourcc_text((sub_type->0 & 0xFFFF_FFFF) as u32)
                &&& r->Err_0->file_manufacturer == fourcc_text(
                    (manufacturer->0 & 0xFFFF_FFFF) as u32,
                )
                &&& r->Err_0->au_type == fourcc_text(desc.component_type)
                &&& r->Err_0->au_sub_type == fourcc_text(desc.component_sub_type)
                &&& r->Err_0->au_manufacturer == fourcc_text(desc.component_manufacturer)
            }
            &&& r matches Ok(id) ==> id.component_type == desc.component_type && id.sub_type
                == desc.component_sub_type && id.manufacturer == desc.component_manufacturer
        }),
{
    if root is Dictionary {
        an_identity_is_read_off_its_keys(entries(root->Dictionary_0@), path);
    }
}

/// Why a file is no preset dictionary: it is empty, it is no property list, it is
/// nothing, or its root is something else.
pub proof fn a_file_without_a_dictionary_is_refused(empty: bool, root: PlistRoot)
    ensures
        root_fault(empty, root) is None <==> !empty && root is Dictionary,
        empty ==> root_fault(empty, root) == Some("the file is empty"@),
        !empty && root is Malformed ==> root_fault(empty, root) == Some(
            "not a property list (corrupt, truncated, or not a preset at all)"@,
        ),
        !empty && root is Null ==> root_fault(empty, root) == Some(
            "the property list decoded to null"@,
        ),
        !empty && root is NotDictionary ==> root_fault(empty, root) == Some(
            "the property list's root is not a dictionary; a .aupreset root must be the AU's ClassInfo dictionary"@,
        ),
{
}

/// Whether an entry is none of the five that saving sets.
pub open spec fn is_state(e: EntryView) -> bool {
    e.key matches Some(key) ==> key != "type"@ && key != "subtype"@ && key != "manufacturer"@ && key
        != "version"@ && key != "name"@
}

/// Two filters that agree leave the same.
proof fn filters_agree(
    s: Seq<EntryView>,
    p: spec_fn(EntryView) -> bool,
    q: spec_fn(EntryView) -> bool,
)
    requires
        forall|e: EntryView| #[trigger] p(e) == q(e),
    ensures
        s.filter(p) == s.filter(q),
    decreases s.len(),
{
    reveal(Seq::filter);
    if s.len() > 0 {
        filters_agree(s.drop_last(), p, q);
        assert(p(s.last()) == q(s.last()));
    }
}

/// What passes a filter is left by it.
proof fn filter_keeps_all(s: Seq<EntryView>, keep: spec_fn(EntryView) -> bool)
    requires
        forall|i: int| 0 <= i < s.len() ==> keep(#[trigger] s[i]),
    ensures
        s.filter(keep) == s,
    decreases s.len(),
{
    reveal(Seq::filter);
    if s.len() > 0 {
        filter_keeps_all(s.drop_last(), keep);
        assert(s.drop_last().push(s.last()) =~= s);
    }
}

/// What no entry passes leaves nothing.
proof fn filter_keeps_none(s: Seq<EntryView>, keep: spec_fn(EntryView) -> bool)
    requires
        forall|i: int| 0 <= i < s.len() ==> !keep(#[trigger] s[i]),
    ensures
        s.filter(keep) == Seq::<EntryView>::empty(),
    decreases s.len(),
{
    reveal(Seq::filter);
    if s.len() > 0 {
        filter_keeps_none(s.drop_last(), keep);
    }
}

/// Saving loses nothing of the state and adds nothing to it: all entries but the
/// five that saving sets come out as they were, in order, those with an unreadable
/// key among them; and beside them stand those five and no more.
pub proof fn saving_keeps_every_entry_of_the_state(
    class_info: Seq<EntryView>,
    desc: AudioComponentDescription,
    name: Seq<char>,
)
    ensures
        ({
            let out = saved(class_info, desc, name);
            let state = |e: EntryView| is_state(e);
            &&& out.filter(state) == class_info.filter(state)
            &&& out.len() == class_info.filter(state).len() + 5
        }),
{
    let overrides = save_overrides(class_info, desc);
    let keep = |e: EntryView| !is_replaced(overrides, e);
    let state = |e: EntryView| is_state(e);
    let front = class_info.filter(keep);
    let named = EntryView { key: Some(KEY_NAME@), value: ValueView::Text { value: name } };
    let back = override_entries(overrides).push(named);
    keys_are_distinct();
    assert(overrides[0].0@ == KEY_TYPE@);
    assert(overrides[1].0@ == KEY_SUBTYPE@);
    assert(overrides[2].0@ == KEY_MANUFACTURER@);
    assert(overrides[3].0@ == KEY_VERSION@);
    assert forall|e: EntryView| #[trigger] keep(e) == state(e) by {
        if let Some(key) = e.key {
            if is_overridden(overrides, key) {
                let i = choose|i: int|
                    0 <= i < overrides.len() && (#[trigger] overrides[i]).0@ == key;
                assert(i == 0 || i == 1 || i == 2 || i == 3);
            }
        }
    }
    filters_agree(class_info, keep, state);
    kept_entries_pass(class_info, keep);
    Seq::filter_distributes_over_add(front, back, state);
    assert forall|i: int| 0 <= i < front.len() implies state(#[trigger] front[i]) by {
        assert(keep(front[i]));
    }
    filter_keeps_all(front, state);
    assert forall|i: int| 0 <= i < back.len() implies !state(#[trigger] back[i]) by {
        assert(i == 0 || i == 1 || i == 2 || i == 3 || i == 4);
    }
    filter_keeps_none(back, state);
    assert(front + Seq::<EntryView>::empty() =~= front);
}

/// Rebuilding a dictionary sets what it is told to set: behind what is carried
/// across stand the overrides, in order and each with its number, and the name.
/// What is carried across is every entry but those that it sets, in order.
pub proof fn rebuilding_sets_the_name(
    source: Seq<EntryView>,
    overrides: Seq<(&'static str, i64)>,
    name: Seq<char>,
)
    ensures
        ({
            let out = rebuilt(source, overrides, name);
            &&& out.len() >= overrides.len() + 1
            &&& out[out.len() - 1].key == Some("name"@)
            &&& out[out.len() - 1].value == (ValueView::Text { value: name })
            &&& forall|i: int|
                0 <= i < overrides.len() ==> {
                    let e = #[trigger] out[out.len() - 1 - overrides.len() + i];
                    e.key == Some(overrides[i].0@) && e.value == (ValueView::Number {
                        value: overrides[i].1,
                    })
                }
            &&& out.take(out.len() - 1 - overrides.len()) == source.filter(
                |e: EntryView|
                    e.key matches Some(key) ==> key != "name"@ && forall|i: int|
                        0 <= i < overrides.len() ==> (#[trigger] overrides[i]).0@ != key,
            )
        }),
{
    let out = rebuilt(source, overrides, name);
    let keep = |e: EntryView| !is_replaced(overrides, e);
    let plain = |e: EntryView|
        e.key matches Some(key) ==> key != "name"@ && forall|i: int|
            0 <= i < overrides.len() ==> (#[trigger] overrides[i]).0@ != key;
    assert forall|e: EntryView| #[trigger] keep(e) == plain(e) by {}
    filters_agree(source, keep, plain);
    assert(out.take(out.len() - 1 - overrides.len()) =~= source.filter(keep));
}

/// A dictionary is seen entry by entry, as it is: each key by its characters or as
/// unreadable, and each value as what it was carried or made as.
pub proof fn a_dictionary_is_seen_as_it_is(dict: Seq<PresetEntry>, i: int)
    requires
        0 <= i < dict.len(),
    ensures
        entries(dict).len() == dict.len(),
        dict[i].key matches Some(k) ==> entries(dict)[i].key == Some(k@),
        dict[i].key is None ==> entries(dict)[i].key is None,
        dict[i].value matches PresetValue::Number(n) ==> entries(dict)[i].value == (
        ValueView::Number { value: n }),
        dict[i].value matches PresetValue::Text(t) ==> entries(dict)[i].value == (ValueView::Text {
            value: t@,
        }),
        dict[i].value matches PresetValue::Carried { handle, number, text } ==> entries(
            dict,
        )[i].value == (ValueView::Carried { handle, number, text: optional_text(text) }),
        dict[i].key matches Some(k) ==> optional_text(dict[i].key) == Some(k@),
{
}

/// An identity is seen as it is, and so is the error where there is none.
pub proof fn an_identity_is_seen_as_it_is(id: AuPresetIdentity, r: Result<AuPresetIdentity, AuError>)
    ensures
        id@.component_type == id.component_type,
        id@.sub_type == id.sub_type,
        id@.manufacturer == id.manufacturer,
        id@.version == id.version,
        id.name matches Some(n) ==> id@.name == Some(n@),
        id.name is None ==> id@.name is None,
        r matches Ok(i) ==> identity_outcome(r) == Ok::<IdentityView, ErrorView>(i@),
        r matches Err(e) ==> identity_outcome(r) == Err::<IdentityView, ErrorView>(e@),
{
}

/// What is said of a missing key names the key.
pub proof fn a_missing_key_is_named(key: Seq<char>)
    ensures
        missing_key_message(key) == "missing or non-numeric `"@ + key
            + "` key; a .aupreset must carry type/subtype/manufacturer so a host can tell which AU it is for"@,
{
}

/// The identity of a file is that of its dictionary, and a file without one has
/// none.
pub proof fn a_file_has_the_identity_of_its_dictionary(
    empty: bool,
    root: PlistRoot,
    path: Seq<char>,
)
    ensures
        !empty && root is Dictionary ==> file_identity(empty, root, path) == read_identity(
            entries(root->Dictionary_0@),
            path,
        ),
        empty || !(root is Dictionary) ==> file_identity(empty, root, path) == Err::<
            IdentityView,
            ErrorView,
        >(ErrorView::InvalidPreset { path, message: root_fault(empty, root)->0 }),
{
}

} // verus!
