//! What can go wrong while hosting an Audio Unit.
use vstd::prelude::*;
use vstd::string::*;
use crate::float::Float64;
use crate::text::{decimal, push_decimal};
use crate::types::{
    NO_ERR,
    K_AUDIO_UNIT_ERR_INVALID_PROPERTY,
    K_AUDIO_UNIT_ERR_INVALID_PARAMETER,
    K_AUDIO_UNIT_ERR_INVALID_ELEMENT,
    K_AUDIO_UNIT_ERR_NO_CONNECTION,
    K_AUDIO_UNIT_ERR_FAILED_INITIALIZATION,
    K_AUDIO_UNIT_ERR_TOO_MANY_FRAMES_TO_PROCESS,
    K_AUDIO_UNIT_ERR_INVALID_FILE,
    K_AUDIO_UNIT_ERR_UNKNOWN_FILE_TYPE,
    K_AUDIO_UNIT_ERR_FILE_NOT_SPECIFIED,
    K_AUDIO_UNIT_ERR_FORMAT_NOT_SUPPORTED,
    K_AUDIO_UNIT_ERR_UNINITIALIZED,
    K_AUDIO_UNIT_ERR_INVALID_SCOPE,
    K_AUDIO_UNIT_ERR_PROPERTY_NOT_WRITABLE,
    K_AUDIO_UNIT_ERR_CANNOT_DO_IN_CURRENT_CONTEXT,
    K_AUDIO_UNIT_ERR_INVALID_PROPERTY_VALUE,
    K_AUDIO_UNIT_ERR_PROPERTY_NOT_IN_USE,
    K_AUDIO_UNIT_ERR_INITIALIZED,
    K_AUDIO_UNIT_ERR_INVALID_OFFLINE_RENDER,
    K_AUDIO_UNIT_ERR_UNAUTHORIZED,
};

verus! {

/// How far the loading of a plugin got. Audio Units use the opening,
/// instantiation, setup and initialization stages.
#[derive(Clone, Copy, Debug, PartialEq, Eq, Structural)]
pub enum LoadStage {
    Scanning,
    Opening,
    Factory,
    Instantiation,
    Setup,
    Initialization,
}

/// A file and what was wrong with it.
#[derive(Clone, Debug, PartialEq, Eq)]
pub struct PresetFileError {
    /// The offending path, or a placeholder in angle brackets where the
    /// dictionary came from an Audio Unit.
    pub path: String,
    /// What was wrong.
    pub message: String,
}

/// The two component triples that disagree, and the file they disagree about.
#[derive(Clone, Debug, PartialEq, Eq)]
pub struct PresetMismatch {
    pub path: String,
    pub file_type: String,
    pub file_sub_type: String,
    pub file_manufacturer: String,
    pub au_type: String,
    pub au_sub_type: String,
    pub au_manufacturer: String,
}

/// An error of an Audio Unit host operation.
#[allow(inconsistent_fields)]
#[derive(Clone, Debug)]
pub enum AuError {
    /// The Audio Unit could not be loaded; `stage` says how far that got.
    LoadFailed { component: String, stage: LoadStage, reason: String },
    /// An AudioToolbox call returned a status other than success.
    OsStatus { function: &'static str, code: i32 },
    /// A null component handle.
    NullComponent,
    /// The component can only be instantiated asynchronously.
    RequiresAsyncInstantiation,
    /// CoreFoundation declined to allocate a string.
    CfStringAlloc,
    /// A buffer was malformed or inconsistent with the configured stream.
    InvalidBuffer(String),
    /// The unit still reports another sample rate than the one it was given.
    SampleRateRejected { scope: &'static str, requested: Float64, accepted: Float64 },
    /// The unit still reports another maximum block size than the one it was
    /// given.
    BlockSizeRejected { requested: u32, accepted: u32 },
    /// The render call failed; `last_render_error` is what the unit recorded.
    RenderFailed { function: &'static str, code: i32, last_render_error: Option<i32> },
    /// A preset file could not be read or written.
    PresetIo(Box<PresetFileError>),
    /// A file is not a usable preset.
    InvalidPreset(Box<PresetFileError>),
    /// A well-formed preset of another Audio Unit.
    PresetIdentityMismatch(Box<PresetMismatch>),
}

/// The contents of an error, texts taken by their characters.
#[allow(inconsistent_fields)]
pub ghost enum ErrorView {
    LoadFailed { component: Seq<char>, stage: LoadStage, reason: Seq<char> },
    OsStatus { function: Seq<char>, code: i32 },
    NullComponent,
    RequiresAsyncInstantiation,
    CfStringAlloc,
    InvalidBuffer { reason: Seq<char> },
    SampleRateRejected { scope: Seq<char>, requested: Float64, accepted: Float64 },
    BlockSizeRejected { requested: u32, accepted: u32 },
    RenderFailed { function: Seq<char>, code: i32, last_render_error: Option<i32> },
    PresetIo { path: Seq<char>, message: Seq<char> },
    InvalidPreset { path: Seq<char>, message: Seq<char> },
    PresetIdentityMismatch {
        path: Seq<char>,
        file_type: Seq<char>,
        file_sub_type: Seq<char>,
        file_manufacturer: Seq<char>,
        au_type: Seq<char>,
        au_sub_type: Seq<char>,
        au_manufacturer: Seq<char>,
    },
}

impl View for AuError {
    type V = ErrorView;

    open spec fn view(&self) -> ErrorView {
        match *self {
            AuError::LoadFailed { component, stage, reason } => ErrorView::LoadFailed {
                component: component@,
                stage,
                reason: reason@,
            },
            AuError::OsStatus { function, code } => ErrorView::OsStatus {
                function: function@,
                code,
            },
            AuError::NullComponent => ErrorView::NullComponent,
            AuError::RequiresAsyncInstantiation => ErrorView::RequiresAsyncInstantiation,
            AuError::CfStringAlloc => ErrorView::CfStringAlloc,
            AuError::InvalidBuffer(reason) => ErrorView::InvalidBuffer { reason: reason@ },
            AuError::SampleRateRejected { scope, requested, accepted } =>
            ErrorView::SampleRateRejected { scope: scope@, requested, accepted },
            AuError::BlockSizeRejected { requested, accepted } => ErrorView::BlockSizeRejected {
                requested,
                accepted,
            },
            AuError::RenderFailed { function, code, last_render_error } =>
            ErrorView::RenderFailed { function: function@, code, last_render_error },
            AuError::PresetIo(e) => ErrorView::PresetIo { path: e.path@, message: e.message@ },
            AuError::InvalidPreset(e) => ErrorView::InvalidPreset {
                path: e.path@,
                message: e.message@,
            },
            AuError::PresetIdentityMismatch(m) => ErrorView::PresetIdentityMismatch {
                path: m.path@,
                file_type: m.file_type@,
                file_sub_type: m.file_sub_type@,
                file_manufacturer: m.file_manufacturer@,
                au_type: m.au_type@,
                au_sub_type: m.au_sub_type@,
                au_manufacturer: m.au_manufacturer@,
            },
        }
    }
}

/// What a well-known status is called.
pub open spec fn status_name(code: i32) -> Seq<char> {
    if code == K_AUDIO_UNIT_ERR_INVALID_PROPERTY {
        "invalid property"@
    } else if code == K_AUDIO_UNIT_ERR_INVALID_PARAMETER {
        "invalid parameter"@
    } else if code == K_AUDIO_UNIT_ERR_INVALID_ELEMENT {
        "invalid element"@
    } else if code == K_AUDIO_UNIT_ERR_NO_CONNECTION {
        "no connection"@
    } else if code == K_AUDIO_UNIT_ERR_FAILED_INITIALIZATION {
        "failed initialization"@
    } else if code == K_AUDIO_UNIT_ERR_TOO_MANY_FRAMES_TO_PROCESS {
        "too many frames to process"@
    } else if code == K_AUDIO_UNIT_ERR_INVALID_FILE {
        "invalid file"@
    } else if code == K_AUDIO_UNIT_ERR_UNKNOWN_FILE_TYPE {
        "unknown file type"@
    } else if code == K_AUDIO_UNIT_ERR_FILE_NOT_SPECIFIED {
        "file not specified"@
    } else if code == K_AUDIO_UNIT_ERR_FORMAT_NOT_SUPPORTED {
        "format not supported"@
    } else if code == K_AUDIO_UNIT_ERR_UNINITIALIZED {
        "uninitialized"@
    } else if code == K_AUDIO_UNIT_ERR_INVALID_SCOPE {
        "invalid scope"@
    } else if code == K_AUDIO_UNIT_ERR_PROPERTY_NOT_WRITABLE {
        "property not writable"@
    } else if code == K_AUDIO_UNIT_ERR_CANNOT_DO_IN_CURRENT_CONTEXT {
        "cannot do in current context"@
    } else if code == K_AUDIO_UNIT_ERR_INVALID_PROPERTY_VALUE {
        "invalid property value"@
    } else if code == K_AUDIO_UNIT_ERR_PROPERTY_NOT_IN_USE {
        "property not in use"@
    } else if code == K_AUDIO_UNIT_ERR_INITIALIZED {
        "already initialized"@
    } else if code == K_AUDIO_UNIT_ERR_INVALID_OFFLINE_RENDER {
        "invalid offline render"@
    } else if code == K_AUDIO_UNIT_ERR_UNAUTHORIZED {
        "unauthorized"@
    } else {
        "unknown error"@
    }
}

/// What a well-known status is called, or `"unknown error"`.
pub fn os_status_message(code: i32) -> (m: &'static str)
    ensures
        m@ == status_name(code),
{
    match code {
        K_AUDIO_UNIT_ERR_INVALID_PROPERTY => "invalid property",
        K_AUDIO_UNIT_ERR_INVALID_PARAMETER => "invalid parameter",
        K_AUDIO_UNIT_ERR_INVALID_ELEMENT => "invalid element",
        K_AUDIO_UNIT_ERR_NO_CONNECTION => "no connection",
        K_AUDIO_UNIT_ERR_FAILED_INITIALIZATION => "failed initialization",
        K_AUDIO_UNIT_ERR_TOO_MANY_FRAMES_TO_PROCESS => "too many frames to process",
        K_AUDIO_UNIT_ERR_INVALID_FILE => "invalid file",
        K_AUDIO_UNIT_ERR_UNKNOWN_FILE_TYPE => "unknown file type",
        K_AUDIO_UNIT_ERR_FILE_NOT_SPECIFIED => "file not specified",
        K_AUDIO_UNIT_ERR_FORMAT_NOT_SUPPORTED => "format not supported",
        K_AUDIO_UNIT_ERR_UNINITIALIZED => "uninitialized",
        K_AUDIO_UNIT_ERR_INVALID_SCOPE => "invalid scope",
        K_AUDIO_UNIT_ERR_PROPERTY_NOT_WRITABLE => "property not writable",
        K_AUDIO_UNIT_ERR_CANNOT_DO_IN_CURRENT_CONTEXT => "cannot do in current context",
        K_AUDIO_UNIT_ERR_INVALID_PROPERTY_VALUE => "invalid property value",
        K_AUDIO_UNIT_ERR_PROPERTY_NOT_IN_USE => "property not in use",
        K_AUDIO_UNIT_ERR_INITIALIZED => "already initialized",
        K_AUDIO_UNIT_ERR_INVALID_OFFLINE_RENDER => "invalid offline render",
        K_AUDIO_UNIT_ERR_UNAUTHORIZED => "unauthorized",
        _ => "unknown error",
    }
}

/// The short description of an error.
pub open spec fn short_message(e: ErrorView) -> Seq<char> {
    match e {
        ErrorView::OsStatus { code, .. } => status_name(code),
        ErrorView::RenderFailed { code, .. } => status_name(code),
        ErrorView::LoadFailed { .. } => "unknown error"@,
        ErrorView::NullComponent => "null component"@,
        ErrorView::RequiresAsyncInstantiation =>
        "component requires asynchronous instantiation (AUv3 with a view)"@,
        ErrorView::CfStringAlloc => "CoreFoundation string allocation failed"@,
        ErrorView::InvalidBuffer { .. } => "invalid buffer"@,
        ErrorView::SampleRateRejected { .. } => "sample rate rejected"@,
        ErrorView::BlockSizeRejected { .. } => "block size rejected"@,
        ErrorView::PresetIo { .. } => "preset file I/O failed"@,
        ErrorView::InvalidPreset { .. } => "not a valid .aupreset"@,
        ErrorView::PresetIdentityMismatch { .. } => "preset belongs to a different Audio Unit"@,
    }
}

/// How a failed call reads in a longer diagnostic.
pub open spec fn os_status_line(function: Seq<char>, code: i32) -> Seq<char> {
    "AudioUnit error in "@ + function + ": OSStatus "@ + decimal(code as int) + " ("@ + status_name(
        code,
    ) + ")"@
}

/// How a failed call reads in a longer diagnostic.
pub fn os_status_text(function: &str, code: i32) -> (t: String)
    ensures
        t@ == os_status_line(function@, code),
{
    let mut t = "AudioUnit error in ".to_owned();
    t.append(function);
    t.append(": OSStatus ");
    push_decimal(&mut t, code as i64);
    t.append(" (");
    t.append(os_status_message(code));
    t.append(")");
    t
}

impl AuError {
    /// A failed render call, with what the unit recorded of it.
    pub fn render_failed(
        function: &'static str,
        code: i32,
        last_render_error: Option<i32>,
    ) -> (e: AuError)
        ensures
            e@ == (ErrorView::RenderFailed { function: function@, code, last_render_error }),
    {
        AuError::RenderFailed { function, code, last_render_error }
    }

    /// A load that failed at `stage`.
    pub fn load_failed(component: String, stage: LoadStage, reason: String) -> (e: AuError)
        ensures
            e@ == (ErrorView::LoadFailed { component: component@, stage, reason: reason@ }),
    {
        AuError::LoadFailed { component, stage, reason }
    }

    /// A file that is not a usable preset.
    pub fn invalid_preset(path: String, message: String) -> (e: AuError)
        ensures
            e@ == (ErrorView::InvalidPreset { path: path@, message: message@ }),
    {
        AuError::InvalidPreset(Box::new(PresetFileError { path, message }))
    }

    /// A preset file that could not be read or written.
    pub fn preset_io(path: String, message: String) -> (e: AuError)
        ensures
            e@ == (ErrorView::PresetIo { path: path@, message: message@ }),
    {
        AuError::PresetIo(Box::new(PresetFileError { path, message }))
    }

    /// A short description of the error. A status is called by its well-known
    /// name, or `"unknown error"`.
    pub fn message(&self) -> (m: &'static str)
        ensures
            m@ == short_message(self@),
    {
        match self {
            AuError::OsStatus { code, .. } => os_status_message(*code),
            AuError::RenderFailed { code, .. } => os_status_message(*code),
            AuError::LoadFailed { .. } => "unknown error",
            AuError::NullComponent => "null component",
            AuError::RequiresAsyncInstantiation =>
            "component requires asynchronous instantiation (AUv3 with a view)",
            AuError::CfStringAlloc => "CoreFoundation string allocation failed",
            AuError::InvalidBuffer(_) => "invalid buffer",
            AuError::SampleRateRejected { .. } => "sample rate rejected",
            AuError::BlockSizeRejected { .. } => "block size rejected",
            AuError::PresetIo(_) => "preset file I/O failed",
            AuError::InvalidPreset(_) => "not a valid .aupreset",
            AuError::PresetIdentityMismatch(_) => "preset belongs to a different Audio Unit",
        }
    }
}

/// The outcome of a call that returned `status`.
pub open spec fn status_outcome(function: Seq<char>, status: i32) -> Result<(), ErrorView> {
    if status == NO_ERR {
        Ok(())
    } else {
        Err(ErrorView::OsStatus { function, code: status })
    }
}

/// An outcome with its error taken by its contents.
pub open spec fn outcome<T>(r: Result<T, AuError>) -> Result<T, ErrorView> {
    match r {
        Ok(v) => Ok(v),
        Err(e) => Err(e@),
    }
}

// ---------------------------------------------------------------------------
// Laws
// ---------------------------------------------------------------------------
/// What each known status is called; any other is unknown.
pub proof fn a_status_is_called_by_its_name(code: i32)
    ensures
        code == -10879 ==> status_name(code) == "invalid property"@,
        code == -10878 ==> status_name(code) == "invalid parameter"@,
        code == -10877 ==> status_name(code) == "invalid element"@,
        code == -10876 ==> status_name(code) == "no connection"@,
        code == -10875 ==> status_name(code) == "failed initialization"@,
        code == -10874 ==> status_name(code) == "too many frames to process"@,
        code == -10871 ==> status_name(code) == "invalid file"@,
        code == -10870 ==> status_name(code) == "unknown file type"@,
        code == -10869 ==> status_name(code) == "file not specified"@,
        code == -10868 ==> status_name(code) == "format not supported"@,
        code == -10867 ==> status_name(code) == "uninitialized"@,
        code == -10866 ==> status_name(code) == "invalid scope"@,
        code == -10865 ==> status_name(code) == "property not writable"@,
        code == -10863 ==> status_name(code) == "cannot do in current context"@,
        code == -10851 ==> status_name(code) == "invalid property value"@,
        code == -10850 ==> status_name(code) == "property not in use"@,
        code == -10849 ==> status_name(code) == "already initialized"@,
        code == -10848 ==> status_name(code) == "invalid offline render"@,
        code == -10847 ==> status_name(code) == "unauthorized"@,
        code < -10879 || code > -10847 ==> status_name(code) == "unknown error"@,
        -10863 < code < -10851 || code == -10864 || code == -10872 || code == -10873
            ==> status_name(code) == "unknown error"@,
{
}

/// An error that carries a status is described by that status alone, and any other
/// by its kind alone.
pub proof fn an_error_is_described_by_its_status_or_kind(e: ErrorView)
    ensures
        e matches ErrorView::OsStatus { code, .. } ==> short_message(e) == status_name(code),
        e matches ErrorView::RenderFailed { code, .. } ==> short_message(e) == status_name(code),
        e is LoadFailed ==> short_message(e) == "unknown error"@,
        e is NullComponent ==> short_message(e) == "null component"@,
        e is RequiresAsyncInstantiation ==> short_message(e)
            == "component requires asynchronous instantiation (AUv3 with a view)"@,
        e is CfStringAlloc ==> short_message(e) == "CoreFoundation string allocation failed"@,
        e is InvalidBuffer ==> short_message(e) == "invalid buffer"@,
        e is SampleRateRejected ==> short_message(e) == "sample rate rejected"@,
        e is BlockSizeRejected ==> short_message(e) == "block size rejected"@,
        e is PresetIo ==> short_message(e) == "preset file I/O failed"@,
        e is InvalidPreset ==> short_message(e) == "not a valid .aupreset"@,
        e is PresetIdentityMismatch ==> short_message(e)
            == "preset belongs to a different Audio Unit"@,
{
}

/// A call succeeded exactly where its status is zero; otherwise the error names
/// the call and its status.
pub proof fn only_a_zero_status_is_success(function: Seq<char>, status: i32)
    ensures
        status_outcome(function, status) is Ok <==> status == 0,
        status_outcome(function, status) matches Err(e) ==> e == (ErrorView::OsStatus {
            function,
            code: status,
        }),
{
}

/// An outcome keeps its value, and its error with all that it says.
pub proof fn an_outcome_keeps_what_it_holds<T>(r: Result<T, AuError>)
    ensures
        r matches Ok(v) ==> outcome(r) == Ok::<T, ErrorView>(v),
        r matches Err(AuError::OsStatus { function, code }) ==> outcome(r) == Err::<T, ErrorView>(
            ErrorView::OsStatus { function: function@, code },
        ),
        r matches Err(AuError::InvalidBuffer(reason)) ==> outcome(r) == Err::<T, ErrorView>(
            ErrorView::InvalidBuffer { reason: reason@ },
        ),
        r matches Err(AuError::SampleRateRejected { scope, requested, accepted }) ==> outcome(r)
            == Err::<T, ErrorView>(
            ErrorView::SampleRateRejected { scope: scope@, requested, accepted },
        ),
        r matches Err(AuError::BlockSizeRejected { requested, accepted }) ==> outcome(r) == Err::<
            T,
            ErrorView,
        >(ErrorView::BlockSizeRejected { requested, accepted }),
        r matches Err(AuError::RenderFailed { function, code, last_render_error }) ==> outcome(r)
            == Err::<T, ErrorView>(
            ErrorView::RenderFailed { function: function@, code, last_render_error },
        ),
        r matches Err(AuError::LoadFailed { component, stage, reason }) ==> outcome(r) == Err::<
            T,
            ErrorView,
        >(ErrorView::LoadFailed { component: component@, stage, reason: reason@ }),
{
}

/// The errors of presets and those without contents are seen as they are too.
pub proof fn an_error_is_seen_as_it_is(e: AuError)
    ensures
        e is NullComponent ==> e@ is NullComponent,
        e is RequiresAsyncInstantiation ==> e@ is RequiresAsyncInstantiation,
        e is CfStringAlloc ==> e@ is CfStringAlloc,
        e matches AuError::PresetIo(p) ==> e@ == (ErrorView::PresetIo {
            path: p.path@,
            message: p.message@,
        }),
        e matches AuError::InvalidPreset(p) ==> e@ == (ErrorView::InvalidPreset {
            path: p.path@,
            message: p.message@,
        }),
        e matches AuError::PresetIdentityMismatch(m) ==> e@ == (ErrorView::PresetIdentityMismatch {
            path: m.path@,
            file_type: m.file_type@,
            file_sub_type: m.file_sub_type@,
            file_manufacturer: m.file_manufacturer@,
            au_type: m.au_type@,
            au_sub_type: m.au_sub_type@,
            au_manufacturer: m.au_manufacturer@,
        }),
{
}

/// A failed call reads as the call, its status and what that is called.
pub proof fn a_failed_call_reads_in_full(function: Seq<char>, code: i32)
    ensures
        os_status_line(function, code) == "AudioUnit error in "@ + function + ": OSStatus "@
            + decimal(code as int) + " ("@ + status_name(code) + ")"@,
{
}

} // verus!
