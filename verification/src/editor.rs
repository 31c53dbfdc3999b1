//! Opening a unit's own editor view.
use vstd::prelude::*;
use vstd::string::*;
use crate::error::{outcome, AuError, ErrorView};
use crate::types::K_AUDIO_UNIT_ERR_INVALID_PROPERTY;

verus! {

/// The size of an editor window.
#[derive(Clone, Copy, Debug, PartialEq, Eq, Structural)]
pub struct EditorSize {
    pub width: u32,
    pub height: u32,
}

/// Bytes of a view description with one view class: two references.
pub const COCOA_VIEW_INFO_SIZE: usize = 16;

/// Why a view description cannot be used, if it cannot.
pub open spec fn view_info_fault(size: nat, has_location: bool, has_class: bool) -> Option<
    ErrorView,
> {
    if size == 0 {
        Some(
            ErrorView::OsStatus {
                function: "GetProperty(CocoaUI)"@,
                code: K_AUDIO_UNIT_ERR_INVALID_PROPERTY,
            },
        )
    } else if !has_location {
        Some(ErrorView::InvalidBuffer { reason: "CocoaUI info has null bundle URL"@ })
    } else if !has_class {
        Some(ErrorView::InvalidBuffer { reason: "CocoaUI info has null class name"@ })
    } else {
        None
    }
}

/// Whether a unit's description of its view can be used: it is not empty, and it
/// names a bundle and a class. A size that is not zero is not held against the
/// unit.
pub fn check_view_info(size: usize, has_location: bool, has_class: bool) -> (r: Result<
    (),
    AuError,
>)
    ensures
        outcome(r) == (match view_info_fault(size as nat, has_location, has_class) {
            Some(e) => Err(e),
            None => Ok(()),
        }),
{
    if size == 0 {
        return Err(
            AuError::OsStatus {
                function: "GetProperty(CocoaUI)",
                code: K_AUDIO_UNIT_ERR_INVALID_PROPERTY,
            },
        );
    }
    if !has_location {
        return Err(AuError::InvalidBuffer("CocoaUI info has null bundle URL".to_owned()));
    }
    if !has_class {
        return Err(AuError::InvalidBuffer("CocoaUI info has null class name".to_owned()));
    }
    Ok(())
}

/// How far making a view got.
#[derive(Clone, Copy, Debug, PartialEq, Eq, Structural)]
pub enum ViewFailure {
    /// The bundle could not be loaded.
    Bundle,
    /// The class name is not one.
    ClassName,
    /// The bundle has no such class.
    Class,
    /// The class could not be instantiated.
    Factory,
    /// The factory made no view.
    View,
}

/// How a failure to make a view is reported.
pub open spec fn failure_text(failure: ViewFailure, class_name: Seq<char>) -> Seq<char> {
    match failure {
        ViewFailure::Bundle => "Failed to load AU view bundle"@,
        ViewFailure::ClassName => "Invalid class name: "@ + class_name,
        ViewFailure::Class => "ObjC class '"@ + class_name + "' not found in bundle"@,
        ViewFailure::Factory => "Failed to instantiate AU view factory"@,
        ViewFailure::View => "AU view factory returned null view"@,
    }
}

/// The error of a failure to make a view of a class.
pub fn view_error(failure: ViewFailure, class_name: &str) -> (e: AuError)
    ensures
        e@ == (ErrorView::InvalidBuffer { reason: failure_text(failure, class_name@) }),
{
    let text = match failure {
        ViewFailure::Bundle => "Failed to load AU view bundle".to_owned(),
        ViewFailure::ClassName => {
            let mut t = "Invalid class name: ".to_owned();
            t.append(class_name);
            t
        },
        ViewFailure::Class => {
            let mut t = "ObjC class '".to_owned();
            t.append(class_name);
            t.append("' not found in bundle");
            t
        },
        ViewFailure::Factory => "Failed to instantiate AU view factory".to_owned(),
        ViewFailure::View => "AU view factory returned null view".to_owned(),
    };
    AuError::InvalidBuffer(text)
}

/// A view description is refused where it is empty or names no bundle or no class,
/// in that order, and for nothing else.
pub proof fn a_view_is_refused_for_what_it_lacks(size: nat, has_location: bool, has_class: bool)
    ensures
        view_info_fault(size, has_location, has_class) is None <==> size > 0 && has_location
            && has_class,
        size == 0 ==> view_info_fault(size, has_location, has_class) == Some(
            ErrorView::OsStatus { function: "GetProperty(CocoaUI)"@, code: -10879i32 },
        ),
        size > 0 && !has_location ==> view_info_fault(size, has_location, has_class) == Some(
            ErrorView::InvalidBuffer { reason: "CocoaUI info has null bundle URL"@ },
        ),
        size > 0 && has_location && !has_class ==> view_info_fault(size, has_location, has_class)
            == Some(ErrorView::InvalidBuffer { reason: "CocoaUI info has null class name"@ }),
{
}

/// How a failure to make a view reads; the class is named where it is to blame.
pub proof fn a_failed_view_says_why(failure: ViewFailure, class_name: Seq<char>)
    ensures
        failure is Bundle ==> failure_text(failure, class_name) == "Failed to load AU view bundle"@,
        failure is ClassName ==> failure_text(failure, class_name) == "Invalid class name: "@
            + class_name,
        failure is Class ==> failure_text(failure, class_name) == "ObjC class '"@ + class_name
            + "' not found in bundle"@,
        failure is Factory ==> failure_text(failure, class_name)
            == "Failed to instantiate AU view factory"@,
        failure is View ==> failure_text(failure, class_name)
            == "AU view factory returned null view"@,
{
}

} // verus!
