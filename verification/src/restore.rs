//! Restoring a unit's saved state.
//!
//! State that comes from a document is offered to the unit as such first, and
//! as plain state where the unit does not take it. A restore is followed by a
//! notification of all parameters, since a unit rewrites them without telling
//! anyone.
use vstd::prelude::*;
use vstd::string::*;
use crate::error::{outcome, status_outcome, AuError, ErrorView};
use crate::ffi::check;
use crate::types::NO_ERR;

verus! {

/// What the unit is asked.
#[derive(Clone, Copy, Debug, PartialEq, Eq, Structural)]
pub enum RestoreRequest {
    /// Take the state as that of a document.
    SetFromDocument,
    /// Take the state.
    SetClassInfo,
    /// Notify the listeners of all parameters.
    NotifyAllParameters,
}

/// What follows an answer.
pub enum RestoreStep {
    Ask(RestoreRequest),
    Done(Result<(), AuError>),
}

/// What follows an answer, errors taken by their contents.
pub ghost enum RestoreStepView {
    Ask { request: RestoreRequest },
    Done { result: Result<(), ErrorView> },
}

impl View for RestoreStep {
    type V = RestoreStepView;

    open spec fn view(&self) -> RestoreStepView {
        match *self {
            RestoreStep::Ask(request) => RestoreStepView::Ask { request },
            RestoreStep::Done(result) => RestoreStepView::Done { result: outcome(result) },
        }
    }
}

/// What a parser makes of saved bytes.
#[derive(Clone, Copy, Debug, PartialEq, Eq, Structural)]
pub enum Decoded {
    /// They are not a property list.
    Malformed,
    /// They decoded to nothing.
    Null,
    /// A property list.
    Plist,
}

/// How restoring saved bytes begins: nothing is to do for none, bytes that are
/// no property list are refused before the unit sees them, and otherwise the
/// first request is made.
pub open spec fn beginning(empty: bool, decoded: Decoded, first: RestoreRequest) -> RestoreStepView {
    if empty {
        RestoreStepView::Done { result: Ok(()) }
    } else {
        match decoded {
            Decoded::Malformed => RestoreStepView::Done {
                result: Err(ErrorView::InvalidBuffer { reason: "failed to decode plist"@ }),
            },
            Decoded::Null => RestoreStepView::Done {
                result: Err(ErrorView::InvalidBuffer { reason: "decoded plist was null"@ }),
            },
            Decoded::Plist => RestoreStepView::Ask { request: first },
        }
    }
}

fn begin(data: &[u8], decoded: Decoded, first: RestoreRequest) -> (s: RestoreStep)
    ensures
        s@ == beginning(data@.len() == 0, decoded, first),
{
    if data.len() == 0 {
        return RestoreStep::Done(Ok(()));
    }
    match decoded {
        Decoded::Malformed => RestoreStep::Done(
            Err(AuError::InvalidBuffer("failed to decode plist".to_owned())),
        ),
        Decoded::Null => RestoreStep::Done(
            Err(AuError::InvalidBuffer("decoded plist was null".to_owned())),
        ),
        Decoded::Plist => RestoreStep::Ask(first),
    }
}

/// Begins restoring saved state.
pub fn load_state(data: &[u8], decoded: Decoded) -> (s: RestoreStep)
    ensures
        s@ == beginning(data@.len() == 0, decoded, RestoreRequest::SetClassInfo),
{
    begin(data, decoded, RestoreRequest::SetClassInfo)
}

/// Begins restoring state that comes from a document.
pub fn load_document_state(data: &[u8], decoded: Decoded) -> (s: RestoreStep)
    ensures
        s@ == beginning(data@.len() == 0, decoded, RestoreRequest::SetFromDocument),
{
    begin(data, decoded, RestoreRequest::SetFromDocument)
}

/// What became of a unit's state when it was saved.
#[derive(Debug)]
pub enum SavedState {
    /// The unit handed over nothing.
    Null,
    /// The state could not be serialized.
    Unserializable,
    /// The serialized state.
    Bytes(Vec<u8>),
}

/// The bytes of a unit's saved state: none where the unit hands over nothing.
pub fn save_state(saved: SavedState) -> (r: Result<Vec<u8>, AuError>)
    ensures
        saved is Null ==> (r matches Ok(bytes) && bytes@.len() == 0),
        saved matches SavedState::Bytes(bytes) ==> r == Ok::<Vec<u8>, AuError>(bytes),
        saved is Unserializable ==> outcome(r) == Err::<Vec<u8>, ErrorView>(
            ErrorView::InvalidBuffer { reason: "CFPropertyListCreateData failed"@ },
        ),
{
    match saved {
        SavedState::Null => Ok(Vec::new()),
        SavedState::Bytes(bytes) => Ok(bytes),
        SavedState::Unserializable => Err(
            AuError::InvalidBuffer("CFPropertyListCreateData failed".to_owned()),
        ),
    }
}

/// What follows the unit's answer to a request. Only the refusal of plain state
/// is an error; a failed notification is not, since the state is in place.
pub open spec fn following(request: RestoreRequest, status: i32) -> RestoreStepView {
    match request {
        RestoreRequest::SetFromDocument => if status == NO_ERR {
            RestoreStepView::Ask { request: RestoreRequest::NotifyAllParameters }
        } else {
            RestoreStepView::Ask { request: RestoreRequest::SetClassInfo }
        },
        RestoreRequest::SetClassInfo => match status_outcome("AudioUnitSetProperty"@, status) {
            Ok(_) => RestoreStepView::Ask { request: RestoreRequest::NotifyAllParameters },
            Err(e) => RestoreStepView::Done { result: Err(e) },
        },
        RestoreRequest::NotifyAllParameters => RestoreStepView::Done { result: Ok(()) },
    }
}

/// Takes the unit's answer to a request.
pub fn restore_answer(request: RestoreRequest, status: i32) -> (s: RestoreStep)
    ensures
        s@ == following(request, status),
{
    match request {
        RestoreRequest::SetFromDocument => if status == NO_ERR {
            RestoreStep::Ask(RestoreRequest::NotifyAllParameters)
        } else {
            RestoreStep::Ask(RestoreRequest::SetClassInfo)
        },
        RestoreRequest::SetClassInfo => match check("AudioUnitSetProperty", status) {
            Ok(()) => RestoreStep::Ask(RestoreRequest::NotifyAllParameters),
            Err(e) => RestoreStep::Done(Err(e)),
        },
        RestoreRequest::NotifyAllParameters => RestoreStep::Done(Ok(())),
    }
}

/// What restoring comes to from a request on, under the unit's answers.
pub open spec fn restored(
    request: RestoreRequest,
    from_document: i32,
    class_info: i32,
    notify: i32,
) -> Result<(), ErrorView>
    decreases
            (match request {
                RestoreRequest::SetFromDocument => 2int,
                RestoreRequest::SetClassInfo => 1int,
                RestoreRequest::NotifyAllParameters => 0int,
            }),
{
    let status = match request {
        RestoreRequest::SetFromDocument => from_document,
        RestoreRequest::SetClassInfo => class_info,
        RestoreRequest::NotifyAllParameters => notify,
    };
    match following(request, status) {
        RestoreStepView::Done { result } => result,
        RestoreStepView::Ask { request } => restored(request, from_document, class_info, notify),
    }
}

/// A document is restored if the unit takes its state either way; where it takes
/// neither, the error is that of plain state. How the notification goes does not
/// matter.
pub proof fn a_document_falls_back_to_plain_state(from_document: i32, class_info: i32, notify: i32)
    ensures
        restored(RestoreRequest::SetFromDocument, from_document, class_info, notify) == (
        if from_document == NO_ERR {
            Ok::<(), ErrorView>(())
        } else {
            status_outcome("AudioUnitSetProperty"@, class_info)
        }),
        restored(RestoreRequest::SetClassInfo, from_document, class_info, notify)
            == status_outcome("AudioUnitSetProperty"@, class_info),
{
    reveal_with_fuel(restored, 4);
}

/// How a restore begins: nothing is done for no bytes, bytes that are no property
/// list are refused, and otherwise the unit is asked what the restore begins with.
pub proof fn a_restore_begins_with_its_request(
    empty: bool,
    decoded: Decoded,
    first: RestoreRequest,
)
    ensures
        empty ==> beginning(empty, decoded, first) == (RestoreStepView::Done { result: Ok(()) }),
        !empty && decoded is Malformed ==> beginning(empty, decoded, first) == (
        RestoreStepView::Done {
            result: Err(ErrorView::InvalidBuffer { reason: "failed to decode plist"@ }),
        }),
        !empty && decoded is Null ==> beginning(empty, decoded, first) == (RestoreStepView::Done {
            result: Err(ErrorView::InvalidBuffer { reason: "decoded plist was null"@ }),
        }),
        !empty && decoded is Plist ==> beginning(empty, decoded, first) == (RestoreStepView::Ask {
            request: first,
        }),
{
}

/// How a restore goes on: state that the unit took is followed by a notification,
/// a document that it did not take by plain state, and plain state that it did not
/// take by that refusal. After the notification all is well, however it went.
pub proof fn a_restore_ends_in_a_notification_or_a_refusal(status: i32)
    ensures
        status == 0 ==> following(RestoreRequest::SetFromDocument, status) == (
        RestoreStepView::Ask { request: RestoreRequest::NotifyAllParameters }),
        status != 0 ==> following(RestoreRequest::SetFromDocument, status) == (
        RestoreStepView::Ask { request: RestoreRequest::SetClassInfo }),
        status == 0 ==> following(RestoreRequest::SetClassInfo, status) == (RestoreStepView::Ask {
            request: RestoreRequest::NotifyAllParameters,
        }),
        status != 0 ==> following(RestoreRequest::SetClassInfo, status) == (RestoreStepView::Done {
            result: Err(
                ErrorView::OsStatus { function: "AudioUnitSetProperty"@, code: status },
            ),
        }),
        following(RestoreRequest::NotifyAllParameters, status) == (RestoreStepView::Done {
            result: Ok(()),
        }),
{
}

/// A step is seen as it is.
pub proof fn a_step_is_seen_as_it_is(s: RestoreStep)
    ensures
        s matches RestoreStep::Ask(request) ==> s@ == (RestoreStepView::Ask { request }),
        s matches RestoreStep::Done(result) ==> s@ == (RestoreStepView::Done {
            result: outcome(result),
        }),
{
}

} // verus!
