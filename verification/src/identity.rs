//! Names of an instance, and a unit's own shortlist of parameters.
use vstd::prelude::*;
use vstd::string::*;
use crate::bytes::{read_u32, u32_at};
use crate::error::{outcome, status_outcome, AuError, ErrorView};
use crate::ffi::check;

verus! {

/// An entry of a unit's shortlist: a parameter and where it lives. The unit's
/// own handle, which the entry begins with, is not kept.
#[derive(Clone, Copy, Debug, PartialEq, Eq, Structural)]
pub struct OverviewParameter {
    pub id: u32,
    pub scope: u32,
    pub element: u32,
}

/// Bytes of an entry: an eight-byte handle, three numbers and padding.
pub const OVERVIEW_STRIDE: usize = 24;

/// The entry whose bytes stand at `at`.
pub open spec fn overview_at(bytes: Seq<u8>, at: int) -> OverviewParameter {
    OverviewParameter {
        id: u32_at(bytes, at + 8) as u32,
        scope: u32_at(bytes, at + 12) as u32,
        element: u32_at(bytes, at + 16) as u32,
    }
}

/// The entries of a shortlist.
pub open spec fn overview_in(bytes: Seq<u8>) -> Seq<OverviewParameter> {
    Seq::new(bytes.len() / 24, |i: int| overview_at(bytes, 24 * i))
}

/// A unit's shortlist in its own order, given what reading it came to. The whole
/// list is taken; bytes at its end that are not a whole entry are dropped.
pub fn parameters_for_overview(read: Result<Vec<u8>, AuError>) -> (r: Result<
    Vec<OverviewParameter>,
    AuError,
>)
    ensures
        read matches Err(e) ==> r == Err::<Vec<OverviewParameter>, AuError>(e),
        read matches Ok(bytes) ==> r is Ok && r->Ok_0@ == overview_in(bytes@),
{
    match read {
        Err(e) => Err(e),
        Ok(bytes) => {
            let n: usize = bytes.len() / OVERVIEW_STRIDE;
            let list = bytes.as_slice();
            let mut out: Vec<OverviewParameter> = Vec::with_capacity(n);
            for i in 0..n
                invariant
                    n == list@.len() / 24,
                    list@.len() <= usize::MAX,
                    out@ == overview_in(list@).take(i as int),
            {
                let at: usize = OVERVIEW_STRIDE * i;
                let entry = OverviewParameter {
                    id: read_u32(list, at + 8),
                    scope: read_u32(list, at + 12),
                    element: read_u32(list, at + 16),
                };
                out.push(entry);
                assert(overview_in(list@).take(i + 1) =~= overview_in(list@).take(i as int).push(
                    entry,
                ));
            }
            assert(overview_in(list@).take(n as int) =~= overview_in(list@));
            Ok(out)
        },
    }
}

/// What reading a name or a location came to. A unit that has none answers with
/// nothing, which is not the refusal of one that does not know the property.
pub fn named(status: i32, text: Option<String>) -> (r: Result<Option<String>, AuError>)
    ensures
        outcome(r) == (match status_outcome("AudioUnitGetProperty"@, status) {
            Ok(_) => Ok(text),
            Err(e) => Err(e),
        }),
{
    match check("AudioUnitGetProperty", status) {
        Ok(()) => Ok(text),
        Err(e) => Err(e),
    }
}

/// What setting a name came to. A name that could not be allocated was not set,
/// and is never reported as set.
pub fn set_name(allocated: bool, status: i32) -> (r: Result<(), AuError>)
    ensures
        outcome(r) == (if allocated {
            status_outcome("AudioUnitSetProperty"@, status)
        } else {
            Err(ErrorView::CfStringAlloc)
        }),
{
    if !allocated {
        return Err(AuError::CfStringAlloc);
    }
    check("AudioUnitSetProperty", status)
}

/// An entry of the shortlist is 24 bytes: behind eight that are passed over stand
/// the parameter, the scope and the element, four bytes each and the lowest first.
pub proof fn an_entry_has_its_places(bytes: Seq<u8>, i: int)
    requires
        0 <= i < overview_in(bytes).len(),
    ensures
        24 * overview_in(bytes).len() <= bytes.len() < 24 * overview_in(bytes).len() + 24,
        ({
            let at = 24 * i;
            let e = overview_in(bytes)[i];
            &&& e.id == bytes[at + 8] + 256 * (bytes[at + 9] + 256 * (bytes[at + 10] + 256
                * bytes[at + 11]))
            &&& e.scope == bytes[at + 12] + 256 * (bytes[at + 13] + 256 * (bytes[at + 14] + 256
                * bytes[at + 15]))
            &&& e.element == bytes[at + 16] + 256 * (bytes[at + 17] + 256 * (bytes[at + 18] + 256
                * bytes[at + 19]))
        }),
{
}

} // verus!
