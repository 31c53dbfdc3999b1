//! What the statuses of property calls come to.
use vstd::prelude::*;
use crate::error::{outcome, status_outcome, AuError, ErrorView};
use crate::types::NO_ERR;

verus! {

/// Turns a status into an outcome, naming the call that returned it.
pub fn check(function: &'static str, status: i32) -> (r: Result<(), AuError>)
    ensures
        outcome(r) == status_outcome(function@, status),
{
    if status == NO_ERR {
        Ok(())
    } else {
        Err(AuError::OsStatus { function, code: status })
    }
}

/// The size of a property, given the unit's answer to asking for it.
pub fn property_size(status: i32, size: u32) -> (r: Result<u32, AuError>)
    ensures
        outcome(r) == (match status_outcome("AudioUnitGetPropertyInfo"@, status) {
            Ok(_) => Ok(size),
            Err(e) => Err(e),
        }),
{
    match check("AudioUnitGetPropertyInfo", status) {
        Ok(()) => Ok(size),
        Err(e) => Err(e),
    }
}

/// What a read of a variable-size property delivered, into a buffer of the size
/// that the unit had announced: the bytes that it says it filled, none beyond the
/// buffer.
pub open spec fn delivered_bytes(buf: Seq<u8>, filled: u32) -> Seq<u8> {
    if filled < buf.len() {
        buf.take(filled as int)
    } else {
        buf
    }
}

/// The bytes of a variable-size property, given the status of the read, the
/// buffer it went into and how many bytes the unit says it filled.
pub fn get_property_bytes(status: i32, buf: Vec<u8>, filled: u32) -> (r: Result<Vec<u8>, AuError>)
    ensures
        status == NO_ERR ==> (r matches Ok(bytes) && bytes@ == delivered_bytes(buf@, filled)),
        status != NO_ERR ==> outcome(r) == Err::<Vec<u8>, ErrorView>(
            ErrorView::OsStatus { function: "AudioUnitGetProperty"@, code: status },
        ),
{
    match check("AudioUnitGetProperty", status) {
        Err(e) => Err(e),
        Ok(()) => {
            let mut bytes = buf;
            if (filled as u64) < bytes.len() as u64 {
                bytes.truncate(filled as usize);
            }
            Ok(bytes)
        },
    }
}

/// What a read delivers is what the unit says it filled, byte for byte, and never
/// more than there was room for.
pub proof fn a_read_delivers_what_was_filled(buf: Seq<u8>, filled: u32, i: int)
    requires
        0 <= i,
    ensures
        filled <= buf.len() ==> delivered_bytes(buf, filled).len() == filled,
        filled > buf.len() ==> delivered_bytes(buf, filled).len() == buf.len(),
        i < delivered_bytes(buf, filled).len() ==> delivered_bytes(buf, filled)[i] == buf[i],
{
}

} // verus!
