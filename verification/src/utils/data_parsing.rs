//! Checked numeric conversions.

use vstd::prelude::*;

verus! {

/// Converts a `usize` to a `u16`, rejecting values that do not fit.
pub fn parse_usize_to_u16(value: usize) -> (r: Result<u16, String>)
    ensures
        value <= u16::MAX ==> (r matches Ok(v) && v == value as u16),
        value > u16::MAX ==> r is Err,
        r is Err ==> r->Err_0@ == "Value out of range"@,
{
    if value <= u16::MAX as usize {
        Ok(value as u16)
    } else {
        Err("Value out of range".to_owned())
    }
}

} // verus!
