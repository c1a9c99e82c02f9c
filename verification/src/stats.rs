//! Statistics reported by the native module, as far as they are integers.
use crate::native::OptionalInt;
use vstd::prelude::*;

verus! {

/// The instantaneous AEC delay estimate in ms for a native report: the reported value taken
/// as unsigned, or none when nothing was reported.
pub fn delay_ms_from_native(delay_ms: OptionalInt) -> (r: Option<u32>)
    ensures
        r == (if delay_ms.has_value { Some(delay_ms.value as u32) } else { None }),
{
    match Option::<i32>::from(delay_ms) {
        Some(v) => Some(v as u32),
        None => None,
    }
}

} // verus!
