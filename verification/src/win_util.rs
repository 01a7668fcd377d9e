//! Helpers for HRESULT-style status codes returned by a native device layer.

use vstd::prelude::*;

verus! {

/// Turns a Windows-style status code into a `Result`: a code is a success
/// exactly when it is non-negative.
pub fn check_hr(hr: i32) -> (r: Result<(), i32>)
    ensures
        r is Ok <==> hr >= 0,
        r matches Err(e) ==> e == hr,
{
    if hr >= 0 {
        Ok(())
    } else {
        Err(hr)
    }
}

} // verus!
