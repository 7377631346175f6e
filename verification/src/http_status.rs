use vstd::prelude::*;

verus! {

/// Whether an HTTP status code reports success: the 200 to 299 range.
pub open spec fn spec_status_is_success(status: u16) -> bool {
    200 <= status <= 299
}

/// Classify the status code of a completed request, as the one check made
/// after the single outbound request: a success status gives `Ok`, every
/// other status is handed back unchanged as the error.
pub fn classify_status(status: u16) -> (r: Result<(), u16>)
    ensures
        spec_status_is_success(status) ==> r == Ok::<(), u16>(()),
        !spec_status_is_success(status) ==> r == Err::<(), u16>(status),
{
    if 200 <= status && status <= 299 {
        Ok(())
    } else {
        Err(status)
    }
}

} // verus!
