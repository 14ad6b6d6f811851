//! Deciding the outcome of a point-to-display query.
//!
//! The platform layer asks the window server which displays contain a
//! point and hands back the raw answer: an error code, how many displays
//! matched, and the matched identifiers. The decisions on that answer are
//! made here.

use vstd::prelude::*;

use crate::error::XCapError;
use crate::monitor::Monitor;

verus! {

/// Decide which display a point query selected. The query failed when its
/// error code is nonzero; found nothing when it matched no display; and
/// otherwise selects the first matched identifier.
pub fn select_display_from_point(cg_error: i32, display_count: u32, display_ids: &Vec<u32>) -> (r:
    Result<u32, XCapError>)
    ensures
        cg_error != 0 ==> r == Err::<u32, XCapError>(
            XCapError::CoreGraphicsDisplayCGError(cg_error),
        ),
        cg_error == 0 && display_count == 0 ==> (r matches Err(e) && e matches XCapError::Error(m)
            && m@ == "Get displays from point failed"@),
        cg_error == 0 && display_count > 0 && display_ids@.len() == 0 ==> (r matches Err(e)
            && e matches XCapError::Error(m) && m@ == "Monitor not found"@),
        cg_error == 0 && display_count > 0 && display_ids@.len() > 0 ==> r == Ok::<u32, XCapError>(
            display_ids@[0],
        ),
{
    if cg_error != 0 {
        return Err(XCapError::CoreGraphicsDisplayCGError(cg_error));
    }
    if display_count == 0 {
        return Err(XCapError::new("Get displays from point failed"));
    }
    if display_ids.len() == 0 {
        return Err(XCapError::new("Monitor not found"));
    }
    Ok(display_ids[0])
}

/// A monitor found by a point query is returned only while its display is
/// still active; an inactive display is an error.
pub fn validate_active(monitor: Monitor, is_active: bool) -> (r: Result<Monitor, XCapError>)
    ensures
        is_active ==> r == Ok::<Monitor, XCapError>(monitor),
        !is_active ==> (r matches Err(e) && e matches XCapError::Error(m) && m@
            == "Monitor is not active"@),
{
    if is_active {
        Ok(monitor)
    } else {
        Err(XCapError::new("Monitor is not active"))
    }
}

} // verus!
