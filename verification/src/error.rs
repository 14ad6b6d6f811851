//! Error type shared by the display queries.

use vstd::prelude::*;
use vstd::string::StringExecFns;

verus! {

/// An error from a display query: either a message of this crate's own,
/// or a CoreGraphics error code passed through from the platform layer.
#[derive(Debug, PartialEq, Eq)]
pub enum XCapError {
    Error(String),
    CoreGraphicsDisplayCGError(i32),
}

impl XCapError {
    /// Wrap a plain message.
    pub fn new(message: &str) -> (r: XCapError)
        ensures
            r matches XCapError::Error(m) && m@ == message@,
    {
        XCapError::Error(String::from_str(message))
    }
}

} // verus!
