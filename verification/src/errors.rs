//! The UI error log: errors raised on the hook path are queued here and
//! presented later on the message loop, so hook processing never blocks on
//! a failing UI call.

use vstd::prelude::*;

verus! {

/// One queued error report.
#[derive(Clone, Debug)]
pub struct UiError {
    pub title: String,
    pub user_text: String,
    pub debug_text: String,
}

/// Errors waiting to be presented, oldest first.
pub struct ErrorLog {
    pub errors: Vec<UiError>,
}

impl ErrorLog {
    /// An empty log.
    pub fn new() -> (r: ErrorLog)
        ensures
            r.errors@.len() == 0,
    {
        ErrorLog { errors: Vec::new() }
    }

    /// Appends an error report; the caller then signals the message loop.
    pub fn push(&mut self, err: UiError)
        ensures
            final(self).errors@ == old(self).errors@.push(err),
    {
        self.errors.push(err);
    }

    /// Removes and returns the oldest queued error, if any.
    pub fn drain_one(&mut self) -> (r: Option<UiError>)
        ensures
            old(self).errors@.len() == 0 ==> (r is None && *final(self) == *old(self)),
            old(self).errors@.len() != 0 ==> ({
                &&& r is Some
                &&& r->0 == old(self).errors@[0]
                &&& final(self).errors@ == old(self).errors@.remove(0)
            }),
    {
        if self.errors.len() == 0 {
            return None;
        }
        Some(self.errors.remove(0))
    }
}

} // verus!
