//! Confirmation before every profile is deleted.

use vstd::prelude::*;

verus! {

/// The answers of the confirmation dialog.
#[derive(Debug, Clone, Copy, PartialEq, Eq, Structural)]
pub enum ClearProfilesMessage {
    Confirm,
    Cancel,
}

/// The dialog that asks before all profiles are cleared.
pub struct ClearProfilesConfirmDialog {
    pub show: bool,
}

impl ClearProfilesConfirmDialog {
    /// A hidden dialog.
    pub fn new() -> (r: Self)
        ensures
            !r.show,
    {
        ClearProfilesConfirmDialog { show: false }
    }

    /// Shows the dialog.
    pub fn open(&mut self)
        ensures
            final(self).show,
    {
        self.show = true;
    }

    /// Hides the dialog.
    pub fn close(&mut self)
        ensures
            !final(self).show,
    {
        self.show = false;
    }
}

} // verus!
