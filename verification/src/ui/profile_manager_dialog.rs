//! The list of PP3 profiles with its actions.

use vstd::prelude::*;

verus! {

/// The actions of the profile manager.
#[derive(Debug, Clone, Copy, PartialEq, Eq, Structural)]
pub enum ProfileMessage {
    Add,
    Delete(usize),
    Edit(usize),
    ClearAll,
    Close,
}

/// The profile manager panel.
pub struct ProfileManagerDialog {
    pub show: bool,
}

impl ProfileManagerDialog {
    /// A hidden panel.
    pub fn new() -> (r: Self)
        ensures
            !r.show,
    {
        ProfileManagerDialog { show: false }
    }

    /// Shows the panel.
    pub fn open(&mut self)
        ensures
            final(self).show,
    {
        self.show = true;
    }

    /// Hides the panel.
    pub fn close(&mut self)
        ensures
            !final(self).show,
    {
        self.show = false;
    }
}

} // verus!
