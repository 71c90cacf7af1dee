use vstd::prelude::*;

verus! {

/// Why the open state of a dialog is asked to change.
#[derive(Clone, Copy, Debug, PartialEq, Eq, Structural)]
pub enum DialogChangeReason {
    TriggerPress,
    BackdropPress,
    Cancel,
    Confirm,
    Imperative,
}

/// A requested open state together with its reason, as handed to a listener.
#[derive(Clone, Copy, Debug, PartialEq, Eq, Structural)]
pub struct OpenChange {
    pub open: bool,
    pub reason: DialogChangeReason,
}

impl OpenChange {
    pub fn new(open: bool, reason: DialogChangeReason) -> (change: OpenChange)
        ensures
            change == (OpenChange { open, reason }),
    {
        OpenChange { open, reason }
    }
}

} // verus!
