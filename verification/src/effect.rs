use vstd::prelude::*;

use crate::reason::OpenChange;

verus! {

/// One piece of outside work that a decision asks the host to carry out.
/// Decisions return these in the order in which they must run.
#[derive(Clone, Copy, Debug, PartialEq, Eq, Structural)]
pub enum Effect {
    /// Call the listener registered on the shared dialog handle.
    NotifyListener(OpenChange),
    /// Call the dialog's own `on_open_change` (used when it has no handle).
    NotifyOpenChange(OpenChange),
    /// Schedule a redraw of the window.
    Refresh,
    /// Call the dialog's `request_close` hook; `true` when confirmed.
    RequestClose(bool),
    /// Call the dialog's `on_close` callback.
    Closed,
    /// Stop the pointer event from reaching elements below.
    StopPropagation,
    /// Dispatch the dialog's cancel action.
    DispatchCancel,
    /// Dispatch the dialog's confirm action; the flag is `secondary`.
    DispatchConfirm(bool),
    /// Call the trigger's `on_open` callback.
    TriggerOpen,
}

} // verus!
