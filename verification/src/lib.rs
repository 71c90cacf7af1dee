//! Decision logic of an unstyled modal dialog: who is told about an open-state
//! change, in which order the dismissal callbacks run, when a backdrop press is
//! taken, and how the close-button scope nests.

mod dialog;
mod effect;
mod footer;
mod handle;
mod keymap;
mod laws;
mod reason;
mod scope;
mod trigger;

pub use dialog::{
    attach_handle, backdrop_closable, backdrop_press_outcome, dismissal_effects, handle_view,
    request_open_change, routed_effects, routed_handle, share_open_change, shown,
    with_open_change, BackdropPress, Dialog, DialogState,
};
pub use effect::Effect;
pub use footer::{activate_action, DialogFooterButton};
pub use handle::{set_open_effects, DialogHandle, HandleState};
pub use keymap::{dialog_bindings, key_bindings, DialogCommand, DialogKey, KeyBinding};
pub use reason::{DialogChangeReason, OpenChange};
pub use laws::{
    lemma_attach_handle_keeps_open_state, lemma_backdrop_press_depends_only_on_closability,
    lemma_dismissal_exact, lemma_open_change_touches_only_listener, lemma_routing,
    lemma_set_open_effects_exact, lemma_shown_decided_by_handle, lemma_trigger_press_opens,
    lemma_backdrop_press_guards, lemma_close_scope_nests, lemma_covers_exactly_one_window,
    lemma_key_bindings, lemma_dismissal_hides,
    lemma_dismissal_order, lemma_open_change_and_handle_commute, lemma_open_close_round_trip,
    lemma_set_open_reports_only_changes, lemma_trigger_press_reports_once,
};
pub use scope::{activate_close, covers, CloseScope};
pub use trigger::{trigger_press, trigger_press_effects};
