use dialog::{
    activate_action, activate_close, key_bindings, request_open_change, trigger_press,
    BackdropPress, CloseScope, Dialog, DialogChangeReason, DialogCommand, DialogFooterButton,
    DialogHandle, DialogKey, Effect, KeyBinding, OpenChange,
};

fn notified(effects: &[Effect]) -> Vec<(bool, DialogChangeReason)> {
    effects
        .iter()
        .filter_map(|e| match e {
            Effect::NotifyListener(c) | Effect::NotifyOpenChange(c) => Some((c.open, c.reason)),
            _ => None,
        })
        .collect()
}

#[test]
fn trigger_opens_shared_handle_and_reports_reason() {
    let mut handle = DialogHandle::new(false);
    handle.attach_listener();
    let mut slot = Some(handle);
    let effects = trigger_press(&mut slot);
    assert!(slot.unwrap().is_open());
    assert_eq!(notified(&effects), vec![(true, DialogChangeReason::TriggerPress)]);
    assert_eq!(
        effects,
        vec![
            Effect::NotifyListener(OpenChange::new(true, DialogChangeReason::TriggerPress)),
            Effect::Refresh,
            Effect::TriggerOpen,
            Effect::StopPropagation,
        ]
    );
}

#[test]
fn close_child_activates_once_and_respects_cancel_veto() {
    let dialog = Dialog::new();
    let mut slot = Some(DialogHandle::new(true));
    let mut attempts = 0usize;
    let mut on_cancel = || {
        attempts += 1;
        attempts > 1
    };

    // First activation: the close wrapper dispatches cancel once; on_cancel vetoes.
    let activation = activate_close();
    let cancels = activation.iter().filter(|e| **e == Effect::DispatchCancel).count();
    assert_eq!(cancels, 1);
    let effects = dialog.cancel_action(&mut slot, on_cancel());
    assert!(effects.is_empty());
    assert!(slot.unwrap().is_open(), "on_cancel can veto pointer dismissal");

    // Second activation (Space on the focused button): same decision path.
    let activation = activate_close();
    assert_eq!(activation, vec![Effect::StopPropagation, Effect::DispatchCancel]);
    let effects = dialog.cancel_action(&mut slot, on_cancel());
    assert_eq!(attempts, 2);
    assert!(!slot.unwrap().is_open(), "Space uses the same cancel decision");
    assert_eq!(effects, vec![Effect::Refresh, Effect::RequestClose(false), Effect::Closed]);
}

#[test]
fn close_scope_restores_after_nesting_and_unwinding() {
    let window = 7u64;
    let mut scope = CloseScope::new();
    assert!(!scope.is_close_button(window));
    let outer = scope.enter(window);
    assert!(scope.is_close_button(window));
    let inner = scope.enter(window);
    assert!(scope.is_close_button(window));
    scope.restore(inner);
    assert!(scope.is_close_button(window));
    scope.restore(outer);
    assert!(!scope.is_close_button(window));
}

#[test]
fn close_scope_is_per_window() {
    let mut scope = CloseScope::default();
    let previous = scope.enter(1);
    assert_eq!(previous, None);
    assert!(scope.is_close_button(1));
    assert!(!scope.is_close_button(2));
    let nested = scope.enter(2);
    assert_eq!(nested, Some(1));
    assert!(!scope.is_close_button(1));
    scope.restore(nested);
    assert!(scope.is_close_button(1));
}

#[test]
fn handle_reports_only_real_changes() {
    let mut handle = DialogHandle::new(false);
    assert!(!handle.has_listener());
    assert_eq!(handle.close(), vec![]);
    assert_eq!(handle.open(), vec![Effect::Refresh]);
    handle.attach_listener();
    assert!(handle.has_listener());
    assert_eq!(handle.open(), vec![]);
    assert_eq!(
        handle.close(),
        vec![
            Effect::NotifyListener(OpenChange::new(false, DialogChangeReason::Imperative)),
            Effect::Refresh
        ]
    );
    assert!(!handle.is_open());
    let effects = handle.set_open(true, DialogChangeReason::Confirm);
    assert_eq!(notified(&effects), vec![(true, DialogChangeReason::Confirm)]);
}

#[test]
fn open_then_close_round_trip_reports_both() {
    let mut handle = DialogHandle::new(false);
    handle.attach_listener();
    let mut effects = handle.open();
    effects.extend(handle.close());
    assert!(!handle.is_open());
    assert_eq!(
        notified(&effects),
        vec![(true, DialogChangeReason::Imperative), (false, DialogChangeReason::Imperative)]
    );
}

#[test]
fn request_open_change_routes_to_handle_then_callback() {
    let mut with_handle = Some(DialogHandle::new(true));
    let effects = request_open_change(&mut with_handle, true, false, DialogChangeReason::Cancel);
    assert_eq!(effects, vec![Effect::Refresh]);
    assert!(!with_handle.unwrap().is_open());

    let mut none: Option<DialogHandle> = None;
    let effects = request_open_change(&mut none, true, false, DialogChangeReason::Confirm);
    assert_eq!(
        effects,
        vec![Effect::NotifyOpenChange(OpenChange::new(false, DialogChangeReason::Confirm))]
    );
    assert!(none.is_none());
    let effects = request_open_change(&mut none, false, false, DialogChangeReason::Confirm);
    assert!(effects.is_empty());
}

#[test]
fn new_dialog_defaults() {
    let dialog = Dialog::new();
    assert!(dialog.is_shown(&None));
    assert!(dialog.closes_on_escape());
    assert!(dialog.backdrop_closable());
    assert!(dialog.is_topmost());
    assert!(!dialog.has_open_change());
    assert_eq!(dialog.layer_index(), 0);
    assert_eq!(dialog.priority(), 10);
}

#[test]
fn builders_set_their_fields() {
    let dialog = Dialog::new()
        .open(false)
        .close_on_escape(false)
        .close_on_backdrop_press(false)
        .layer(4, false);
    assert!(!dialog.is_shown(&None));
    assert!(!dialog.closes_on_escape());
    assert!(!dialog.backdrop_closable());
    assert!(!dialog.is_topmost());
    assert_eq!(dialog.layer_index(), 4);
    assert_eq!(dialog.priority(), 14);
}

#[test]
fn handle_decides_whether_shown() {
    let dialog = Dialog::new().open(false);
    assert!(dialog.is_shown(&Some(DialogHandle::new(true))));
    let dialog = Dialog::new().open(true);
    assert!(!dialog.is_shown(&Some(DialogHandle::new(false))));
}

#[test]
fn open_change_and_handle_commute() {
    // handle first, then on_open_change
    let mut slot = Some(DialogHandle::new(true));
    let mut h = slot.unwrap();
    let dialog = Dialog::new().handle(&mut h);
    assert!(!h.has_listener());
    slot = Some(h);
    let a = dialog.on_open_change(&mut slot);
    assert!(slot.unwrap().has_listener());
    assert!(a.has_open_change());

    // on_open_change first, then handle
    let mut none: Option<DialogHandle> = None;
    let b = Dialog::new().on_open_change(&mut none);
    let mut h2 = DialogHandle::new(true);
    let b = b.handle(&mut h2);
    assert!(h2.has_listener());
    assert!(b.has_open_change());
}

#[test]
fn confirm_closes_with_confirm_reason() {
    let dialog = Dialog::new();
    let mut handle = DialogHandle::new(true);
    handle.attach_listener();
    let mut slot = Some(handle);
    let effects = dialog.confirm_action(&mut slot, true);
    assert_eq!(
        effects,
        vec![
            Effect::NotifyListener(OpenChange::new(false, DialogChangeReason::Confirm)),
            Effect::Refresh,
            Effect::RequestClose(true),
            Effect::Closed,
        ]
    );
    assert!(!dialog.is_shown(&slot));
}

#[test]
fn confirm_veto_changes_nothing() {
    let dialog = Dialog::new();
    let mut slot = Some(DialogHandle::new(true));
    assert!(dialog.confirm_action(&mut slot, false).is_empty());
    assert!(slot.unwrap().is_open());
}

#[test]
fn uncontrolled_dismissal_goes_to_own_callback() {
    let mut none: Option<DialogHandle> = None;
    let dialog = Dialog::new().on_open_change(&mut none);
    let effects = dialog.cancel_action(&mut none, true);
    assert_eq!(
        effects,
        vec![
            Effect::NotifyOpenChange(OpenChange::new(false, DialogChangeReason::Cancel)),
            Effect::RequestClose(false),
            Effect::Closed,
        ]
    );
}

#[test]
fn backdrop_press_outcomes() {
    let dialog = Dialog::new();
    assert_eq!(dialog.backdrop_press(false, true), BackdropPress::Ignored);
    assert_eq!(dialog.backdrop_press(false, false), BackdropPress::Ignored);
    assert_eq!(dialog.backdrop_press(true, false), BackdropPress::Absorbed);
    assert_eq!(dialog.backdrop_press(true, true), BackdropPress::ConsultCancel);
    let below = Dialog::new().layer(1, false);
    assert_eq!(below.backdrop_press(true, true), BackdropPress::Absorbed);
    let fixed = Dialog::new().close_on_backdrop_press(false);
    assert_eq!(fixed.backdrop_press(true, true), BackdropPress::Absorbed);
}

#[test]
fn backdrop_dismissal_reports_backdrop_press() {
    let dialog = Dialog::new();
    let mut handle = DialogHandle::new(true);
    handle.attach_listener();
    let mut slot = Some(handle);
    let effects = dialog.backdrop_dismiss(&mut slot, true);
    assert_eq!(notified(&effects), vec![(false, DialogChangeReason::BackdropPress)]);
    assert_eq!(effects[effects.len() - 2], Effect::RequestClose(false));
    assert_eq!(effects[effects.len() - 1], Effect::Closed);
    let mut slot = Some(DialogHandle::new(true));
    assert!(dialog.backdrop_dismiss(&mut slot, false).is_empty());
    assert!(slot.unwrap().is_open());
}

#[test]
fn trigger_without_handle_only_calls_on_open() {
    let mut none: Option<DialogHandle> = None;
    assert_eq!(trigger_press(&mut none), vec![Effect::TriggerOpen, Effect::StopPropagation]);
}

#[test]
fn second_trigger_press_reports_nothing_more() {
    let mut handle = DialogHandle::new(false);
    handle.attach_listener();
    let mut slot = Some(handle);
    trigger_press(&mut slot);
    assert_eq!(trigger_press(&mut slot), vec![Effect::TriggerOpen, Effect::StopPropagation]);
}

#[test]
fn escape_cancels_and_enter_confirms() {
    assert_eq!(
        key_bindings(),
        vec![
            KeyBinding { key: DialogKey::Escape, command: DialogCommand::Cancel },
            KeyBinding { key: DialogKey::Enter, command: DialogCommand::Confirm { secondary: false } },
        ]
    );
}

#[test]
fn action_dispatches_primary_confirm() {
    assert_eq!(activate_action(), vec![Effect::DispatchConfirm(false)]);
}

struct PlainButton;
impl DialogFooterButton for PlainButton {}

#[test]
fn footer_button_defaults_to_no_role() {
    assert!(!PlainButton.is_cancel());
    assert!(!PlainButton.is_action());
}
