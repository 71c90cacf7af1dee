use vstd::prelude::*;

use crate::dialog::{
    attach_handle, backdrop_press_outcome, dismissal_effects, routed_effects, routed_handle,
    share_open_change, shown, with_open_change, BackdropPress, DialogState,
};
use crate::effect::Effect;
use crate::handle::{set_open_effects, HandleState};
use crate::reason::{DialogChangeReason, OpenChange};
use crate::keymap::{dialog_bindings, DialogCommand, DialogKey};
use crate::scope::covers;
use crate::trigger::trigger_press_effects;

verus! {

/// A handle's listener hears of an open-state request exactly when the state
/// changes, and a redraw is asked for exactly then too; a request for the
/// state the handle is already in asks for nothing at all.
pub proof fn lemma_set_open_reports_only_changes(h: HandleState, open: bool, reason: DialogChangeReason)
    ensures
        (set_open_effects(h, open, reason).len() == 0) <==> (h.open == open),
        set_open_effects(h, open, reason).contains(Effect::NotifyListener(OpenChange { open, reason }))
            <==> (h.open != open && h.listening),
        set_open_effects(h, open, reason).contains(Effect::Refresh) <==> (h.open != open),
{
    let e = set_open_effects(h, open, reason);
    if h.open != open && h.listening {
        assert(e[0] == Effect::NotifyListener(OpenChange { open, reason }));
        assert(e[1] == Effect::Refresh);
    } else if h.open != open {
        assert(e[0] == Effect::Refresh);
    }
}

/// Opening and then closing a closed handle imperatively leaves it as it was,
/// and its listener hears of both changes, in order.
pub proof fn lemma_open_close_round_trip(h: HandleState)
    requires
        !h.open,
        h.listening,
    ensures
        ({
            let opened = HandleState { open: true, listening: h.listening };
            let closed = HandleState { open: false, listening: opened.listening };
            &&& closed == h
            &&& set_open_effects(h, true, DialogChangeReason::Imperative) + set_open_effects(
                opened,
                false,
                DialogChangeReason::Imperative,
            ) == seq![
                Effect::NotifyListener(OpenChange { open: true, reason: DialogChangeReason::Imperative }),
                Effect::Refresh,
                Effect::NotifyListener(OpenChange { open: false, reason: DialogChangeReason::Imperative }),
                Effect::Refresh,
            ]
        }),
{
    let opened = HandleState { open: true, listening: h.listening };
    assert(set_open_effects(h, true, DialogChangeReason::Imperative) + set_open_effects(
        opened,
        false,
        DialogChangeReason::Imperative,
    ) =~= seq![
        Effect::NotifyListener(OpenChange { open: true, reason: DialogChangeReason::Imperative }),
        Effect::Refresh,
        Effect::NotifyListener(OpenChange { open: false, reason: DialogChangeReason::Imperative }),
        Effect::Refresh,
    ]);
}

/// Whether a dialog gets its handle before or after its `on_open_change`
/// callback, the outcome is the same: the dialog ends up `with_open_change(d)`
/// either way, and the handle ends up with the callback as its listener.
pub proof fn lemma_open_change_and_handle_commute(d: DialogState, h: HandleState)
    ensures
        share_open_change(Some(attach_handle(d, h))) == Some(attach_handle(with_open_change(d), h)),
        attach_handle(with_open_change(d), h).listening,
{
}

/// An accepted dismissal of a dialog driven by a handle hides it.
pub proof fn lemma_dismissal_hides(d: DialogState, h: HandleState)
    ensures
        !shown(d, routed_handle(Some(h), false)),
{
}

/// In an accepted dismissal, the open-state change is routed first, then
/// `request_close` runs, and `on_close` runs last; each exactly once.
pub proof fn lemma_dismissal_order(
    d: DialogState,
    handle: Option<HandleState>,
    reason: DialogChangeReason,
    confirmed: bool,
)
    ensures
        ({
            let e = dismissal_effects(d, handle, reason, confirmed);
            &&& e.len() >= 2
            &&& e[e.len() - 2] == Effect::RequestClose(confirmed)
            &&& e[e.len() - 1] == Effect::Closed
            &&& forall|i: int|
                0 <= i < e.len() - 2 ==> match #[trigger] e[i] {
                    Effect::NotifyListener(c) => c == (OpenChange { open: false, reason }),
                    Effect::NotifyOpenChange(c) => c == (OpenChange { open: false, reason }),
                    Effect::Refresh => true,
                    _ => false,
                }
        }),
{
    let e = dismissal_effects(d, handle, reason, confirmed);
    let r = crate::dialog::routed_effects(handle, d.open_change, false, reason);
    assert(e == r + seq![Effect::RequestClose(confirmed), Effect::Closed]);
    assert forall|i: int| 0 <= i < e.len() - 2 implies match #[trigger] e[i] {
        Effect::NotifyListener(c) => c == (OpenChange { open: false, reason }),
        Effect::NotifyOpenChange(c) => c == (OpenChange { open: false, reason }),
        Effect::Refresh => true,
        _ => false,
    } by {
        assert(e[i] == r[i]);
    }
}

/// A backdrop press above the dismissal line is never taken, whatever the
/// button; a dialog that is not topmost, or not backdrop-closable, never
/// consults `on_cancel` for a backdrop press.
pub proof fn lemma_backdrop_press_guards(d: DialogState, in_dismiss_zone: bool, left_button: bool)
    ensures
        !in_dismiss_zone ==> backdrop_press_outcome(d, in_dismiss_zone, left_button) == BackdropPress::Ignored,
        (!d.topmost || !d.overlay_closable || !left_button) && in_dismiss_zone
            ==> backdrop_press_outcome(d, in_dismiss_zone, left_button) == BackdropPress::Absorbed,
{
}

/// Pressing a trigger opens its handle and reports `TriggerPress` once;
/// pressing it again reports nothing more.
pub proof fn lemma_trigger_press_reports_once(h: HandleState)
    requires
        !h.open,
        h.listening,
    ensures
        trigger_press_effects(Some(h)) == seq![
            Effect::NotifyListener(OpenChange { open: true, reason: DialogChangeReason::TriggerPress }),
            Effect::Refresh,
            Effect::TriggerOpen,
            Effect::StopPropagation,
        ],
        trigger_press_effects(Some(HandleState { open: true, listening: h.listening })) == seq![
            Effect::TriggerOpen,
            Effect::StopPropagation,
        ],
{
    assert(trigger_press_effects(Some(h)) =~= seq![
        Effect::NotifyListener(OpenChange { open: true, reason: DialogChangeReason::TriggerPress }),
        Effect::Refresh,
        Effect::TriggerOpen,
        Effect::StopPropagation,
    ]);
    assert(trigger_press_effects(Some(HandleState { open: true, listening: h.listening }))
        =~= seq![Effect::TriggerOpen, Effect::StopPropagation]);
}

/// Entering the close scope for a window makes that window's buttons close
/// buttons; restoring what `enter` handed back returns to the scope before,
/// also when scopes nest, so that buttons outside every wrapper never take on
/// close semantics.
pub proof fn lemma_close_scope_nests(outer: Option<u64>, w1: u64, w2: u64, other: u64)
    ensures
        ({
            // `enter(w1)` on `outer` sets `Some(w1)` and hands back `outer`;
            // `enter(w2)` inside it sets `Some(w2)` and hands back `Some(w1)`.
            let inner1 = Some(w1);
            let previous1 = outer;
            let inner2 = Some(w2);
            let previous2 = inner1;
            &&& covers(inner1, w1)
            &&& covers(inner2, w2)
            &&& covers(previous2, w1)
            &&& previous1 == outer
            &&& (!covers(outer, other) ==> !covers(previous1, other))
        }),
{
}

/// Setting a handle's open state asks for exactly this: nothing when the state
/// is unchanged; otherwise one notification of the listener with the new state
/// and the reason (only when a listener is registered), followed by exactly
/// one redraw, whether or not a listener is registered.
pub proof fn lemma_set_open_effects_exact(h: HandleState, open: bool, reason: DialogChangeReason)
    ensures
        h.open == open ==> set_open_effects(h, open, reason) == Seq::<Effect>::empty(),
        h.open != open && h.listening ==> set_open_effects(h, open, reason) == seq![
            Effect::NotifyListener(OpenChange { open, reason }),
            Effect::Refresh,
        ],
        h.open != open && !h.listening ==> set_open_effects(h, open, reason) == seq![Effect::Refresh],
        forall|i: int, j: int|
            0 <= i < set_open_effects(h, open, reason).len() && 0 <= j < set_open_effects(h, open, reason).len()
                && (#[trigger] set_open_effects(h, open, reason)[i]) is NotifyListener
                && (#[trigger] set_open_effects(h, open, reason)[j]) is NotifyListener ==> i == j,
        forall|i: int|
            0 <= i < set_open_effects(h, open, reason).len() ==> match #[trigger] set_open_effects(h, open, reason)[i] {
                Effect::NotifyListener(c) => c == (OpenChange { open, reason }),
                Effect::Refresh => true,
                _ => false,
            },
{
    let e = set_open_effects(h, open, reason);
    if h.open != open && h.listening {
        assert(e =~= seq![Effect::NotifyListener(OpenChange { open, reason }), Effect::Refresh]);
    } else if h.open != open {
        assert(e =~= seq![Effect::Refresh]);
    } else {
        assert(e =~= Seq::<Effect>::empty());
    }
}

/// Attaching a handle to a dialog never changes the handle's open state; the
/// handle gains a listener exactly when the dialog has an `on_open_change`
/// (keeping one it already had), whatever else the dialog holds.
pub proof fn lemma_attach_handle_keeps_open_state(d: DialogState, h: HandleState)
    ensures
        attach_handle(d, h).open == h.open,
        attach_handle(d, h).listening == (h.listening || d.open_change),
        !d.open_change ==> attach_handle(d, h) == h,
{
}

/// Giving a dialog an `on_open_change` changes only that flag of the dialog;
/// an attached handle keeps its open state and gains a listener, and an
/// absent handle stays absent.
pub proof fn lemma_open_change_touches_only_listener(d: DialogState, h: Option<HandleState>)
    ensures
        with_open_change(d).open_change,
        with_open_change(d).open == d.open,
        with_open_change(d).keyboard == d.keyboard,
        with_open_change(d).overlay_closable == d.overlay_closable,
        with_open_change(d).topmost == d.topmost,
        with_open_change(d).layer == d.layer,
        h is None ==> share_open_change(h) is None,
        h is Some ==> share_open_change(h) == Some(HandleState { open: h->0.open, listening: true }),
{
}

/// A backdrop press depends only on where it lands, on its button, and on
/// whether the dialog is backdrop-closable and topmost: a left press at or
/// below the dismissal line on such a dialog always consults `on_cancel`,
/// and two dialogs that agree on those two flags take every press alike.
pub proof fn lemma_backdrop_press_depends_only_on_closability(
    d: DialogState,
    e: DialogState,
    in_dismiss_zone: bool,
    left_button: bool,
)
    ensures
        in_dismiss_zone && left_button && d.overlay_closable && d.topmost
            ==> backdrop_press_outcome(d, in_dismiss_zone, left_button) == BackdropPress::ConsultCancel,
        (backdrop_press_outcome(d, in_dismiss_zone, left_button) == BackdropPress::ConsultCancel)
            <==> (in_dismiss_zone && left_button && d.overlay_closable && d.topmost),
        (backdrop_press_outcome(d, in_dismiss_zone, left_button) == BackdropPress::Ignored)
            <==> !in_dismiss_zone,
        d.overlay_closable == e.overlay_closable && d.topmost == e.topmost
            ==> backdrop_press_outcome(d, in_dismiss_zone, left_button)
                == backdrop_press_outcome(e, in_dismiss_zone, left_button),
{
}

/// Whether a dialog is shown is decided by its handle alone when it has one,
/// and by its own open flag alone otherwise; no other setting matters.
pub proof fn lemma_shown_decided_by_handle(d: DialogState, e: DialogState, h: HandleState)
    ensures
        shown(d, Some(h)) == h.open,
        shown(d, None) == d.open,
        shown(d, Some(h)) == shown(e, Some(h)),
        d.open == e.open ==> shown(d, None) == shown(e, None),
{
}

/// A trigger press does to its handle what opening it with reason
/// `TriggerPress` does, then runs `on_open` and stops the press. Pressing the
/// trigger of a closed handle always asks for a redraw (listener or not), and
/// tells the listener, when there is one, that it opened by trigger press.
pub proof fn lemma_trigger_press_opens(h: HandleState)
    ensures
        trigger_press_effects(Some(h)) == set_open_effects(h, true, DialogChangeReason::TriggerPress)
            + seq![Effect::TriggerOpen, Effect::StopPropagation],
        trigger_press_effects(None) == seq![Effect::TriggerOpen, Effect::StopPropagation],
        !h.open && !h.listening ==> trigger_press_effects(Some(h)) == seq![
            Effect::Refresh,
            Effect::TriggerOpen,
            Effect::StopPropagation,
        ],
        !h.open && h.listening ==> trigger_press_effects(Some(h)) == seq![
            Effect::NotifyListener(OpenChange { open: true, reason: DialogChangeReason::TriggerPress }),
            Effect::Refresh,
            Effect::TriggerOpen,
            Effect::StopPropagation,
        ],
        h.open ==> trigger_press_effects(Some(h)) == seq![Effect::TriggerOpen, Effect::StopPropagation],
{
    assert(trigger_press_effects(None) =~= seq![Effect::TriggerOpen, Effect::StopPropagation]);
    if !h.open && !h.listening {
        assert(trigger_press_effects(Some(h)) =~= seq![
            Effect::Refresh,
            Effect::TriggerOpen,
            Effect::StopPropagation,
        ]);
    } else if !h.open {
        assert(trigger_press_effects(Some(h)) =~= seq![
            Effect::NotifyListener(OpenChange { open: true, reason: DialogChangeReason::TriggerPress }),
            Effect::Refresh,
            Effect::TriggerOpen,
            Effect::StopPropagation,
        ]);
    } else {
        assert(trigger_press_effects(Some(h)) =~= seq![Effect::TriggerOpen, Effect::StopPropagation]);
    }
}

/// Routing an open-state change: a present handle takes the requested state,
/// keeps its listener, and the dialog's own callback is never called; with no
/// handle, the callback (if any) is called once with the request, and nothing
/// else happens.
pub proof fn lemma_routing(h: Option<HandleState>, has_callback: bool, open: bool, reason: DialogChangeReason)
    ensures
        h is Some ==> routed_handle(h, open) == Some(HandleState { open, listening: h->0.listening }),
        h is Some ==> routed_effects(h, has_callback, open, reason) == set_open_effects(h->0, open, reason),
        h is None ==> routed_handle(h, open) is None,
        h is None && has_callback ==> routed_effects(h, has_callback, open, reason) == seq![
            Effect::NotifyOpenChange(OpenChange { open, reason }),
        ],
        h is None && !has_callback ==> routed_effects(h, has_callback, open, reason) == Seq::<Effect>::empty(),
{
}

/// An accepted dismissal asks for `request_close` exactly once and `on_close`
/// exactly once, and for nothing beyond the routed close, those two and no
/// more.
pub proof fn lemma_dismissal_exact(
    d: DialogState,
    h: Option<HandleState>,
    reason: DialogChangeReason,
    confirmed: bool,
)
    ensures
        dismissal_effects(d, h, reason, confirmed) == routed_effects(h, d.open_change, false, reason)
            + seq![Effect::RequestClose(confirmed), Effect::Closed],
        h is None && !d.open_change ==> dismissal_effects(d, h, reason, confirmed) == seq![
            Effect::RequestClose(confirmed),
            Effect::Closed,
        ],
        h is None && d.open_change ==> dismissal_effects(d, h, reason, confirmed) == seq![
            Effect::NotifyOpenChange(OpenChange { open: false, reason }),
            Effect::RequestClose(confirmed),
            Effect::Closed,
        ],
        h is Some && h->0.open && h->0.listening ==> dismissal_effects(d, h, reason, confirmed) == seq![
            Effect::NotifyListener(OpenChange { open: false, reason }),
            Effect::Refresh,
            Effect::RequestClose(confirmed),
            Effect::Closed,
        ],
        h is Some && h->0.open && !h->0.listening ==> dismissal_effects(d, h, reason, confirmed) == seq![
            Effect::Refresh,
            Effect::RequestClose(confirmed),
            Effect::Closed,
        ],
        h is Some && !h->0.open ==> dismissal_effects(d, h, reason, confirmed) == seq![
            Effect::RequestClose(confirmed),
            Effect::Closed,
        ],
{
    let e = dismissal_effects(d, h, reason, confirmed);
    let tail = seq![Effect::RequestClose(confirmed), Effect::Closed];
    if h is None && !d.open_change {
        assert(e =~= tail);
    } else if h is None {
        assert(e =~= seq![Effect::NotifyOpenChange(OpenChange { open: false, reason })] + tail);
    } else if h->0.open && h->0.listening {
        assert(e =~= seq![
            Effect::NotifyListener(OpenChange { open: false, reason }),
            Effect::Refresh,
            Effect::RequestClose(confirmed),
            Effect::Closed,
        ]);
    } else if h->0.open {
        assert(e =~= seq![Effect::Refresh, Effect::RequestClose(confirmed), Effect::Closed]);
    } else {
        assert(e =~= tail);
    }
}

/// Each dialog key is bound exactly once: escape to the cancel action and
/// enter to the primary (not secondary) confirm action.
pub proof fn lemma_key_bindings(i: int, j: int)
    requires
        0 <= i < dialog_bindings().len(),
        0 <= j < dialog_bindings().len(),
    ensures
        dialog_bindings().len() == 2,
        dialog_bindings()[i].key == DialogKey::Escape ==> dialog_bindings()[i].command == DialogCommand::Cancel,
        dialog_bindings()[i].key == DialogKey::Enter ==> dialog_bindings()[i].command == (DialogCommand::Confirm { secondary: false }),
        dialog_bindings()[i].key == dialog_bindings()[j].key ==> i == j,
{
}

/// A close scope makes exactly the buttons of the window it was entered for
/// close buttons, and none when it covers no window.
pub proof fn lemma_covers_exactly_one_window(scope: Option<u64>, w: u64, v: u64)
    ensures
        covers(scope, w) <==> scope == Some(w),
        covers(scope, w) && covers(scope, v) ==> w == v,
        !covers(None, w),
{
}

} // verus!
