use vstd::prelude::*;

use crate::effect::Effect;
use crate::handle::{set_open_effects, DialogHandle, HandleState};
use crate::reason::{DialogChangeReason, OpenChange};

verus! {

/// The abstract state of a handle slot that may be empty.
pub open spec fn handle_view(handle: Option<DialogHandle>) -> Option<HandleState> {
    match handle {
        Some(h) => Some(h@),
        None => None,
    }
}

/// The handle state after an open-state change has been routed: a present
/// handle takes the new state, an absent one stays absent.
pub open spec fn routed_handle(handle: Option<HandleState>, open: bool) -> Option<HandleState> {
    match handle {
        Some(h) => Some(HandleState { open, listening: h.listening }),
        None => None,
    }
}

/// The work that routing an open-state change asks for: a handle, when there
/// is one, takes the change (and tells its own listener); otherwise the
/// dialog's own `on_open_change` hears of it, if it has one.
pub open spec fn routed_effects(
    handle: Option<HandleState>,
    has_callback: bool,
    open: bool,
    reason: DialogChangeReason,
) -> Seq<Effect> {
    match handle {
        Some(h) => set_open_effects(h, open, reason),
        None => if has_callback {
            seq![Effect::NotifyOpenChange(OpenChange { open, reason })]
        } else {
            seq![]
        },
    }
}

/// Routes a requested open-state change to the handle if there is one, else to
/// the dialog's own `on_open_change` callback if there is one.
pub fn request_open_change(
    handle: &mut Option<DialogHandle>,
    has_callback: bool,
    open: bool,
    reason: DialogChangeReason,
) -> (effects: Vec<Effect>)
    ensures
        handle_view(*final(handle)) == routed_handle(handle_view(*old(handle)), open),
        effects@ == routed_effects(handle_view(*old(handle)), has_callback, open, reason),
{
    match handle {
        Some(h) => h.set_open(open, reason),
        None => {
            let mut effects: Vec<Effect> = Vec::new();
            if has_callback {
                effects.push(Effect::NotifyOpenChange(OpenChange { open, reason }));
            }
            proof {
                assert(effects@ =~= routed_effects(handle_view(*old(handle)), has_callback, open, reason));
            }
            effects
        },
    }
}


/// The decision-relevant state of a dialog: its own open flag (used when no
/// handle drives it), whether escape and enter reach it, whether a backdrop
/// press may dismiss it, its stacking layer and whether it has an
/// `on_open_change` callback.
pub struct DialogState {
    pub open: bool,
    pub keyboard: bool,
    pub overlay_closable: bool,
    pub topmost: bool,
    pub layer: usize,
    pub open_change: bool,
}

/// Unstyled modal host: the state from which it decides on keyboard and
/// pointer dismissal, and the order in which its callbacks run.
#[derive(Clone, Copy, Debug)]
pub struct Dialog {
    open: bool,
    keyboard: bool,
    overlay_closable: bool,
    topmost: bool,
    layer: usize,
    open_change: bool,
}

impl View for Dialog {
    type V = DialogState;

    closed spec fn view(&self) -> DialogState {
        DialogState {
            open: self.open,
            keyboard: self.keyboard,
            overlay_closable: self.overlay_closable,
            topmost: self.topmost,
            layer: self.layer,
            open_change: self.open_change,
        }
    }
}

/// How a pointer press on the backdrop is taken.
#[derive(Clone, Copy, Debug, PartialEq, Eq, Structural)]
pub enum BackdropPress {
    /// The press lies above the dismissal line: it passes through untouched.
    Ignored,
    /// The press is stopped here, but cannot dismiss the dialog.
    Absorbed,
    /// The press is stopped here, and `on_cancel` decides on dismissal.
    ConsultCancel,
}

/// Whether the dialog is shown: a handle, when there is one, decides;
/// otherwise the dialog's own open flag.
pub open spec fn shown(d: DialogState, handle: Option<HandleState>) -> bool {
    match handle {
        Some(h) => h.open,
        None => d.open,
    }
}

/// Whether a backdrop press may dismiss the dialog: only when dismissal by
/// backdrop is enabled and the dialog is the topmost one.
pub open spec fn backdrop_closable(d: DialogState) -> bool {
    d.overlay_closable && d.topmost
}

/// The work of an accepted dismissal, in order: the open-state change is
/// routed, then `request_close` is told whether it was a confirmation, then
/// `on_close` runs.
pub open spec fn dismissal_effects(
    d: DialogState,
    handle: Option<HandleState>,
    reason: DialogChangeReason,
    confirmed: bool,
) -> Seq<Effect> {
    routed_effects(handle, d.open_change, false, reason) + seq![
        Effect::RequestClose(confirmed),
        Effect::Closed,
    ]
}

/// How a backdrop press is taken, given whether it lies at or below the
/// dismissal line and whether it is the left button.
pub open spec fn backdrop_press_outcome(d: DialogState, in_dismiss_zone: bool, left_button: bool) -> BackdropPress {
    if !in_dismiss_zone {
        BackdropPress::Ignored
    } else if left_button && backdrop_closable(d) {
        BackdropPress::ConsultCancel
    } else {
        BackdropPress::Absorbed
    }
}

/// The handle after a dialog is attached to it: the dialog's
/// `on_open_change`, if any, becomes its listener.
pub open spec fn attach_handle(d: DialogState, h: HandleState) -> HandleState {
    HandleState { open: h.open, listening: h.listening || d.open_change }
}

/// The dialog after it is given an `on_open_change` callback.
pub open spec fn with_open_change(d: DialogState) -> DialogState {
    DialogState { open_change: true, ..d }
}

/// An attached handle after the dialog is given an `on_open_change`
/// callback: it takes the callback as its listener.
pub open spec fn share_open_change(handle: Option<HandleState>) -> Option<HandleState> {
    match handle {
        Some(h) => Some(HandleState { open: h.open, listening: true }),
        None => None,
    }
}

impl Dialog {
    /// A dialog that is open, reacts to escape and enter, may be dismissed by a
    /// backdrop press, is topmost on layer 0 and has no `on_open_change`.
    pub fn new() -> (d: Dialog)
        ensures
            d@ == (DialogState {
                open: true,
                keyboard: true,
                overlay_closable: true,
                topmost: true,
                layer: 0,
                open_change: false,
            }),
    {
        Dialog {
            open: true,
            keyboard: true,
            overlay_closable: true,
            topmost: true,
            layer: 0,
            open_change: false,
        }
    }

    /// Sets the dialog's own open flag (used when no handle drives it).
    pub fn open(self, open: bool) -> (d: Dialog)
        ensures
            d@ == (DialogState { open, ..self@ }),
    {
        Dialog { open, ..self }
    }

    /// Attaches a shared handle: the dialog's `on_open_change`, if it has one,
    /// becomes the handle's listener.
    pub fn handle(self, handle: &mut DialogHandle) -> (d: Dialog)
        ensures
            d@ == self@,
            final(handle)@ == attach_handle(self@, old(handle)@),
            final(handle)@.open == old(handle)@.open,
            final(handle)@.listening == (old(handle)@.listening || self@.open_change),
    {
        if self.open_change {
            handle.attach_listener();
        }
        self
    }

    /// Gives the dialog an `on_open_change` callback; an already attached
    /// handle takes it as its listener too.
    pub fn on_open_change(self, handle: &mut Option<DialogHandle>) -> (d: Dialog)
        ensures
            d@ == with_open_change(self@),
            handle_view(*final(handle)) == share_open_change(handle_view(*old(handle))),
    {
        match handle {
            Some(h) => h.attach_listener(),
            None => {},
        }
        Dialog { open_change: true, ..self }
    }

    /// Whether escape and enter reach the dialog.
    pub fn close_on_escape(self, value: bool) -> (d: Dialog)
        ensures
            d@ == (DialogState { keyboard: value, ..self@ }),
    {
        Dialog { keyboard: value, ..self }
    }

    /// Whether a left press on the backdrop may dismiss the dialog.
    pub fn close_on_backdrop_press(self, value: bool) -> (d: Dialog)
        ensures
            d@ == (DialogState { overlay_closable: value, ..self@ }),
    {
        Dialog { overlay_closable: value, ..self }
    }

    /// Places the dialog on a stacking layer and says whether it is topmost.
    pub fn layer(self, index: usize, topmost: bool) -> (d: Dialog)
        ensures
            d@ == (DialogState { layer: index, topmost, ..self@ }),
    {
        Dialog { layer: index, topmost, ..self }
    }

    pub fn has_open_change(&self) -> (b: bool)
        ensures
            b == self@.open_change,
    {
        self.open_change
    }

    pub fn layer_index(&self) -> (i: usize)
        ensures
            i == self@.layer,
    {
        self.layer
    }

    pub fn is_topmost(&self) -> (b: bool)
        ensures
            b == self@.topmost,
    {
        self.topmost
    }

    /// Whether the dialog's keyboard context is active, so that escape and
    /// enter reach it.
    pub fn closes_on_escape(&self) -> (b: bool)
        ensures
            b == self@.keyboard,
    {
        self.keyboard
    }

    /// Whether a left press on the backdrop may dismiss the dialog.
    pub fn backdrop_closable(&self) -> (b: bool)
        ensures
            b == backdrop_closable(self@),
            b == (self@.overlay_closable && self@.topmost),
    {
        self.overlay_closable && self.topmost
    }

    /// Whether the dialog is shown, given the handle it is attached to.
    pub fn is_shown(&self, handle: &Option<DialogHandle>) -> (b: bool)
        ensures
            b == shown(self@, handle_view(*handle)),
            match *handle {
                Some(h) => b == h@.open,
                None => b == self@.open,
            },
    {
        match handle {
            Some(h) => h.is_open(),
            None => self.open,
        }
    }

    /// Paint priority of the dialog's layer.
    pub fn priority(&self) -> (p: usize)
        requires
            self@.layer + 10 <= usize::MAX,
        ensures
            p == self@.layer + 10,
    {
        10 + self.layer
    }

    fn dismiss(&self, handle: &mut Option<DialogHandle>, reason: DialogChangeReason, confirmed: bool) -> (effects: Vec<Effect>)
        ensures
            handle_view(*final(handle)) == routed_handle(handle_view(*old(handle)), false),
            effects@ == dismissal_effects(self@, handle_view(*old(handle)), reason, confirmed),
    {
        let mut effects = request_open_change(handle, self.open_change, false, reason);
        effects.push(Effect::RequestClose(confirmed));
        effects.push(Effect::Closed);
        proof {
            assert(effects@ =~= dismissal_effects(self@, handle_view(*old(handle)), reason, confirmed));
        }
        effects
    }

    /// The cancel action, once `on_cancel` has decided: a veto changes
    /// nothing; approval closes with reason `Cancel`.
    pub fn cancel_action(&self, handle: &mut Option<DialogHandle>, approved: bool) -> (effects: Vec<Effect>)
        ensures
            approved ==> handle_view(*final(handle)) == routed_handle(handle_view(*old(handle)), false),
            approved ==> effects@ == dismissal_effects(
                self@,
                handle_view(*old(handle)),
                DialogChangeReason::Cancel,
                false,
            ),
            !approved ==> *final(handle) == *old(handle) && effects@ == Seq::<Effect>::empty(),
    {
        if approved {
            self.dismiss(handle, DialogChangeReason::Cancel, false)
        } else {
            Vec::new()
        }
    }

    /// The confirm action, once `on_ok` has decided: a veto changes nothing;
    /// approval closes with reason `Confirm` and tells `request_close` it was
    /// confirmed.
    pub fn confirm_action(&self, handle: &mut Option<DialogHandle>, approved: bool) -> (effects: Vec<Effect>)
        ensures
            approved ==> handle_view(*final(handle)) == routed_handle(handle_view(*old(handle)), false),
            approved ==> effects@ == dismissal_effects(
                self@,
                handle_view(*old(handle)),
                DialogChangeReason::Confirm,
                true,
            ),
            !approved ==> *final(handle) == *old(handle) && effects@ == Seq::<Effect>::empty(),
    {
        if approved {
            self.dismiss(handle, DialogChangeReason::Confirm, true)
        } else {
            Vec::new()
        }
    }

    /// How a backdrop press is taken. A press above the dismissal line passes
    /// through; any other press is stopped, and only a left press on a
    /// backdrop-closable dialog goes on to `on_cancel`.
    pub fn backdrop_press(&self, in_dismiss_zone: bool, left_button: bool) -> (outcome: BackdropPress)
        ensures
            outcome == backdrop_press_outcome(self@, in_dismiss_zone, left_button),
            (outcome == BackdropPress::ConsultCancel) <==> (in_dismiss_zone && left_button
                && self@.overlay_closable && self@.topmost),
            (outcome == BackdropPress::Ignored) <==> !in_dismiss_zone,
    {
        if !in_dismiss_zone {
            BackdropPress::Ignored
        } else if left_button && self.overlay_closable && self.topmost {
            BackdropPress::ConsultCancel
        } else {
            BackdropPress::Absorbed
        }
    }

    /// A backdrop dismissal, once `on_cancel` has decided: a veto changes
    /// nothing; approval closes with reason `BackdropPress`.
    pub fn backdrop_dismiss(&self, handle: &mut Option<DialogHandle>, approved: bool) -> (effects: Vec<Effect>)
        ensures
            approved ==> handle_view(*final(handle)) == routed_handle(handle_view(*old(handle)), false),
            approved ==> effects@ == dismissal_effects(
                self@,
                handle_view(*old(handle)),
                DialogChangeReason::BackdropPress,
                false,
            ),
            !approved ==> *final(handle) == *old(handle) && effects@ == Seq::<Effect>::empty(),
    {
        if approved {
            self.dismiss(handle, DialogChangeReason::BackdropPress, false)
        } else {
            Vec::new()
        }
    }
}

} // verus!
