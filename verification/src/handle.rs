use vstd::prelude::*;

use crate::effect::Effect;
use crate::reason::{DialogChangeReason, OpenChange};

verus! {

/// The abstract state of a dialog handle: whether the dialog is open and
/// whether a listener for open-state changes is registered on it.
pub struct HandleState {
    pub open: bool,
    pub listening: bool,
}

/// Shared open state of a dialog, driven by triggers, the dialog itself and
/// imperative calls.
#[derive(Clone, Copy, Debug)]
pub struct DialogHandle {
    open: bool,
    listening: bool,
}

impl View for DialogHandle {
    type V = HandleState;

    closed spec fn view(&self) -> HandleState {
        HandleState { open: self.open, listening: self.listening }
    }
}

/// What a change of the handle's open state asks the host to do: nothing when
/// the state is unchanged, else tell the listener (if any) and then redraw.
pub open spec fn set_open_effects(h: HandleState, open: bool, reason: DialogChangeReason) -> Seq<Effect> {
    if h.open == open {
        seq![]
    } else if h.listening {
        seq![Effect::NotifyListener(OpenChange { open, reason }), Effect::Refresh]
    } else {
        seq![Effect::Refresh]
    }
}

impl DialogHandle {
    /// A handle in the given open state, with no listener.
    pub fn new(open: bool) -> (h: DialogHandle)
        ensures
            h@ == (HandleState { open, listening: false }),
    {
        DialogHandle { open, listening: false }
    }

    pub fn is_open(&self) -> (b: bool)
        ensures
            b == self@.open,
    {
        self.open
    }

    pub fn has_listener(&self) -> (b: bool)
        ensures
            b == self@.listening,
    {
        self.listening
    }

    /// Registers a listener for open-state changes (replacing any earlier one).
    pub fn attach_listener(&mut self)
        ensures
            final(self)@ == (HandleState { open: old(self)@.open, listening: true }),
    {
        self.listening = true;
    }

    /// Opens the dialog imperatively.
    pub fn open(&mut self) -> (effects: Vec<Effect>)
        ensures
            final(self)@ == (HandleState { open: true, listening: old(self)@.listening }),
            effects@ == set_open_effects(old(self)@, true, DialogChangeReason::Imperative),
    {
        self.set_open(true, DialogChangeReason::Imperative)
    }

    /// Closes the dialog imperatively.
    pub fn close(&mut self) -> (effects: Vec<Effect>)
        ensures
            final(self)@ == (HandleState { open: false, listening: old(self)@.listening }),
            effects@ == set_open_effects(old(self)@, false, DialogChangeReason::Imperative),
    {
        self.set_open(false, DialogChangeReason::Imperative)
    }

    /// Sets the open state; the listener hears of it, after the state has
    /// changed, only when the state really changes.
    pub fn set_open(&mut self, open: bool, reason: DialogChangeReason) -> (effects: Vec<Effect>)
        ensures
            final(self)@ == (HandleState { open, listening: old(self)@.listening }),
            effects@ == set_open_effects(old(self)@, open, reason),
            old(self)@.open == open ==> effects@ == Seq::<Effect>::empty(),
            old(self)@.open != open && old(self)@.listening ==> effects@ == seq![
                Effect::NotifyListener(OpenChange { open, reason }),
                Effect::Refresh,
            ],
            old(self)@.open != open && !old(self)@.listening ==> effects@ == seq![Effect::Refresh],
    {
        let previous = self.open;
        self.open = open;
        let mut effects: Vec<Effect> = Vec::new();
        if previous == open {
            return effects;
        }
        if self.listening {
            effects.push(Effect::NotifyListener(OpenChange { open, reason }));
        }
        effects.push(Effect::Refresh);
        proof {
            assert(effects@ =~= set_open_effects(old(self)@, open, reason));
        }
        effects
    }
}

} // verus!
