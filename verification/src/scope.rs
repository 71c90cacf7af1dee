use vstd::prelude::*;

use crate::effect::Effect;

verus! {

/// The window, if any, whose close-wrapper children are being laid out or
/// painted right now; buttons rendered inside take on close semantics.
#[derive(Clone, Copy, Debug)]
pub struct CloseScope {
    window: Option<u64>,
}

impl View for CloseScope {
    type V = Option<u64>;

    closed spec fn view(&self) -> Option<u64> {
        self.window
    }
}

/// Whether a scope makes buttons rendered in `window` close buttons.
pub open spec fn covers(scope: Option<u64>, window: u64) -> bool {
    scope == Some(window)
}

impl CloseScope {
    /// A scope that covers no window.
    pub fn new() -> (s: CloseScope)
        ensures
            s@ == None::<u64>,
    {
        CloseScope { window: None }
    }

    /// Enters the scope for `window`, handing back the scope it replaces so
    /// that it can be restored when the phase ends.
    pub fn enter(&mut self, window: u64) -> (previous: Option<u64>)
        ensures
            final(self)@ == Some(window),
            previous == old(self)@,
    {
        let previous = self.window;
        self.window = Some(window);
        previous
    }

    /// Restores the scope handed back by `enter`.
    pub fn restore(&mut self, previous: Option<u64>)
        ensures
            final(self)@ == previous,
    {
        self.window = previous;
    }

    /// Whether a button rendered now in `window` is a close button.
    pub fn is_close_button(&self, window: u64) -> (b: bool)
        ensures
            b == covers(self@, window),
            b == (self@ == Some(window)),
    {
        match self.window {
            Some(w) => w == window,
            None => false,
        }
    }
}

impl Default for CloseScope {
    fn default() -> (s: CloseScope)
        ensures
            s@ == None::<u64>,
    {
        CloseScope::new()
    }
}

/// Activating a close wrapper: the click stops here, so that a button and its
/// wrapper never both cancel, and then the cancel action is dispatched once.
pub fn activate_close() -> (effects: Vec<Effect>)
    ensures
        effects@ == seq![Effect::StopPropagation, Effect::DispatchCancel],
{
    let mut effects: Vec<Effect> = Vec::new();
    effects.push(Effect::StopPropagation);
    effects.push(Effect::DispatchCancel);
    proof {
        assert(effects@ =~= seq![Effect::StopPropagation, Effect::DispatchCancel]);
    }
    effects
}

} // verus!
