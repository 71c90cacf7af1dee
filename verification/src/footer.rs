use vstd::prelude::*;

use crate::effect::Effect;

verus! {

/// A button that can stand in a dialog footer and says what role it plays.
pub trait DialogFooterButton {
    fn is_cancel(&self) -> (b: bool)
        default_ensures
            !b,
    {
        false
    }

    fn is_action(&self) -> (b: bool)
        default_ensures
            !b,
    {
        false
    }
}

/// Clicking a dialog action: the (primary) confirm action is dispatched.
pub fn activate_action() -> (effects: Vec<Effect>)
    ensures
        effects@ == seq![Effect::DispatchConfirm(false)],
{
    let mut effects: Vec<Effect> = Vec::new();
    effects.push(Effect::DispatchConfirm(false));
    proof {
        assert(effects@ =~= seq![Effect::DispatchConfirm(false)]);
    }
    effects
}

} // verus!
