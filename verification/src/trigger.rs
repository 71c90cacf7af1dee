use vstd::prelude::*;

use crate::dialog::handle_view;
use crate::effect::Effect;
use crate::handle::{set_open_effects, DialogHandle, HandleState};
use crate::reason::DialogChangeReason;

verus! {

/// The work of a left press on a dialog trigger, in order: the attached handle
/// (if any) opens with reason `TriggerPress`, then the trigger's `on_open`
/// runs, then the press is stopped.
pub open spec fn trigger_press_effects(handle: Option<HandleState>) -> Seq<Effect> {
    let opened = match handle {
        Some(h) => set_open_effects(h, true, DialogChangeReason::TriggerPress),
        None => seq![],
    };
    opened + seq![Effect::TriggerOpen, Effect::StopPropagation]
}

/// A left press on a dialog trigger.
pub fn trigger_press(handle: &mut Option<DialogHandle>) -> (effects: Vec<Effect>)
    ensures
        handle_view(*final(handle)) == match handle_view(*old(handle)) {
            Some(h) => Some(HandleState { open: true, listening: h.listening }),
            None => None,
        },
        effects@ == trigger_press_effects(handle_view(*old(handle))),
        match *old(handle) {
            Some(h) => effects@ == set_open_effects(h@, true, DialogChangeReason::TriggerPress)
                + seq![Effect::TriggerOpen, Effect::StopPropagation],
            None => effects@ == seq![Effect::TriggerOpen, Effect::StopPropagation],
        },
{
    let mut effects: Vec<Effect> = match handle {
        Some(h) => h.set_open(true, DialogChangeReason::TriggerPress),
        None => Vec::new(),
    };
    effects.push(Effect::TriggerOpen);
    effects.push(Effect::StopPropagation);
    proof {
        assert(effects@ =~= trigger_press_effects(handle_view(*old(handle))));
    }
    effects
}

} // verus!
