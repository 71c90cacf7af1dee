use vstd::prelude::*;

verus! {

/// A key the dialog binds in its keyboard context.
#[derive(Clone, Copy, Debug, PartialEq, Eq, Structural)]
pub enum DialogKey {
    Escape,
    Enter,
}

/// An action a dialog key dispatches.
#[derive(Clone, Copy, Debug, PartialEq, Eq, Structural)]
pub enum DialogCommand {
    Cancel,
    Confirm { secondary: bool },
}

/// One key binding of the dialog's keyboard context.
#[derive(Clone, Copy, Debug, PartialEq, Eq, Structural)]
pub struct KeyBinding {
    pub key: DialogKey,
    pub command: DialogCommand,
}

/// The dialog's key bindings: escape cancels, enter confirms (not as the
/// secondary action).
pub open spec fn dialog_bindings() -> Seq<KeyBinding> {
    seq![
        KeyBinding { key: DialogKey::Escape, command: DialogCommand::Cancel },
        KeyBinding { key: DialogKey::Enter, command: DialogCommand::Confirm { secondary: false } },
    ]
}

/// The key bindings to register for the dialog's keyboard context.
pub fn key_bindings() -> (bindings: Vec<KeyBinding>)
    ensures
        bindings@ == dialog_bindings(),
{
    let mut bindings: Vec<KeyBinding> = Vec::new();
    bindings.push(KeyBinding { key: DialogKey::Escape, command: DialogCommand::Cancel });
    bindings.push(
        KeyBinding { key: DialogKey::Enter, command: DialogCommand::Confirm { secondary: false } },
    );
    proof {
        assert(bindings@ =~= dialog_bindings());
    }
    bindings
}

} // verus!
