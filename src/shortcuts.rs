//! Which global shortcut a settings request addresses, and why such a
//! request can fail.

use vstd::prelude::*;

verus! {

/// One of the two configurable global shortcuts.
#[derive(Clone, Copy, Debug, PartialEq, Eq, Structural)]
pub enum ShortcutSlot {
    ToggleRecording,
    CleanseClipboard,
}

impl ShortcutSlot {
    /// The slot a settings request names, if the name is one of the two.
    pub fn from_name(name: &str) -> (r: Option<ShortcutSlot>)
        ensures
            r == Some(ShortcutSlot::ToggleRecording) <==> name@ == "toggle-recording"@,
            r == Some(ShortcutSlot::CleanseClipboard) <==> name@ == "cleanse-clipboard"@,
            r is None <==> name@ != "toggle-recording"@ && name@ != "cleanse-clipboard"@,
    {
        proof {
            reveal_strlit("toggle-recording");
            reveal_strlit("cleanse-clipboard");
            assert("toggle-recording"@[0] != "cleanse-clipboard"@[0]);
        }
        let given = name.to_owned();
        if given == "toggle-recording".to_owned() {
            Some(ShortcutSlot::ToggleRecording)
        } else if given == "cleanse-clipboard".to_owned() {
            Some(ShortcutSlot::CleanseClipboard)
        } else {
            None
        }
    }
}

/// Why a shortcut could not be assigned.
#[derive(Clone, Copy, Debug, PartialEq, Eq, Structural)]
pub enum AssignShortcutError {
    /// The name is not one of the two slots.
    InvalidName,
    /// The shortcut text does not parse.
    InvalidShortcut,
    /// The stored configuration could not be read.
    ConfigUnreadable,
}

pub open spec fn assign_message_of(e: AssignShortcutError) -> Seq<char> {
    match e {
        AssignShortcutError::InvalidName => "Invalid shortcut name"@,
        AssignShortcutError::InvalidShortcut => "Invalid shortcut"@,
        AssignShortcutError::ConfigUnreadable => "Failed to parse shortcuts config"@,
    }
}

impl AssignShortcutError {
    /// The text reported back to the settings window.
    pub fn message(&self) -> (r: &'static str)
        ensures
            r@ == assign_message_of(*self),
    {
        match self {
            AssignShortcutError::InvalidName => "Invalid shortcut name",
            AssignShortcutError::InvalidShortcut => "Invalid shortcut",
            AssignShortcutError::ConfigUnreadable => "Failed to parse shortcuts config",
        }
    }
}

} // verus!
