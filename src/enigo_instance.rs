//! The keyboard shortcuts injected on the user's behalf.

use vstd::prelude::*;

verus! {

/// A keyboard shortcut injected into the focused application.
#[derive(Clone, Copy, Debug, PartialEq, Eq, Structural)]
pub enum EnigoCommand {
    PasteFromClipboard,
    UndoText,
}

/// A key that is injected.
#[derive(Clone, Copy, Debug, PartialEq, Eq, Structural)]
pub enum InjectedKey {
    Meta,
    Char(char),
}

/// How an injected key moves.
#[derive(Clone, Copy, Debug, PartialEq, Eq, Structural)]
pub enum Direction {
    Press,
    Click,
    Release,
}

/// One injected key event.
#[derive(Clone, Copy, Debug, PartialEq, Eq, Structural)]
pub struct Keystroke {
    pub key: InjectedKey,
    pub direction: Direction,
}

/// The letter that, together with the meta key, makes the shortcut.
pub open spec fn shortcut_letter(c: EnigoCommand) -> char {
    match c {
        EnigoCommand::PasteFromClipboard => 'v',
        EnigoCommand::UndoText => 'z',
    }
}

/// Meta held down around one click of the shortcut's letter.
pub open spec fn keystrokes_of(c: EnigoCommand) -> Seq<Keystroke> {
    seq![
        Keystroke { key: InjectedKey::Meta, direction: Direction::Press },
        Keystroke { key: InjectedKey::Char(shortcut_letter(c)), direction: Direction::Click },
        Keystroke { key: InjectedKey::Meta, direction: Direction::Release },
    ]
}

impl EnigoCommand {
    /// The key events that perform this shortcut, in order.
    pub fn keystrokes(&self) -> (r: Vec<Keystroke>)
        ensures
            r@ == keystrokes_of(*self),
    {
        let letter = match self {
            EnigoCommand::PasteFromClipboard => 'v',
            EnigoCommand::UndoText => 'z',
        };
        let r = vec![
            Keystroke { key: InjectedKey::Meta, direction: Direction::Press },
            Keystroke { key: InjectedKey::Char(letter), direction: Direction::Click },
            Keystroke { key: InjectedKey::Meta, direction: Direction::Release },
        ];
        assert(r@ =~= keystrokes_of(*self));
        r
    }
}

} // verus!
