//! What the screens around the game make of a key press.
use bracket_lib::prelude::VirtualKeyCode;
use vstd::prelude::*;

verus! {

/// What the menu and the closing screen can be asked to do.
#[derive(Clone, Copy, PartialEq, Eq, Structural, Debug)]
pub enum MenuCommand {
    /// Start a game.
    Play,
    /// Leave the program.
    Quit,
}

impl MenuCommand {
    /// What an optional key press asks for: `P` plays, `Q` quits.
    pub open spec fn of_key(key_code: Option<VirtualKeyCode>) -> Option<MenuCommand> {
        match key_code {
            Some(VirtualKeyCode::P) => Some(MenuCommand::Play),
            Some(VirtualKeyCode::Q) => Some(MenuCommand::Quit),
            _ => None,
        }
    }

    /// Decodes a key press on the menu or the closing screen: `P` plays,
    /// `Q` quits, any other key and no key ask for nothing.
    pub fn from_key_code(key_code: Option<VirtualKeyCode>) -> (command: Option<MenuCommand>)
        ensures
            command == MenuCommand::of_key(key_code),
    {
        match key_code {
            Some(VirtualKeyCode::P) => Some(MenuCommand::Play),
            Some(VirtualKeyCode::Q) => Some(MenuCommand::Quit),
            _ => None,
        }
    }
}

} // verus!
