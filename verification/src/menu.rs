//! The commands of the application menu and what each of them sets off.

use vstd::prelude::*;
use crate::windows::Direction;

verus! {

/// A command of the application menu.
#[derive(Clone, Copy, Debug, PartialEq, Eq, Structural)]
pub enum MenuCommand {
    NewNote,
    CloseNote,
    ResetPositions,
    FitText,
    NextNote,
    PrevNote,
    Color(u8),
    Snap(Direction),
    PartialSnap(Direction),
    BringToFront,
    AutoStart,
}

/// What the application does for a command.
#[derive(Clone, Copy, Debug, PartialEq, Eq, Structural)]
pub enum MenuAction {
    /// Open a new, empty note.
    CreateSticky,
    /// Put all notes back to their default positions.
    ResetNotePositions,
    /// Snap the focused note in `direction`.
    SnapWindow { direction: Direction, partial: bool },
    /// Close the focused note.
    CloseSticky,
    /// Pass the focus on to the next note of the round.
    CycleFocus { reverse: bool },
    /// Fit the focused note to its text.
    FitText,
    /// Give the focused note the colour number `index`.
    SetColor { index: u8 },
    /// Store the settings that the menu's check marks show.
    SaveSettings,
}

/// The outcome of a menu event: the action to run, and whether all notes are
/// asked to save themselves afterwards.
#[derive(Clone, Copy, Debug, PartialEq, Eq, Structural)]
pub struct Dispatch {
    pub action: MenuAction,
    pub save_request: bool,
}

impl MenuCommand {
    /// The action that the command sets off.
    pub open spec fn action(self) -> MenuAction {
        match self {
            MenuCommand::NewNote => MenuAction::CreateSticky,
            MenuCommand::CloseNote => MenuAction::CloseSticky,
            MenuCommand::ResetPositions => MenuAction::ResetNotePositions,
            MenuCommand::FitText => MenuAction::FitText,
            MenuCommand::NextNote => MenuAction::CycleFocus { reverse: false },
            MenuCommand::PrevNote => MenuAction::CycleFocus { reverse: true },
            MenuCommand::Color(index) => MenuAction::SetColor { index },
            MenuCommand::Snap(direction) => MenuAction::SnapWindow { direction, partial: false },
            MenuCommand::PartialSnap(direction) => MenuAction::SnapWindow {
                direction,
                partial: true,
            },
            MenuCommand::BringToFront => MenuAction::SaveSettings,
            MenuCommand::AutoStart => MenuAction::SaveSettings,
        }
    }

    /// Whether the command changes what a note stores: a note was opened or
    /// closed, or got another colour.
    pub open spec fn changes_notes(self) -> bool {
        self == MenuCommand::NewNote || self == MenuCommand::CloseNote || self is Color
    }
}

/// Decides what a menu event sets off.
pub fn handle_menu_event(command: MenuCommand) -> (dispatch: Dispatch)
    ensures
        dispatch.action == command.action(),
        dispatch.save_request == command.changes_notes(),
{
    let action = match command {
        MenuCommand::NewNote => MenuAction::CreateSticky,
        MenuCommand::ResetPositions => MenuAction::ResetNotePositions,
        MenuCommand::Snap(direction) => MenuAction::SnapWindow { direction, partial: false },
        MenuCommand::PartialSnap(direction) => MenuAction::SnapWindow { direction, partial: true },
        MenuCommand::CloseNote => MenuAction::CloseSticky,
        MenuCommand::NextNote => MenuAction::CycleFocus { reverse: false },
        MenuCommand::PrevNote => MenuAction::CycleFocus { reverse: true },
        MenuCommand::FitText => MenuAction::FitText,
        MenuCommand::Color(index) => MenuAction::SetColor { index },
        MenuCommand::BringToFront => MenuAction::SaveSettings,
        MenuCommand::AutoStart => MenuAction::SaveSettings,
    };
    let save_request = match command {
        MenuCommand::NewNote | MenuCommand::CloseNote | MenuCommand::Color(_) => true,
        _ => false,
    };
    Dispatch { action, save_request }
}

} // verus!
