use vstd::prelude::*;

verus! {

/// A key press as the session sees it.
#[derive(Clone, Copy, Debug, PartialEq, Eq)]
pub enum Key {
    Up,
    Down,
    Enter,
    Esc,
    Char(char),
    Other,
}

/// What the user can ask of the session.
#[derive(Clone, Copy, Debug, PartialEq, Eq)]
pub enum Command {
    MoveSelectionUp,
    MoveSelectionDown,
    TogglePlayPause,
    /// One tenth louder, up to full scale.
    VolumeUp,
    /// One tenth quieter, down to silence.
    VolumeDown,
    /// Play the selected track from its start, even when it is the current one.
    ActivateSelection,
    /// Play the track after the current one, wrapping to the first; the selection follows.
    SkipNext,
    Quit,
}

/// The command bound to a key, if any.
pub open spec fn command_for(k: Key) -> Option<Command> {
    match k {
        Key::Up => Some(Command::MoveSelectionUp),
        Key::Down => Some(Command::MoveSelectionDown),
        Key::Enter => Some(Command::ActivateSelection),
        Key::Esc => Some(Command::Quit),
        Key::Char(c) => {
            if c == ' ' {
                Some(Command::TogglePlayPause)
            } else if c == '+' {
                Some(Command::VolumeUp)
            } else if c == '-' {
                Some(Command::VolumeDown)
            } else if c == 'n' || c == 'N' {
                Some(Command::SkipNext)
            } else if c == 'q' {
                Some(Command::Quit)
            } else {
                None
            }
        },
        Key::Other => None,
    }
}

/// Maps a key press to the command it stands for; other keys are ignored.
pub fn dispatch_key(k: Key) -> (r: Option<Command>)
    ensures
        r == command_for(k),
{
    match k {
        Key::Up => Some(Command::MoveSelectionUp),
        Key::Down => Some(Command::MoveSelectionDown),
        Key::Enter => Some(Command::ActivateSelection),
        Key::Esc => Some(Command::Quit),
        Key::Char(c) => {
            if c == ' ' {
                Some(Command::TogglePlayPause)
            } else if c == '+' {
                Some(Command::VolumeUp)
            } else if c == '-' {
                Some(Command::VolumeDown)
            } else if c == 'n' || c == 'N' {
                Some(Command::SkipNext)
            } else if c == 'q' {
                Some(Command::Quit)
            } else {
                None
            }
        },
        Key::Other => None,
    }
}

} // verus!
