use vstd::prelude::*;

verus! {

/// A discrete user command derived from one input event.
#[derive(Debug, Clone, Copy, PartialEq, Eq, Structural)]
pub enum AppAction {
    Quit,
    NextItem,
    PreviousItem,
    SelectItem,
    NextPage,
    PreviousPage,
    GoToTop,
    GoToBottom,
    ToggleHelp,
    Refresh,
    Random,
    TogglePause,
    StopPlayback,
}

/// The key of a decoded key event.
#[derive(Debug, Clone, Copy, PartialEq, Eq, Structural)]
pub enum Key {
    Char(char),
    Down,
    Up,
    PageDown,
    PageUp,
    Home,
    End,
    Enter,
    Esc,
    F(u8),
    /// Any key that no action is bound to.
    Other,
}

/// A decoded key event: the key, and whether Control is the only modifier held.
#[derive(Debug, Clone, Copy, PartialEq, Eq, Structural)]
pub struct KeyInput {
    pub code: Key,
    pub control_only: bool,
}

/// The action bound to a key event, if any.
pub open spec fn key_binding(k: KeyInput) -> Option<AppAction> {
    match k.code {
        Key::Char('q') | Key::Esc => Some(AppAction::Quit),
        Key::Down | Key::Char('j') => Some(AppAction::NextItem),
        Key::Up | Key::Char('k') => Some(AppAction::PreviousItem),
        Key::PageDown => Some(AppAction::NextPage),
        Key::Char('d') if k.control_only => Some(AppAction::NextPage),
        Key::PageUp => Some(AppAction::PreviousPage),
        Key::Char('u') if k.control_only => Some(AppAction::PreviousPage),
        Key::Home | Key::Char('g') => Some(AppAction::GoToTop),
        Key::End | Key::Char('G') => Some(AppAction::GoToBottom),
        Key::Enter | Key::Char(' ') => Some(AppAction::SelectItem),
        Key::Char('?') | Key::Char('h') | Key::F(1) => Some(AppAction::ToggleHelp),
        Key::Char('r') | Key::F(5) => Some(AppAction::Refresh),
        Key::Char('s') => Some(AppAction::Random),
        Key::Char('p') => Some(AppAction::TogglePause),
        Key::Char('x') => Some(AppAction::StopPlayback),
        _ => None,
    }
}

/// Maps a key event to the action bound to it; unbound keys give `None`.
pub fn action_for_key(k: KeyInput) -> (r: Option<AppAction>)
    ensures
        r == key_binding(k),
{
    match k.code {
        Key::Char('q') | Key::Esc => Some(AppAction::Quit),
        Key::Down | Key::Char('j') => Some(AppAction::NextItem),
        Key::Up | Key::Char('k') => Some(AppAction::PreviousItem),
        Key::PageDown => Some(AppAction::NextPage),
        Key::Char('d') if k.control_only => Some(AppAction::NextPage),
        Key::PageUp => Some(AppAction::PreviousPage),
        Key::Char('u') if k.control_only => Some(AppAction::PreviousPage),
        Key::Home | Key::Char('g') => Some(AppAction::GoToTop),
        Key::End | Key::Char('G') => Some(AppAction::GoToBottom),
        Key::Enter | Key::Char(' ') => Some(AppAction::SelectItem),
        Key::Char('?') | Key::Char('h') | Key::F(1) => Some(AppAction::ToggleHelp),
        Key::Char('r') | Key::F(5) => Some(AppAction::Refresh),
        Key::Char('s') => Some(AppAction::Random),
        Key::Char('p') => Some(AppAction::TogglePause),
        Key::Char('x') => Some(AppAction::StopPlayback),
        _ => None,
    }
}

} // verus!
