//! Player commands, and the keys that issue them.
use vstd::prelude::*;

verus! {

/// A command issued by the player.
#[derive(PartialEq, Eq, Structural, Clone, Copy, Debug)]
pub enum AppEvent {
    GoUp,
    GoDown,
    GoLeft,
    GoRight,
    Select,
    Quit,
}

/// A key press, reduced to what the game distinguishes.
#[derive(PartialEq, Eq, Structural, Clone, Copy, Debug)]
pub enum KeyInput {
    Char(char),
    Enter,
    Up,
    Down,
    Left,
    Right,
    Other,
}

/// The command a key issues: `q` quits; Enter or space selects; Up or `k`
/// and Down or `j` move within the focused list; Left or `h` and Right or
/// `l` switch lists. Other keys issue nothing.
pub open spec fn spec_key_to_event(key: KeyInput) -> Option<AppEvent> {
    match key {
        KeyInput::Char(c) => {
            if c == 'q' {
                Some(AppEvent::Quit)
            } else if c == ' ' {
                Some(AppEvent::Select)
            } else if c == 'k' {
                Some(AppEvent::GoUp)
            } else if c == 'j' {
                Some(AppEvent::GoDown)
            } else if c == 'h' {
                Some(AppEvent::GoLeft)
            } else if c == 'l' {
                Some(AppEvent::GoRight)
            } else {
                None
            }
        },
        KeyInput::Enter => Some(AppEvent::Select),
        KeyInput::Up => Some(AppEvent::GoUp),
        KeyInput::Down => Some(AppEvent::GoDown),
        KeyInput::Left => Some(AppEvent::GoLeft),
        KeyInput::Right => Some(AppEvent::GoRight),
        KeyInput::Other => None,
    }
}

/// Each command has exactly its keys: only `q` quits (not `Q` or any other
/// character); only Enter or space selects; only Up or `k` moves up; only
/// Down or `j` moves down; only Left or `h`, and only Right or `l`, switch
/// lists; every other key issues nothing.
pub proof fn law_commands_have_exactly_their_keys(key: KeyInput)
    ensures
        (spec_key_to_event(key) == Some(AppEvent::Quit)) <==> key == KeyInput::Char('q'),
        (spec_key_to_event(key) == Some(AppEvent::Select)) <==> (key == KeyInput::Enter || key == KeyInput::Char(' ')),
        (spec_key_to_event(key) == Some(AppEvent::GoUp)) <==> (key == KeyInput::Up || key == KeyInput::Char('k')),
        (spec_key_to_event(key) == Some(AppEvent::GoDown)) <==> (key == KeyInput::Down || key == KeyInput::Char('j')),
        (spec_key_to_event(key) == Some(AppEvent::GoLeft)) <==> (key == KeyInput::Left || key == KeyInput::Char('h')),
        (spec_key_to_event(key) == Some(AppEvent::GoRight)) <==> (key == KeyInput::Right || key == KeyInput::Char('l')),
        (spec_key_to_event(key) is None) <==> (key == KeyInput::Other || (key matches KeyInput::Char(c) && c != 'q' && c != ' '
            && c != 'k' && c != 'j' && c != 'h' && c != 'l')),
{
}

/// The command a key issues, if any.
pub fn key_to_event(key: KeyInput) -> (r: Option<AppEvent>)
    ensures
        r == spec_key_to_event(key),
        (r == Some(AppEvent::Quit)) <==> key == KeyInput::Char('q'),
        (r == Some(AppEvent::Select)) <==> (key == KeyInput::Enter || key == KeyInput::Char(' ')),
        (r == Some(AppEvent::GoUp)) <==> (key == KeyInput::Up || key == KeyInput::Char('k')),
        (r == Some(AppEvent::GoDown)) <==> (key == KeyInput::Down || key == KeyInput::Char('j')),
        (r == Some(AppEvent::GoLeft)) <==> (key == KeyInput::Left || key == KeyInput::Char('h')),
        (r == Some(AppEvent::GoRight)) <==> (key == KeyInput::Right || key == KeyInput::Char('l')),
        (r is None) <==> (key == KeyInput::Other || (key matches KeyInput::Char(c) && c != 'q' && c != ' '
            && c != 'k' && c != 'j' && c != 'h' && c != 'l')),
{
    match key {
        KeyInput::Char(c) => {
            if c == 'q' {
                Some(AppEvent::Quit)
            } else if c == ' ' {
                Some(AppEvent::Select)
            } else if c == 'k' {
                Some(AppEvent::GoUp)
            } else if c == 'j' {
                Some(AppEvent::GoDown)
            } else if c == 'h' {
                Some(AppEvent::GoLeft)
            } else if c == 'l' {
                Some(AppEvent::GoRight)
            } else {
                None
            }
        },
        KeyInput::Enter => Some(AppEvent::Select),
        KeyInput::Up => Some(AppEvent::GoUp),
        KeyInput::Down => Some(AppEvent::GoDown),
        KeyInput::Left => Some(AppEvent::GoLeft),
        KeyInput::Right => Some(AppEvent::GoRight),
        KeyInput::Other => None,
    }
}

} // verus!
