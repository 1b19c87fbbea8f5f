//! Key events and the two key tables.

use vstd::prelude::*;
use crate::token::{CommandToken, LiteralToken, NamedToken};

verus! {

/// One key event, as far as the pipeline tells keys apart.
#[derive(Clone, Copy, Debug, PartialEq, Eq, Structural)]
pub enum Key {
    /// A character key, upper and lower case being different keys.
    Char(char),
    Enter,
    Escape,
    Backspace,
    Up,
    Down,
    Left,
    Right,
    /// Any other special key.
    Other,
}

/// The input mode of the translator.
#[derive(Clone, Copy, Debug, PartialEq, Eq, Structural)]
pub enum InputMode {
    /// Keys map to named tokens.
    Normal,
    /// Keys map to literal tokens.
    Literal,
}

/// The key table of normal mode.
pub open spec fn normal_binding(key: Key) -> Option<NamedToken> {
    match key {
        Key::Char('g') => Some(NamedToken::Home),
        Key::Char('h') => Some(NamedToken::Left),
        Key::Char('H') => Some(NamedToken::Rev),
        Key::Char('i') => Some(NamedToken::KeyboardMode),
        Key::Char('I') => Some(NamedToken::InstantReplay),
        Key::Char('j') => Some(NamedToken::Down),
        Key::Char('J') => Some(NamedToken::ChannelDown),
        Key::Char('k') => Some(NamedToken::Up),
        Key::Char('K') => Some(NamedToken::ChannelUp),
        Key::Char('l') => Some(NamedToken::Right),
        Key::Char('L') => Some(NamedToken::Fwd),
        Key::Char('m') => Some(NamedToken::Mute),
        Key::Char('p') => Some(NamedToken::PowerOn),
        Key::Char('P') => Some(NamedToken::PowerOff),
        Key::Char('s') => Some(NamedToken::Search),
        Key::Char('q') => Some(NamedToken::Quit),
        Key::Char('Q') => Some(NamedToken::HardQuit),
        Key::Char('v') => Some(NamedToken::VolumeDown),
        Key::Char('V') => Some(NamedToken::VolumeUp),
        Key::Char(' ') => Some(NamedToken::Play),
        Key::Char('|') => Some(NamedToken::Pause),
        Key::Char('?') => Some(NamedToken::Help),
        Key::Char('*') => Some(NamedToken::Info),
        Key::Enter => Some(NamedToken::Select),
        Key::Down => Some(NamedToken::Down),
        Key::Up => Some(NamedToken::Up),
        Key::Left => Some(NamedToken::Left),
        Key::Right => Some(NamedToken::Right),
        _ => None,
    }
}

/// The key table of literal mode. Escape leads back to normal mode; every
/// character is taken as it is, the space under its own token.
pub open spec fn literal_binding(key: Key) -> Option<CommandToken> {
    match key {
        Key::Backspace => Some(CommandToken::Literal(LiteralToken::Backspace)),
        Key::Enter => Some(CommandToken::Literal(LiteralToken::Enter)),
        Key::Escape => Some(CommandToken::Named(NamedToken::ExitKeyboardMode)),
        Key::Char(c) => Some(
            CommandToken::Literal(
                if c == ' ' {
                    LiteralToken::Space
                } else {
                    LiteralToken::Char(c)
                },
            ),
        ),
        _ => None,
    }
}

/// The token that a key stands for in a mode, if it stands for any.
pub open spec fn binding(mode: InputMode, key: Key) -> Option<CommandToken> {
    match mode {
        InputMode::Normal => match normal_binding(key) {
            Some(t) => Some(CommandToken::Named(t)),
            None => None,
        },
        InputMode::Literal => literal_binding(key),
    }
}

/// Looks a key up in the table of normal mode.
pub fn resolve_normal(key: Key) -> (token: Option<NamedToken>)
    ensures
        token == normal_binding(key),
{
    match key {
        Key::Char(c) => {
            if c == 'g' {
                Some(NamedToken::Home)
            } else if c == 'h' {
                Some(NamedToken::Left)
            } else if c == 'H' {
                Some(NamedToken::Rev)
            } else if c == 'i' {
                Some(NamedToken::KeyboardMode)
            } else if c == 'I' {
                Some(NamedToken::InstantReplay)
            } else if c == 'j' {
                Some(NamedToken::Down)
            } else if c == 'J' {
                Some(NamedToken::ChannelDown)
            } else if c == 'k' {
                Some(NamedToken::Up)
            } else if c == 'K' {
                Some(NamedToken::ChannelUp)
            } else if c == 'l' {
                Some(NamedToken::Right)
            } else if c == 'L' {
                Some(NamedToken::Fwd)
            } else if c == 'm' {
                Some(NamedToken::Mute)
            } else if c == 'p' {
                Some(NamedToken::PowerOn)
            } else if c == 'P' {
                Some(NamedToken::PowerOff)
            } else if c == 's' {
                Some(NamedToken::Search)
            } else if c == 'q' {
                Some(NamedToken::Quit)
            } else if c == 'Q' {
                Some(NamedToken::HardQuit)
            } else if c == 'v' {
                Some(NamedToken::VolumeDown)
            } else if c == 'V' {
                Some(NamedToken::VolumeUp)
            } else if c == ' ' {
                Some(NamedToken::Play)
            } else if c == '|' {
                Some(NamedToken::Pause)
            } else if c == '?' {
                Some(NamedToken::Help)
            } else if c == '*' {
                Some(NamedToken::Info)
            } else {
                None
            }
        },
        Key::Enter => Some(NamedToken::Select),
        Key::Down => Some(NamedToken::Down),
        Key::Up => Some(NamedToken::Up),
        Key::Left => Some(NamedToken::Left),
        Key::Right => Some(NamedToken::Right),
        _ => None,
    }
}

/// Looks a key up in the table of literal mode.
pub fn resolve_literal(key: Key) -> (token: Option<CommandToken>)
    ensures
        token == literal_binding(key),
{
    match key {
        Key::Backspace => Some(CommandToken::Literal(LiteralToken::Backspace)),
        Key::Enter => Some(CommandToken::Literal(LiteralToken::Enter)),
        Key::Escape => Some(CommandToken::Named(NamedToken::ExitKeyboardMode)),
        Key::Char(c) => {
            if c == ' ' {
                Some(CommandToken::Literal(LiteralToken::Space))
            } else {
                Some(CommandToken::Literal(LiteralToken::Char(c)))
            }
        },
        _ => None,
    }
}

/// Looks a key up in the table of the given mode.
pub fn resolve(mode: InputMode, key: Key) -> (token: Option<CommandToken>)
    ensures
        token == binding(mode, key),
{
    match mode {
        InputMode::Normal => match resolve_normal(key) {
            Some(t) => Some(CommandToken::Named(t)),
            None => None,
        },
        InputMode::Literal => resolve_literal(key),
    }
}

/// Each table keeps to its kind of token.
///
/// In normal mode a key stands for a named token, and never for the one
/// that leaves literal mode. In literal mode a key stands for a literal
/// token, or for the one that leaves literal mode; so no key stops the
/// session from literal mode.
pub proof fn lemma_tables_keep_to_their_kind(key: Key)
    ensures
        match binding(InputMode::Normal, key) {
            Some(CommandToken::Named(token)) => token != NamedToken::ExitKeyboardMode,
            Some(CommandToken::Literal(_)) => false,
            None => true,
        },
        match binding(InputMode::Literal, key) {
            Some(CommandToken::Named(token)) => token == NamedToken::ExitKeyboardMode,
            Some(CommandToken::Literal(_)) => true,
            None => true,
        },
{
}

} // verus!
