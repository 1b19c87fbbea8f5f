//! Command tokens: the normalized identifiers of remote-control actions.

use vstd::prelude::*;
use vstd::string::*;

verus! {

/// A token of the fixed remote-control vocabulary.
#[derive(Clone, Copy, Debug, PartialEq, Eq, Structural)]
pub enum NamedToken {
    Home,
    Left,
    Right,
    Up,
    Down,
    Select,
    Play,
    Pause,
    Mute,
    VolumeUp,
    VolumeDown,
    ChannelUp,
    ChannelDown,
    Rev,
    Fwd,
    InstantReplay,
    Search,
    Info,
    Help,
    PowerOn,
    PowerOff,
    /// Graceful stop: everything queued ahead of it is still delivered.
    Quit,
    /// Hard stop: everything still queued is dropped.
    HardQuit,
    /// Switches the translator to literal entry.
    KeyboardMode,
    /// Switches the translator back from literal entry.
    ExitKeyboardMode,
}

/// A token produced during literal entry.
#[derive(Clone, Copy, Debug, PartialEq, Eq, Structural)]
pub enum LiteralToken {
    Backspace,
    Enter,
    /// The space character, which travels under a name of its own.
    Space,
    /// Any other captured character.
    Char(char),
}

/// One remote-control action, as pure data.
#[derive(Clone, Copy, Debug, PartialEq, Eq, Structural)]
pub enum CommandToken {
    Named(NamedToken),
    Literal(LiteralToken),
}

/// The graceful stop as a token.
pub open spec fn quit() -> CommandToken {
    CommandToken::Named(NamedToken::Quit)
}

/// The hard stop as a token.
pub open spec fn hard_quit() -> CommandToken {
    CommandToken::Named(NamedToken::HardQuit)
}

impl NamedToken {
    /// The canonical name of the token.
    pub open spec fn name_spec(self) -> Seq<char> {
        match self {
            NamedToken::Home => "Home"@,
            NamedToken::Left => "Left"@,
            NamedToken::Right => "Right"@,
            NamedToken::Up => "Up"@,
            NamedToken::Down => "Down"@,
            NamedToken::Select => "Select"@,
            NamedToken::Play => "Play"@,
            NamedToken::Pause => "Pause"@,
            NamedToken::Mute => "Mute"@,
            NamedToken::VolumeUp => "VolumeUp"@,
            NamedToken::VolumeDown => "VolumeDown"@,
            NamedToken::ChannelUp => "ChannelUp"@,
            NamedToken::ChannelDown => "ChannelDown"@,
            NamedToken::Rev => "Rev"@,
            NamedToken::Fwd => "Fwd"@,
            NamedToken::InstantReplay => "InstantReplay"@,
            NamedToken::Search => "Search"@,
            NamedToken::Info => "Info"@,
            NamedToken::Help => "Help"@,
            NamedToken::PowerOn => "PowerOn"@,
            NamedToken::PowerOff => "PowerOff"@,
            NamedToken::Quit => "Quit"@,
            NamedToken::HardQuit => "HardQuit"@,
            NamedToken::KeyboardMode => "KeyboardMode"@,
            NamedToken::ExitKeyboardMode => "ExitKeyboardMode"@,
        }
    }

    /// Returns the canonical name of the token.
    pub fn name(self) -> (s: &'static str)
        ensures
            s@ == self.name_spec(),
    {
        match self {
            NamedToken::Home => "Home",
            NamedToken::Left => "Left",
            NamedToken::Right => "Right",
            NamedToken::Up => "Up",
            NamedToken::Down => "Down",
            NamedToken::Select => "Select",
            NamedToken::Play => "Play",
            NamedToken::Pause => "Pause",
            NamedToken::Mute => "Mute",
            NamedToken::VolumeUp => "VolumeUp",
            NamedToken::VolumeDown => "VolumeDown",
            NamedToken::ChannelUp => "ChannelUp",
            NamedToken::ChannelDown => "ChannelDown",
            NamedToken::Rev => "Rev",
            NamedToken::Fwd => "Fwd",
            NamedToken::InstantReplay => "InstantReplay",
            NamedToken::Search => "Search",
            NamedToken::Info => "Info",
            NamedToken::Help => "Help",
            NamedToken::PowerOn => "PowerOn",
            NamedToken::PowerOff => "PowerOff",
            NamedToken::Quit => "Quit",
            NamedToken::HardQuit => "HardQuit",
            NamedToken::KeyboardMode => "KeyboardMode",
            NamedToken::ExitKeyboardMode => "ExitKeyboardMode",
        }
    }
}

/// Appends one character to the end of a string.
///
/// Stands for `String::push` of the standard library, of which it states that
/// the string afterwards is the string before, followed by the character.
#[verifier::external_body]
fn push_char(s: &mut String, c: char)
    ensures
        final(s)@ == old(s)@.push(c),
{
    s.push(c)
}

impl LiteralToken {
    /// The canonical name of the token: the prefix `Lit_` and the character
    /// for a captured character, `Lit_+` for the space.
    pub open spec fn name_spec(self) -> Seq<char> {
        match self {
            LiteralToken::Backspace => "Backspace"@,
            LiteralToken::Enter => "Enter"@,
            LiteralToken::Space => "Lit_+"@,
            LiteralToken::Char(c) => "Lit_"@.push(c),
        }
    }

    /// Returns the canonical name of the token.
    pub fn name(self) -> (s: String)
        ensures
            s@ == self.name_spec(),
    {
        match self {
            LiteralToken::Backspace => String::from_str("Backspace"),
            LiteralToken::Enter => String::from_str("Enter"),
            LiteralToken::Space => String::from_str("Lit_+"),
            LiteralToken::Char(c) => {
                let mut s = String::from_str("Lit_");
                push_char(&mut s, c);
                s
            },
        }
    }
}

impl CommandToken {
    /// The canonical name of the token.
    pub open spec fn name_spec(self) -> Seq<char> {
        match self {
            CommandToken::Named(t) => t.name_spec(),
            CommandToken::Literal(t) => t.name_spec(),
        }
    }

    /// The path under which the token is sent: the fixed route segment
    /// followed by the canonical name.
    pub open spec fn key_path_spec(self) -> Seq<char> {
        "/keypress/"@ + self.name_spec()
    }

    /// Whether the token is the graceful stop.
    pub open spec fn spec_is_quit(self) -> bool {
        self == quit()
    }

    /// Whether the token is the hard stop.
    pub open spec fn spec_is_hard_quit(self) -> bool {
        self == hard_quit()
    }

    /// Whether the token ends the session, one way or the other.
    pub open spec fn spec_is_stop(self) -> bool {
        self.is_quit() || self.is_hard_quit()
    }

    /// Whether the token is one that the dispatcher sends: any token but the
    /// two stops.
    pub open spec fn spec_is_ordinary(self) -> bool {
        !self.is_stop()
    }

    /// Whether the token is the graceful stop.
    #[verifier::when_used_as_spec(spec_is_quit)]
    pub fn is_quit(self) -> (b: bool)
        ensures
            b == self.spec_is_quit(),
    {
        match self {
            CommandToken::Named(NamedToken::Quit) => true,
            _ => false,
        }
    }

    /// Whether the token is the hard stop.
    #[verifier::when_used_as_spec(spec_is_hard_quit)]
    pub fn is_hard_quit(self) -> (b: bool)
        ensures
            b == self.spec_is_hard_quit(),
    {
        match self {
            CommandToken::Named(NamedToken::HardQuit) => true,
            _ => false,
        }
    }

    /// Whether the token ends the session, one way or the other.
    #[verifier::when_used_as_spec(spec_is_stop)]
    pub fn is_stop(self) -> (b: bool)
        ensures
            b == self.spec_is_stop(),
    {
        self.is_quit() || self.is_hard_quit()
    }

    /// Whether the token is one that the dispatcher sends.
    #[verifier::when_used_as_spec(spec_is_ordinary)]
    pub fn is_ordinary(self) -> (b: bool)
        ensures
            b == self.spec_is_ordinary(),
    {
        !self.is_stop()
    }

    /// Returns the canonical name of the token.
    pub fn name(self) -> (s: String)
        ensures
            s@ == self.name_spec(),
    {
        match self {
            CommandToken::Named(t) => String::from_str(t.name()),
            CommandToken::Literal(t) => t.name(),
        }
    }

    /// Returns the path under which the token is sent.
    pub fn key_path(self) -> (path: String)
        ensures
            path@ == self.key_path_spec(),
    {
        let name = self.name();
        String::from_str("/keypress/").concat(name.as_str())
    }
}

} // verus!
