//! The kinds of failure in a session, and which of them end it.

use vstd::prelude::*;

verus! {

/// What can go wrong in a session.
#[derive(Clone, Copy, Debug, PartialEq, Eq, Structural)]
pub enum ErrorKind {
    /// A key stands for no token in the current mode.
    UnmappedKey,
    /// A send failed or timed out. The token is neither sent again nor
    /// queued again.
    NetworkSendFailure,
    /// The terminal could not be set up or restored.
    TerminalSetupFailure,
}

impl ErrorKind {
    /// Whether a failure of this kind ends the session. What goes wrong at
    /// the translator or at the dispatcher is reported and recovered from;
    /// only a failure of the terminal is fatal.
    pub open spec fn spec_is_fatal(self) -> bool {
        self == ErrorKind::TerminalSetupFailure
    }

    /// Returns whether a failure of this kind ends the session.
    #[verifier::when_used_as_spec(spec_is_fatal)]
    pub fn is_fatal(self) -> (fatal: bool)
        ensures
            fatal == self.spec_is_fatal(),
    {
        match self {
            ErrorKind::TerminalSetupFailure => true,
            _ => false,
        }
    }
}

} // verus!
