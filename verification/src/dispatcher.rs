//! The dispatcher: what becomes of the queue at each poll.

use vstd::prelude::*;
use crate::queue::CommandQueue;
use crate::token::{hard_quit, CommandToken, NamedToken};

verus! {

/// The two ways in which a session stops.
#[derive(Clone, Copy, Debug, PartialEq, Eq, Structural)]
pub enum StopKind {
    /// Everything queued ahead of the stop was handed out for sending.
    Graceful,
    /// Everything that was still queued was dropped.
    Hard,
}

/// The state of the dispatcher. Both stopped states are terminal.
#[derive(Clone, Copy, Debug, PartialEq, Eq, Structural)]
pub enum DispatcherState {
    Running,
    Stopped(StopKind),
}

/// What the caller of a poll is to do next.
#[derive(Clone, Copy, Debug, PartialEq, Eq, Structural)]
pub enum DispatchAction {
    /// Nothing is pending: poll again later.
    Idle,
    /// Send this token; it has left the queue and will not come back,
    /// whatever becomes of the send.
    Send(CommandToken),
    /// The dispatcher has stopped: send nothing more.
    Halt(StopKind),
}

/// The dispatcher.
#[derive(Clone, Copy, Debug, PartialEq, Eq, Structural)]
pub struct Dispatcher {
    pub state: DispatcherState,
}

impl Dispatcher {
    /// The state in which a session starts.
    pub open spec fn initial() -> Dispatcher {
        Dispatcher { state: DispatcherState::Running }
    }

    /// What a poll finding these tokens pending comes to.
    ///
    /// A stopped dispatcher stays stopped. A running one idles on an empty
    /// queue; stops hard if the hard stop is pending anywhere; stops
    /// gracefully if the oldest token is the graceful stop; and otherwise
    /// hands out the oldest token.
    pub open spec fn action(self, pending: Seq<CommandToken>) -> DispatchAction {
        match self.state {
            DispatcherState::Stopped(kind) => DispatchAction::Halt(kind),
            DispatcherState::Running => {
                if pending.len() == 0 {
                    DispatchAction::Idle
                } else if pending.contains(hard_quit()) {
                    DispatchAction::Halt(StopKind::Hard)
                } else if pending.first().is_quit() {
                    DispatchAction::Halt(StopKind::Graceful)
                } else {
                    DispatchAction::Send(pending.first())
                }
            },
        }
    }

    /// The dispatcher after a poll that found these tokens pending.
    pub open spec fn after_poll(self, pending: Seq<CommandToken>) -> Dispatcher {
        match self.action(pending) {
            DispatchAction::Halt(kind) => Dispatcher { state: DispatcherState::Stopped(kind) },
            _ => self,
        }
    }

    /// What is left pending after a poll that found these tokens pending.
    ///
    /// A stopped dispatcher touches nothing. A running one drops everything
    /// on a hard stop, and otherwise takes the oldest token, if there is one.
    pub open spec fn pending_after_poll(self, pending: Seq<CommandToken>) -> Seq<CommandToken> {
        match self.state {
            DispatcherState::Stopped(_) => pending,
            DispatcherState::Running => {
                if pending.len() == 0 {
                    pending
                } else if pending.contains(hard_quit()) {
                    Seq::empty()
                } else {
                    pending.drop_first()
                }
            },
        }
    }

    /// Creates a running dispatcher.
    pub fn new() -> (dispatcher: Dispatcher)
        ensures
            dispatcher == Dispatcher::initial(),
    {
        Dispatcher { state: DispatcherState::Running }
    }

    /// Returns whether the dispatcher is still running.
    pub fn is_running(&self) -> (b: bool)
        ensures
            b == (self.state == DispatcherState::Running),
    {
        match self.state {
            DispatcherState::Running => true,
            DispatcherState::Stopped(_) => false,
        }
    }

    /// Inspects the queue once, as one step, and says what to do next.
    pub fn poll(&mut self, queue: &mut CommandQueue) -> (action: DispatchAction)
        ensures
            action == old(self).action(old(queue)@),
            *final(self) == old(self).after_poll(old(queue)@),
            final(queue)@ == old(self).pending_after_poll(old(queue)@),
    {
        match self.state {
            DispatcherState::Stopped(kind) => {
                return DispatchAction::Halt(kind);
            },
            DispatcherState::Running => {},
        }
        if queue.drain_if_contains(CommandToken::Named(NamedToken::HardQuit)) {
            self.state = DispatcherState::Stopped(StopKind::Hard);
            return DispatchAction::Halt(StopKind::Hard);
        }
        match queue.take_front() {
            None => DispatchAction::Idle,
            Some(token) => {
                if token.is_quit() {
                    self.state = DispatcherState::Stopped(StopKind::Graceful);
                    DispatchAction::Halt(StopKind::Graceful)
                } else {
                    DispatchAction::Send(token)
                }
            },
        }
    }
}

} // verus!
