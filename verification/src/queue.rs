//! The ordered hand-off queue between the translator and the dispatcher.

use vstd::prelude::*;
use crate::token::CommandToken;

verus! {

/// The pending command tokens, oldest first.
///
/// Tokens enter at the back and leave at the front; the one exception is the
/// hard stop, which discards the whole queue at once. Every operation takes
/// the queue by reference for its whole duration, so that a caller who shares
/// the queue behind a lock performs each of them as one indivisible step.
#[derive(Debug)]
pub struct CommandQueue {
    tokens: Vec<CommandToken>,
}

impl View for CommandQueue {
    type V = Seq<CommandToken>;

    closed spec fn view(&self) -> Seq<CommandToken> {
        self.tokens@
    }
}

impl CommandQueue {
    /// Creates an empty queue.
    pub fn new() -> (queue: CommandQueue)
        ensures
            queue@ == Seq::<CommandToken>::empty(),
    {
        CommandQueue { tokens: Vec::new() }
    }

    /// Returns the number of pending tokens.
    pub fn len(&self) -> (n: usize)
        ensures
            n == self@.len(),
    {
        self.tokens.len()
    }

    /// Returns whether no token is pending.
    pub fn is_empty(&self) -> (b: bool)
        ensures
            b == (self@.len() == 0),
    {
        self.tokens.len() == 0
    }

    /// Adds a token at the back.
    pub fn append(&mut self, token: CommandToken)
        ensures
            final(self)@ == old(self)@.push(token),
    {
        self.tokens.push(token);
    }

    /// Returns the pending tokens, oldest first, and leaves them in place.
    pub fn peek_all(&self) -> (all: &[CommandToken])
        ensures
            all@ == self@,
    {
        self.tokens.as_slice()
    }

    /// Returns whether the token is pending anywhere in the queue.
    pub fn contains(&self, token: CommandToken) -> (found: bool)
        ensures
            found == self@.contains(token),
    {
        let mut i: usize = 0;
        while i < self.tokens.len()
            invariant
                i <= self.tokens@.len(),
                forall|j: int| 0 <= j < i ==> self.tokens@[j] != token,
            decreases self.tokens@.len() - i,
        {
            if self.tokens[i] == token {
                return true;
            }
            i += 1;
        }
        false
    }

    /// Removes the oldest token and returns it; `None` on an empty queue.
    pub fn take_front(&mut self) -> (front: Option<CommandToken>)
        ensures
            old(self)@.len() == 0 ==> front.is_none() && final(self)@ == old(self)@,
            old(self)@.len() > 0 ==> front == Some(old(self)@.first()) && final(self)@ == old(
                self,
            )@.drop_first(),
    {
        if self.tokens.len() == 0 {
            None
        } else {
            let front = self.tokens.remove(0);
            assert(self.tokens@ =~= old(self).tokens@.drop_first());
            Some(front)
        }
    }

    /// Discards every pending token.
    pub fn drain_all(&mut self)
        ensures
            final(self)@ == Seq::<CommandToken>::empty(),
    {
        self.tokens.clear();
    }

    /// Discards every pending token if the marker is among them, and returns
    /// whether it was; otherwise leaves the queue as it is.
    pub fn drain_if_contains(&mut self, marker: CommandToken) -> (drained: bool)
        ensures
            drained == old(self)@.contains(marker),
            drained ==> final(self)@ == Seq::<CommandToken>::empty(),
            !drained ==> final(self)@ == old(self)@,
    {
        if self.contains(marker) {
            self.drain_all();
            true
        } else {
            false
        }
    }
}

} // verus!
