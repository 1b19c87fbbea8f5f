//! The input translator: from key events to queued tokens.

use vstd::prelude::*;
use crate::key::{binding, resolve, InputMode, Key};
use crate::queue::CommandQueue;
use crate::token::{CommandToken, NamedToken};

verus! {

/// What one key event came to.
#[derive(Clone, Copy, Debug, PartialEq, Eq, Structural)]
pub enum KeyEffect {
    /// The token goes to the back of the queue.
    Append(CommandToken),
    /// The translator switched to literal entry; nothing is queued.
    EnterLiteral,
    /// The translator switched back to normal mode; nothing is queued.
    ExitLiteral,
    /// The key stands for nothing in the current mode; nothing is queued.
    Unmapped,
    /// The translator had stopped before the key came; nothing is queued.
    Ignored,
}

impl KeyEffect {
    /// The tokens that the effect adds to the queue: one or none.
    pub open spec fn appended(self) -> Seq<CommandToken> {
        match self {
            KeyEffect::Append(token) => seq![token],
            _ => Seq::empty(),
        }
    }
}

/// The state of the input translator: its mode, and whether it has stopped.
///
/// A translator stops when it has queued a graceful or a hard stop; from then
/// on no key has any effect.
#[derive(Clone, Copy, Debug, PartialEq, Eq, Structural)]
pub struct Translator {
    pub mode: InputMode,
    pub stopped: bool,
}

impl Translator {
    /// The state in which a session starts.
    pub open spec fn initial() -> Translator {
        Translator { mode: InputMode::Normal, stopped: false }
    }

    /// The effect of a resolved token.
    pub open spec fn token_effect(self, token: CommandToken) -> KeyEffect {
        if self.stopped {
            KeyEffect::Ignored
        } else {
            match token {
                CommandToken::Named(NamedToken::KeyboardMode) => KeyEffect::EnterLiteral,
                CommandToken::Named(NamedToken::ExitKeyboardMode) => KeyEffect::ExitLiteral,
                _ => KeyEffect::Append(token),
            }
        }
    }

    /// The state after a resolved token.
    pub open spec fn after_token(self, token: CommandToken) -> Translator {
        if self.stopped {
            self
        } else {
            match token {
                CommandToken::Named(NamedToken::KeyboardMode) => Translator {
                    mode: InputMode::Literal,
                    stopped: false,
                },
                CommandToken::Named(NamedToken::ExitKeyboardMode) => Translator {
                    mode: InputMode::Normal,
                    stopped: false,
                },
                _ => Translator { mode: self.mode, stopped: token.is_stop() },
            }
        }
    }

    /// The effect of a key event.
    pub open spec fn key_effect(self, key: Key) -> KeyEffect {
        if self.stopped {
            KeyEffect::Ignored
        } else {
            match binding(self.mode, key) {
                Some(token) => self.token_effect(token),
                None => KeyEffect::Unmapped,
            }
        }
    }

    /// The state after a key event.
    pub open spec fn after_key(self, key: Key) -> Translator {
        if self.stopped {
            self
        } else {
            match binding(self.mode, key) {
                Some(token) => self.after_token(token),
                None => self,
            }
        }
    }

    /// The state after a run of key events.
    pub open spec fn after_keys(self, keys: Seq<Key>) -> Translator
        decreases keys.len(),
    {
        if keys.len() == 0 {
            self
        } else {
            self.after_keys(keys.drop_last()).after_key(keys.last())
        }
    }

    /// The tokens queued over a run of key events, in the order of the keys.
    pub open spec fn emitted(self, keys: Seq<Key>) -> Seq<CommandToken>
        decreases keys.len(),
    {
        if keys.len() == 0 {
            Seq::empty()
        } else {
            self.emitted(keys.drop_last()) + self.after_keys(keys.drop_last()).key_effect(
                keys.last(),
            ).appended()
        }
    }

    /// Creates a translator in normal mode.
    pub fn new() -> (translator: Translator)
        ensures
            translator == Translator::initial(),
    {
        Translator { mode: InputMode::Normal, stopped: false }
    }

    /// Takes a resolved token: switches the mode for the two mode tokens,
    /// and hands every other token on to be queued, stopping on the two stops.
    pub fn accept(&mut self, token: CommandToken) -> (effect: KeyEffect)
        ensures
            *final(self) == old(self).after_token(token),
            effect == old(self).token_effect(token),
    {
        if self.stopped {
            return KeyEffect::Ignored;
        }
        match token {
            CommandToken::Named(NamedToken::KeyboardMode) => {
                self.mode = InputMode::Literal;
                KeyEffect::EnterLiteral
            },
            CommandToken::Named(NamedToken::ExitKeyboardMode) => {
                self.mode = InputMode::Normal;
                KeyEffect::ExitLiteral
            },
            _ => {
                if token.is_stop() {
                    self.stopped = true;
                }
                KeyEffect::Append(token)
            },
        }
    }

    /// Takes a key event and says what it came to, without touching a queue.
    pub fn press(&mut self, key: Key) -> (effect: KeyEffect)
        ensures
            *final(self) == old(self).after_key(key),
            effect == old(self).key_effect(key),
            !old(self).stopped && binding(old(self).mode, key).is_none() ==> effect
                == KeyEffect::Unmapped && *final(self) == *old(self),
    {
        if self.stopped {
            return KeyEffect::Ignored;
        }
        match resolve(self.mode, key) {
            Some(token) => self.accept(token),
            None => KeyEffect::Unmapped,
        }
    }

    /// Takes a key event and queues the token it came to, if it came to one.
    pub fn feed(&mut self, key: Key, queue: &mut CommandQueue) -> (effect: KeyEffect)
        ensures
            *final(self) == old(self).after_key(key),
            effect == old(self).key_effect(key),
            final(queue)@ == old(queue)@ + effect.appended(),
            !old(self).stopped && binding(old(self).mode, key).is_none() ==> effect
                == KeyEffect::Unmapped && *final(self) == *old(self) && final(queue)@ == old(
                queue,
            )@,
    {
        let effect = self.press(key);
        match effect {
            KeyEffect::Append(token) => {
                queue.append(token);
                assert(queue@ =~= old(queue)@ + effect.appended());
            },
            _ => {
                assert(queue@ =~= old(queue)@ + effect.appended());
            },
        }
        effect
    }
}

/// Whether the token is one of the two that switch the mode.
pub open spec fn is_mode_token(token: CommandToken) -> bool {
    token == CommandToken::Named(NamedToken::KeyboardMode) || token == CommandToken::Named(
        NamedToken::ExitKeyboardMode,
    )
}

/// Entering literal mode is idempotent.
///
/// A running translator that takes the token `KeyboardMode` twice in a row
/// is in literal mode after the first and after the second, and neither of
/// the two adds anything to the queue.
pub proof fn lemma_entering_literal_mode_is_idempotent(translator: Translator)
    requires
        !translator.stopped,
    ensures
        ({
            let token = CommandToken::Named(NamedToken::KeyboardMode);
            let once = translator.after_token(token);
            let twice = once.after_token(token);
            &&& once.mode == InputMode::Literal
            &&& twice == once
            &&& translator.token_effect(token) == KeyEffect::EnterLiteral
            &&& once.token_effect(token) == KeyEffect::EnterLiteral
            &&& translator.token_effect(token).appended() == Seq::<CommandToken>::empty()
            &&& once.token_effect(token).appended() == Seq::<CommandToken>::empty()
        }),
{
}

/// A stopped translator is silent: whatever keys come, its state stays as it
/// is and nothing is queued.
pub proof fn lemma_stopped_translator_is_silent(translator: Translator, keys: Seq<Key>)
    requires
        translator.stopped,
    ensures
        translator.after_keys(keys) == translator,
        translator.emitted(keys) == Seq::<CommandToken>::empty(),
    decreases keys.len(),
{
    if keys.len() > 0 {
        lemma_stopped_translator_is_silent(translator, keys.drop_last());
    }
}

/// What a translator queues over any run of keys is a run of ordinary
/// tokens, closed by a stop if and only if the translator has stopped.
///
/// Nothing follows a stop, the two mode tokens are never queued, and every
/// token but the last is one that the dispatcher sends.
pub proof fn lemma_emitted_ends_with_the_stop(translator: Translator, keys: Seq<Key>)
    requires
        !translator.stopped,
    ensures
        ({
            let out = translator.emitted(keys);
            &&& forall|i: int| 0 <= i < out.len() - 1 ==> (#[trigger] out[i]).is_ordinary()
            &&& forall|i: int| 0 <= i < out.len() ==> !is_mode_token(#[trigger] out[i])
            &&& translator.after_keys(keys).stopped <==> out.len() > 0 && out.last().is_stop()
        }),
    decreases keys.len(),
{
    if keys.len() > 0 {
        lemma_emitted_ends_with_the_stop(translator, keys.drop_last());
    }
}

} // verus!
