//! The queue and the dispatcher over a whole session: what is sent, in which
//! order, and how the session ends, for every interleaving of appends and
//! polls.

use vstd::prelude::*;
use crate::dispatcher::{DispatchAction, Dispatcher, DispatcherState, StopKind};
use crate::key::Key;
use crate::token::{hard_quit, quit, CommandToken};
use crate::translator::{is_mode_token, lemma_emitted_ends_with_the_stop, Translator};

verus! {

/// One step taken on the shared queue.
pub enum Event {
    /// The producer appends a token, as `CommandQueue::append` does.
    Append(CommandToken),
    /// The consumer polls, as `Dispatcher::poll` does.
    Poll,
}

/// The queue, the dispatcher, and the tokens handed out for sending so far.
pub struct Session {
    pub pending: Seq<CommandToken>,
    pub dispatcher: Dispatcher,
    pub sent: Seq<CommandToken>,
}

/// Whether every token of the sequence is one that the dispatcher sends.
pub open spec fn all_ordinary(tokens: Seq<CommandToken>) -> bool {
    forall|i: int| 0 <= i < tokens.len() ==> (#[trigger] tokens[i]).is_ordinary()
}

/// The tokens that a run of events appends, in the order of the events.
pub open spec fn appended(events: Seq<Event>) -> Seq<CommandToken>
    decreases events.len(),
{
    if events.len() == 0 {
        Seq::empty()
    } else {
        match events.last() {
            Event::Append(token) => appended(events.drop_last()).push(token),
            Event::Poll => appended(events.drop_last()),
        }
    }
}

/// A run of `n` polls.
pub open spec fn polls(n: nat) -> Seq<Event> {
    Seq::new(n, |i: int| Event::Poll)
}

impl Session {
    /// The session at its start: nothing pending, nothing sent, the
    /// dispatcher running.
    pub open spec fn initial() -> Session {
        Session { pending: Seq::empty(), dispatcher: Dispatcher::initial(), sent: Seq::empty() }
    }

    /// The session after one event.
    pub open spec fn step(self, event: Event) -> Session {
        match event {
            Event::Append(token) => Session {
                pending: self.pending.push(token),
                dispatcher: self.dispatcher,
                sent: self.sent,
            },
            Event::Poll => Session {
                pending: self.dispatcher.pending_after_poll(self.pending),
                dispatcher: self.dispatcher.after_poll(self.pending),
                sent: match self.dispatcher.action(self.pending) {
                    DispatchAction::Send(token) => self.sent.push(token),
                    _ => self.sent,
                },
            },
        }
    }

    /// The session after a run of events.
    pub open spec fn run(self, events: Seq<Event>) -> Session
        decreases events.len(),
    {
        if events.len() == 0 {
            self
        } else {
            self.run(events.drop_last()).step(events.last())
        }
    }

    /// Whether the dispatcher is running.
    pub open spec fn running(self) -> bool {
        self.dispatcher.state == DispatcherState::Running
    }

    /// Whether the dispatcher has nothing left to do: it has stopped, or
    /// nothing is pending.
    pub open spec fn settled(self) -> bool {
        !self.running() || self.pending.len() == 0
    }

    /// What holds of every session that began at the start and has had the
    /// tokens `all` appended since: nothing but ordinary tokens was sent, and
    /// - while the dispatcher runs, what was sent and what is pending make up
    ///   `all`;
    /// - after a graceful stop, what was sent, the graceful stop and what is
    ///   pending make up `all`;
    /// - after a hard stop, what was sent is where `all` begins, and the hard
    ///   stop is somewhere in `all`.
    pub open spec fn accounts_for(self, all: Seq<CommandToken>) -> bool {
        &&& all_ordinary(self.sent)
        &&& match self.dispatcher.state {
            DispatcherState::Running => self.sent + self.pending == all,
            DispatcherState::Stopped(StopKind::Graceful) => {
                self.sent.push(quit()) + self.pending == all
            },
            DispatcherState::Stopped(StopKind::Hard) => {
                &&& self.sent.is_prefix_of(all)
                &&& all.contains(hard_quit())
            },
        }
    }
}

/// Every session accounts for what was appended: after any run of events
/// from the start, the tokens sent are the first of those appended, in the
/// order in which they were appended, and none of them is a stop.
pub proof fn lemma_session_accounts_for_appended(events: Seq<Event>)
    ensures
        Session::initial().run(events).accounts_for(appended(events)),
    decreases events.len(),
{
    if events.len() == 0 {
        let nothing = Seq::<CommandToken>::empty();
        assert(nothing + nothing =~= nothing);
    } else {
        let before = Session::initial().run(events.drop_last());
        let all = appended(events.drop_last());
        lemma_session_accounts_for_appended(events.drop_last());
        lemma_step_accounts_for(before, all, events.last());
    }
}

/// One event keeps the account.
proof fn lemma_step_accounts_for(s: Session, all: Seq<CommandToken>, event: Event)
    requires
        s.accounts_for(all),
    ensures
        s.step(event).accounts_for(
            match event {
                Event::Append(token) => all.push(token),
                Event::Poll => all,
            },
        ),
{
    let after = s.step(event);
    match event {
        Event::Append(token) => {
            match s.dispatcher.state {
                DispatcherState::Running => {
                    assert(s.sent + s.pending.push(token) =~= (s.sent + s.pending).push(token));
                },
                DispatcherState::Stopped(StopKind::Graceful) => {
                    let delivered = s.sent.push(quit());
                    assert(delivered + s.pending.push(token) =~= (delivered + s.pending).push(
                        token,
                    ));
                },
                DispatcherState::Stopped(StopKind::Hard) => {
                    let i = choose|i: int| 0 <= i < all.len() && all[i] == hard_quit();
                    assert(all.push(token)[i] == hard_quit());
                },
            }
        },
        Event::Poll => {
            match s.dispatcher.state {
                DispatcherState::Running => {
                    if s.pending.len() == 0 {
                    } else if s.pending.contains(hard_quit()) {
                        let i = choose|i: int|
                            0 <= i < s.pending.len() && s.pending[i] == hard_quit();
                        assert(all[s.sent.len() + i] == hard_quit());
                    } else if s.pending.first().is_quit() {
                        assert(s.sent.push(quit()) + s.pending.drop_first() =~= s.sent + s.pending);
                    } else {
                        let front = s.pending.first();
                        assert(s.pending.contains(front));
                        assert(after.sent == s.sent.push(front));
                        assert(s.sent.push(front) + s.pending.drop_first() =~= s.sent + s.pending);
                    }
                },
                DispatcherState::Stopped(_) => {},
            }
        },
    }
}

/// Ordinary tokens are sent in the order of their appending.
///
/// Let `tokens` be ordinary tokens appended, in this order, before any stop
/// was appended, and let no hard stop be appended at all, whatever else
/// follows them. Then at every moment what has been sent and `tokens` agree
/// as far as both reach, and the dispatcher has not stopped hard; and once
/// the dispatcher has nothing left to do, all of `tokens` have been sent.
pub proof fn lemma_ordinary_tokens_sent_in_order(
    events: Seq<Event>,
    tokens: Seq<CommandToken>,
    rest: Seq<CommandToken>,
)
    requires
        appended(events) == tokens + rest,
        all_ordinary(tokens),
        !appended(events).contains(hard_quit()),
    ensures
        ({
            let s = Session::initial().run(events);
            &&& s.dispatcher.state != DispatcherState::Stopped(StopKind::Hard)
            &&& s.sent.len() <= tokens.len() ==> s.sent == tokens.take(s.sent.len() as int)
            &&& s.sent.len() >= tokens.len() ==> tokens == s.sent.take(tokens.len() as int)
            &&& s.settled() ==> s.sent.len() >= tokens.len()
        }),
{
    let s = Session::initial().run(events);
    let all = appended(events);
    lemma_session_accounts_for_appended(events);
    match s.dispatcher.state {
        DispatcherState::Running => {
            assert(s.sent + s.pending == all);
        },
        DispatcherState::Stopped(StopKind::Graceful) => {
            assert(s.sent.push(quit()) + s.pending == all);
            if s.sent.len() < tokens.len() {
                assert(all[s.sent.len() as int] == quit());
                assert(tokens[s.sent.len() as int] == quit());
            }
        },
        DispatcherState::Stopped(StopKind::Hard) => {},
    }
    if s.sent.len() <= tokens.len() {
        assert(s.sent =~= tokens.take(s.sent.len() as int)) by {
            assert forall|i: int| 0 <= i < s.sent.len() implies s.sent[i] == tokens[i] by {
                assert(all[i] == s.sent[i]);
            }
        }
    }
    if s.sent.len() >= tokens.len() {
        assert(tokens =~= s.sent.take(tokens.len() as int)) by {
            assert forall|i: int| 0 <= i < tokens.len() implies s.sent[i] == tokens[i] by {
                assert(all[i] == s.sent[i]);
            }
        }
    }
}

/// A stopped dispatcher stays as it is: whatever is appended or polled
/// after a stop, the state is the same and nothing more is sent.
pub proof fn lemma_stop_is_terminal(s: Session, events: Seq<Event>)
    requires
        !s.running(),
    ensures
        s.run(events).dispatcher == s.dispatcher,
        s.run(events).sent == s.sent,
    decreases events.len(),
{
    if events.len() > 0 {
        lemma_stop_is_terminal(s, events.drop_last());
    }
}

/// The hard stop drops what is pending.
///
/// Let the hard stop be pending, anywhere in the queue, while the dispatcher
/// runs. Then whatever is appended or polled from there on, nothing more is
/// sent: none of the tokens pending with the hard stop, and none appended
/// later. The first poll stops the dispatcher hard.
pub proof fn lemma_hard_quit_drops_pending(s: Session, events: Seq<Event>)
    requires
        s.running(),
        s.pending.contains(hard_quit()),
    ensures
        ({
            let after = s.run(events);
            &&& after.sent == s.sent
            &&& events.contains(Event::Poll) ==> after.dispatcher.state
                == DispatcherState::Stopped(StopKind::Hard)
            &&& !events.contains(Event::Poll) ==> after.running() && after.pending.contains(
                hard_quit(),
            )
        }),
    decreases events.len(),
{
    if events.len() > 0 {
        let earlier = events.drop_last();
        let before = s.run(earlier);
        lemma_hard_quit_drops_pending(s, earlier);
        if earlier.contains(Event::Poll) {
            let i = choose|i: int| 0 <= i < earlier.len() && earlier[i] == Event::Poll;
            assert(events[i] == Event::Poll);
        } else {
            let i = choose|i: int|
                0 <= i < before.pending.len() && before.pending[i] == hard_quit();
            match events.last() {
                Event::Append(token) => {
                    assert(before.pending.push(token)[i] == hard_quit());
                    if events.contains(Event::Poll) {
                        let j = choose|j: int| 0 <= j < events.len() && events[j] == Event::Poll;
                        assert(earlier[j] == Event::Poll);
                    }
                },
                Event::Poll => {
                    assert(events[events.len() - 1] == Event::Poll);
                },
            }
        }
    }
}

/// The graceful stop sends everything that was appended before it.
///
/// Let `tokens` be ordinary tokens, and let the graceful stop be appended
/// after them, whatever else follows it. Then what has been sent is at every
/// moment where `tokens` begins, and the graceful stop is never sent. Once
/// the dispatcher has nothing left to do, it has stopped; if it stopped
/// gracefully, exactly `tokens` have been sent, in their order. It can have
/// stopped hard only if a hard stop came in after the graceful one.
pub proof fn lemma_quit_sends_everything_before_it(
    events: Seq<Event>,
    tokens: Seq<CommandToken>,
    rest: Seq<CommandToken>,
)
    requires
        appended(events) == tokens.push(quit()) + rest,
        all_ordinary(tokens),
    ensures
        ({
            let s = Session::initial().run(events);
            &&& s.sent.is_prefix_of(tokens)
            &&& !s.sent.contains(quit())
            &&& s.settled() ==> !s.running()
            &&& s.dispatcher.state == DispatcherState::Stopped(StopKind::Graceful) ==> s.sent
                == tokens
            &&& s.dispatcher.state == DispatcherState::Stopped(StopKind::Hard) ==> rest.contains(
                hard_quit(),
            )
        }),
{
    let s = Session::initial().run(events);
    let all = appended(events);
    let k = tokens.len() as int;
    lemma_session_accounts_for_appended(events);
    assert(all[k] == quit());
    assert forall|i: int| 0 <= i < k implies all[i] == tokens[i] by {}
    if s.sent.contains(quit()) {
        let i = choose|i: int| 0 <= i < s.sent.len() && s.sent[i] == quit();
        assert(!s.sent[i].is_ordinary());
    }
    match s.dispatcher.state {
        DispatcherState::Running => {
            assert(s.sent + s.pending == all);
            if s.sent.len() > k {
                assert(s.sent[k] == all[k]);
                assert(!s.sent[k].is_ordinary());
            }
        },
        DispatcherState::Stopped(StopKind::Graceful) => {
            assert(s.sent.push(quit()) + s.pending == all);
            let n = s.sent.len() as int;
            assert(all[n] == quit());
            if n < k {
                assert(!tokens[n].is_ordinary());
            }
            if n > k {
                assert(s.sent[k] == all[k]);
                assert(!s.sent[k].is_ordinary());
            }
        },
        DispatcherState::Stopped(StopKind::Hard) => {
            let h = choose|h: int| 0 <= h < all.len() && all[h] == hard_quit();
            if h < k {
                assert(!tokens[h].is_ordinary());
            }
            assert(rest[h - k - 1] == hard_quit());
            if s.sent.len() > k {
                assert(s.sent[k] == all[k]);
                assert(!s.sent[k].is_ordinary());
            }
        },
    }
    assert(s.sent =~= tokens.take(s.sent.len() as int)) by {
        assert forall|i: int| 0 <= i < s.sent.len() implies s.sent[i] == tokens[i] by {
            assert(s.sent[i] == all[i]);
        }
    }
}

/// As many polls as tokens are pending leave the dispatcher with nothing to
/// do, if nothing is appended meanwhile.
pub proof fn lemma_polls_settle(s: Session, n: nat)
    requires
        n >= s.pending.len(),
    ensures
        s.run(polls(n)).settled(),
{
    lemma_polls_shorten(s, n);
}

/// Each poll of a running dispatcher takes at least one pending token.
proof fn lemma_polls_shorten(s: Session, n: nat)
    ensures
        ({
            let after = s.run(polls(n));
            ||| !after.running()
            ||| after.pending.len() == if n <= s.pending.len() {
                s.pending.len() - n
            } else {
                0
            }
        }),
    decreases n,
{
    if n > 0 {
        assert(polls(n).drop_last() =~= polls((n - 1) as nat));
        assert(polls(n).last() == Event::Poll);
        lemma_polls_shorten(s, (n - 1) as nat);
    }
}

/// A whole session, from the keys to what is sent.
///
/// Let the tokens appended be those that a translator queued over a run of
/// keys, from its start. Then, however the polls fall between the appends:
/// what has been sent is where the queued tokens begin, and holds neither a
/// stop nor a mode token; the dispatcher stops only when the translator has
/// stopped; and once the dispatcher has nothing left to do,
/// - if the translator still runs, so does the dispatcher, and every queued
///   token has been sent;
/// - if the translator stopped on the graceful stop, the dispatcher stopped
///   gracefully, and every token queued before the stop has been sent;
/// - if the translator stopped on the hard stop, the dispatcher stopped hard.
pub proof fn lemma_session_fed_by_translator(keys: Seq<Key>, events: Seq<Event>)
    requires
        appended(events) == Translator::initial().emitted(keys),
    ensures
        ({
            let out = Translator::initial().emitted(keys);
            let translator = Translator::initial().after_keys(keys);
            let s = Session::initial().run(events);
            &&& s.sent.is_prefix_of(out)
            &&& forall|i: int|
                0 <= i < s.sent.len() ==> (#[trigger] s.sent[i]).is_ordinary() && !is_mode_token(
                    s.sent[i],
                )
            &&& !s.running() ==> translator.stopped
            &&& s.settled() && !translator.stopped ==> s.running() && s.sent == out
            &&& s.settled() && translator.stopped && out.last() == quit() ==> s.dispatcher.state
                == DispatcherState::Stopped(StopKind::Graceful) && s.sent == out.drop_last()
            &&& s.settled() && translator.stopped && out.last() == hard_quit()
                ==> s.dispatcher.state == DispatcherState::Stopped(StopKind::Hard)
        }),
{
    let out = Translator::initial().emitted(keys);
    let s = Session::initial().run(events);
    let last = out.len() - 1;
    lemma_emitted_ends_with_the_stop(Translator::initial(), keys);
    lemma_session_accounts_for_appended(events);
    match s.dispatcher.state {
        DispatcherState::Running => {
            assert(s.sent + s.pending == out);
            if s.pending.len() == 0 {
                assert(s.sent =~= out);
                if out.len() > 0 {
                    assert(s.sent[last].is_ordinary());
                }
            }
        },
        DispatcherState::Stopped(StopKind::Graceful) => {
            assert(s.sent.push(quit()) + s.pending == out);
            let n = s.sent.len() as int;
            assert(out[n] == quit());
            if n < last {
                assert(out[n].is_ordinary());
            }
            assert(s.sent =~= out.drop_last());
        },
        DispatcherState::Stopped(StopKind::Hard) => {
            let h = choose|h: int| 0 <= h < out.len() && out[h] == hard_quit();
            if h < last {
                assert(out[h].is_ordinary());
            }
        },
    }
    assert forall|i: int| 0 <= i < s.sent.len() implies !is_mode_token(#[trigger] s.sent[i]) by {
        assert(s.sent[i] == out[i]);
    }
}

} // verus!
