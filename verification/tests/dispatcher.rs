use key_relay::dispatcher::{DispatchAction, Dispatcher, DispatcherState, StopKind};
use key_relay::key::Key;
use key_relay::queue::CommandQueue;
use key_relay::token::{CommandToken, LiteralToken, NamedToken};
use key_relay::translator::Translator;

const HOME: CommandToken = CommandToken::Named(NamedToken::Home);
const DOWN: CommandToken = CommandToken::Named(NamedToken::Down);
const UP: CommandToken = CommandToken::Named(NamedToken::Up);
const MUTE: CommandToken = CommandToken::Named(NamedToken::Mute);
const QUIT: CommandToken = CommandToken::Named(NamedToken::Quit);
const HARD_QUIT: CommandToken = CommandToken::Named(NamedToken::HardQuit);

fn queue_of(tokens: &[CommandToken]) -> CommandQueue {
    let mut queue = CommandQueue::new();
    for token in tokens {
        queue.append(*token);
    }
    queue
}

/// Polls until the dispatcher idles or halts, and returns what it handed
/// out for sending, with the action that ended the run.
fn poll_until_quiet(
    dispatcher: &mut Dispatcher,
    queue: &mut CommandQueue,
) -> (Vec<CommandToken>, DispatchAction) {
    let mut sent = Vec::new();
    loop {
        match dispatcher.poll(queue) {
            DispatchAction::Send(token) => sent.push(token),
            other => return (sent, other),
        }
    }
}

#[test]
fn dispatcher_starts_running() {
    let dispatcher = Dispatcher::new();
    assert_eq!(dispatcher.state, DispatcherState::Running);
    assert!(dispatcher.is_running());
}

#[test]
fn empty_queue_never_stops_the_dispatcher() {
    let mut dispatcher = Dispatcher::new();
    let mut queue = CommandQueue::new();
    for _ in 0..5 {
        assert_eq!(dispatcher.poll(&mut queue), DispatchAction::Idle);
        assert!(dispatcher.is_running());
        assert!(queue.is_empty());
    }
}

#[test]
fn poll_hands_out_the_oldest_token() {
    let mut dispatcher = Dispatcher::new();
    let mut queue = queue_of(&[HOME, DOWN]);
    assert_eq!(dispatcher.poll(&mut queue), DispatchAction::Send(HOME));
    assert_eq!(queue.peek_all(), &[DOWN]);
    assert!(dispatcher.is_running());
}

#[test]
fn ordinary_tokens_are_sent_in_the_order_of_appending() {
    let mut dispatcher = Dispatcher::new();
    let mut queue = queue_of(&[HOME, DOWN, UP, MUTE, HOME]);
    let (sent, last) = poll_until_quiet(&mut dispatcher, &mut queue);
    assert_eq!(sent, vec![HOME, DOWN, UP, MUTE, HOME]);
    assert_eq!(last, DispatchAction::Idle);
    assert!(dispatcher.is_running());
    assert!(queue.is_empty());
}

#[test]
fn tokens_appended_between_polls_keep_their_order() {
    let mut dispatcher = Dispatcher::new();
    let mut queue = CommandQueue::new();
    let mut sent = Vec::new();
    queue.append(HOME);
    queue.append(DOWN);
    if let DispatchAction::Send(token) = dispatcher.poll(&mut queue) {
        sent.push(token);
    }
    queue.append(UP);
    let (rest, last) = poll_until_quiet(&mut dispatcher, &mut queue);
    sent.extend(rest);
    assert_eq!(sent, vec![HOME, DOWN, UP]);
    assert_eq!(last, DispatchAction::Idle);
}

#[test]
fn mode_and_literal_tokens_are_sent_like_any_other() {
    let mut dispatcher = Dispatcher::new();
    let lit_a = CommandToken::Literal(LiteralToken::Char('a'));
    let keyboard_mode = CommandToken::Named(NamedToken::KeyboardMode);
    let mut queue = queue_of(&[lit_a, keyboard_mode]);
    let (sent, _) = poll_until_quiet(&mut dispatcher, &mut queue);
    assert_eq!(sent, vec![lit_a, keyboard_mode]);
}

#[test]
fn hard_quit_at_the_back_drops_everything_pending() {
    let mut dispatcher = Dispatcher::new();
    let mut queue = queue_of(&[HOME, DOWN, HARD_QUIT]);
    assert_eq!(dispatcher.poll(&mut queue), DispatchAction::Halt(StopKind::Hard));
    assert_eq!(dispatcher.state, DispatcherState::Stopped(StopKind::Hard));
    assert!(queue.is_empty());
}

#[test]
fn hard_quit_at_any_position_drops_everything_pending() {
    for tokens in [
        vec![HARD_QUIT],
        vec![HARD_QUIT, HOME, DOWN],
        vec![HOME, HARD_QUIT, DOWN],
        vec![HOME, DOWN, UP, HARD_QUIT],
        vec![QUIT, HARD_QUIT],
        vec![HOME, QUIT, DOWN, HARD_QUIT],
    ] {
        let mut dispatcher = Dispatcher::new();
        let mut queue = queue_of(&tokens);
        let (sent, last) = poll_until_quiet(&mut dispatcher, &mut queue);
        assert!(sent.is_empty());
        assert_eq!(last, DispatchAction::Halt(StopKind::Hard));
        assert_eq!(dispatcher.state, DispatcherState::Stopped(StopKind::Hard));
        assert!(queue.is_empty());
    }
}

#[test]
fn hard_quit_appended_after_some_were_sent_drops_the_rest() {
    let mut dispatcher = Dispatcher::new();
    let mut queue = queue_of(&[HOME, DOWN, UP]);
    assert_eq!(dispatcher.poll(&mut queue), DispatchAction::Send(HOME));
    queue.append(HARD_QUIT);
    assert_eq!(dispatcher.poll(&mut queue), DispatchAction::Halt(StopKind::Hard));
    assert!(queue.is_empty());
}

#[test]
fn quit_sends_everything_before_it_and_is_not_sent_itself() {
    let mut dispatcher = Dispatcher::new();
    let mut queue = queue_of(&[HOME, DOWN, UP, QUIT]);
    let (sent, last) = poll_until_quiet(&mut dispatcher, &mut queue);
    assert_eq!(sent, vec![HOME, DOWN, UP]);
    assert_eq!(last, DispatchAction::Halt(StopKind::Graceful));
    assert_eq!(dispatcher.state, DispatcherState::Stopped(StopKind::Graceful));
    assert!(queue.is_empty());
}

#[test]
fn quit_alone_stops_gracefully_at_once() {
    let mut dispatcher = Dispatcher::new();
    let mut queue = queue_of(&[QUIT]);
    assert_eq!(dispatcher.poll(&mut queue), DispatchAction::Halt(StopKind::Graceful));
    assert!(queue.is_empty());
}

#[test]
fn tokens_behind_quit_stay_pending_and_are_never_sent() {
    let mut dispatcher = Dispatcher::new();
    let mut queue = queue_of(&[HOME, QUIT, DOWN]);
    let (sent, last) = poll_until_quiet(&mut dispatcher, &mut queue);
    assert_eq!(sent, vec![HOME]);
    assert_eq!(last, DispatchAction::Halt(StopKind::Graceful));
    assert_eq!(queue.peek_all(), &[DOWN]);
    assert_eq!(dispatcher.poll(&mut queue), DispatchAction::Halt(StopKind::Graceful));
    assert_eq!(queue.peek_all(), &[DOWN]);
}

#[test]
fn stopped_dispatcher_stays_stopped_and_touches_nothing() {
    let mut dispatcher = Dispatcher::new();
    let mut queue = queue_of(&[HARD_QUIT]);
    dispatcher.poll(&mut queue);
    queue.append(HOME);
    queue.append(QUIT);
    for _ in 0..3 {
        assert_eq!(dispatcher.poll(&mut queue), DispatchAction::Halt(StopKind::Hard));
        assert_eq!(dispatcher.state, DispatcherState::Stopped(StopKind::Hard));
        assert_eq!(queue.peek_all(), &[HOME, QUIT]);
    }
    assert!(!dispatcher.is_running());
}

#[test]
fn home_down_hard_quit_up_sends_nothing_and_stops_hard() {
    let mut translator = Translator::new();
    let mut dispatcher = Dispatcher::new();
    let mut queue = CommandQueue::new();
    for key in [Key::Char('g'), Key::Char('j'), Key::Char('Q'), Key::Char('k')] {
        translator.feed(key, &mut queue);
    }
    assert_eq!(queue.peek_all(), &[HOME, DOWN, HARD_QUIT]);
    let (sent, last) = poll_until_quiet(&mut dispatcher, &mut queue);
    assert!(sent.is_empty());
    assert_eq!(last, DispatchAction::Halt(StopKind::Hard));
    assert_eq!(dispatcher.state, DispatcherState::Stopped(StopKind::Hard));
    assert!(queue.is_empty());
}

#[test]
fn home_down_hard_quit_with_up_appended_all_the_same_sends_nothing() {
    let mut dispatcher = Dispatcher::new();
    let mut queue = queue_of(&[HOME, DOWN, HARD_QUIT, UP]);
    let (sent, last) = poll_until_quiet(&mut dispatcher, &mut queue);
    assert!(sent.is_empty());
    assert_eq!(last, DispatchAction::Halt(StopKind::Hard));
    assert!(queue.is_empty());
}

#[test]
fn a_whole_session_from_keys_to_a_graceful_stop() {
    let mut translator = Translator::new();
    let mut dispatcher = Dispatcher::new();
    let mut queue = CommandQueue::new();
    let mut sent = Vec::new();
    let keys = [Key::Char('g'), Key::Char('x'), Key::Char('i'), Key::Char('h'), Key::Char(' '),
        Key::Escape, Key::Enter, Key::Char('q'), Key::Char('g')];
    for key in keys {
        translator.feed(key, &mut queue);
        if let DispatchAction::Send(token) = dispatcher.poll(&mut queue) {
            sent.push(token);
        }
    }
    let (rest, last) = poll_until_quiet(&mut dispatcher, &mut queue);
    sent.extend(rest);
    let paths: Vec<String> = sent.iter().map(|token| token.key_path()).collect();
    assert_eq!(
        paths,
        vec!["/keypress/Home", "/keypress/Lit_h", "/keypress/Lit_+", "/keypress/Select"]
    );
    assert_eq!(last, DispatchAction::Halt(StopKind::Graceful));
    assert!(translator.stopped);
    assert!(queue.is_empty());
}
