use key_relay::token::{CommandToken, LiteralToken, NamedToken};

fn named(token: NamedToken) -> CommandToken {
    CommandToken::Named(token)
}

fn literal(token: LiteralToken) -> CommandToken {
    CommandToken::Literal(token)
}

#[test]
fn named_tokens_have_their_canonical_names() {
    let expected = [
        (NamedToken::Home, "Home"),
        (NamedToken::Left, "Left"),
        (NamedToken::Right, "Right"),
        (NamedToken::Up, "Up"),
        (NamedToken::Down, "Down"),
        (NamedToken::Select, "Select"),
        (NamedToken::Play, "Play"),
        (NamedToken::Pause, "Pause"),
        (NamedToken::Mute, "Mute"),
        (NamedToken::VolumeUp, "VolumeUp"),
        (NamedToken::VolumeDown, "VolumeDown"),
        (NamedToken::ChannelUp, "ChannelUp"),
        (NamedToken::ChannelDown, "ChannelDown"),
        (NamedToken::Rev, "Rev"),
        (NamedToken::Fwd, "Fwd"),
        (NamedToken::InstantReplay, "InstantReplay"),
        (NamedToken::Search, "Search"),
        (NamedToken::Info, "Info"),
        (NamedToken::Help, "Help"),
        (NamedToken::PowerOn, "PowerOn"),
        (NamedToken::PowerOff, "PowerOff"),
        (NamedToken::Quit, "Quit"),
        (NamedToken::HardQuit, "HardQuit"),
        (NamedToken::KeyboardMode, "KeyboardMode"),
        (NamedToken::ExitKeyboardMode, "ExitKeyboardMode"),
    ];
    for (token, name) in expected {
        assert_eq!(token.name(), name);
        assert_eq!(named(token).name(), name);
    }
}

#[test]
fn literal_character_name_carries_the_character() {
    assert_eq!(LiteralToken::Char('a').name(), "Lit_a");
    assert_eq!(LiteralToken::Char('Z').name(), "Lit_Z");
    assert_eq!(LiteralToken::Char('7').name(), "Lit_7");
    assert_eq!(literal(LiteralToken::Char('q')).name(), "Lit_q");
}

#[test]
fn literal_character_name_keeps_characters_beyond_ascii() {
    assert_eq!(LiteralToken::Char('é').name(), "Lit_é");
    assert_eq!(LiteralToken::Char('語').name(), "Lit_語");
}

#[test]
fn space_literal_travels_as_plus() {
    assert_eq!(LiteralToken::Space.name(), "Lit_+");
    assert_eq!(literal(LiteralToken::Space).key_path(), "/keypress/Lit_+");
}

#[test]
fn edit_keys_have_names_of_their_own() {
    assert_eq!(LiteralToken::Backspace.name(), "Backspace");
    assert_eq!(LiteralToken::Enter.name(), "Enter");
    assert_eq!(literal(LiteralToken::Backspace).key_path(), "/keypress/Backspace");
    assert_eq!(literal(LiteralToken::Enter).key_path(), "/keypress/Enter");
}

#[test]
fn key_path_is_the_route_segment_and_the_name() {
    assert_eq!(named(NamedToken::Home).key_path(), "/keypress/Home");
    assert_eq!(named(NamedToken::VolumeDown).key_path(), "/keypress/VolumeDown");
    assert_eq!(literal(LiteralToken::Char('a')).key_path(), "/keypress/Lit_a");
}

#[test]
fn only_quit_is_the_graceful_stop() {
    assert!(named(NamedToken::Quit).is_quit());
    assert!(!named(NamedToken::HardQuit).is_quit());
    assert!(!named(NamedToken::Home).is_quit());
    assert!(!literal(LiteralToken::Char('q')).is_quit());
}

#[test]
fn only_hard_quit_is_the_hard_stop() {
    assert!(named(NamedToken::HardQuit).is_hard_quit());
    assert!(!named(NamedToken::Quit).is_hard_quit());
    assert!(!named(NamedToken::Home).is_hard_quit());
    assert!(!literal(LiteralToken::Char('Q')).is_hard_quit());
}

#[test]
fn stops_are_not_ordinary_and_all_else_is() {
    assert!(named(NamedToken::Quit).is_stop());
    assert!(named(NamedToken::HardQuit).is_stop());
    assert!(!named(NamedToken::Quit).is_ordinary());
    assert!(!named(NamedToken::HardQuit).is_ordinary());
    assert!(named(NamedToken::Home).is_ordinary());
    assert!(!named(NamedToken::Home).is_stop());
    assert!(named(NamedToken::KeyboardMode).is_ordinary());
    assert!(literal(LiteralToken::Enter).is_ordinary());
    assert!(literal(LiteralToken::Space).is_ordinary());
}

#[test]
fn tokens_compare_by_value() {
    assert_eq!(named(NamedToken::Up), named(NamedToken::Up));
    assert_ne!(named(NamedToken::Up), named(NamedToken::Down));
    assert_ne!(literal(LiteralToken::Space), literal(LiteralToken::Char('+')));
    assert_ne!(literal(LiteralToken::Enter), named(NamedToken::Select));
}
