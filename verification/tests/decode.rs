use swears::Key;
use swears::RawInput;

#[test]
fn newline_decodes_to_enter() {
    assert_eq!(Key::translate(RawInput::Character('\n')), Key::Enter);
}

#[test]
fn carriage_return_decodes_to_enter() {
    assert_eq!(Key::translate(RawInput::Character('\r')), Key::Enter);
}

#[test]
fn tab_decodes_to_tab() {
    assert_eq!(Key::translate(RawInput::Character('\t')), Key::Tab);
}

#[test]
fn backspace_event_decodes_to_backspace() {
    assert_eq!(Key::translate(RawInput::BackspaceKey), Key::Backspace);
}

#[test]
fn backspace_character_decodes_to_backspace() {
    assert_eq!(Key::translate(RawInput::Character('\u{8}')), Key::Backspace);
}

#[test]
fn printable_characters_decode_to_char() {
    assert_eq!(Key::translate(RawInput::Character('a')), Key::Char('a'));
    assert_eq!(Key::translate(RawInput::Character('Z')), Key::Char('Z'));
    assert_eq!(Key::translate(RawInput::Character(' ')), Key::Char(' '));
    assert_eq!(Key::translate(RawInput::Character('7')), Key::Char('7'));
    assert_eq!(Key::translate(RawInput::Character('~')), Key::Char('~'));
}

#[test]
fn navigation_events_decode_to_their_variant() {
    assert_eq!(Key::translate(RawInput::LeftKey), Key::Left);
    assert_eq!(Key::translate(RawInput::RightKey), Key::Right);
    assert_eq!(Key::translate(RawInput::UpKey), Key::Up);
    assert_eq!(Key::translate(RawInput::DownKey), Key::Down);
    assert_eq!(Key::translate(RawInput::HomeKey), Key::Home);
    assert_eq!(Key::translate(RawInput::EndKey), Key::End);
}

#[test]
fn unrecognized_events_decode_to_unknown() {
    assert_eq!(Key::translate(RawInput::Unrecognized(-1)), Key::Unknown);
    assert_eq!(Key::translate(RawInput::Unrecognized(410)), Key::Unknown);
    assert_eq!(Key::translate(RawInput::OtherKey), Key::Unknown);
}
