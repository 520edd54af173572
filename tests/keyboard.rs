use isototest::keyboard::{
    char_to_keycode, encode, get_modifier, plan_text, press_button, EncodeError, KeyEvent,
    KeyEventType,
};
use isototest::keycode::{KeyCode, LCTRL, LSHIFT};

fn down(key: u32) -> KeyEvent {
    KeyEvent { key, down: true }
}

fn up(key: u32) -> KeyEvent {
    KeyEvent { key, down: false }
}

#[test]
fn encode_is_deterministic_on_supported_chars() {
    let mut supported = vec![' ', '\n'];
    for b in 0x21u8..=0x7e {
        supported.push(b as char);
    }
    for c in supported {
        let first = encode(c);
        let second = encode(c);
        assert!(first.is_ok(), "{:?} should be supported", c);
        assert_eq!(first, second);
    }
}

#[test]
fn encode_refuses_unsupported_chars() {
    for c in ['é', '€', 'ß', '\t', '\u{7f}', '\u{0}', '日'] {
        assert_eq!(encode(c), Err(EncodeError::UnsupportedCharacter(c)));
    }
}

#[test]
fn encode_letters_and_digits() {
    assert_eq!(encode('a'), Ok((97, None)));
    assert_eq!(encode('z'), Ok((122, None)));
    assert_eq!(encode('A'), Ok((65, Some(LSHIFT))));
    assert_eq!(encode('Q'), Ok((KeyCode::Q as u32, Some(LSHIFT))));
    assert_eq!(encode('0'), Ok((48, None)));
    assert_eq!(encode('7'), Ok((55, None)));
    assert_eq!(encode(' '), Ok((32, None)));
}

#[test]
fn encode_shifted_symbols_use_unshifted_key() {
    assert_eq!(encode('!'), Ok(('1' as u32, Some(LSHIFT))));
    assert_eq!(encode('@'), Ok(('2' as u32, Some(LSHIFT))));
    assert_eq!(encode('{'), Ok(('[' as u32, Some(LSHIFT))));
    assert_eq!(encode('"'), Ok(('\'' as u32, Some(LSHIFT))));
    assert_eq!(encode('?'), Ok(('/' as u32, Some(LSHIFT))));
    assert_eq!(encode('~'), Ok(('`' as u32, Some(LSHIFT))));
    assert_eq!(encode('_'), Ok(('-' as u32, Some(LSHIFT))));
}

#[test]
fn encode_unshifted_punctuation_and_newline() {
    assert_eq!(encode('['), Ok((91, None)));
    assert_eq!(encode('\\'), Ok((92, None)));
    assert_eq!(encode('`'), Ok((96, None)));
    assert_eq!(encode('\n'), Ok((10, Some(LCTRL))));
}

#[test]
fn char_to_keycode_matches_table() {
    assert_eq!(char_to_keycode('b'), Ok(KeyCode::b as u32));
    assert_eq!(char_to_keycode('$'), Ok(KeyCode::Key4 as u32));
    assert_eq!(char_to_keycode('é'), Err(EncodeError::UnsupportedCharacter('é')));
}

#[test]
fn modifiers() {
    assert_eq!(get_modifier('B'), Some(LSHIFT));
    assert_eq!(get_modifier('%'), Some(LSHIFT));
    assert_eq!(get_modifier('b'), None);
    assert_eq!(get_modifier('-'), None);
    assert_eq!(get_modifier('\u{1}'), Some(LCTRL));
    assert_eq!(get_modifier('\u{1f}'), Some(LCTRL));
    assert_eq!(get_modifier('\u{7f}'), Some(LCTRL));
    assert_eq!(get_modifier('é'), None);
}

#[test]
fn button_events() {
    assert_eq!(press_button(5, KeyEventType::Press), vec![down(5)]);
    assert_eq!(press_button(5, KeyEventType::Release), vec![up(5)]);
    assert_eq!(press_button(5, KeyEventType::Tap), vec![down(5), up(5)]);
}

#[test]
fn empty_text_has_no_events() {
    let (events, outcome) = plan_text("");
    assert!(events.is_empty());
    assert_eq!(outcome, Ok(()));
}

#[test]
fn capital_letter_is_bracketed_by_shift() {
    let (events, outcome) = plan_text("A");
    assert_eq!(outcome, Ok(()));
    assert_eq!(events, vec![down(LSHIFT), down(65), up(65), up(LSHIFT)]);
}

#[test]
fn small_letter_has_no_modifier() {
    let (events, outcome) = plan_text("a");
    assert_eq!(outcome, Ok(()));
    assert_eq!(events, vec![down(97), up(97)]);
}

#[test]
fn text_events_in_order() {
    let (events, outcome) = plan_text("a!\n");
    assert_eq!(outcome, Ok(()));
    assert_eq!(
        events,
        vec![
            down(97),
            up(97),
            down(LSHIFT),
            down(49),
            up(49),
            up(LSHIFT),
            down(LCTRL),
            down(10),
            up(10),
            up(LCTRL),
        ]
    );
}

#[test]
fn typing_stops_at_unsupported_char() {
    let (events, outcome) = plan_text("ab€cd");
    assert_eq!(outcome, Err(EncodeError::UnsupportedCharacter('€')));
    assert_eq!(events, vec![down(97), up(97), down(98), up(98)]);
}
