//! Turning text into the key events that type it on the remote peer.
use vstd::prelude::*;

use crate::keycode::{KeyCode, LCTRL, LSHIFT};

verus! {

/// One key event sent to the peer: a key going down or coming up.
#[derive(Clone, Copy, Debug, PartialEq, Eq, Structural)]
pub struct KeyEvent {
    pub key: u32,
    pub down: bool,
}

/// How a key is driven: held down, let go, or pressed and let go.
#[derive(Clone, Copy, Debug, PartialEq, Eq, Structural)]
pub enum KeyEventType {
    Press,
    Release,
    Tap,
}

/// A character that no key of the table types.
#[derive(Clone, Copy, Debug, PartialEq, Eq, Structural)]
pub enum EncodeError {
    UnsupportedCharacter(char),
}

/// The key that carries a shifted symbol on a US layout; any other
/// character is its own key.
pub open spec fn unshifted(c: char) -> char {
    match c {
        '!' => '1',
        '@' => '2',
        '#' => '3',
        '$' => '4',
        '%' => '5',
        '^' => '6',
        '&' => '7',
        '*' => '8',
        '(' => '9',
        ')' => '0',
        '_' => '-',
        '+' => '=',
        '{' => '[',
        '}' => ']',
        '|' => '\\',
        ':' => ';',
        '"' => '\'',
        '<' => ',',
        '>' => '.',
        '?' => '/',
        '~' => '`',
        _ => c,
    }
}

/// A symbol typed as Shift plus another key.
pub open spec fn is_shifted_symbol(c: char) -> bool {
    unshifted(c) != c
}

/// A character typed by the key of its own code point.
pub open spec fn is_plain_key(c: char) -> bool {
    ||| ('0' <= c && c <= '9')
    ||| ('A' <= c && c <= 'Z')
    ||| ('a' <= c && c <= 'z')
    ||| c == ' '
    ||| c == '\n'
    ||| c == '-'
    ||| c == '='
    ||| c == '['
    ||| c == ']'
    ||| c == '\\'
    ||| c == ';'
    ||| c == '\''
    ||| c == ','
    ||| c == '.'
    ||| c == '/'
    ||| c == '`'
}

/// The base key of a character, if it has one.
pub open spec fn key_of(c: char) -> Option<u32> {
    if is_plain_key(c) {
        Some(c as u32)
    } else if is_shifted_symbol(c) {
        Some(unshifted(c) as u32)
    } else {
        None
    }
}

/// The modifier a character needs: Shift for capitals and shifted symbols,
/// Control for control codes.
pub open spec fn modifier_of(c: char) -> Option<u32> {
    if ('A' <= c && c <= 'Z') || is_shifted_symbol(c) {
        Some(LSHIFT)
    } else if c as u32 <= 0x1F || c as u32 == 0x7F {
        Some(LCTRL)
    } else {
        None
    }
}

/// What encoding a character gives: its base key and modifier, or the error.
pub open spec fn encoding_of(c: char) -> Result<(u32, Option<u32>), EncodeError> {
    match key_of(c) {
        Some(k) => Ok((k, modifier_of(c))),
        None => Err(EncodeError::UnsupportedCharacter(c)),
    }
}

/// The characters the encoder covers: digits, letters of both cases, space,
/// newline and the printable ASCII punctuation.
pub open spec fn is_supported(c: char) -> bool {
    ||| ('0' <= c && c <= '9')
    ||| ('A' <= c && c <= 'Z')
    ||| ('a' <= c && c <= 'z')
    ||| c == ' '
    ||| c == '\n'
    ||| ('!' <= c && c <= '/')
    ||| (':' <= c && c <= '@')
    ||| ('[' <= c && c <= '`')
    ||| ('{' <= c && c <= '~')
}

/// Encoding is total on the supported characters, and refuses every other
/// character, non-ASCII ones included, with that character. Since `encode`
/// returns `encoding_of(c)`, two calls on one character agree.
pub proof fn lemma_encoding_domain(c: char)
    ensures
        is_supported(c) ==> encoding_of(c) is Ok,
        !is_supported(c) ==> encoding_of(c) == Err::<(u32, Option<u32>), EncodeError>(
            EncodeError::UnsupportedCharacter(c),
        ),
{
}

/// The base key of a character. A shifted symbol maps to the key that
/// carries it (`'!'` to `'1'`); the Shift it needs comes from `get_modifier`.
pub fn char_to_keycode(c: char) -> (r: Result<u32, EncodeError>)
    ensures
        r == (match key_of(c) {
            Some(k) => Ok(k),
            None => Err(EncodeError::UnsupportedCharacter(c)),
        }),
{
    let keycode = match c {
        '2' => KeyCode::Key2,
        '1' => KeyCode::Key1,
        '3' => KeyCode::Key3,
        '4' => KeyCode::Key4,
        '5' => KeyCode::Key5,
        '6' => KeyCode::Key6,
        '7' => KeyCode::Key7,
        '8' => KeyCode::Key8,
        '9' => KeyCode::Key9,
        '0' => KeyCode::Key0,
        'A' => KeyCode::A,
        'B' => KeyCode::B,
        'C' => KeyCode::C,
        'D' => KeyCode::D,
        'E' => KeyCode::E,
        'F' => KeyCode::F,
        'G' => KeyCode::G,
        'H' => KeyCode::H,
        'I' => KeyCode::I,
        'J' => KeyCode::J,
        'K' => KeyCode::K,
        'L' => KeyCode::L,
        'M' => KeyCode::M,
        'N' => KeyCode::N,
        'O' => KeyCode::O,
        'P' => KeyCode::P,
        'Q' => KeyCode::Q,
        'R' => KeyCode::R,
        'S' => KeyCode::S,
        'T' => KeyCode::T,
        'U' => KeyCode::U,
        'V' => KeyCode::V,
        'W' => KeyCode::W,
        'X' => KeyCode::X,
        'Y' => KeyCode::Y,
        'Z' => KeyCode::Z,
        'a' => KeyCode::a,
        'b' => KeyCode::b,
        'c' => KeyCode::c,
        'd' => KeyCode::d,
        'e' => KeyCode::e,
        'f' => KeyCode::f,
        'g' => KeyCode::g,
        'h' => KeyCode::h,
        'i' => KeyCode::i,
        'j' => KeyCode::j,
        'k' => KeyCode::k,
        'l' => KeyCode::l,
        'm' => KeyCode::m,
        'n' => KeyCode::n,
        'o' => KeyCode::o,
        'p' => KeyCode::p,
        'q' => KeyCode::q,
        'r' => KeyCode::r,
        's' => KeyCode::s,
        't' => KeyCode::t,
        'u' => KeyCode::u,
        'v' => KeyCode::v,
        'w' => KeyCode::w,
        'x' => KeyCode::x,
        'y' => KeyCode::y,
        'z' => KeyCode::z,
        ' ' => KeyCode::SPACE,
        '!' => KeyCode::Key1,
        '@' => KeyCode::Key2,
        '#' => KeyCode::Key3,
        '$' => KeyCode::Key4,
        '%' => KeyCode::Key5,
        '^' => KeyCode::Key6,
        '&' => KeyCode::Key7,
        '*' => KeyCode::Key8,
        '(' => KeyCode::Key9,
        ')' => KeyCode::Key0,
        '-' => KeyCode::Minus,
        '_' => KeyCode::Minus,
        '=' => KeyCode::Equals,
        '+' => KeyCode::Equals,
        '[' => KeyCode::LBracket,
        ']' => KeyCode::RBracket,
        '{' => KeyCode::LBracket,
        '}' => KeyCode::RBracket,
        '\\' => KeyCode::BckSlash,
        '|' => KeyCode::BckSlash,
        ';' => KeyCode::SColon,
        ':' => KeyCode::SColon,
        '\'' => KeyCode::Apo,
        '"' => KeyCode::Apo,
        ',' => KeyCode::Comma,
        '.' => KeyCode::Period,
        '/' => KeyCode::FwdSlash,
        '<' => KeyCode::Comma,
        '>' => KeyCode::Period,
        '?' => KeyCode::FwdSlash,
        '\n' => KeyCode::LineFeed,
        '`' => KeyCode::GraveAcc,
        '~' => KeyCode::GraveAcc,
        _ => {
            return Err(EncodeError::UnsupportedCharacter(c));
        },
    };
    Ok(keycode as u32)
}

/// Whether a character is one of the symbols typed with Shift.
fn is_shift_symbol(c: char) -> (r: bool)
    ensures
        r == is_shifted_symbol(c),
{
    matches!(
        c,
        '!' | '@' | '#' | '$' | '%' | '^' | '&' | '*' | '(' | ')' | '_' | '+' | '{' | '}' | '|'
            | ':' | '"' | '<' | '>' | '?' | '~'
    )
}

/// The modifier key that must be held while the character's key is tapped.
pub fn get_modifier(c: char) -> (r: Option<u32>)
    ensures
        r == modifier_of(c),
{
    if ('A' <= c && c <= 'Z') || is_shift_symbol(c) {
        return Some(LSHIFT);
    }
    let code = c as u32;
    if code <= 0x1F || code == 0x7F {
        return Some(LCTRL);
    }
    None
}

/// Encode one character as its base key and the modifier that brackets it.
pub fn encode(c: char) -> (r: Result<(u32, Option<u32>), EncodeError>)
    ensures
        r == encoding_of(c),
{
    match char_to_keycode(c) {
        Ok(key) => Ok((key, get_modifier(c))),
        Err(e) => Err(e),
    }
}

/// The events that drive one key as `t` says.
pub open spec fn button_events(key: u32, t: KeyEventType) -> Seq<KeyEvent> {
    match t {
        KeyEventType::Press => seq![KeyEvent { key, down: true }],
        KeyEventType::Release => seq![KeyEvent { key, down: false }],
        KeyEventType::Tap => seq![KeyEvent { key, down: true }, KeyEvent { key, down: false }],
    }
}

/// The events that type a key with an optional modifier: the modifier goes
/// down before the tap and comes up after it.
pub open spec fn typing_events(key: u32, modifier: Option<u32>) -> Seq<KeyEvent> {
    match modifier {
        Some(m) => button_events(m, KeyEventType::Press) + button_events(key, KeyEventType::Tap)
            + button_events(m, KeyEventType::Release),
        None => button_events(key, KeyEventType::Tap),
    }
}

/// The events that type one character; none for an unsupported one.
pub open spec fn char_events(c: char) -> Seq<KeyEvent> {
    match encoding_of(c) {
        Ok((key, modifier)) => typing_events(key, modifier),
        Err(_) => seq![],
    }
}

/// Whether every character of `s` has a key.
pub open spec fn all_supported(s: Seq<char>) -> bool {
    forall|i: int| 0 <= i < s.len() ==> (#[trigger] key_of(s[i])) is Some
}

/// The events that type `s`, character after character.
pub open spec fn text_events(s: Seq<char>) -> Seq<KeyEvent>
    decreases s.len(),
{
    if s.len() == 0 {
        seq![]
    } else {
        text_events(s.drop_last()) + char_events(s.last())
    }
}

/// The events that drive one key as `evtype` says, in the order they are sent.
pub fn press_button(key: u32, evtype: KeyEventType) -> (r: Vec<KeyEvent>)
    ensures
        r@ == button_events(key, evtype),
{
    let mut events: Vec<KeyEvent> = Vec::new();
    match evtype {
        KeyEventType::Press => {
            events.push(KeyEvent { key, down: true });
        },
        KeyEventType::Release => {
            events.push(KeyEvent { key, down: false });
        },
        KeyEventType::Tap => {
            events.push(KeyEvent { key, down: true });
            events.push(KeyEvent { key, down: false });
        },
    }
    assert(events@ =~= button_events(key, evtype));
    events
}

/// Append to `events` those that type one encoded character.
fn push_typing_events(events: &mut Vec<KeyEvent>, key: u32, modifier: Option<u32>)
    ensures
        final(events)@ == old(events)@ + typing_events(key, modifier),
{
    match modifier {
        Some(m) => {
            events.append(&mut press_button(m, KeyEventType::Press));
            events.append(&mut press_button(key, KeyEventType::Tap));
            events.append(&mut press_button(m, KeyEventType::Release));
            assert(events@ =~= old(events)@ + typing_events(key, modifier));
        },
        None => {
            events.append(&mut press_button(key, KeyEventType::Tap));
        },
    }
}

/// The key events that type `text`, in the order they must be sent, each
/// to be followed by one pacing interval. Typing stops at the first
/// character that has no key: the events before it are returned with the
/// error, and that character and all after it are not typed.
pub fn plan_text(text: &str) -> (r: (Vec<KeyEvent>, Result<(), EncodeError>))
    ensures
        match r.1 {
            Ok(()) => all_supported(text@) && r.0@ == text_events(text@),
            Err(e) => exists|n: int|
                0 <= n < text@.len() && all_supported(#[trigger] text@.take(n)) && key_of(text@[n])
                    is None && e == EncodeError::UnsupportedCharacter(text@[n]) && r.0@
                    == text_events(text@.take(n)),
        },
{
    let mut events: Vec<KeyEvent> = Vec::new();
    let ghost s = text@;
    for c in it: text.chars()
        invariant
            s == text@,
            it.seq() == s,
            all_supported(s.take(it.index() as int)),
            events@ == text_events(s.take(it.index() as int)),
    {
        let ghost i = it.index() as int;
        match encode(c) {
            Ok((key, modifier)) => {
                push_typing_events(&mut events, key, modifier);
                assert(s.take(i + 1).drop_last() =~= s.take(i));
                assert(all_supported(s.take(i + 1)));
            },
            Err(e) => {
                return (events, Err(e));
            },
        }
    }
    assert(s.take(s.len() as int) =~= s);
    (events, Ok(()))
}

} // verus!
