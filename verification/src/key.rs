//! Logical keys and the total decoder from raw terminal input events.

use vstd::prelude::*;

verus! {

/// The closed set of logical key values the terminal reports.
#[derive(Clone, Copy, Debug, PartialEq, Eq, Structural)]
pub enum Key {
    Char(char),
    Tab,
    Enter,
    Backspace,
    Left,
    Right,
    Up,
    Down,
    Home,
    End,
    Unknown,
}

/// A raw input event as the terminal backend delivers it: a plain character,
/// one of the dedicated special-key events the decoder distinguishes, an
/// event the backend itself could not recognize (carrying its raw code), or
/// any other special event.
#[derive(Clone, Copy, Debug, PartialEq, Eq, Structural)]
pub enum RawInput {
    Character(char),
    BackspaceKey,
    LeftKey,
    RightKey,
    UpKey,
    DownKey,
    HomeKey,
    EndKey,
    Unrecognized(i32),
    OtherKey,
}

/// What the decoder yields for each raw input event. The mapping rules are
/// ordered, first match wins: newline or carriage return become `Enter`, tab
/// becomes `Tab`, a dedicated backspace event or the backspace control
/// character becomes `Backspace`, any other character becomes `Char` of
/// itself, dedicated navigation events map to their variant, and everything
/// else becomes `Unknown`.
pub open spec fn spec_translate(raw: RawInput) -> Key {
    match raw {
        RawInput::Character(ch) => if ch == '\n' || ch == '\r' {
            Key::Enter
        } else if ch == '\t' {
            Key::Tab
        } else if ch == '\u{8}' {
            Key::Backspace
        } else {
            Key::Char(ch)
        },
        RawInput::BackspaceKey => Key::Backspace,
        RawInput::LeftKey => Key::Left,
        RawInput::RightKey => Key::Right,
        RawInput::UpKey => Key::Up,
        RawInput::DownKey => Key::Down,
        RawInput::HomeKey => Key::Home,
        RawInput::EndKey => Key::End,
        RawInput::Unrecognized(_) => Key::Unknown,
        RawInput::OtherKey => Key::Unknown,
    }
}

impl Key {
    /// Decode one raw input event into a logical key. Total: it accepts
    /// every raw event, never fails, and yields exactly the value of
    /// `spec_translate`.
    pub fn translate(raw: RawInput) -> (k: Key)
        ensures
            k == spec_translate(raw),
    {
        match raw {
            RawInput::Character(ch) => if ch == '\n' || ch == '\r' {
                Key::Enter
            } else if ch == '\t' {
                Key::Tab
            } else if ch == '\u{8}' {
                Key::Backspace
            } else {
                Key::Char(ch)
            },
            RawInput::BackspaceKey => Key::Backspace,
            RawInput::LeftKey => Key::Left,
            RawInput::RightKey => Key::Right,
            RawInput::UpKey => Key::Up,
            RawInput::DownKey => Key::Down,
            RawInput::HomeKey => Key::Home,
            RawInput::EndKey => Key::End,
            RawInput::Unrecognized(_) => Key::Unknown,
            RawInput::OtherKey => Key::Unknown,
        }
    }
}

/// Every raw input event that carries a newline or carriage-return
/// character decodes to `Enter`.
pub proof fn lemma_translate_enter(raw: RawInput)
    requires
        raw == RawInput::Character('\n') || raw == RawInput::Character('\r'),
    ensures
        spec_translate(raw) == Key::Enter,
{
}

/// Every character other than newline, carriage return, tab and the
/// backspace control character decodes to `Char` of itself.
pub proof fn lemma_translate_char(ch: char)
    requires
        ch != '\n',
        ch != '\r',
        ch != '\t',
        ch != '\u{8}',
    ensures
        spec_translate(RawInput::Character(ch)) == Key::Char(ch),
{
}

/// The decoder is total and unambiguous: every raw input event falls under
/// exactly one mapping rule, characterized here result by result, and no
/// event is rejected.
pub proof fn lemma_translate_cases(raw: RawInput)
    ensures
        spec_translate(raw) == Key::Enter <==> (raw == RawInput::Character('\n') || raw
            == RawInput::Character('\r')),
        spec_translate(raw) == Key::Tab <==> raw == RawInput::Character('\t'),
        spec_translate(raw) == Key::Backspace <==> (raw == RawInput::BackspaceKey || raw
            == RawInput::Character('\u{8}')),
        forall|ch: char|
            spec_translate(raw) == Key::Char(ch) <==> (raw == RawInput::Character(ch) && ch != '\n'
                && ch != '\r' && ch != '\t' && ch != '\u{8}'),
        spec_translate(raw) == Key::Left <==> raw == RawInput::LeftKey,
        spec_translate(raw) == Key::Right <==> raw == RawInput::RightKey,
        spec_translate(raw) == Key::Up <==> raw == RawInput::UpKey,
        spec_translate(raw) == Key::Down <==> raw == RawInput::DownKey,
        spec_translate(raw) == Key::Home <==> raw == RawInput::HomeKey,
        spec_translate(raw) == Key::End <==> raw == RawInput::EndKey,
        spec_translate(raw) == Key::Unknown <==> (raw == RawInput::OtherKey || raw matches
            RawInput::Unrecognized(_)),
{
}

} // verus!
