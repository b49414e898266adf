//! Typing a number into a settings stepper.
use vstd::prelude::*;
use vstd::string::StrSliceExecFns;

verus! {

/// A key press, as far as number entry cares.
#[derive(Debug)]
pub enum Key {
    Backspace,
    Enter,
    Escape,
    Character(String),
    Other,
}

/// What a key press did to the number being typed.
#[derive(Debug)]
pub enum NumberKeyOutcome {
    /// No number is being typed, or the key means nothing to it.
    NotHandled,
    /// The text changed, or stayed as it was after a backspace on nothing.
    Edited,
    /// Typing ended; the text is to be applied.
    Commit(String),
    /// Typing ended without applying anything.
    Cancelled,
}

/// Characters a number may be typed with.
pub open spec fn number_char(c: char) -> bool {
    ('0' <= c && c <= '9') || c == '.' || c == '-'
}

/// The text after a key press, while a number is being typed.
pub open spec fn typed_text(text: Seq<char>, key: Key) -> Seq<char> {
    match key {
        Key::Backspace => if text.len() > 0 { text.drop_last() } else { text },
        Key::Character(s) => if forall|i: int| 0 <= i < s@.len() ==> number_char(#[trigger] s@[i]) {
            text + s@
        } else {
            text
        },
        _ => text,
    }
}

fn all_number_chars(s: &str) -> (r: bool)
    ensures
        r == forall|i: int| 0 <= i < s@.len() ==> number_char(#[trigger] s@[i]),
{
    let n = s.unicode_len();
    let mut i: usize = 0;
    while i < n
        invariant
            n == s@.len(),
            i <= n,
            forall|j: int| 0 <= j < i ==> number_char(#[trigger] s@[j]),
        decreases n - i,
    {
        let c = s.get_char(i);
        if !(('0' <= c && c <= '9') || c == '.' || c == '-') {
            assert(!number_char(s@[i as int]));
            return false;
        }
        i += 1;
    }
    true
}

/// Handles a key while a number may be typed.  Backspace removes the last
/// character, Enter commits the text, Escape abandons it, and a character key
/// appends its text when every character of it is a digit, a point or a minus.
pub fn handle_number_input_key(input: &mut Option<String>, key: &Key) -> (outcome: NumberKeyOutcome)
    ensures
        match *old(input) {
            None => outcome is NotHandled && *final(input) is None,
            Some(text) => match *key {
                Key::Enter => *final(input) is None && match outcome {
                    NumberKeyOutcome::Commit(t) => t@ == text@,
                    _ => false,
                },
                Key::Escape => *final(input) is None && outcome is Cancelled,
                Key::Other => outcome is NotHandled && *final(input) == *old(input),
                Key::Backspace => outcome is Edited && match *final(input) {
                    Some(t) => t@ == typed_text(text@, *key),
                    None => false,
                },
                Key::Character(s) => if forall|i: int| 0 <= i < s@.len() ==> number_char(#[trigger] s@[i]) {
                    outcome is Edited && match *final(input) {
                        Some(t) => t@ == typed_text(text@, *key),
                        None => false,
                    }
                } else {
                    outcome is NotHandled && *final(input) == *old(input)
                },
            },
        },
{
    if input.is_none() {
        return NumberKeyOutcome::NotHandled;
    }
    match key {
        Key::Enter => {
            let text = input.take().unwrap();
            NumberKeyOutcome::Commit(text)
        },
        Key::Escape => {
            *input = None;
            NumberKeyOutcome::Cancelled
        },
        Key::Other => NumberKeyOutcome::NotHandled,
        Key::Backspace => {
            let text = input.take().unwrap();
            let n = text.as_str().unicode_len();
            if n == 0 {
                *input = Some(text);
            } else {
                let shorter = text.as_str().substring_char(0, n - 1).to_owned();
                assert(shorter@ =~= text@.drop_last());
                *input = Some(shorter);
            }
            NumberKeyOutcome::Edited
        },
        Key::Character(s) => {
            if all_number_chars(s.as_str()) {
                let mut text = input.take().unwrap();
                text.append(s.as_str());
                *input = Some(text);
                NumberKeyOutcome::Edited
            } else {
                NumberKeyOutcome::NotHandled
            }
        },
    }
}

/// A key that types a digit, a decimal point or a minus sign appends that
/// character to the number, so negative and fractional values can be typed.
pub proof fn lemma_number_characters_are_typed(text: Seq<char>, key_text: String)
    requires
        key_text@.len() == 1,
        ('0' <= key_text@[0] <= '9') || key_text@[0] == '.' || key_text@[0] == '-',
    ensures
        typed_text(text, Key::Character(key_text)) == text + key_text@,
        forall|i: int| 0 <= i < key_text@.len() ==> number_char(#[trigger] key_text@[i]),
{
}

/// Typing a digit and then pressing backspace leaves the text as it was.
pub proof fn lemma_digit_then_backspace(text: Seq<char>, digit: String)
    requires
        digit@.len() == 1,
        '0' <= digit@[0] <= '9',
    ensures
        typed_text(typed_text(text, Key::Character(digit)), Key::Backspace) == text,
{
    assert(forall|i: int| 0 <= i < digit@.len() ==> number_char(#[trigger] digit@[i]));
    assert((text + digit@).drop_last() =~= text);
}

} // verus!
