//! The keyboard events that type a text, after releasing the keys of the
//! shortcut that asked for it.

use vstd::prelude::*;
use vstd::string::StringSliceAdditionalSpecFns;

use crate::autotype::modifier_keys::get_numeric_modifier_key;
use crate::autotype::modifier_keys::numeric_modifier_key;
use crate::text::decimal;
use crate::text::decimal_text;
use crate::text::joined;

verus! {

/// Event flag: the key is released.
pub const KEYEVENTF_KEYUP: u32 = 0x0002;

/// Event flag: the scan code holds a UTF-16 unit to type.
pub const KEYEVENTF_UNICODE: u32 = 0x0004;

/// The virtual-key code of the tabulator key, which is sent as a key and not
/// as text.
pub const TAB_KEY: u16 = 9;

/// An input key can be either pressed (down), or released (up).
#[derive(Copy, Clone, Debug, PartialEq, Eq)]
pub enum InputKeyPress {
    Down,
    Up,
}

/// One keyboard event for the operating system's input queue. The timestamp
/// and the extra information of an event are always zero.
#[derive(Copy, Clone, Debug, PartialEq, Eq)]
pub struct KeyboardInput {
    pub virtual_key: u16,
    pub scan_code: u16,
    pub flags: u32,
}

/// A keyboard event for one of the valid shortcut keys: Control, Alt, Super,
/// or a letter.
#[derive(Copy, Clone, Debug, PartialEq, Eq)]
pub struct KeyboardShortcutInput(pub KeyboardInput);

/// Why input could not be typed.
#[derive(Debug)]
pub enum AutotypeError {
    /// The last key of a shortcut is not one character.
    NotSingleCharacter { key: String },
    /// The last key of a shortcut is not a letter of `[a-z][A-Z]`.
    NotAlphabetic { key: String },
    /// A key of more than one character is not a known modifier.
    UnsupportedModifier { key: String },
    /// The system accepted no event: another thread blocked the input.
    InputBlocked { last_error: String },
    /// The system accepted another number of events than were handed over.
    InputMismatch { sent: u32, expected: usize },
}

/// Whether a byte is an ASCII letter.
pub open spec fn is_ascii_letter(byte: u8) -> bool {
    (0x41 <= byte <= 0x5A) || (0x61 <= byte <= 0x7A)
}

/// The event for one key: a virtual key carries its code as the key, a real
/// key as the scan code; a release carries the key-up flag.
pub open spec fn input_event(key_press: InputKeyPress, character: u16, is_virtual: bool)
    -> KeyboardInput {
    KeyboardInput {
        virtual_key: if is_virtual {
            character
        } else {
            0
        },
        scan_code: if is_virtual {
            0
        } else {
            character
        },
        flags: match key_press {
            InputKeyPress::Down => 0x0004,
            InputKeyPress::Up => 0x0006,
        },
    }
}

/// The event that presses or releases one unit of the text: the tabulator as a
/// virtual key, any other unit as text.
pub open spec fn text_event(key_press: InputKeyPress, unit: u16) -> KeyboardInput {
    input_event(key_press, unit, unit == TAB_KEY)
}

/// The events that type a text: for each unit a press, then a release.
pub open spec fn text_events(input: Seq<u16>) -> Seq<KeyboardInput> {
    Seq::new(
        2 * input.len(),
        |i: int|
            text_event(
                if i % 2 == 0 {
                    InputKeyPress::Down
                } else {
                    InputKeyPress::Up
                },
                input[i / 2],
            ),
    )
}

/// The letter that a one-character shortcut key stands for.
pub open spec fn alphabetic_hotkey(letter: Seq<char>) -> Option<u16> {
    let bytes = vstd::utf8::encode_utf8(letter);
    if bytes.len() == 1 && is_ascii_letter(bytes[0]) {
        Some(bytes[0] as u16)
    } else {
        None
    }
}

/// The event that releases a shortcut key, where the key is a valid one: a
/// key of one byte must be a letter, any other key a modifier.
pub open spec fn shortcut_event(key: Seq<char>) -> Option<KeyboardInput> {
    if vstd::utf8::encode_utf8(key).len() == 1 {
        match alphabetic_hotkey(key) {
            Some(code) => Some(input_event(InputKeyPress::Up, code, false)),
            None => None,
        }
    } else {
        match numeric_modifier_key(key) {
            Some(code) => Some(input_event(InputKeyPress::Up, code, true)),
            None => None,
        }
    }
}

/// Whether `error` is the one that an invalid shortcut key is refused with: a
/// key of one byte is not a letter, any other key is not a modifier.
pub open spec fn shortcut_refusal(key: Seq<char>, error: AutotypeError) -> bool {
    &&& shortcut_event(key) is None
    &&& match error {
        AutotypeError::NotAlphabetic { key: named } => named@ == key
            && vstd::utf8::encode_utf8(key).len() == 1,
        AutotypeError::UnsupportedModifier { key: named } => named@ == key
            && vstd::utf8::encode_utf8(key).len() != 1,
        _ => false,
    }
}

/// Whether every key of a shortcut is a valid one.
pub open spec fn shortcut_valid(keys: Seq<String>) -> bool {
    forall|i: int| 0 <= i < keys.len() ==> (#[trigger] shortcut_event(keys[i]@)) is Some
}

/// The events that release the keys of a valid shortcut, in order.
pub open spec fn shortcut_events(keys: Seq<String>) -> Seq<KeyboardInput> {
    Seq::new(keys.len(), |i: int| shortcut_event(keys[i]@)->Some_0)
}

impl AutotypeError {
    /// What the error says, as a sequence of characters.
    pub open spec fn message_text(&self) -> Seq<char> {
        match self {
            AutotypeError::NotSingleCharacter { key } => {
                "Final keyboard shortcut key should be a single character: "@ + key@
            },
            AutotypeError::NotAlphabetic { key } => {
                "Letter is not ASCII Alphabetic ([a-z][A-Z]): '"@ + key@ + "'"@
            },
            AutotypeError::UnsupportedModifier { key } => "Unsupported modifier key: "@ + key@,
            AutotypeError::InputBlocked { last_error } => {
                "SendInput sent 0 inputs. Input was blocked by another thread. GetLastError: "@
                    + last_error@
            },
            AutotypeError::InputMismatch { sent, expected } => {
                "SendInput does not match expected. sent: "@ + decimal_text(*sent as nat)
                    + ", expected: "@ + decimal_text(*expected as nat)
            },
        }
    }

    /// What the error says.
    pub fn message(&self) -> (text: String)
        ensures
            text@ == self.message_text(),
    {
        match self {
            AutotypeError::NotSingleCharacter { key } => joined(
                "Final keyboard shortcut key should be a single character: ",
                key.as_str(),
            ),
            AutotypeError::NotAlphabetic { key } => {
                let start = joined("Letter is not ASCII Alphabetic ([a-z][A-Z]): '", key.as_str());
                joined(start.as_str(), "'")
            },
            AutotypeError::UnsupportedModifier { key } => joined(
                "Unsupported modifier key: ",
                key.as_str(),
            ),
            AutotypeError::InputBlocked { last_error } => joined(
                "SendInput sent 0 inputs. Input was blocked by another thread. GetLastError: ",
                last_error.as_str(),
            ),
            AutotypeError::InputMismatch { sent, expected } => {
                let sent_text = decimal(*sent as u64);
                let expected_text = decimal(*expected as u64);
                let first = joined("SendInput does not match expected. sent: ", sent_text.as_str());
                let second = joined(first.as_str(), ", expected: ");
                joined(second.as_str(), expected_text.as_str())
            },
        }
    }
}

/// Builds the keyboard event for one key.
pub fn build_input(key_press: InputKeyPress, character: u16, is_virtual: bool) -> (input:
    KeyboardInput)
    ensures
        input == input_event(key_press, character, is_virtual),
{
    let (virtual_key, scan_code) = if is_virtual {
        (character, 0)
    } else {
        (0, character)
    };
    match key_press {
        InputKeyPress::Down => KeyboardInput { virtual_key, scan_code, flags: KEYEVENTF_UNICODE },
        InputKeyPress::Up => {
            assert(0x0002u32 | 0x0004u32 == 0x0006u32) by (bit_vector);
            KeyboardInput { virtual_key, scan_code, flags: KEYEVENTF_KEYUP | KEYEVENTF_UNICODE }
        },
    }
}

/// Builds a keyboard event that types a UTF-16 unit.
pub fn build_unicode_input(key_press: InputKeyPress, character: u16) -> (input: KeyboardInput)
    ensures
        input == input_event(key_press, character, false),
{
    build_input(key_press, character, false)
}

/// Builds a keyboard event for a virtual key.
pub fn build_virtual_key_input(key_press: InputKeyPress, character: u16) -> (input: KeyboardInput)
    ensures
        input == input_event(key_press, character, true),
{
    build_input(key_press, character, true)
}

/// Given a letter that is a string, gets its UTF-16 unit, as long as it is one
/// character of `[a-z][A-Z]`.
pub fn get_alphabetic_hotkey(letter: &str) -> (code: Result<u16, AutotypeError>)
    ensures
        match code {
            Ok(unit) => alphabetic_hotkey(letter@) == Some(unit),
            Err(AutotypeError::NotSingleCharacter { key }) => key@ == letter@
                && vstd::utf8::encode_utf8(letter@).len() != 1,
            Err(AutotypeError::NotAlphabetic { key }) => key@ == letter@
                && vstd::utf8::encode_utf8(letter@).len() == 1 && alphabetic_hotkey(letter@)
                is None,
            Err(_) => false,
        },
{
    let bytes = letter.as_bytes();
    if bytes.len() != 1 {
        return Err(AutotypeError::NotSingleCharacter { key: letter.to_owned() });
    }
    let byte = bytes[0];
    let is_letter = (0x41 <= byte && byte <= 0x5A) || (0x61 <= byte && byte <= 0x7A);
    if !is_letter {
        return Err(AutotypeError::NotAlphabetic { key: letter.to_owned() });
    }
    Ok(byte as u16)
}

impl KeyboardShortcutInput {
    /// The event that releases one key of a shortcut. The keys are released,
    /// not pressed: the user holds them down when the shortcut fires.
    pub fn try_from(key: &str) -> (input: Result<KeyboardShortcutInput, AutotypeError>)
        ensures
            match input {
                Ok(event) => shortcut_event(key@) == Some(event.0),
                Err(error) => shortcut_refusal(key@, error),
            },
    {
        if key.as_bytes().len() == 1 {
            match get_alphabetic_hotkey(key) {
                Ok(code) => Ok(KeyboardShortcutInput(build_unicode_input(InputKeyPress::Up, code))),
                Err(error) => Err(error),
            }
        } else {
            match get_numeric_modifier_key(key) {
                Some(code) => Ok(
                    KeyboardShortcutInput(build_virtual_key_input(InputKeyPress::Up, code)),
                ),
                None => Err(AutotypeError::UnsupportedModifier { key: key.to_owned() }),
            }
        }
    }
}

/// Adds key "down" and "up" events for each unit of the input.
pub fn add_input(input: &[u16], keyboard_inputs: &mut Vec<KeyboardInput>)
    ensures
        final(keyboard_inputs)@ == old(keyboard_inputs)@ + text_events(input@),
{
    let ghost start = keyboard_inputs@;
    let mut i: usize = 0;
    while i < input.len()
        invariant
            i <= input@.len(),
            keyboard_inputs@.len() == start.len() + 2 * i,
            forall|j: int| 0 <= j < start.len() ==> keyboard_inputs@[j] == start[j],
            forall|j: int|
                0 <= j < 2 * i ==> keyboard_inputs@[start.len() + j] == #[trigger] text_events(
                    input@,
                )[j],
        decreases input@.len() - i,
    {
        let unit = input[i];
        let is_tab = unit == TAB_KEY;
        let down = build_input(InputKeyPress::Down, unit, is_tab);
        let up = build_input(InputKeyPress::Up, unit, is_tab);
        keyboard_inputs.push(down);
        keyboard_inputs.push(up);
        assert(text_events(input@)[2 * i] == down);
        assert(text_events(input@)[2 * i + 1] == up);
        i += 1;
    }
    assert(keyboard_inputs@ =~= start + text_events(input@));
}

/// The keyboard events that type `input` wherever the cursor is: first the
/// release of each key of the shortcut, then the text. Fails on the first key
/// of the shortcut that is not a valid one; a valid shortcut never fails.
pub fn type_input(input: &[u16], keyboard_shortcut: &[String]) -> (events: Result<
    Vec<KeyboardInput>,
    AutotypeError,
>)
    ensures
        match events {
            Ok(list) => shortcut_valid(keyboard_shortcut@) && list@ == shortcut_events(
                keyboard_shortcut@,
            ) + text_events(input@),
            Err(error) => exists|i: int|
                0 <= i < keyboard_shortcut@.len() && #[trigger] shortcut_refusal(
                    keyboard_shortcut@[i]@,
                    error,
                ) && (forall|j: int|
                    0 <= j < i ==> (#[trigger] shortcut_event(keyboard_shortcut@[j]@)) is Some),
        },
{
    let mut keyboard_inputs: Vec<KeyboardInput> = Vec::new();
    let mut i: usize = 0;
    while i < keyboard_shortcut.len()
        invariant
            i <= keyboard_shortcut@.len(),
            keyboard_inputs@.len() == i,
            forall|j: int| 0 <= j < i ==> (#[trigger] shortcut_event(keyboard_shortcut@[j]@)) is Some,
            forall|j: int|
                0 <= j < i ==> keyboard_inputs@[j] == shortcut_event(
                    #[trigger] keyboard_shortcut@[j]@,
                )->Some_0,
        decreases keyboard_shortcut@.len() - i,
    {
        match KeyboardShortcutInput::try_from(keyboard_shortcut[i].as_str()) {
            Ok(shortcut) => keyboard_inputs.push(shortcut.0),
            Err(error) => {
                return Err(error);
            },
        }
        i += 1;
    }
    assert(keyboard_inputs@ =~= shortcut_events(keyboard_shortcut@));
    add_input(input, &mut keyboard_inputs);
    Ok(keyboard_inputs)
}

/// Judges what the system reported after it was handed `expected` events:
/// all of them must have been accepted.
pub fn send_input(expected: usize, insert_count: u32, last_error: &str) -> (outcome: Result<
    (),
    AutotypeError,
>)
    ensures
        match outcome {
            Ok(()) => insert_count != 0 && insert_count == expected,
            Err(AutotypeError::InputBlocked { last_error: text }) => insert_count == 0 && text@
                == last_error@,
            Err(AutotypeError::InputMismatch { sent, expected: wanted }) => insert_count != 0
                && insert_count != expected && sent == insert_count && wanted == expected,
            Err(_) => false,
        },
{
    if insert_count == 0 {
        Err(AutotypeError::InputBlocked { last_error: last_error.to_owned() })
    } else if insert_count as u64 != expected as u64 {
        Err(AutotypeError::InputMismatch { sent: insert_count, expected })
    } else {
        Ok(())
    }
}

} // verus!
