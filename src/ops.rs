use vstd::prelude::*;

use vstd::utf8::{decode_utf8, decode_utf8_encode_utf8, encode_utf8, encode_utf8_decode_utf8, valid_utf8};

use crate::error::YAError;
use crate::native::{Button, Coordinate, Direction, Key};
use crate::platform::Platform;
use crate::session::Access;
use crate::symbols::{
    button_of, coordinate_of, direction_of, native_key, CButton, CCoordinate, CDirection, CKey,
};

verus! {

/// What one exported call asks the input backend to do, once its arguments
/// have been checked and translated.
#[derive(Debug, PartialEq, Eq)]
pub enum InputRequest {
    /// Press, release or click a key.
    Key { key: Key, direction: Direction },
    /// Press, release or click a mouse button.
    Button { button: Button, direction: Direction },
    /// Move the pointer to a position, or by an offset.
    Move { x: i32, y: i32, coordinate: Coordinate },
    /// Type a text.
    Text { text: String },
}

/// What to do after an attempt that may be retried another way.
#[derive(Debug, PartialEq, Eq)]
pub enum Step {
    /// Report this code to the caller.
    Finish(YAError),
    /// Make this request and report its outcome.
    Perform(InputRequest),
}

/// Whether `ch` is a Unicode scalar value: at most 0x10FFFF and no surrogate.
pub open spec fn is_scalar_value(ch: u32) -> bool {
    ch < 0xD800 || (0xE000 <= ch && ch <= 0x10FFFF)
}

/// Whether `ch` is a printable ASCII character, space included.
pub open spec fn is_printable_ascii(ch: u32) -> bool {
    0x20 <= ch && ch <= 0x7E
}

/// The request that types the character whose code is `ch`.
pub open spec fn literal_request(ch: u32, d: CDirection) -> InputRequest {
    InputRequest::Key { key: Key::Unicode(ch as char), direction: direction_of(d) }
}

/// The dedicated key that Windows offers for a printable ASCII character:
/// letters of either case, digits and space.
pub open spec fn dedicated_ascii_key(ch: u32) -> Option<Key> {
    match ch {
        0x41 | 0x61 => Some(Key::A),  // 'A' | 'a'
        0x42 | 0x62 => Some(Key::B),  // 'B' | 'b'
        0x43 | 0x63 => Some(Key::C),  // 'C' | 'c'
        0x44 | 0x64 => Some(Key::D),  // 'D' | 'd'
        0x45 | 0x65 => Some(Key::E),  // 'E' | 'e'
        0x46 | 0x66 => Some(Key::F),  // 'F' | 'f'
        0x47 | 0x67 => Some(Key::G),  // 'G' | 'g'
        0x48 | 0x68 => Some(Key::H),  // 'H' | 'h'
        0x49 | 0x69 => Some(Key::I),  // 'I' | 'i'
        0x4A | 0x6A => Some(Key::J),  // 'J' | 'j'
        0x4B | 0x6B => Some(Key::K),  // 'K' | 'k'
        0x4C | 0x6C => Some(Key::L),  // 'L' | 'l'
        0x4D | 0x6D => Some(Key::M),  // 'M' | 'm'
        0x4E | 0x6E => Some(Key::N),  // 'N' | 'n'
        0x4F | 0x6F => Some(Key::O),  // 'O' | 'o'
        0x50 | 0x70 => Some(Key::P),  // 'P' | 'p'
        0x51 | 0x71 => Some(Key::Q),  // 'Q' | 'q'
        0x52 | 0x72 => Some(Key::R),  // 'R' | 'r'
        0x53 | 0x73 => Some(Key::S),  // 'S' | 's'
        0x54 | 0x74 => Some(Key::T),  // 'T' | 't'
        0x55 | 0x75 => Some(Key::U),  // 'U' | 'u'
        0x56 | 0x76 => Some(Key::V),  // 'V' | 'v'
        0x57 | 0x77 => Some(Key::W),  // 'W' | 'w'
        0x58 | 0x78 => Some(Key::X),  // 'X' | 'x'
        0x59 | 0x79 => Some(Key::Y),  // 'Y' | 'y'
        0x5A | 0x7A => Some(Key::Z),  // 'Z' | 'z'
        0x30 => Some(Key::Num0),  // '0'
        0x31 => Some(Key::Num1),  // '1'
        0x32 => Some(Key::Num2),  // '2'
        0x33 => Some(Key::Num3),  // '3'
        0x34 => Some(Key::Num4),  // '4'
        0x35 => Some(Key::Num5),  // '5'
        0x36 => Some(Key::Num6),  // '6'
        0x37 => Some(Key::Num7),  // '7'
        0x38 => Some(Key::Num8),  // '8'
        0x39 => Some(Key::Num9),  // '9'
        0x20 => Some(Key::Space),  // ' '
        _ => None,
    }
}

/// Whether a printable ASCII character first goes through a dedicated key.
pub open spec fn uses_dedicated_key(p: Platform, ch: u32) -> bool {
    p == Platform::Windows && dedicated_ascii_key(ch).is_some()
}

/// The first request made for a printable ASCII character on `p`: the
/// dedicated key where Windows has one, else the literal character.
pub open spec fn ascii_first_request(p: Platform, ch: u32, d: CDirection) -> InputRequest {
    if uses_dedicated_key(p, ch) {
        InputRequest::Key { key: dedicated_ascii_key(ch).unwrap(), direction: direction_of(d) }
    } else {
        literal_request(ch, d)
    }
}

/// The bytes behind an optional C string (`None` for a null pointer).
pub open spec fn bytes_of(text: Option<&[u8]>) -> Option<Seq<u8>> {
    match text {
        Some(b) => Some(b@),
        None => None,
    }
}

/// The text that the bytes of a C string hold, or `None` where there is no
/// string or its bytes are not valid UTF-8.
pub open spec fn decoded_text(text: Option<Seq<u8>>) -> Option<Seq<char>> {
    match text {
        Some(b) => if valid_utf8(b) {
            Some(decode_utf8(b))
        } else {
            None
        },
        None => None,
    }
}

/// The text handed back from a clipboard read, or `None` where the read
/// failed or the text holds a NUL byte, which no C string can carry.
pub open spec fn clipboard_read(read: Option<Seq<char>>) -> Option<Seq<char>> {
    match read {
        Some(t) => if encode_utf8(t).contains(0u8) {
            None
        } else {
            Some(t)
        },
        None => None,
    }
}

/// Relies on char::from_u32: it accepts exactly the Unicode scalar values and
/// returns the character with that code.
#[verifier::external_body]
fn char_from_u32(ch: u32) -> (r: Option<char>)
    ensures
        r == (if is_scalar_value(ch) {
            Some(ch as char)
        } else {
            None
        }),
{
    char::from_u32(ch)
}

/// Relies on std::str::from_utf8: it accepts exactly the byte sequences that
/// are valid UTF-8, and the text it returns is made of those bytes.
#[verifier::external_body]
fn str_from_utf8(b: &[u8]) -> (r: Option<&str>)
    ensures
        r.is_some() == valid_utf8(b@),
        r matches Some(s) ==> encode_utf8(s@) == b@,
{
    std::str::from_utf8(b).ok()
}

/// The text of a C string, checked to be valid UTF-8.
fn c_string_text(text: Option<&[u8]>) -> (r: Option<String>)
    ensures
        match decoded_text(bytes_of(text)) {
            Some(chars) => (r matches Some(s) && s@ == chars),
            None => r.is_none(),
        },
{
    match text {
        None => None,
        Some(b) => match str_from_utf8(b) {
            Some(s) => {
                proof {
                    encode_utf8_decode_utf8(s@);
                }
                Some(s.to_owned())
            },
            None => None,
        },
    }
}

/// The dedicated Windows key for a printable ASCII character, where there is one.
fn ascii_key(ch: u32) -> (r: Option<Key>)
    ensures
        r == dedicated_ascii_key(ch),
{
    match ch {
        0x41 | 0x61 => Some(Key::A),
        0x42 | 0x62 => Some(Key::B),
        0x43 | 0x63 => Some(Key::C),
        0x44 | 0x64 => Some(Key::D),
        0x45 | 0x65 => Some(Key::E),
        0x46 | 0x66 => Some(Key::F),
        0x47 | 0x67 => Some(Key::G),
        0x48 | 0x68 => Some(Key::H),
        0x49 | 0x69 => Some(Key::I),
        0x4A | 0x6A => Some(Key::J),
        0x4B | 0x6B => Some(Key::K),
        0x4C | 0x6C => Some(Key::L),
        0x4D | 0x6D => Some(Key::M),
        0x4E | 0x6E => Some(Key::N),
        0x4F | 0x6F => Some(Key::O),
        0x50 | 0x70 => Some(Key::P),
        0x51 | 0x71 => Some(Key::Q),
        0x52 | 0x72 => Some(Key::R),
        0x53 | 0x73 => Some(Key::S),
        0x54 | 0x74 => Some(Key::T),
        0x55 | 0x75 => Some(Key::U),
        0x56 | 0x76 => Some(Key::V),
        0x57 | 0x77 => Some(Key::W),
        0x58 | 0x78 => Some(Key::X),
        0x59 | 0x79 => Some(Key::Y),
        0x5A | 0x7A => Some(Key::Z),
        0x30 => Some(Key::Num0),
        0x31 => Some(Key::Num1),
        0x32 => Some(Key::Num2),
        0x33 => Some(Key::Num3),
        0x34 => Some(Key::Num4),
        0x35 => Some(Key::Num5),
        0x36 => Some(Key::Num6),
        0x37 => Some(Key::Num7),
        0x38 => Some(Key::Num8),
        0x39 => Some(Key::Num9),
        0x20 => Some(Key::Space),
        _ => None,
    }
}

/// Injects a character given by its code point; codes that are no Unicode
/// scalar value are invalid input.
pub fn key_unicode_action(ch: u32, direction: CDirection) -> (r: Result<InputRequest, YAError>)
    ensures
        r == (if is_scalar_value(ch) {
            Ok(literal_request(ch, direction))
        } else {
            Err(YAError::InvalidInput)
        }),
{
    match char_from_u32(ch) {
        Some(c) => Ok(InputRequest::Key { key: Key::Unicode(c), direction: direction.cast() }),
        None => Err(YAError::InvalidInput),
    }
}

/// Injects a printable ASCII character (0x20 to 0x7E; others are invalid
/// input). On Windows, letters, digits and space first go through their
/// dedicated key; everything else is typed as the literal character.
pub fn key_ascii_action(ch: u32, direction: CDirection, platform: Platform) -> (r: Result<
    InputRequest,
    YAError,
>)
    ensures
        r == (if is_printable_ascii(ch) {
            Ok(ascii_first_request(platform, ch, direction))
        } else {
            Err(YAError::InvalidInput)
        }),
{
    if ch < 0x20 || ch > 0x7E {
        return Err(YAError::InvalidInput);
    }
    if matches!(platform, Platform::Windows) {
        if let Some(key) = ascii_key(ch) {
            return Ok(InputRequest::Key { key, direction: direction.cast() });
        }
    }
    key_unicode_action(ch, direction)
}

/// What follows the first request of `key_ascii_action`, given how its
/// device access ended: a dedicated key that could not be injected falls
/// back to the literal character; otherwise the access decides the code.
pub fn after_ascii_attempt(ch: u32, direction: CDirection, platform: Platform, attempt: Access) -> (r:
    Step)
    ensures
        r == (if !is_printable_ascii(ch) {
            Step::Finish(YAError::InvalidInput)
        } else if attempt == Access::Done {
            Step::Finish(YAError::Success)
        } else if uses_dedicated_key(platform, ch) {
            Step::Perform(literal_request(ch, direction))
        } else {
            Step::Finish(YAError::PlatformError)
        }),
{
    if ch < 0x20 || ch > 0x7E {
        return Step::Finish(YAError::InvalidInput);
    }
    if matches!(attempt, Access::Done) {
        return Step::Finish(YAError::Success);
    }
    let dedicated = matches!(platform, Platform::Windows) && ascii_key(ch).is_some();
    if dedicated {
        match key_unicode_action(ch, direction) {
            Ok(req) => Step::Perform(req),
            Err(e) => Step::Finish(e),
        }
    } else {
        Step::Finish(YAError::PlatformError)
    }
}

/// Moves the pointer to `(x, y)` or by `(x, y)`; always a valid request.
pub fn move_mouse(x: i32, y: i32, coord: CCoordinate) -> (r: InputRequest)
    ensures
        r == (InputRequest::Move { x, y, coordinate: coordinate_of(coord) }),
{
    InputRequest::Move { x, y, coordinate: coord.cast() }
}

/// Presses, releases or clicks a mouse button; always a valid request.
pub fn mouse_button(button: CButton, direction: CDirection, platform: Platform) -> (r: InputRequest)
    ensures
        r == (InputRequest::Button {
            button: button_of(platform, button),
            direction: direction_of(direction),
        }),
{
    InputRequest::Button { button: button.cast(platform), direction: direction.cast() }
}

/// Presses, releases or clicks a symbolic key; a key that has no equivalent
/// on `platform` is invalid input, and no device is touched.
pub fn key_action(key: CKey, direction: CDirection, platform: Platform) -> (r: Result<
    InputRequest,
    YAError,
>)
    ensures
        match native_key(platform, key) {
            Some(k) => r == Ok::<InputRequest, YAError>(
                InputRequest::Key { key: k, direction: direction_of(direction) },
            ),
            None => r == Err::<InputRequest, YAError>(YAError::InvalidInput),
        },
{
    match key.cast(platform) {
        Ok(k) => Ok(InputRequest::Key { key: k, direction: direction.cast() }),
        Err(_) => Err(YAError::InvalidInput),
    }
}

/// Presses, releases or clicks the key with a raw platform key code,
/// bypassing the symbolic vocabulary.
pub fn key_action_with_platform_code(code: u32, direction: CDirection) -> (r: InputRequest)
    ensures
        r == (InputRequest::Key { key: Key::Other(code), direction: direction_of(direction) }),
{
    InputRequest::Key { key: Key::Other(code), direction: direction.cast() }
}

/// Presses, releases or clicks the key of an ASCII character given as a C
/// `char`; negative values are not ASCII and are invalid input.
pub fn key_action_with_code(key: i8, direction: CDirection) -> (r: Result<InputRequest, YAError>)
    ensures
        r == (if key >= 0 {
            Ok(literal_request(key as u32, direction))
        } else {
            Err(YAError::InvalidInput)
        }),
{
    if key < 0 {
        return Err(YAError::InvalidInput);
    }
    key_unicode_action(key as u32, direction)
}

/// Types the text of a C string; a null pointer (`None`) or bytes that are
/// not valid UTF-8 are invalid input.
pub fn enter_text(text: Option<&[u8]>) -> (r: Result<InputRequest, YAError>)
    ensures
        match decoded_text(bytes_of(text)) {
            Some(chars) => (r matches Ok(InputRequest::Text { text: t }) && t@ == chars),
            None => r == Err::<InputRequest, YAError>(YAError::InvalidInput),
        },
{
    match c_string_text(text) {
        Some(t) => Ok(InputRequest::Text { text: t }),
        None => Err(YAError::InvalidInput),
    }
}

/// The code reported for an access to the input backend.
pub fn input_outcome(access: Access) -> (r: YAError)
    ensures
        r == (if access == Access::Done {
            YAError::Success
        } else {
            YAError::PlatformError
        }),
{
    match access {
        Access::Done => YAError::Success,
        _ => YAError::PlatformError,
    }
}

/// The text to write to the clipboard from a C string; a null pointer
/// (`None`) or bytes that are not valid UTF-8 are invalid input.
pub fn clipboard_set(text: Option<&[u8]>) -> (r: Result<String, YAError>)
    ensures
        match decoded_text(bytes_of(text)) {
            Some(chars) => (r matches Ok(t) && t@ == chars),
            None => r == Err::<String, YAError>(YAError::InvalidInput),
        },
{
    match c_string_text(text) {
        Some(t) => Ok(t),
        None => Err(YAError::InvalidInput),
    }
}

/// The code reported for a clipboard write: any failure, in opening the
/// clipboard or in writing to it, is a clipboard error.
pub fn clipboard_write_outcome(access: Access) -> (r: YAError)
    ensures
        r == (if access == Access::Done {
            YAError::Success
        } else {
            YAError::ClipboardError
        }),
{
    match access {
        Access::Done => YAError::Success,
        _ => YAError::ClipboardError,
    }
}

/// The text handed to the caller after a clipboard read (`None` where the
/// read failed): the text itself, unless it holds a NUL byte, which a C
/// string cannot carry.
pub fn clipboard_get(read: Option<String>) -> (r: Option<String>)
    ensures
        match read {
            Some(t) => if encode_utf8(t@).contains(0u8) {
                r.is_none()
            } else {
                r == Some(t)
            },
            None => r.is_none(),
        },
{
    let clean = match &read {
        None => false,
        Some(t) => {
            let bytes = t.as_str().as_bytes();
            let mut i: usize = 0;
            let mut clean = true;
            while i < bytes.len()
                invariant
                    bytes@ == encode_utf8(t@),
                    0 <= i <= bytes@.len(),
                    clean == forall|j: int| 0 <= j < i ==> bytes@[j] != 0u8,
                decreases bytes@.len() - i,
            {
                if bytes[i] == 0 {
                    clean = false;
                }
                i = i + 1;
            }
            clean
        },
    };
    if clean {
        read
    } else {
        None
    }
}

/// Text written to the clipboard comes back unchanged: for the bytes of a C
/// string that are valid UTF-8, the text that a write hands to the clipboard
/// is, when read back, returned whole to the caller, and encodes to exactly
/// those bytes.
pub proof fn lemma_clipboard_round_trip(b: Seq<u8>)
    requires
        valid_utf8(b),
        !b.contains(0u8),
    ensures
        decoded_text(Some(b)) == Some(decode_utf8(b)),
        clipboard_read(Some(decode_utf8(b))) == Some(decode_utf8(b)),
        encode_utf8(decode_utf8(b)) == b,
{
    decode_utf8_encode_utf8(b);
}

} // verus!
