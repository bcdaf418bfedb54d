//! Key codes: what the window system reports, and what the terminal takes.

use termwiz::input::KeyCode as TermKeyCode;
use vstd::prelude::*;
use vstd::string::StrSliceExecFns;
use wezterm_input_types::KeyCode;
use wezterm_input_types::PhysKeyCode;

verus! {

/// `wezterm_input_types::KeyCode`, the key of an event as the window system
/// reports it, with its variants as the crate declares them.
#[verifier::external_type_specification]
pub struct ExKeyCode(KeyCode);

/// `wezterm_input_types::PhysKeyCode`, a key named by its place on the
/// keyboard, with its variants as the crate declares them.
#[verifier::external_type_specification]
pub struct ExPhysKeyCode(PhysKeyCode);

/// `termwiz::input::KeyCode`, a key as the terminal takes it, with its
/// variants as the crate declares them.
#[verifier::external_type_specification]
pub struct ExTermKeyCode(TermKeyCode);

/// The `clone` that `wezterm_input_types` derives for its `KeyCode`: the
/// same variant with the same content.
pub assume_specification[ <KeyCode as Clone>::clone ](key: &KeyCode) -> (copy: KeyCode)
    ensures
        copy == *key,
;

/// What a key of the window system is to the terminal.
#[derive(Debug, PartialEq, Eq)]
pub enum Key {
    /// One key of the terminal.
    Code(TermKeyCode),
    /// Text of more than one character, or of none.
    Composed(String),
    /// Nothing that the terminal could take.
    Unrepresentable,
}

impl Clone for Key {
    fn clone(&self) -> (copy: Key)
        ensures
            copy == *self,
    {
        match self {
            Key::Code(code) => Key::Code(*code),
            Key::Composed(text) => Key::Composed(text.clone()),
            Key::Unrepresentable => Key::Unrepresentable,
        }
    }
}

/// The key code that `PhysKeyCode::to_key_code` gives for a place on the
/// keyboard.
pub uninterp spec fn physical_key_code(phys: PhysKeyCode) -> KeyCode;

/// Calls `PhysKeyCode::to_key_code`, a table from each place on the keyboard
/// to a key code. The result is named; nothing more is claimed of it.
#[verifier::external_body]
fn phys_to_key_code(phys: PhysKeyCode) -> (key: KeyCode)
    ensures
        key == physical_key_code(phys),
{
    phys.to_key_code()
}

/// The keys that the window system counts as modifiers.
pub open spec fn is_window_modifier(key: KeyCode) -> bool {
    key is Hyper || key is CapsLock || key is Super || key is Meta || key is Shift
        || key is LeftShift || key is RightShift || key is Control || key is LeftControl
        || key is RightControl || key is Alt || key is LeftAlt || key is RightAlt
        || key is LeftWindows || key is RightWindows
}

/// Calls `wezterm_input_types::KeyCode::is_modifier`: true for the fifteen
/// keys that `is_window_modifier` lists, false for every other key.
#[verifier::external_body]
pub(crate) fn window_key_is_modifier(key: &KeyCode) -> (r: bool)
    ensures
        r == is_window_modifier(*key),
{
    key.is_modifier()
}

/// The keys that the terminal counts as modifiers: those of the window
/// system without the caps lock key.
pub open spec fn is_terminal_modifier(key: TermKeyCode) -> bool {
    key is Hyper || key is Super || key is Meta || key is Shift || key is LeftShift
        || key is RightShift || key is Control || key is LeftControl || key is RightControl
        || key is Alt || key is LeftAlt || key is RightAlt || key is LeftWindows
        || key is RightWindows
}

/// Calls `termwiz::input::KeyCode::is_modifier`: true for the fourteen keys
/// that `is_terminal_modifier` lists, false for every other key.
#[verifier::external_body]
pub(crate) fn terminal_key_is_modifier(key: TermKeyCode) -> (r: bool)
    ensures
        r == is_terminal_modifier(key),
{
    key.is_modifier()
}

/// Two key codes are the same key: the same variant with the same content,
/// text compared by its characters.
pub open spec fn same_key(a: KeyCode, b: KeyCode) -> bool {
    match (a, b) {
        (KeyCode::Composed(s), KeyCode::Composed(t)) => s@ == t@,
        (KeyCode::Composed(_), _) => false,
        (_, KeyCode::Composed(_)) => false,
        _ => a == b,
    }
}

/// Calls the `==` that `wezterm_input_types` derives for its `KeyCode`: true
/// where both are the same variant and hold equal content.
#[verifier::external_body]
pub(crate) fn key_codes_equal(a: &KeyCode, b: &KeyCode) -> (r: bool)
    ensures
        r == same_key(*a, *b),
{
    a == b
}

/// The keys that have no form the terminal could take: a bare platform code,
/// the void key, and a key of the numeric pad beyond the digits.
pub open spec fn unrepresentable(key: KeyCode) -> bool {
    match key {
        KeyCode::RawCode(_) => true,
        KeyCode::VoidSymbol => true,
        KeyCode::Numpad(n) => n > 9,
        _ => false,
    }
}

/// The terminal's key for a digit of the numeric pad.
pub open spec fn numpad_key(n: u8) -> TermKeyCode
    recommends
        n <= 9,
{
    if n == 0 {
        TermKeyCode::Numpad0
    } else if n == 1 {
        TermKeyCode::Numpad1
    } else if n == 2 {
        TermKeyCode::Numpad2
    } else if n == 3 {
        TermKeyCode::Numpad3
    } else if n == 4 {
        TermKeyCode::Numpad4
    } else if n == 5 {
        TermKeyCode::Numpad5
    } else if n == 6 {
        TermKeyCode::Numpad6
    } else if n == 7 {
        TermKeyCode::Numpad7
    } else if n == 8 {
        TermKeyCode::Numpad8
    } else {
        TermKeyCode::Numpad9
    }
}

/// The terminal's key for one character. Five control characters are keys of
/// their own; with `swap` set, backspace and delete trade places.
pub open spec fn char_key(c: char, swap: bool) -> TermKeyCode {
    if c == '\r' {
        TermKeyCode::Enter
    } else if c == '\t' {
        TermKeyCode::Tab
    } else if c == '\u{08}' {
        if swap {
            TermKeyCode::Delete
        } else {
            TermKeyCode::Backspace
        }
    } else if c == '\u{7f}' {
        if swap {
            TermKeyCode::Backspace
        } else {
            TermKeyCode::Delete
        }
    } else if c == '\u{1b}' {
        TermKeyCode::Escape
    } else {
        TermKeyCode::Char(c)
    }
}

/// What a key that is neither a place on the keyboard nor text is to the
/// terminal: nothing where it is unrepresentable, else the terminal's key
/// of the same meaning.
pub open spec fn plain_key(key: KeyCode, swap: bool) -> Key {
    match key {
        KeyCode::Char(c) => Key::Code(char_key(c, swap)),
        KeyCode::Composed(_) => Key::Unrepresentable,
        KeyCode::RawCode(_) => Key::Unrepresentable,
        KeyCode::Physical(_) => Key::Unrepresentable,
        KeyCode::VoidSymbol => Key::Unrepresentable,
        KeyCode::Numpad(n) => if n <= 9 {
            Key::Code(numpad_key(n))
        } else {
            Key::Unrepresentable
        },
        KeyCode::Function(f) => Key::Code(TermKeyCode::Function(f)),
        KeyCode::Hyper => Key::Code(TermKeyCode::Hyper),
        KeyCode::Super => Key::Code(TermKeyCode::Super),
        KeyCode::Meta => Key::Code(TermKeyCode::Meta),
        KeyCode::Cancel => Key::Code(TermKeyCode::Cancel),
        KeyCode::Clear => Key::Code(TermKeyCode::Clear),
        KeyCode::Shift => Key::Code(TermKeyCode::Shift),
        KeyCode::LeftShift => Key::Code(TermKeyCode::LeftShift),
        KeyCode::RightShift => Key::Code(TermKeyCode::RightShift),
        KeyCode::Control => Key::Code(TermKeyCode::Control),
        KeyCode::LeftControl => Key::Code(TermKeyCode::LeftControl),
        KeyCode::RightControl => Key::Code(TermKeyCode::RightControl),
        KeyCode::Alt => Key::Code(TermKeyCode::Alt),
        KeyCode::LeftAlt => Key::Code(TermKeyCode::LeftAlt),
        KeyCode::RightAlt => Key::Code(TermKeyCode::RightAlt),
        KeyCode::Pause => Key::Code(TermKeyCode::Pause),
        KeyCode::CapsLock => Key::Code(TermKeyCode::CapsLock),
        KeyCode::PageUp => Key::Code(TermKeyCode::PageUp),
        KeyCode::PageDown => Key::Code(TermKeyCode::PageDown),
        KeyCode::End => Key::Code(TermKeyCode::End),
        KeyCode::Home => Key::Code(TermKeyCode::Home),
        KeyCode::LeftArrow => Key::Code(TermKeyCode::LeftArrow),
        KeyCode::RightArrow => Key::Code(TermKeyCode::RightArrow),
        KeyCode::UpArrow => Key::Code(TermKeyCode::UpArrow),
        KeyCode::DownArrow => Key::Code(TermKeyCode::DownArrow),
        KeyCode::Select => Key::Code(TermKeyCode::Select),
        KeyCode::Print => Key::Code(TermKeyCode::Print),
        KeyCode::Execute => Key::Code(TermKeyCode::Execute),
        KeyCode::PrintScreen => Key::Code(TermKeyCode::PrintScreen),
        KeyCode::Insert => Key::Code(TermKeyCode::Insert),
        KeyCode::Help => Key::Code(TermKeyCode::Help),
        KeyCode::LeftWindows => Key::Code(TermKeyCode::LeftWindows),
        KeyCode::RightWindows => Key::Code(TermKeyCode::RightWindows),
        KeyCode::Applications => Key::Code(TermKeyCode::Applications),
        KeyCode::Sleep => Key::Code(TermKeyCode::Sleep),
        KeyCode::Multiply => Key::Code(TermKeyCode::Multiply),
        KeyCode::Add => Key::Code(TermKeyCode::Add),
        KeyCode::Separator => Key::Code(TermKeyCode::Separator),
        KeyCode::Subtract => Key::Code(TermKeyCode::Subtract),
        KeyCode::Decimal => Key::Code(TermKeyCode::Decimal),
        KeyCode::Divide => Key::Code(TermKeyCode::Divide),
        KeyCode::NumLock => Key::Code(TermKeyCode::NumLock),
        KeyCode::ScrollLock => Key::Code(TermKeyCode::ScrollLock),
        KeyCode::Copy => Key::Code(TermKeyCode::Copy),
        KeyCode::Cut => Key::Code(TermKeyCode::Cut),
        KeyCode::Paste => Key::Code(TermKeyCode::Paste),
        KeyCode::BrowserBack => Key::Code(TermKeyCode::BrowserBack),
        KeyCode::BrowserForward => Key::Code(TermKeyCode::BrowserForward),
        KeyCode::BrowserRefresh => Key::Code(TermKeyCode::BrowserRefresh),
        KeyCode::BrowserStop => Key::Code(TermKeyCode::BrowserStop),
        KeyCode::BrowserSearch => Key::Code(TermKeyCode::BrowserSearch),
        KeyCode::BrowserFavorites => Key::Code(TermKeyCode::BrowserFavorites),
        KeyCode::BrowserHome => Key::Code(TermKeyCode::BrowserHome),
        KeyCode::VolumeMute => Key::Code(TermKeyCode::VolumeMute),
        KeyCode::VolumeDown => Key::Code(TermKeyCode::VolumeDown),
        KeyCode::VolumeUp => Key::Code(TermKeyCode::VolumeUp),
        KeyCode::MediaNextTrack => Key::Code(TermKeyCode::MediaNextTrack),
        KeyCode::MediaPrevTrack => Key::Code(TermKeyCode::MediaPrevTrack),
        KeyCode::MediaStop => Key::Code(TermKeyCode::MediaStop),
        KeyCode::MediaPlayPause => Key::Code(TermKeyCode::MediaPlayPause),
        KeyCode::ApplicationLeftArrow => Key::Code(TermKeyCode::ApplicationLeftArrow),
        KeyCode::ApplicationRightArrow => Key::Code(TermKeyCode::ApplicationRightArrow),
        KeyCode::ApplicationUpArrow => Key::Code(TermKeyCode::ApplicationUpArrow),
        KeyCode::ApplicationDownArrow => Key::Code(TermKeyCode::ApplicationDownArrow),
        KeyCode::KeyPadHome => Key::Code(TermKeyCode::KeyPadHome),
        KeyCode::KeyPadEnd => Key::Code(TermKeyCode::KeyPadEnd),
        KeyCode::KeyPadPageUp => Key::Code(TermKeyCode::KeyPadPageUp),
        KeyCode::KeyPadPageDown => Key::Code(TermKeyCode::KeyPadPageDown),
        KeyCode::KeyPadBegin => Key::Code(TermKeyCode::KeyPadBegin),
    }
}

/// What text is to the terminal: the key of its character where it is a
/// single character, else the text itself.
pub open spec fn text_key(text: String, swap: bool) -> Key {
    if text@.len() == 1 {
        Key::Code(char_key(text@[0], swap))
    } else {
        Key::Composed(text)
    }
}

/// What a key that is not a place on the keyboard is to the terminal.
pub open spec fn settled_key(key: KeyCode, swap: bool) -> Key {
    match key {
        KeyCode::Composed(text) => text_key(text, swap),
        _ => plain_key(key, swap),
    }
}

/// What a key of the window system is to the terminal. A place on the
/// keyboard stands for the key code that the keyboard table gives it, and
/// for nothing where the table gives it no key code but the place again.
pub open spec fn terminal_key(key: KeyCode, swap: bool) -> Key {
    match key {
        KeyCode::Physical(phys) => settled_key(physical_key_code(phys), swap),
        _ => settled_key(key, swap),
    }
}

/// The terminal's key for one character.
pub fn key_for_char(c: char, swap: bool) -> (code: TermKeyCode)
    ensures
        code == char_key(c, swap),
{
    if c == '\r' {
        TermKeyCode::Enter
    } else if c == '\t' {
        TermKeyCode::Tab
    } else if c == '\u{08}' {
        if swap {
            TermKeyCode::Delete
        } else {
            TermKeyCode::Backspace
        }
    } else if c == '\u{7f}' {
        if swap {
            TermKeyCode::Backspace
        } else {
            TermKeyCode::Delete
        }
    } else if c == '\u{1b}' {
        TermKeyCode::Escape
    } else {
        TermKeyCode::Char(c)
    }
}

/// What a key that is not a place on the keyboard is to the terminal: the
/// key as it is, and the key that the keyboard table gave for a place.
pub fn key_for_settled(key: &KeyCode, swap: bool) -> (result: Key)
    ensures
        result == settled_key(*key, swap),
{
    match key {
        KeyCode::Char(c) => Key::Code(key_for_char(*c, swap)),
        KeyCode::Composed(text) => {
            let s = text.as_str();
            if s.unicode_len() == 1 {
                Key::Code(key_for_char(s.get_char(0), swap))
            } else {
                Key::Composed(text.clone())
            }
        },
        KeyCode::RawCode(_) => Key::Unrepresentable,
        KeyCode::Physical(_) => Key::Unrepresentable,
        KeyCode::VoidSymbol => Key::Unrepresentable,
        KeyCode::Numpad(n) => {
            let n: u8 = *n;
            if n == 0 {
                Key::Code(TermKeyCode::Numpad0)
            } else if n == 1 {
                Key::Code(TermKeyCode::Numpad1)
            } else if n == 2 {
                Key::Code(TermKeyCode::Numpad2)
            } else if n == 3 {
                Key::Code(TermKeyCode::Numpad3)
            } else if n == 4 {
                Key::Code(TermKeyCode::Numpad4)
            } else if n == 5 {
                Key::Code(TermKeyCode::Numpad5)
            } else if n == 6 {
                Key::Code(TermKeyCode::Numpad6)
            } else if n == 7 {
                Key::Code(TermKeyCode::Numpad7)
            } else if n == 8 {
                Key::Code(TermKeyCode::Numpad8)
            } else if n == 9 {
                Key::Code(TermKeyCode::Numpad9)
            } else {
                Key::Unrepresentable
            }
        },
        KeyCode::Function(f) => Key::Code(TermKeyCode::Function(*f)),
        KeyCode::Hyper => Key::Code(TermKeyCode::Hyper),
        KeyCode::Super => Key::Code(TermKeyCode::Super),
        KeyCode::Meta => Key::Code(TermKeyCode::Meta),
        KeyCode::Cancel => Key::Code(TermKeyCode::Cancel),
        KeyCode::Clear => Key::Code(TermKeyCode::Clear),
        KeyCode::Shift => Key::Code(TermKeyCode::Shift),
        KeyCode::LeftShift => Key::Code(TermKeyCode::LeftShift),
        KeyCode::RightShift => Key::Code(TermKeyCode::RightShift),
        KeyCode::Control => Key::Code(TermKeyCode::Control),
        KeyCode::LeftControl => Key::Code(TermKeyCode::LeftControl),
        KeyCode::RightControl => Key::Code(TermKeyCode::RightControl),
        KeyCode::Alt => Key::Code(TermKeyCode::Alt),
        KeyCode::LeftAlt => Key::Code(TermKeyCode::LeftAlt),
        KeyCode::RightAlt => Key::Code(TermKeyCode::RightAlt),
        KeyCode::Pause => Key::Code(TermKeyCode::Pause),
        KeyCode::CapsLock => Key::Code(TermKeyCode::CapsLock),
        KeyCode::PageUp => Key::Code(TermKeyCode::PageUp),
        KeyCode::PageDown => Key::Code(TermKeyCode::PageDown),
        KeyCode::End => Key::Code(TermKeyCode::End),
        KeyCode::Home => Key::Code(TermKeyCode::Home),
        KeyCode::LeftArrow => Key::Code(TermKeyCode::LeftArrow),
        KeyCode::RightArrow => Key::Code(TermKeyCode::RightArrow),
        KeyCode::UpArrow => Key::Code(TermKeyCode::UpArrow),
        KeyCode::DownArrow => Key::Code(TermKeyCode::DownArrow),
        KeyCode::Select => Key::Code(TermKeyCode::Select),
        KeyCode::Print => Key::Code(TermKeyCode::Print),
        KeyCode::Execute => Key::Code(TermKeyCode::Execute),
        KeyCode::PrintScreen => Key::Code(TermKeyCode::PrintScreen),
        KeyCode::Insert => Key::Code(TermKeyCode::Insert),
        KeyCode::Help => Key::Code(TermKeyCode::Help),
        KeyCode::LeftWindows => Key::Code(TermKeyCode::LeftWindows),
        KeyCode::RightWindows => Key::Code(TermKeyCode::RightWindows),
        KeyCode::Applications => Key::Code(TermKeyCode::Applications),
        KeyCode::Sleep => Key::Code(TermKeyCode::Sleep),
        KeyCode::Multiply => Key::Code(TermKeyCode::Multiply),
        KeyCode::Add => Key::Code(TermKeyCode::Add),
        KeyCode::Separator => Key::Code(TermKeyCode::Separator),
        KeyCode::Subtract => Key::Code(TermKeyCode::Subtract),
        KeyCode::Decimal => Key::Code(TermKeyCode::Decimal),
        KeyCode::Divide => Key::Code(TermKeyCode::Divide),
        KeyCode::NumLock => Key::Code(TermKeyCode::NumLock),
        KeyCode::ScrollLock => Key::Code(TermKeyCode::ScrollLock),
        KeyCode::Copy => Key::Code(TermKeyCode::Copy),
        KeyCode::Cut => Key::Code(TermKeyCode::Cut),
        KeyCode::Paste => Key::Code(TermKeyCode::Paste),
        KeyCode::BrowserBack => Key::Code(TermKeyCode::BrowserBack),
        KeyCode::BrowserForward => Key::Code(TermKeyCode::BrowserForward),
        KeyCode::BrowserRefresh => Key::Code(TermKeyCode::BrowserRefresh),
        KeyCode::BrowserStop => Key::Code(TermKeyCode::BrowserStop),
        KeyCode::BrowserSearch => Key::Code(TermKeyCode::BrowserSearch),
        KeyCode::BrowserFavorites => Key::Code(TermKeyCode::BrowserFavorites),
        KeyCode::BrowserHome => Key::Code(TermKeyCode::BrowserHome),
        KeyCode::VolumeMute => Key::Code(TermKeyCode::VolumeMute),
        KeyCode::VolumeDown => Key::Code(TermKeyCode::VolumeDown),
        KeyCode::VolumeUp => Key::Code(TermKeyCode::VolumeUp),
        KeyCode::MediaNextTrack => Key::Code(TermKeyCode::MediaNextTrack),
        KeyCode::MediaPrevTrack => Key::Code(TermKeyCode::MediaPrevTrack),
        KeyCode::MediaStop => Key::Code(TermKeyCode::MediaStop),
        KeyCode::MediaPlayPause => Key::Code(TermKeyCode::MediaPlayPause),
        KeyCode::ApplicationLeftArrow => Key::Code(TermKeyCode::ApplicationLeftArrow),
        KeyCode::ApplicationRightArrow => Key::Code(TermKeyCode::ApplicationRightArrow),
        KeyCode::ApplicationUpArrow => Key::Code(TermKeyCode::ApplicationUpArrow),
        KeyCode::ApplicationDownArrow => Key::Code(TermKeyCode::ApplicationDownArrow),
        KeyCode::KeyPadHome => Key::Code(TermKeyCode::KeyPadHome),
        KeyCode::KeyPadEnd => Key::Code(TermKeyCode::KeyPadEnd),
        KeyCode::KeyPadPageUp => Key::Code(TermKeyCode::KeyPadPageUp),
        KeyCode::KeyPadPageDown => Key::Code(TermKeyCode::KeyPadPageDown),
        KeyCode::KeyPadBegin => Key::Code(TermKeyCode::KeyPadBegin),
    }
}

/// What `key` is to the terminal: one of its keys, text, or nothing.
/// Unrepresentable keys give nothing, and never a key.
pub fn map_key_code(key: &KeyCode, swap_backspace_and_delete: bool) -> (result: Key)
    ensures
        result == terminal_key(*key, swap_backspace_and_delete),
        unrepresentable(*key) ==> result is Unrepresentable,
{
    match key {
        KeyCode::Physical(phys) => {
            let mapped = phys_to_key_code(*phys);
            key_for_settled(&mapped, swap_backspace_and_delete)
        },
        _ => key_for_settled(key, swap_backspace_and_delete),
    }
}

} // verus!
