use vstd::prelude::*;

use crate::decoder::send_all;
use crate::event::{sent, EventReceiver, WindowEvent};
use crate::keys::{
    char_from_u32, key_from_oem_scancode, physical_key, scalar_char, KeyboardScancode,
    MouseScancode,
};
use crate::modifiers::{Modifiers, MOD_CAPSLOCK, MOD_LALT, MOD_LCTRL, MOD_LSHIFT, MOD_LSYS};
use crate::native::NativeRequest;
use crate::registry::{Registry, WindowState};
use crate::types::WindowId;

verus! {

pub const SHIFT_MASK: u32 = 0x01;

pub const LOCK_MASK: u32 = 0x02;

pub const CONTROL_MASK: u32 = 0x04;

pub const MOD1_MASK: u32 = 0x08;

pub const MOD4_MASK: u32 = 0x40;

/// An X event for one window, with the fields that decoding reads.
#[derive(Copy, Clone, Debug, PartialEq, Eq, Structural)]
pub enum XNotification {
    DestroyNotify,
    ConfigureNotify { x: i32, y: i32, width: i32, height: i32 },
    /// Key press: the hardware keycode, the keysym of the key with no modifier,
    /// the keysym under the event's modifiers, and the event's modifier state mask.
    KeyPress { keycode: u32, keysym: u32, shifted_keysym: u32, state: u32 },
    /// Key release: keycode, keysym with no modifier, and modifier state mask.
    KeyRelease { keycode: u32, keysym: u32, state: u32 },
    ButtonPress { button: u32 },
    ButtonRelease { button: u32 },
    FocusIn,
    FocusOut,
    /// Client message, with its first data word and the atom that asks to close.
    ClientMessage { data: u64, delete_atom: u64 },
    Other,
}

/// The modifiers that an X modifier state mask reports.
pub open spec fn x_modifiers(state: u32) -> Modifiers {
    Modifiers {
        bits: (if state & SHIFT_MASK != 0 { MOD_LSHIFT } else { 0 }) | (if state & CONTROL_MASK != 0 {
            MOD_LCTRL
        } else {
            0
        }) | (if state & MOD1_MASK != 0 { MOD_LALT } else { 0 }) | (if state & MOD4_MASK != 0 {
            MOD_LSYS
        } else {
            0
        }) | (if state & LOCK_MASK != 0 { MOD_CAPSLOCK } else { 0 }),
    }
}

/// The key that a keysym names, if any; letters name their key in either case.
pub open spec fn keysym_key(keysym: u32) -> Option<KeyboardScancode> {
    match keysym {
        0x0020 => Some(KeyboardScancode::Space),
        0x0027 => Some(KeyboardScancode::Apostrophe),
        0x002C => Some(KeyboardScancode::Comma),
        0x002D => Some(KeyboardScancode::Hyphen),
        0x002E => Some(KeyboardScancode::Period),
        0x002F => Some(KeyboardScancode::ForwardSlash),
        0x0030 => Some(KeyboardScancode::Key0),
        0x0031 => Some(KeyboardScancode::Key1),
        0x0032 => Some(KeyboardScancode::Key2),
        0x0033 => Some(KeyboardScancode::Key3),
        0x0034 => Some(KeyboardScancode::Key4),
        0x0035 => Some(KeyboardScancode::Key5),
        0x0036 => Some(KeyboardScancode::Key6),
        0x0037 => Some(KeyboardScancode::Key7),
        0x0038 => Some(KeyboardScancode::Key8),
        0x0039 => Some(KeyboardScancode::Key9),
        0x003B => Some(KeyboardScancode::Semicolon),
        0x003D => Some(KeyboardScancode::Equals),
        0x0041 => Some(KeyboardScancode::A),
        0x0042 => Some(KeyboardScancode::B),
        0x0043 => Some(KeyboardScancode::C),
        0x0044 => Some(KeyboardScancode::D),
        0x0045 => Some(KeyboardScancode::E),
        0x0046 => Some(KeyboardScancode::F),
        0x0047 => Some(KeyboardScancode::G),
        0x0048 => Some(KeyboardScancode::H),
        0x0049 => Some(KeyboardScancode::I),
        0x004A => Some(KeyboardScancode::J),
        0x004B => Some(KeyboardScancode::K),
        0x004C => Some(KeyboardScancode::L),
        0x004D => Some(KeyboardScancode::M),
        0x004E => Some(KeyboardScancode::N),
        0x004F => Some(KeyboardScancode::O),
        0x0050 => Some(KeyboardScancode::P),
        0x0051 => Some(KeyboardScancode::Q),
        0x0052 => Some(KeyboardScancode::R),
        0x0053 => Some(KeyboardScancode::S),
        0x0054 => Some(KeyboardScancode::T),
        0x0055 => Some(KeyboardScancode::U),
        0x0056 => Some(KeyboardScancode::V),
        0x0057 => Some(KeyboardScancode::W),
        0x0058 => Some(KeyboardScancode::X),
        0x0059 => Some(KeyboardScancode::Y),
        0x005A => Some(KeyboardScancode::Z),
        0x005B => Some(KeyboardScancode::OpenBracket),
        0x005C => Some(KeyboardScancode::BackSlash),
        0x005D => Some(KeyboardScancode::CloseBracket),
        0x0060 => Some(KeyboardScancode::Tilde),
        0x0061 => Some(KeyboardScancode::A),
        0x0062 => Some(KeyboardScancode::B),
        0x0063 => Some(KeyboardScancode::C),
        0x0064 => Some(KeyboardScancode::D),
        0x0065 => Some(KeyboardScancode::E),
        0x0066 => Some(KeyboardScancode::F),
        0x0067 => Some(KeyboardScancode::G),
        0x0068 => Some(KeyboardScancode::H),
        0x0069 => Some(KeyboardScancode::I),
        0x006A => Some(KeyboardScancode::J),
        0x006B => Some(KeyboardScancode::K),
        0x006C => Some(KeyboardScancode::L),
        0x006D => Some(KeyboardScancode::M),
        0x006E => Some(KeyboardScancode::N),
        0x006F => Some(KeyboardScancode::O),
        0x0070 => Some(KeyboardScancode::P),
        0x0071 => Some(KeyboardScancode::Q),
        0x0072 => Some(KeyboardScancode::R),
        0x0073 => Some(KeyboardScancode::S),
        0x0074 => Some(KeyboardScancode::T),
        0x0075 => Some(KeyboardScancode::U),
        0x0076 => Some(KeyboardScancode::V),
        0x0077 => Some(KeyboardScancode::W),
        0x0078 => Some(KeyboardScancode::X),
        0x0079 => Some(KeyboardScancode::Y),
        0x007A => Some(KeyboardScancode::Z),
        0xFF08 => Some(KeyboardScancode::Backspace),
        0xFF09 => Some(KeyboardScancode::Tab),
        0xFF0D => Some(KeyboardScancode::Enter),
        0xFF13 => Some(KeyboardScancode::PauseBreak),
        0xFF14 => Some(KeyboardScancode::ScrLk),
        0xFF1B => Some(KeyboardScancode::Esc),
        0xFF50 => Some(KeyboardScancode::Home),
        0xFF51 => Some(KeyboardScancode::ArrowLeft),
        0xFF52 => Some(KeyboardScancode::ArrowUp),
        0xFF53 => Some(KeyboardScancode::ArrowRight),
        0xFF54 => Some(KeyboardScancode::ArrowDown),
        0xFF55 => Some(KeyboardScancode::PgUp),
        0xFF56 => Some(KeyboardScancode::PgDn),
        0xFF57 => Some(KeyboardScancode::End),
        0xFF61 => Some(KeyboardScancode::PrtScSysRq),
        0xFF63 => Some(KeyboardScancode::Insert),
        0xFF7F => Some(KeyboardScancode::NumLk),
        0xFF8D => Some(KeyboardScancode::NumEnter),
        0xFFAA => Some(KeyboardScancode::NumAsterisk),
        0xFFAB => Some(KeyboardScancode::NumPlus),
        0xFFAD => Some(KeyboardScancode::NumHyphen),
        0xFFAE => Some(KeyboardScancode::NumPeriod),
        0xFFAF => Some(KeyboardScancode::NumSlash),
        0xFFB0 => Some(KeyboardScancode::Num0),
        0xFFB1 => Some(KeyboardScancode::Num1),
        0xFFB2 => Some(KeyboardScancode::Num2),
        0xFFB3 => Some(KeyboardScancode::Num3),
        0xFFB4 => Some(KeyboardScancode::Num4),
        0xFFB5 => Some(KeyboardScancode::Num5),
        0xFFB6 => Some(KeyboardScancode::Num6),
        0xFFB7 => Some(KeyboardScancode::Num7),
        0xFFB8 => Some(KeyboardScancode::Num8),
        0xFFB9 => Some(KeyboardScancode::Num9),
        0xFFBE => Some(KeyboardScancode::F1),
        0xFFBF => Some(KeyboardScancode::F2),
        0xFFC0 => Some(KeyboardScancode::F3),
        0xFFC1 => Some(KeyboardScancode::F4),
        0xFFC2 => Some(KeyboardScancode::F5),
        0xFFC3 => Some(KeyboardScancode::F6),
        0xFFC4 => Some(KeyboardScancode::F7),
        0xFFC5 => Some(KeyboardScancode::F8),
        0xFFC6 => Some(KeyboardScancode::F9),
        0xFFC7 => Some(KeyboardScancode::F10),
        0xFFC8 => Some(KeyboardScancode::F11),
        0xFFC9 => Some(KeyboardScancode::F12),
        0xFFE1 => Some(KeyboardScancode::LShift),
        0xFFE2 => Some(KeyboardScancode::RShift),
        0xFFE3 => Some(KeyboardScancode::LCtrl),
        0xFFE4 => Some(KeyboardScancode::RCtrl),
        0xFFE5 => Some(KeyboardScancode::CapsLk),
        0xFFE9 => Some(KeyboardScancode::LAlt),
        0xFFEA => Some(KeyboardScancode::RAlt),
        0xFFEB => Some(KeyboardScancode::LSys),
        0xFFEC => Some(KeyboardScancode::RSys),
        0xFFFF => Some(KeyboardScancode::Del),
        _ => None,
    }
}

/// The key at an X keycode: on evdev servers the keycode is the PC scancode plus 8.
pub open spec fn keycode_key(keycode: u32) -> Option<KeyboardScancode> {
    if 8 <= keycode <= 0xFF {
        physical_key((keycode - 8) as u16)
    } else {
        None
    }
}

/// The character a keysym stands for: Latin-1 keysyms are their own code point,
/// and keysyms from `0x0100_0000` carry a Unicode scalar value.
pub open spec fn keysym_char(keysym: u32) -> Option<char> {
    if (0x20 <= keysym <= 0x7E) || (0xA0 <= keysym <= 0xFF) {
        Some(keysym as char)
    } else if 0x0100_0000 <= keysym <= 0x0110_FFFF {
        scalar_char((keysym - 0x0100_0000) as u32)
    } else {
        None
    }
}

/// The key event of an X key press or release, present when the keysym names a key.
pub open spec fn x_key_event(press: bool, keycode: u32, keysym: u32, shifted_keysym: u32) -> Seq<WindowEvent> {
    match keysym_key(keysym) {
        Some(k) => if press {
            seq![
                WindowEvent::KeyDown {
                    logical_scancode: k,
                    physical_scancode: keycode_key(keycode),
                    character: keysym_char(shifted_keysym),
                    unshifted_char: keysym_char(keysym),
                },
            ]
        } else {
            seq![WindowEvent::KeyUp { logical_scancode: k, physical_scancode: keycode_key(keycode) }]
        },
        None => seq![],
    }
}

/// The mouse button of an X button number.
pub open spec fn x_button(b: u32) -> MouseScancode {
    if b == 1 {
        MouseScancode::LClick
    } else if b == 2 {
        MouseScancode::RClick
    } else if b == 3 {
        MouseScancode::MClick
    } else if b == 4 {
        MouseScancode::Button4
    } else if b == 5 {
        MouseScancode::Button5
    } else {
        MouseScancode::ButtonN(b as u8)
    }
}

/// State and events after a configure notification: a new position is recorded and
/// reported as a move, then a new size as a resize.
pub open spec fn configured(st: WindowState, x: i32, y: i32, w: i32, h: i32) -> (WindowState, Seq<WindowEvent>) {
    let moved = x != st.x || y != st.y;
    let resized = w != st.width || h != st.height;
    (
        WindowState { x, y, width: w, height: h, ..st },
        (if moved {
            seq![WindowEvent::Moved { x: x as u32, y: y as u32 }]
        } else {
            seq![]
        }) + (if resized {
            seq![WindowEvent::Resized { width: w as u32, height: h as u32 }]
        } else {
            seq![]
        }),
    )
}

/// State and events after a key event whose modifier mask is `state`: the
/// modifiers are replaced by those of the mask, and reported when they change.
pub open spec fn x_keyed(st: WindowState, state: u32) -> (WindowState, Seq<WindowEvent>) {
    let m = x_modifiers(state);
    if m != st.modifiers {
        (WindowState { modifiers: m, ..st }, seq![WindowEvent::ModifiersChanged(m)])
    } else {
        (st, seq![])
    }
}

/// State and events after a focus change, reported only when focus changes.
pub open spec fn x_focused(st: WindowState, f: bool) -> (WindowState, Seq<WindowEvent>) {
    if f != st.focused {
        (WindowState { focused: f, ..st }, seq![WindowEvent::Focused(f)])
    } else {
        (st, seq![])
    }
}

/// State, events and native request that an X event brings to window state `st`.
/// A client message carrying the close atom asks for the window's destruction.
pub open spec fn x_effect(st: WindowState, ev: XNotification) -> (WindowState, Seq<WindowEvent>, Option<NativeRequest>) {
    match ev {
        XNotification::DestroyNotify => (
            st,
            seq![WindowEvent::CloseRequested, WindowEvent::Destroyed],
            None,
        ),
        XNotification::ConfigureNotify { x, y, width, height } => (
            configured(st, x, y, width, height).0,
            configured(st, x, y, width, height).1,
            None,
        ),
        XNotification::KeyPress { keycode, keysym, shifted_keysym, state } => (
            x_keyed(st, state).0,
            x_key_event(true, keycode, keysym, shifted_keysym) + x_keyed(st, state).1,
            None,
        ),
        XNotification::KeyRelease { keycode, keysym, state } => (
            x_keyed(st, state).0,
            x_key_event(false, keycode, keysym, 0) + x_keyed(st, state).1,
            None,
        ),
        XNotification::ButtonPress { button } => (
            st,
            seq![WindowEvent::MouseButtonDown(x_button(button))],
            None,
        ),
        XNotification::ButtonRelease { button } => (
            st,
            seq![WindowEvent::MouseButtonUp(x_button(button))],
            None,
        ),
        XNotification::FocusIn => (x_focused(st, true).0, x_focused(st, true).1, None),
        XNotification::FocusOut => (x_focused(st, false).0, x_focused(st, false).1, None),
        XNotification::ClientMessage { data, delete_atom } => (
            st,
            seq![],
            if data == delete_atom {
                Some(NativeRequest::Destroy)
            } else {
                None
            },
        ),
        XNotification::Other => (st, seq![], None),
    }
}

fn x_modifiers_of(state: u32) -> (r: Modifiers)
    ensures
        r == x_modifiers(state),
{
    let shift = if state & SHIFT_MASK != 0 {
        MOD_LSHIFT
    } else {
        0
    };
    let control = if state & CONTROL_MASK != 0 {
        MOD_LCTRL
    } else {
        0
    };
    let alt = if state & MOD1_MASK != 0 {
        MOD_LALT
    } else {
        0
    };
    let sys = if state & MOD4_MASK != 0 {
        MOD_LSYS
    } else {
        0
    };
    let lock = if state & LOCK_MASK != 0 {
        MOD_CAPSLOCK
    } else {
        0
    };
    Modifiers { bits: shift | control | alt | sys | lock }
}

/// The key that a keysym names.
pub fn key_from_keysym(keysym: u32) -> (r: Option<KeyboardScancode>)
    ensures
        r == keysym_key(keysym),
{
    match keysym {
        0x0020 => Some(KeyboardScancode::Space),
        0x0027 => Some(KeyboardScancode::Apostrophe),
        0x002C => Some(KeyboardScancode::Comma),
        0x002D => Some(KeyboardScancode::Hyphen),
        0x002E => Some(KeyboardScancode::Period),
        0x002F => Some(KeyboardScancode::ForwardSlash),
        0x0030 => Some(KeyboardScancode::Key0),
        0x0031 => Some(KeyboardScancode::Key1),
        0x0032 => Some(KeyboardScancode::Key2),
        0x0033 => Some(KeyboardScancode::Key3),
        0x0034 => Some(KeyboardScancode::Key4),
        0x0035 => Some(KeyboardScancode::Key5),
        0x0036 => Some(KeyboardScancode::Key6),
        0x0037 => Some(KeyboardScancode::Key7),
        0x0038 => Some(KeyboardScancode::Key8),
        0x0039 => Some(KeyboardScancode::Key9),
        0x003B => Some(KeyboardScancode::Semicolon),
        0x003D => Some(KeyboardScancode::Equals),
        0x0041 => Some(KeyboardScancode::A),
        0x0042 => Some(KeyboardScancode::B),
        0x0043 => Some(KeyboardScancode::C),
        0x0044 => Some(KeyboardScancode::D),
        0x0045 => Some(KeyboardScancode::E),
        0x0046 => Some(KeyboardScancode::F),
        0x0047 => Some(KeyboardScancode::G),
        0x0048 => Some(KeyboardScancode::H),
        0x0049 => Some(KeyboardScancode::I),
        0x004A => Some(KeyboardScancode::J),
        0x004B => Some(KeyboardScancode::K),
        0x004C => Some(KeyboardScancode::L),
        0x004D => Some(KeyboardScancode::M),
        0x004E => Some(KeyboardScancode::N),
        0x004F => Some(KeyboardScancode::O),
        0x0050 => Some(KeyboardScancode::P),
        0x0051 => Some(KeyboardScancode::Q),
        0x0052 => Some(KeyboardScancode::R),
        0x0053 => Some(KeyboardScancode::S),
        0x0054 => Some(KeyboardScancode::T),
        0x0055 => Some(KeyboardScancode::U),
        0x0056 => Some(KeyboardScancode::V),
        0x0057 => Some(KeyboardScancode::W),
        0x0058 => Some(KeyboardScancode::X),
        0x0059 => Some(KeyboardScancode::Y),
        0x005A => Some(KeyboardScancode::Z),
        0x005B => Some(KeyboardScancode::OpenBracket),
        0x005C => Some(KeyboardScancode::BackSlash),
        0x005D => Some(KeyboardScancode::CloseBracket),
        0x0060 => Some(KeyboardScancode::Tilde),
        0x0061 => Some(KeyboardScancode::A),
        0x0062 => Some(KeyboardScancode::B),
        0x0063 => Some(KeyboardScancode::C),
        0x0064 => Some(KeyboardScancode::D),
        0x0065 => Some(KeyboardScancode::E),
        0x0066 => Some(KeyboardScancode::F),
        0x0067 => Some(KeyboardScancode::G),
        0x0068 => Some(KeyboardScancode::H),
        0x0069 => Some(KeyboardScancode::I),
        0x006A => Some(KeyboardScancode::J),
        0x006B => Some(KeyboardScancode::K),
        0x006C => Some(KeyboardScancode::L),
        0x006D => Some(KeyboardScancode::M),
        0x006E => Some(KeyboardScancode::N),
        0x006F => Some(KeyboardScancode::O),
        0x0070 => Some(KeyboardScancode::P),
        0x0071 => Some(KeyboardScancode::Q),
        0x0072 => Some(KeyboardScancode::R),
        0x0073 => Some(KeyboardScancode::S),
        0x0074 => Some(KeyboardScancode::T),
        0x0075 => Some(KeyboardScancode::U),
        0x0076 => Some(KeyboardScancode::V),
        0x0077 => Some(KeyboardScancode::W),
        0x0078 => Some(KeyboardScancode::X),
        0x0079 => Some(KeyboardScancode::Y),
        0x007A => Some(KeyboardScancode::Z),
        0xFF08 => Some(KeyboardScancode::Backspace),
        0xFF09 => Some(KeyboardScancode::Tab),
        0xFF0D => Some(KeyboardScancode::Enter),
        0xFF13 => Some(KeyboardScancode::PauseBreak),
        0xFF14 => Some(KeyboardScancode::ScrLk),
        0xFF1B => Some(KeyboardScancode::Esc),
        0xFF50 => Some(KeyboardScancode::Home),
        0xFF51 => Some(KeyboardScancode::ArrowLeft),
        0xFF52 => Some(KeyboardScancode::ArrowUp),
        0xFF53 => Some(KeyboardScancode::ArrowRight),
        0xFF54 => Some(KeyboardScancode::ArrowDown),
        0xFF55 => Some(KeyboardScancode::PgUp),
        0xFF56 => Some(KeyboardScancode::PgDn),
        0xFF57 => Some(KeyboardScancode::End),
        0xFF61 => Some(KeyboardScancode::PrtScSysRq),
        0xFF63 => Some(KeyboardScancode::Insert),
        0xFF7F => Some(KeyboardScancode::NumLk),
        0xFF8D => Some(KeyboardScancode::NumEnter),
        0xFFAA => Some(KeyboardScancode::NumAsterisk),
        0xFFAB => Some(KeyboardScancode::NumPlus),
        0xFFAD => Some(KeyboardScancode::NumHyphen),
        0xFFAE => Some(KeyboardScancode::NumPeriod),
        0xFFAF => Some(KeyboardScancode::NumSlash),
        0xFFB0 => Some(KeyboardScancode::Num0),
        0xFFB1 => Some(KeyboardScancode::Num1),
        0xFFB2 => Some(KeyboardScancode::Num2),
        0xFFB3 => Some(KeyboardScancode::Num3),
        0xFFB4 => Some(KeyboardScancode::Num4),
        0xFFB5 => Some(KeyboardScancode::Num5),
        0xFFB6 => Some(KeyboardScancode::Num6),
        0xFFB7 => Some(KeyboardScancode::Num7),
        0xFFB8 => Some(KeyboardScancode::Num8),
        0xFFB9 => Some(KeyboardScancode::Num9),
        0xFFBE => Some(KeyboardScancode::F1),
        0xFFBF => Some(KeyboardScancode::F2),
        0xFFC0 => Some(KeyboardScancode::F3),
        0xFFC1 => Some(KeyboardScancode::F4),
        0xFFC2 => Some(KeyboardScancode::F5),
        0xFFC3 => Some(KeyboardScancode::F6),
        0xFFC4 => Some(KeyboardScancode::F7),
        0xFFC5 => Some(KeyboardScancode::F8),
        0xFFC6 => Some(KeyboardScancode::F9),
        0xFFC7 => Some(KeyboardScancode::F10),
        0xFFC8 => Some(KeyboardScancode::F11),
        0xFFC9 => Some(KeyboardScancode::F12),
        0xFFE1 => Some(KeyboardScancode::LShift),
        0xFFE2 => Some(KeyboardScancode::RShift),
        0xFFE3 => Some(KeyboardScancode::LCtrl),
        0xFFE4 => Some(KeyboardScancode::RCtrl),
        0xFFE5 => Some(KeyboardScancode::CapsLk),
        0xFFE9 => Some(KeyboardScancode::LAlt),
        0xFFEA => Some(KeyboardScancode::RAlt),
        0xFFEB => Some(KeyboardScancode::LSys),
        0xFFEC => Some(KeyboardScancode::RSys),
        0xFFFF => Some(KeyboardScancode::Del),
        _ => None,
    }
}

/// The key at an X keycode.
pub fn key_from_keycode(keycode: u32) -> (r: Option<KeyboardScancode>)
    ensures
        r == keycode_key(keycode),
{
    if 8 <= keycode && keycode <= 0xFF {
        key_from_oem_scancode((keycode - 8) as u16)
    } else {
        None
    }
}

/// The character a keysym stands for.
pub fn char_from_keysym(keysym: u32) -> (r: Option<char>)
    ensures
        r == keysym_char(keysym),
{
    if (0x20 <= keysym && keysym <= 0x7E) || (0xA0 <= keysym && keysym <= 0xFF) {
        char_from_u32(keysym)
    } else if 0x0100_0000 <= keysym && keysym <= 0x0110_FFFF {
        char_from_u32(keysym - 0x0100_0000)
    } else {
        None
    }
}

fn x_button_of(b: u32) -> (r: MouseScancode)
    ensures
        r == x_button(b),
{
    if b == 1 {
        MouseScancode::LClick
    } else if b == 2 {
        MouseScancode::RClick
    } else if b == 3 {
        MouseScancode::MClick
    } else if b == 4 {
        MouseScancode::Button4
    } else if b == 5 {
        MouseScancode::Button5
    } else {
        MouseScancode::ButtonN(b as u8)
    }
}

/// Decodes one X event for window `id`: records what it changes and queues the
/// events it brings. A destroyed window's state is removed after its events are
/// queued. Events for an unregistered window are dropped.
#[verifier::spinoff_prover]
#[verifier::rlimit(100)]
pub fn handle_x_event(reg: &mut Registry, rx: &mut EventReceiver, id: WindowId, ev: XNotification) -> (r: Option<NativeRequest>)
    ensures
        old(reg).has(id) ==> {
            let st = old(reg).get(id);
            let (st2, evs, req) = x_effect(st, ev);
            &&& r == req
            &&& final(rx)@ == old(rx)@ + sent(st.sender, id, evs)
            &&& ev is DestroyNotify ==> final(reg).windows() == old(reg).windows().remove(id.0)
                && final(reg).handles() == old(reg).handles().remove(id.0)
            &&& !(ev is DestroyNotify) ==> final(reg).windows() == old(reg).windows().insert(id.0, st2)
                && final(reg).handles() == old(reg).handles()
        },
        !old(reg).has(id) ==> {
            &&& r is None
            &&& final(rx)@ == old(rx)@
            &&& final(reg).windows() == old(reg).windows()
            &&& final(reg).handles() == old(reg).handles()
        },
{
    let st = match reg.take(id) {
        Some(st) => st,
        None => {
            proof {
                assert(reg.windows() =~= old(reg).windows());
            }
            return None;
        },
    };
    let ghost st0 = st;
    let mut st = st;
    let mut evs: Vec<WindowEvent> = Vec::new();
    let mut req: Option<NativeRequest> = None;
    match ev {
        XNotification::DestroyNotify => {
            evs.push(WindowEvent::CloseRequested);
            evs.push(WindowEvent::Destroyed);
        },
        XNotification::ConfigureNotify { x, y, width, height } => {
            if x != st.x || y != st.y {
                evs.push(WindowEvent::Moved { x: x as u32, y: y as u32 });
            }
            if width != st.width || height != st.height {
                evs.push(WindowEvent::Resized { width: width as u32, height: height as u32 });
            }
            st.x = x;
            st.y = y;
            st.width = width;
            st.height = height;
        },
        XNotification::KeyPress { keycode, keysym, shifted_keysym, state } => {
            match key_from_keysym(keysym) {
                Some(k) => {
                    evs.push(
                        WindowEvent::KeyDown {
                            logical_scancode: k,
                            physical_scancode: key_from_keycode(keycode),
                            character: char_from_keysym(shifted_keysym),
                            unshifted_char: char_from_keysym(keysym),
                        },
                    );
                },
                None => {},
            }
            let m = x_modifiers_of(state);
            if m != st.modifiers {
                st.modifiers = m;
                evs.push(WindowEvent::ModifiersChanged(m));
            }
        },
        XNotification::KeyRelease { keycode, keysym, state } => {
            match key_from_keysym(keysym) {
                Some(k) => {
                    evs.push(
                        WindowEvent::KeyUp {
                            logical_scancode: k,
                            physical_scancode: key_from_keycode(keycode),
                        },
                    );
                },
                None => {},
            }
            let m = x_modifiers_of(state);
            if m != st.modifiers {
                st.modifiers = m;
                evs.push(WindowEvent::ModifiersChanged(m));
            }
        },
        XNotification::ButtonPress { button } => {
            evs.push(WindowEvent::MouseButtonDown(x_button_of(button)));
        },
        XNotification::ButtonRelease { button } => {
            evs.push(WindowEvent::MouseButtonUp(x_button_of(button)));
        },
        XNotification::FocusIn => {
            if !st.focused {
                st.focused = true;
                evs.push(WindowEvent::Focused(true));
            }
        },
        XNotification::FocusOut => {
            if st.focused {
                st.focused = false;
                evs.push(WindowEvent::Focused(false));
            }
        },
        XNotification::ClientMessage { data, delete_atom } => {
            if data == delete_atom {
                req = Some(NativeRequest::Destroy);
            }
        },
        XNotification::Other => {},
    }
    proof {
        let (s2, e2, r2) = x_effect(st0, ev);
        assert(evs@ =~= e2);
        assert(st == s2);
        assert(req == r2);
    }
    let sender = st.sender;
    send_all(sender, rx, id, &evs);
    match ev {
        XNotification::DestroyNotify => {
            reg.remove(id);
        },
        _ => {
            reg.put(id, st);
        },
    }
    req
}

} // verus!
