use vstd::prelude::*;

use crate::modifiers::{
    Modifiers, MOD_CAPSLOCK, MOD_LALT, MOD_LCTRL, MOD_LSHIFT, MOD_LSYS, MOD_NUMLOCK, MOD_RALT,
    MOD_RCTRL, MOD_RSHIFT, MOD_RSYS,
};

verus! {

pub const VK_LBUTTON: u16 = 0x01;

pub const VK_RBUTTON: u16 = 0x02;

pub const VK_MBUTTON: u16 = 0x04;

pub const VK_XBUTTON1: u16 = 0x05;

pub const VK_XBUTTON2: u16 = 0x06;

pub const VK_TAB: u16 = 0x09;

pub const VK_RETURN: u16 = 0x0D;

pub const VK_SHIFT: u16 = 0x10;

pub const VK_CONTROL: u16 = 0x11;

pub const VK_MENU: u16 = 0x12;

pub const VK_CAPITAL: u16 = 0x14;

pub const VK_LWIN: u16 = 0x5B;

pub const VK_RWIN: u16 = 0x5C;

pub const VK_SEPARATOR: u16 = 0x6C;

pub const VK_NUMLOCK: u16 = 0x90;

pub const VK_LSHIFT: u16 = 0xA0;

pub const VK_RSHIFT: u16 = 0xA1;

pub const VK_LCONTROL: u16 = 0xA2;

pub const VK_RCONTROL: u16 = 0xA3;

pub const VK_LMENU: u16 = 0xA4;

pub const VK_RMENU: u16 = 0xA5;

/// A key of the keyboard, independent of the platform.
#[derive(Copy, Clone, Debug, PartialEq, Eq, Structural)]
pub enum KeyboardScancode {
    Esc,
    F1,
    F2,
    F3,
    F4,
    F5,
    F6,
    F7,
    F8,
    F9,
    F10,
    F11,
    F12,
    PrtScSysRq,
    ScrLk,
    PauseBreak,
    Tilde,
    Key1,
    Key2,
    Key3,
    Key4,
    Key5,
    Key6,
    Key7,
    Key8,
    Key9,
    Key0,
    Hyphen,
    Equals,
    Backspace,
    Insert,
    Home,
    PgUp,
    NumLk,
    NumSlash,
    NumAsterisk,
    NumHyphen,
    Tab,
    Q,
    W,
    E,
    R,
    T,
    Y,
    U,
    I,
    O,
    P,
    OpenBracket,
    CloseBracket,
    BackSlash,
    Del,
    End,
    PgDn,
    Num7,
    Num8,
    Num9,
    NumPlus,
    CapsLk,
    A,
    S,
    D,
    F,
    G,
    H,
    J,
    K,
    L,
    Semicolon,
    Apostrophe,
    Enter,
    Num4,
    Num5,
    Num6,
    LShift,
    Z,
    X,
    C,
    V,
    B,
    N,
    M,
    Comma,
    Period,
    ForwardSlash,
    RShift,
    ArrowUp,
    Num1,
    Num2,
    Num3,
    NumEnter,
    LCtrl,
    LSys,
    LAlt,
    Space,
    RAlt,
    RSys,
    Fn,
    RCtrl,
    ArrowLeft,
    ArrowDown,
    ArrowRight,
    Num0,
    NumPeriod,
}

/// A mouse button, independent of the platform.
#[derive(Copy, Clone, Debug, PartialEq, Eq, Structural)]
pub enum MouseScancode {
    LClick,
    RClick,
    MClick,
    Button4,
    Button5,
    ButtonN(u8),
}

/// The virtual-key code that names `k` in the key table, if any.
pub open spec fn virtual_key_of(k: KeyboardScancode) -> Option<u16> {
    match k {
        KeyboardScancode::Esc => Some(0x001B),
        KeyboardScancode::F1 => Some(0x0070),
        KeyboardScancode::F2 => Some(0x0071),
        KeyboardScancode::F3 => Some(0x0072),
        KeyboardScancode::F4 => Some(0x0073),
        KeyboardScancode::F5 => Some(0x0074),
        KeyboardScancode::F6 => Some(0x0075),
        KeyboardScancode::F7 => Some(0x0076),
        KeyboardScancode::F8 => Some(0x0077),
        KeyboardScancode::F9 => Some(0x0078),
        KeyboardScancode::F10 => Some(0x0079),
        KeyboardScancode::F11 => Some(0x007A),
        KeyboardScancode::F12 => Some(0x007B),
        KeyboardScancode::PrtScSysRq => Some(0x002C),
        KeyboardScancode::ScrLk => None,
        KeyboardScancode::PauseBreak => Some(0x0013),
        KeyboardScancode::Tilde => Some(0x00C0),
        KeyboardScancode::Key1 => Some(0x0031),
        KeyboardScancode::Key2 => Some(0x0032),
        KeyboardScancode::Key3 => Some(0x0033),
        KeyboardScancode::Key4 => Some(0x0034),
        KeyboardScancode::Key5 => Some(0x0035),
        KeyboardScancode::Key6 => Some(0x0036),
        KeyboardScancode::Key7 => Some(0x0037),
        KeyboardScancode::Key8 => Some(0x0038),
        KeyboardScancode::Key9 => Some(0x0039),
        KeyboardScancode::Key0 => Some(0x0030),
        KeyboardScancode::Hyphen => Some(0x00BD),
        KeyboardScancode::Equals => Some(0x00BB),
        KeyboardScancode::Backspace => Some(0x0008),
        KeyboardScancode::Insert => Some(0x002D),
        KeyboardScancode::Home => Some(0x0024),
        KeyboardScancode::PgUp => Some(0x0021),
        KeyboardScancode::NumLk => None,
        KeyboardScancode::NumSlash => Some(0x006F),
        KeyboardScancode::NumAsterisk => Some(0x006A),
        KeyboardScancode::NumHyphen => Some(0x006D),
        KeyboardScancode::Tab => Some(0x0009),
        KeyboardScancode::Q => Some(0x0051),
        KeyboardScancode::W => Some(0x0057),
        KeyboardScancode::E => Some(0x0045),
        KeyboardScancode::R => Some(0x0052),
        KeyboardScancode::T => Some(0x0054),
        KeyboardScancode::Y => Some(0x0059),
        KeyboardScancode::U => Some(0x0055),
        KeyboardScancode::I => Some(0x0049),
        KeyboardScancode::O => Some(0x004F),
        KeyboardScancode::P => Some(0x0050),
        KeyboardScancode::OpenBracket => Some(0x00DB),
        KeyboardScancode::CloseBracket => Some(0x00DD),
        KeyboardScancode::BackSlash => Some(0x00DC),
        KeyboardScancode::Del => Some(0x002E),
        KeyboardScancode::End => Some(0x0023),
        KeyboardScancode::PgDn => Some(0x0022),
        KeyboardScancode::Num7 => Some(0x0067),
        KeyboardScancode::Num8 => Some(0x0068),
        KeyboardScancode::Num9 => Some(0x0069),
        KeyboardScancode::NumPlus => Some(0x006B),
        KeyboardScancode::CapsLk => None,
        KeyboardScancode::A => Some(0x0041),
        KeyboardScancode::S => Some(0x0053),
        KeyboardScancode::D => Some(0x0044),
        KeyboardScancode::F => Some(0x0046),
        KeyboardScancode::G => Some(0x0047),
        KeyboardScancode::H => Some(0x0048),
        KeyboardScancode::J => Some(0x004A),
        KeyboardScancode::K => Some(0x004B),
        KeyboardScancode::L => Some(0x004C),
        KeyboardScancode::Semicolon => Some(0x00BA),
        KeyboardScancode::Apostrophe => Some(0x00DE),
        KeyboardScancode::Enter => Some(0x000D),
        KeyboardScancode::Num4 => Some(0x0064),
        KeyboardScancode::Num5 => Some(0x0065),
        KeyboardScancode::Num6 => Some(0x0066),
        KeyboardScancode::LShift => None,
        KeyboardScancode::Z => Some(0x005A),
        KeyboardScancode::X => Some(0x0058),
        KeyboardScancode::C => Some(0x0043),
        KeyboardScancode::V => Some(0x0056),
        KeyboardScancode::B => Some(0x0042),
        KeyboardScancode::N => Some(0x004E),
        KeyboardScancode::M => Some(0x004D),
        KeyboardScancode::Comma => Some(0x00BC),
        KeyboardScancode::Period => Some(0x00BE),
        KeyboardScancode::ForwardSlash => Some(0x00BF),
        KeyboardScancode::RShift => None,
        KeyboardScancode::ArrowUp => Some(0x0026),
        KeyboardScancode::Num1 => Some(0x0061),
        KeyboardScancode::Num2 => Some(0x0062),
        KeyboardScancode::Num3 => Some(0x0063),
        KeyboardScancode::NumEnter => None,
        KeyboardScancode::LCtrl => None,
        KeyboardScancode::LSys => None,
        KeyboardScancode::LAlt => None,
        KeyboardScancode::Space => Some(0x0020),
        KeyboardScancode::RAlt => None,
        KeyboardScancode::RSys => None,
        KeyboardScancode::Fn => None,
        KeyboardScancode::RCtrl => None,
        KeyboardScancode::ArrowLeft => Some(0x0025),
        KeyboardScancode::ArrowDown => Some(0x0028),
        KeyboardScancode::ArrowRight => Some(0x0027),
        KeyboardScancode::Num0 => Some(0x0060),
        KeyboardScancode::NumPeriod => Some(0x006E),
    }
}

/// Whether the virtual-key code `vk` stands for `k`. The separator key of the
/// numeric keypad reads as its decimal point.
pub open spec fn virtual_key_denotes(vk: u16, k: KeyboardScancode) -> bool {
    virtual_key_of(k) == Some(vk) || (vk == VK_SEPARATOR && k == KeyboardScancode::NumPeriod)
}

/// The hardware scancode of `k` (with `0xE0` in the high byte for extended keys), if any.
pub open spec fn oem_scancode_of(k: KeyboardScancode) -> Option<u16> {
    match k {
        KeyboardScancode::Esc => Some(0x0001),
        KeyboardScancode::F1 => Some(0x003B),
        KeyboardScancode::F2 => Some(0x003C),
        KeyboardScancode::F3 => Some(0x003D),
        KeyboardScancode::F4 => Some(0x003E),
        KeyboardScancode::F5 => Some(0x003F),
        KeyboardScancode::F6 => Some(0x0040),
        KeyboardScancode::F7 => Some(0x0041),
        KeyboardScancode::F8 => Some(0x0042),
        KeyboardScancode::F9 => Some(0x0043),
        KeyboardScancode::F10 => Some(0x0044),
        KeyboardScancode::F11 => Some(0x0057),
        KeyboardScancode::F12 => Some(0x0058),
        KeyboardScancode::PrtScSysRq => None,
        KeyboardScancode::ScrLk => Some(0x0046),
        KeyboardScancode::PauseBreak => None,
        KeyboardScancode::Tilde => Some(0x0029),
        KeyboardScancode::Key1 => Some(0x0002),
        KeyboardScancode::Key2 => Some(0x0003),
        KeyboardScancode::Key3 => Some(0x0004),
        KeyboardScancode::Key4 => Some(0x0005),
        KeyboardScancode::Key5 => Some(0x0006),
        KeyboardScancode::Key6 => Some(0x0007),
        KeyboardScancode::Key7 => Some(0x0008),
        KeyboardScancode::Key8 => Some(0x0009),
        KeyboardScancode::Key9 => Some(0x000A),
        KeyboardScancode::Key0 => Some(0x000B),
        KeyboardScancode::Hyphen => Some(0x000C),
        KeyboardScancode::Equals => Some(0x000D),
        KeyboardScancode::Backspace => Some(0x000E),
        KeyboardScancode::Insert => Some(0xE052),
        KeyboardScancode::Home => Some(0xE047),
        KeyboardScancode::PgUp => Some(0xE049),
        KeyboardScancode::NumLk => None,
        KeyboardScancode::NumSlash => Some(0xE035),
        KeyboardScancode::NumAsterisk => Some(0x0037),
        KeyboardScancode::NumHyphen => Some(0x004A),
        KeyboardScancode::Tab => Some(0x000F),
        KeyboardScancode::Q => Some(0x0010),
        KeyboardScancode::W => Some(0x0011),
        KeyboardScancode::E => Some(0x0012),
        KeyboardScancode::R => Some(0x0013),
        KeyboardScancode::T => Some(0x0014),
        KeyboardScancode::Y => Some(0x0015),
        KeyboardScancode::U => Some(0x0016),
        KeyboardScancode::I => Some(0x0017),
        KeyboardScancode::O => Some(0x0018),
        KeyboardScancode::P => Some(0x0019),
        KeyboardScancode::OpenBracket => Some(0x001A),
        KeyboardScancode::CloseBracket => Some(0x001B),
        KeyboardScancode::BackSlash => Some(0x002B),
        KeyboardScancode::Del => Some(0xE053),
        KeyboardScancode::End => Some(0xE04F),
        KeyboardScancode::PgDn => Some(0xE051),
        KeyboardScancode::Num7 => Some(0x0047),
        KeyboardScancode::Num8 => Some(0x0048),
        KeyboardScancode::Num9 => Some(0x0049),
        KeyboardScancode::NumPlus => Some(0x004E),
        KeyboardScancode::CapsLk => Some(0x003A),
        KeyboardScancode::A => Some(0x001E),
        KeyboardScancode::S => Some(0x001F),
        KeyboardScancode::D => Some(0x0020),
        KeyboardScancode::F => Some(0x0021),
        KeyboardScancode::G => Some(0x0022),
        KeyboardScancode::H => Some(0x0023),
        KeyboardScancode::J => Some(0x0024),
        KeyboardScancode::K => Some(0x0025),
        KeyboardScancode::L => Some(0x0026),
        KeyboardScancode::Semicolon => Some(0x0027),
        KeyboardScancode::Apostrophe => Some(0x0028),
        KeyboardScancode::Enter => Some(0x001C),
        KeyboardScancode::Num4 => Some(0x004B),
        KeyboardScancode::Num5 => Some(0x004C),
        KeyboardScancode::Num6 => Some(0x004D),
        KeyboardScancode::LShift => Some(0x002A),
        KeyboardScancode::Z => Some(0x002C),
        KeyboardScancode::X => Some(0x002D),
        KeyboardScancode::C => Some(0x002E),
        KeyboardScancode::V => Some(0x002F),
        KeyboardScancode::B => Some(0x0030),
        KeyboardScancode::N => Some(0x0031),
        KeyboardScancode::M => Some(0x0032),
        KeyboardScancode::Comma => Some(0x0033),
        KeyboardScancode::Period => Some(0x0034),
        KeyboardScancode::ForwardSlash => Some(0x0035),
        KeyboardScancode::RShift => Some(0x0036),
        KeyboardScancode::ArrowUp => Some(0xE048),
        KeyboardScancode::Num1 => Some(0x004F),
        KeyboardScancode::Num2 => Some(0x0050),
        KeyboardScancode::Num3 => Some(0x0051),
        KeyboardScancode::NumEnter => Some(0xE01C),
        KeyboardScancode::LCtrl => Some(0x001D),
        KeyboardScancode::LSys => Some(0xE05B),
        KeyboardScancode::LAlt => Some(0x0038),
        KeyboardScancode::Space => Some(0x0039),
        KeyboardScancode::RAlt => Some(0xE038),
        KeyboardScancode::RSys => Some(0xE05C),
        KeyboardScancode::Fn => None,
        KeyboardScancode::RCtrl => Some(0xE01D),
        KeyboardScancode::ArrowLeft => Some(0xE04B),
        KeyboardScancode::ArrowDown => Some(0xE050),
        KeyboardScancode::ArrowRight => Some(0xE04D),
        KeyboardScancode::Num0 => Some(0x0052),
        KeyboardScancode::NumPeriod => Some(0x0053),
    }
}

/// The modifier flag of a side-specific modifier or lock virtual key.
pub open spec fn modifier_flag_of_vk(vk: u16) -> Option<u16> {
    if vk == VK_LSHIFT {
        Some(MOD_LSHIFT)
    } else if vk == VK_RSHIFT {
        Some(MOD_RSHIFT)
    } else if vk == VK_LMENU {
        Some(MOD_LALT)
    } else if vk == VK_RMENU {
        Some(MOD_RALT)
    } else if vk == VK_LCONTROL {
        Some(MOD_LCTRL)
    } else if vk == VK_RCONTROL {
        Some(MOD_RCTRL)
    } else if vk == VK_LWIN {
        Some(MOD_LSYS)
    } else if vk == VK_RWIN {
        Some(MOD_RSYS)
    } else if vk == VK_CAPITAL {
        Some(MOD_CAPSLOCK)
    } else if vk == VK_NUMLOCK {
        Some(MOD_NUMLOCK)
    } else {
        None
    }
}

/// Whether `vk` names a modifier without saying which side of the keyboard it is on.
pub open spec fn is_sideless_modifier(vk: u16) -> bool {
    vk == VK_SHIFT || vk == VK_MENU || vk == VK_CONTROL
}

/// The key that the virtual-key code `code` names, if any.
pub open spec fn logical_key(code: u16) -> Option<KeyboardScancode> {
    match code {
        0x0008 => Some(KeyboardScancode::Backspace),
        0x0009 => Some(KeyboardScancode::Tab),
        0x000D => Some(KeyboardScancode::Enter),
        0x0013 => Some(KeyboardScancode::PauseBreak),
        0x001B => Some(KeyboardScancode::Esc),
        0x0020 => Some(KeyboardScancode::Space),
        0x0021 => Some(KeyboardScancode::PgUp),
        0x0022 => Some(KeyboardScancode::PgDn),
        0x0023 => Some(KeyboardScancode::End),
        0x0024 => Some(KeyboardScancode::Home),
        0x0025 => Some(KeyboardScancode::ArrowLeft),
        0x0026 => Some(KeyboardScancode::ArrowUp),
        0x0027 => Some(KeyboardScancode::ArrowRight),
        0x0028 => Some(KeyboardScancode::ArrowDown),
        0x002C => Some(KeyboardScancode::PrtScSysRq),
        0x002D => Some(KeyboardScancode::Insert),
        0x002E => Some(KeyboardScancode::Del),
        0x0030 => Some(KeyboardScancode::Key0),
        0x0031 => Some(KeyboardScancode::Key1),
        0x0032 => Some(KeyboardScancode::Key2),
        0x0033 => Some(KeyboardScancode::Key3),
        0x0034 => Some(KeyboardScancode::Key4),
        0x0035 => Some(KeyboardScancode::Key5),
        0x0036 => Some(KeyboardScancode::Key6),
        0x0037 => Some(KeyboardScancode::Key7),
        0x0038 => Some(KeyboardScancode::Key8),
        0x0039 => Some(KeyboardScancode::Key9),
        0x0041 => Some(KeyboardScancode::A),
        0x0042 => Some(KeyboardScancode::B),
        0x0043 => Some(KeyboardScancode::C),
        0x0044 => Some(KeyboardScancode::D),
        0x0045 => Some(KeyboardScancode::E),
        0x0046 => Some(KeyboardScancode::F),
        0x0047 => Some(KeyboardScancode::G),
        0x0048 => Some(KeyboardScancode::H),
        0x0049 => Some(KeyboardScancode::I),
        0x004A => Some(KeyboardScancode::J),
        0x004B => Some(KeyboardScancode::K),
        0x004C => Some(KeyboardScancode::L),
        0x004D => Some(KeyboardScancode::M),
        0x004E => Some(KeyboardScancode::N),
        0x004F => Some(KeyboardScancode::O),
        0x0050 => Some(KeyboardScancode::P),
        0x0051 => Some(KeyboardScancode::Q),
        0x0052 => Some(KeyboardScancode::R),
        0x0053 => Some(KeyboardScancode::S),
        0x0054 => Some(KeyboardScancode::T),
        0x0055 => Some(KeyboardScancode::U),
        0x0056 => Some(KeyboardScancode::V),
        0x0057 => Some(KeyboardScancode::W),
        0x0058 => Some(KeyboardScancode::X),
        0x0059 => Some(KeyboardScancode::Y),
        0x005A => Some(KeyboardScancode::Z),
        0x0060 => Some(KeyboardScancode::Num0),
        0x0061 => Some(KeyboardScancode::Num1),
        0x0062 => Some(KeyboardScancode::Num2),
        0x0063 => Some(KeyboardScancode::Num3),
        0x0064 => Some(KeyboardScancode::Num4),
        0x0065 => Some(KeyboardScancode::Num5),
        0x0066 => Some(KeyboardScancode::Num6),
        0x0067 => Some(KeyboardScancode::Num7),
        0x0068 => Some(KeyboardScancode::Num8),
        0x0069 => Some(KeyboardScancode::Num9),
        0x006A => Some(KeyboardScancode::NumAsterisk),
        0x006B => Some(KeyboardScancode::NumPlus),
        0x006D => Some(KeyboardScancode::NumHyphen),
        0x006E => Some(KeyboardScancode::NumPeriod),
        0x006F => Some(KeyboardScancode::NumSlash),
        0x0070 => Some(KeyboardScancode::F1),
        0x0071 => Some(KeyboardScancode::F2),
        0x0072 => Some(KeyboardScancode::F3),
        0x0073 => Some(KeyboardScancode::F4),
        0x0074 => Some(KeyboardScancode::F5),
        0x0075 => Some(KeyboardScancode::F6),
        0x0076 => Some(KeyboardScancode::F7),
        0x0077 => Some(KeyboardScancode::F8),
        0x0078 => Some(KeyboardScancode::F9),
        0x0079 => Some(KeyboardScancode::F10),
        0x007A => Some(KeyboardScancode::F11),
        0x007B => Some(KeyboardScancode::F12),
        0x00BA => Some(KeyboardScancode::Semicolon),
        0x00BB => Some(KeyboardScancode::Equals),
        0x00BC => Some(KeyboardScancode::Comma),
        0x00BD => Some(KeyboardScancode::Hyphen),
        0x00BE => Some(KeyboardScancode::Period),
        0x00BF => Some(KeyboardScancode::ForwardSlash),
        0x00C0 => Some(KeyboardScancode::Tilde),
        0x00DB => Some(KeyboardScancode::OpenBracket),
        0x00DC => Some(KeyboardScancode::BackSlash),
        0x00DD => Some(KeyboardScancode::CloseBracket),
        0x00DE => Some(KeyboardScancode::Apostrophe),
        0x006C => Some(KeyboardScancode::NumPeriod),
        _ => None,
    }
}

/// The key at the hardware scancode `code`, if any.
pub open spec fn physical_key(code: u16) -> Option<KeyboardScancode> {
    match code {
        0x0001 => Some(KeyboardScancode::Esc),
        0x0002 => Some(KeyboardScancode::Key1),
        0x0003 => Some(KeyboardScancode::Key2),
        0x0004 => Some(KeyboardScancode::Key3),
        0x0005 => Some(KeyboardScancode::Key4),
        0x0006 => Some(KeyboardScancode::Key5),
        0x0007 => Some(KeyboardScancode::Key6),
        0x0008 => Some(KeyboardScancode::Key7),
        0x0009 => Some(KeyboardScancode::Key8),
        0x000A => Some(KeyboardScancode::Key9),
        0x000B => Some(KeyboardScancode::Key0),
        0x000C => Some(KeyboardScancode::Hyphen),
        0x000D => Some(KeyboardScancode::Equals),
        0x000E => Some(KeyboardScancode::Backspace),
        0x000F => Some(KeyboardScancode::Tab),
        0x0010 => Some(KeyboardScancode::Q),
        0x0011 => Some(KeyboardScancode::W),
        0x0012 => Some(KeyboardScancode::E),
        0x0013 => Some(KeyboardScancode::R),
        0x0014 => Some(KeyboardScancode::T),
        0x0015 => Some(KeyboardScancode::Y),
        0x0016 => Some(KeyboardScancode::U),
        0x0017 => Some(KeyboardScancode::I),
        0x0018 => Some(KeyboardScancode::O),
        0x0019 => Some(KeyboardScancode::P),
        0x001A => Some(KeyboardScancode::OpenBracket),
        0x001B => Some(KeyboardScancode::CloseBracket),
        0x001C => Some(KeyboardScancode::Enter),
        0x001D => Some(KeyboardScancode::LCtrl),
        0x001E => Some(KeyboardScancode::A),
        0x001F => Some(KeyboardScancode::S),
        0x0020 => Some(KeyboardScancode::D),
        0x0021 => Some(KeyboardScancode::F),
        0x0022 => Some(KeyboardScancode::G),
        0x0023 => Some(KeyboardScancode::H),
        0x0024 => Some(KeyboardScancode::J),
        0x0025 => Some(KeyboardScancode::K),
        0x0026 => Some(KeyboardScancode::L),
        0x0027 => Some(KeyboardScancode::Semicolon),
        0x0028 => Some(KeyboardScancode::Apostrophe),
        0x0029 => Some(KeyboardScancode::Tilde),
        0x002A => Some(KeyboardScancode::LShift),
        0x002B => Some(KeyboardScancode::BackSlash),
        0x002C => Some(KeyboardScancode::Z),
        0x002D => Some(KeyboardScancode::X),
        0x002E => Some(KeyboardScancode::C),
        0x002F => Some(KeyboardScancode::V),
        0x0030 => Some(KeyboardScancode::B),
        0x0031 => Some(KeyboardScancode::N),
        0x0032 => Some(KeyboardScancode::M),
        0x0033 => Some(KeyboardScancode::Comma),
        0x0034 => Some(KeyboardScancode::Period),
        0x0035 => Some(KeyboardScancode::ForwardSlash),
        0x0036 => Some(KeyboardScancode::RShift),
        0x0037 => Some(KeyboardScancode::NumAsterisk),
        0x0038 => Some(KeyboardScancode::LAlt),
        0x0039 => Some(KeyboardScancode::Space),
        0x003A => Some(KeyboardScancode::CapsLk),
        0x003B => Some(KeyboardScancode::F1),
        0x003C => Some(KeyboardScancode::F2),
        0x003D => Some(KeyboardScancode::F3),
        0x003E => Some(KeyboardScancode::F4),
        0x003F => Some(KeyboardScancode::F5),
        0x0040 => Some(KeyboardScancode::F6),
        0x0041 => Some(KeyboardScancode::F7),
        0x0042 => Some(KeyboardScancode::F8),
        0x0043 => Some(KeyboardScancode::F9),
        0x0044 => Some(KeyboardScancode::F10),
        0x0046 => Some(KeyboardScancode::ScrLk),
        0x0047 => Some(KeyboardScancode::Num7),
        0x0048 => Some(KeyboardScancode::Num8),
        0x0049 => Some(KeyboardScancode::Num9),
        0x004A => Some(KeyboardScancode::NumHyphen),
        0x004B => Some(KeyboardScancode::Num4),
        0x004C => Some(KeyboardScancode::Num5),
        0x004D => Some(KeyboardScancode::Num6),
        0x004E => Some(KeyboardScancode::NumPlus),
        0x004F => Some(KeyboardScancode::Num1),
        0x0050 => Some(KeyboardScancode::Num2),
        0x0051 => Some(KeyboardScancode::Num3),
        0x0052 => Some(KeyboardScancode::Num0),
        0x0053 => Some(KeyboardScancode::NumPeriod),
        0x0057 => Some(KeyboardScancode::F11),
        0x0058 => Some(KeyboardScancode::F12),
        0xE01C => Some(KeyboardScancode::NumEnter),
        0xE01D => Some(KeyboardScancode::RCtrl),
        0xE035 => Some(KeyboardScancode::NumSlash),
        0xE038 => Some(KeyboardScancode::RAlt),
        0xE047 => Some(KeyboardScancode::Home),
        0xE048 => Some(KeyboardScancode::ArrowUp),
        0xE049 => Some(KeyboardScancode::PgUp),
        0xE04B => Some(KeyboardScancode::ArrowLeft),
        0xE04D => Some(KeyboardScancode::ArrowRight),
        0xE04F => Some(KeyboardScancode::End),
        0xE050 => Some(KeyboardScancode::ArrowDown),
        0xE051 => Some(KeyboardScancode::PgDn),
        0xE052 => Some(KeyboardScancode::Insert),
        0xE053 => Some(KeyboardScancode::Del),
        0xE05B => Some(KeyboardScancode::LSys),
        0xE05C => Some(KeyboardScancode::RSys),
        _ => None,
    }
}

/// The virtual-key table read both ways: `code` names `k` exactly when `k` is
/// named by `code`.
pub proof fn lemma_logical_key_inverse(code: u16, k: KeyboardScancode)
    ensures
        logical_key(code) == Some(k) <==> virtual_key_denotes(code, k),
{
}

/// The scancode table read both ways: `k` sits at `code` exactly when `code` is
/// the scancode of `k`.
pub proof fn lemma_physical_key_inverse(code: u16, k: KeyboardScancode)
    ensures
        physical_key(code) == Some(k) <==> oem_scancode_of(k) == Some(code),
{
}

/// The layout-dependent key that a virtual-key code names.
pub fn key_from_virtual_key(code: u16) -> (r: Option<KeyboardScancode>)
    ensures
        r == logical_key(code),
{
    let r = match code {
        0x0008 => Some(KeyboardScancode::Backspace),
        0x0009 => Some(KeyboardScancode::Tab),
        0x000D => Some(KeyboardScancode::Enter),
        0x0013 => Some(KeyboardScancode::PauseBreak),
        0x001B => Some(KeyboardScancode::Esc),
        0x0020 => Some(KeyboardScancode::Space),
        0x0021 => Some(KeyboardScancode::PgUp),
        0x0022 => Some(KeyboardScancode::PgDn),
        0x0023 => Some(KeyboardScancode::End),
        0x0024 => Some(KeyboardScancode::Home),
        0x0025 => Some(KeyboardScancode::ArrowLeft),
        0x0026 => Some(KeyboardScancode::ArrowUp),
        0x0027 => Some(KeyboardScancode::ArrowRight),
        0x0028 => Some(KeyboardScancode::ArrowDown),
        0x002C => Some(KeyboardScancode::PrtScSysRq),
        0x002D => Some(KeyboardScancode::Insert),
        0x002E => Some(KeyboardScancode::Del),
        0x0030 => Some(KeyboardScancode::Key0),
        0x0031 => Some(KeyboardScancode::Key1),
        0x0032 => Some(KeyboardScancode::Key2),
        0x0033 => Some(KeyboardScancode::Key3),
        0x0034 => Some(KeyboardScancode::Key4),
        0x0035 => Some(KeyboardScancode::Key5),
        0x0036 => Some(KeyboardScancode::Key6),
        0x0037 => Some(KeyboardScancode::Key7),
        0x0038 => Some(KeyboardScancode::Key8),
        0x0039 => Some(KeyboardScancode::Key9),
        0x0041 => Some(KeyboardScancode::A),
        0x0042 => Some(KeyboardScancode::B),
        0x0043 => Some(KeyboardScancode::C),
        0x0044 => Some(KeyboardScancode::D),
        0x0045 => Some(KeyboardScancode::E),
        0x0046 => Some(KeyboardScancode::F),
        0x0047 => Some(KeyboardScancode::G),
        0x0048 => Some(KeyboardScancode::H),
        0x0049 => Some(KeyboardScancode::I),
        0x004A => Some(KeyboardScancode::J),
        0x004B => Some(KeyboardScancode::K),
        0x004C => Some(KeyboardScancode::L),
        0x004D => Some(KeyboardScancode::M),
        0x004E => Some(KeyboardScancode::N),
        0x004F => Some(KeyboardScancode::O),
        0x0050 => Some(KeyboardScancode::P),
        0x0051 => Some(KeyboardScancode::Q),
        0x0052 => Some(KeyboardScancode::R),
        0x0053 => Some(KeyboardScancode::S),
        0x0054 => Some(KeyboardScancode::T),
        0x0055 => Some(KeyboardScancode::U),
        0x0056 => Some(KeyboardScancode::V),
        0x0057 => Some(KeyboardScancode::W),
        0x0058 => Some(KeyboardScancode::X),
        0x0059 => Some(KeyboardScancode::Y),
        0x005A => Some(KeyboardScancode::Z),
        0x0060 => Some(KeyboardScancode::Num0),
        0x0061 => Some(KeyboardScancode::Num1),
        0x0062 => Some(KeyboardScancode::Num2),
        0x0063 => Some(KeyboardScancode::Num3),
        0x0064 => Some(KeyboardScancode::Num4),
        0x0065 => Some(KeyboardScancode::Num5),
        0x0066 => Some(KeyboardScancode::Num6),
        0x0067 => Some(KeyboardScancode::Num7),
        0x0068 => Some(KeyboardScancode::Num8),
        0x0069 => Some(KeyboardScancode::Num9),
        0x006A => Some(KeyboardScancode::NumAsterisk),
        0x006B => Some(KeyboardScancode::NumPlus),
        0x006D => Some(KeyboardScancode::NumHyphen),
        0x006E => Some(KeyboardScancode::NumPeriod),
        0x006F => Some(KeyboardScancode::NumSlash),
        0x0070 => Some(KeyboardScancode::F1),
        0x0071 => Some(KeyboardScancode::F2),
        0x0072 => Some(KeyboardScancode::F3),
        0x0073 => Some(KeyboardScancode::F4),
        0x0074 => Some(KeyboardScancode::F5),
        0x0075 => Some(KeyboardScancode::F6),
        0x0076 => Some(KeyboardScancode::F7),
        0x0077 => Some(KeyboardScancode::F8),
        0x0078 => Some(KeyboardScancode::F9),
        0x0079 => Some(KeyboardScancode::F10),
        0x007A => Some(KeyboardScancode::F11),
        0x007B => Some(KeyboardScancode::F12),
        0x00BA => Some(KeyboardScancode::Semicolon),
        0x00BB => Some(KeyboardScancode::Equals),
        0x00BC => Some(KeyboardScancode::Comma),
        0x00BD => Some(KeyboardScancode::Hyphen),
        0x00BE => Some(KeyboardScancode::Period),
        0x00BF => Some(KeyboardScancode::ForwardSlash),
        0x00C0 => Some(KeyboardScancode::Tilde),
        0x00DB => Some(KeyboardScancode::OpenBracket),
        0x00DC => Some(KeyboardScancode::BackSlash),
        0x00DD => Some(KeyboardScancode::CloseBracket),
        0x00DE => Some(KeyboardScancode::Apostrophe),
        0x006C => Some(KeyboardScancode::NumPeriod),
        _ => None,
    };
    r
}

/// The physical key at a hardware scancode; this does not depend on the layout.
pub fn key_from_oem_scancode(code: u16) -> (r: Option<KeyboardScancode>)
    ensures
        r == physical_key(code),
{
    match code {
        0x0001 => Some(KeyboardScancode::Esc),
        0x0002 => Some(KeyboardScancode::Key1),
        0x0003 => Some(KeyboardScancode::Key2),
        0x0004 => Some(KeyboardScancode::Key3),
        0x0005 => Some(KeyboardScancode::Key4),
        0x0006 => Some(KeyboardScancode::Key5),
        0x0007 => Some(KeyboardScancode::Key6),
        0x0008 => Some(KeyboardScancode::Key7),
        0x0009 => Some(KeyboardScancode::Key8),
        0x000A => Some(KeyboardScancode::Key9),
        0x000B => Some(KeyboardScancode::Key0),
        0x000C => Some(KeyboardScancode::Hyphen),
        0x000D => Some(KeyboardScancode::Equals),
        0x000E => Some(KeyboardScancode::Backspace),
        0x000F => Some(KeyboardScancode::Tab),
        0x0010 => Some(KeyboardScancode::Q),
        0x0011 => Some(KeyboardScancode::W),
        0x0012 => Some(KeyboardScancode::E),
        0x0013 => Some(KeyboardScancode::R),
        0x0014 => Some(KeyboardScancode::T),
        0x0015 => Some(KeyboardScancode::Y),
        0x0016 => Some(KeyboardScancode::U),
        0x0017 => Some(KeyboardScancode::I),
        0x0018 => Some(KeyboardScancode::O),
        0x0019 => Some(KeyboardScancode::P),
        0x001A => Some(KeyboardScancode::OpenBracket),
        0x001B => Some(KeyboardScancode::CloseBracket),
        0x001C => Some(KeyboardScancode::Enter),
        0x001D => Some(KeyboardScancode::LCtrl),
        0x001E => Some(KeyboardScancode::A),
        0x001F => Some(KeyboardScancode::S),
        0x0020 => Some(KeyboardScancode::D),
        0x0021 => Some(KeyboardScancode::F),
        0x0022 => Some(KeyboardScancode::G),
        0x0023 => Some(KeyboardScancode::H),
        0x0024 => Some(KeyboardScancode::J),
        0x0025 => Some(KeyboardScancode::K),
        0x0026 => Some(KeyboardScancode::L),
        0x0027 => Some(KeyboardScancode::Semicolon),
        0x0028 => Some(KeyboardScancode::Apostrophe),
        0x0029 => Some(KeyboardScancode::Tilde),
        0x002A => Some(KeyboardScancode::LShift),
        0x002B => Some(KeyboardScancode::BackSlash),
        0x002C => Some(KeyboardScancode::Z),
        0x002D => Some(KeyboardScancode::X),
        0x002E => Some(KeyboardScancode::C),
        0x002F => Some(KeyboardScancode::V),
        0x0030 => Some(KeyboardScancode::B),
        0x0031 => Some(KeyboardScancode::N),
        0x0032 => Some(KeyboardScancode::M),
        0x0033 => Some(KeyboardScancode::Comma),
        0x0034 => Some(KeyboardScancode::Period),
        0x0035 => Some(KeyboardScancode::ForwardSlash),
        0x0036 => Some(KeyboardScancode::RShift),
        0x0037 => Some(KeyboardScancode::NumAsterisk),
        0x0038 => Some(KeyboardScancode::LAlt),
        0x0039 => Some(KeyboardScancode::Space),
        0x003A => Some(KeyboardScancode::CapsLk),
        0x003B => Some(KeyboardScancode::F1),
        0x003C => Some(KeyboardScancode::F2),
        0x003D => Some(KeyboardScancode::F3),
        0x003E => Some(KeyboardScancode::F4),
        0x003F => Some(KeyboardScancode::F5),
        0x0040 => Some(KeyboardScancode::F6),
        0x0041 => Some(KeyboardScancode::F7),
        0x0042 => Some(KeyboardScancode::F8),
        0x0043 => Some(KeyboardScancode::F9),
        0x0044 => Some(KeyboardScancode::F10),
        0x0046 => Some(KeyboardScancode::ScrLk),
        0x0047 => Some(KeyboardScancode::Num7),
        0x0048 => Some(KeyboardScancode::Num8),
        0x0049 => Some(KeyboardScancode::Num9),
        0x004A => Some(KeyboardScancode::NumHyphen),
        0x004B => Some(KeyboardScancode::Num4),
        0x004C => Some(KeyboardScancode::Num5),
        0x004D => Some(KeyboardScancode::Num6),
        0x004E => Some(KeyboardScancode::NumPlus),
        0x004F => Some(KeyboardScancode::Num1),
        0x0050 => Some(KeyboardScancode::Num2),
        0x0051 => Some(KeyboardScancode::Num3),
        0x0052 => Some(KeyboardScancode::Num0),
        0x0053 => Some(KeyboardScancode::NumPeriod),
        0x0057 => Some(KeyboardScancode::F11),
        0x0058 => Some(KeyboardScancode::F12),
        0xE01C => Some(KeyboardScancode::NumEnter),
        0xE01D => Some(KeyboardScancode::RCtrl),
        0xE035 => Some(KeyboardScancode::NumSlash),
        0xE038 => Some(KeyboardScancode::RAlt),
        0xE047 => Some(KeyboardScancode::Home),
        0xE048 => Some(KeyboardScancode::ArrowUp),
        0xE049 => Some(KeyboardScancode::PgUp),
        0xE04B => Some(KeyboardScancode::ArrowLeft),
        0xE04D => Some(KeyboardScancode::ArrowRight),
        0xE04F => Some(KeyboardScancode::End),
        0xE050 => Some(KeyboardScancode::ArrowDown),
        0xE051 => Some(KeyboardScancode::PgDn),
        0xE052 => Some(KeyboardScancode::Insert),
        0xE053 => Some(KeyboardScancode::Del),
        0xE05B => Some(KeyboardScancode::LSys),
        0xE05C => Some(KeyboardScancode::RSys),
        _ => None,
    }
}

/// The mouse button that a virtual-key code names, if any.
pub open spec fn mouse_button(vk: u16) -> Option<MouseScancode> {
    if vk == VK_LBUTTON {
        Some(MouseScancode::LClick)
    } else if vk == VK_RBUTTON {
        Some(MouseScancode::RClick)
    } else if vk == VK_MBUTTON {
        Some(MouseScancode::MClick)
    } else if vk == VK_XBUTTON1 {
        Some(MouseScancode::Button4)
    } else if vk == VK_XBUTTON2 {
        Some(MouseScancode::Button5)
    } else {
        None
    }
}

/// The mouse button that a virtual-key code names.
pub fn mouse_from_virtual_key(code: u16) -> (r: Option<MouseScancode>)
    ensures
        r == mouse_button(code),
{
    match code {
        VK_LBUTTON => Some(MouseScancode::LClick),
        VK_RBUTTON => Some(MouseScancode::RClick),
        VK_MBUTTON => Some(MouseScancode::MClick),
        VK_XBUTTON1 => Some(MouseScancode::Button4),
        VK_XBUTTON2 => Some(MouseScancode::Button5),
        _ => None,
    }
}

/// The modifier flag of the key `vk`. A sideless shift, alt or control code is first
/// replaced by `sided_vk`, the side-specific code that the platform derives from the
/// key's scancode.
pub fn modifier_for_key(vk: u16, sided_vk: u16) -> (r: Option<Modifiers>)
    ensures
        r == (match modifier_flag_of_vk(if is_sideless_modifier(vk) { sided_vk } else { vk }) {
            Some(f) => Some(Modifiers { bits: f }),
            None => None,
        }),
{
    let vk = if vk == VK_SHIFT || vk == VK_MENU || vk == VK_CONTROL {
        sided_vk
    } else {
        vk
    };
    let flag = if vk == VK_LSHIFT {
        MOD_LSHIFT
    } else if vk == VK_RSHIFT {
        MOD_RSHIFT
    } else if vk == VK_LMENU {
        MOD_LALT
    } else if vk == VK_RMENU {
        MOD_RALT
    } else if vk == VK_LCONTROL {
        MOD_LCTRL
    } else if vk == VK_RCONTROL {
        MOD_RCTRL
    } else if vk == VK_LWIN {
        MOD_LSYS
    } else if vk == VK_RWIN {
        MOD_RSYS
    } else if vk == VK_CAPITAL {
        MOD_CAPSLOCK
    } else if vk == VK_NUMLOCK {
        MOD_NUMLOCK
    } else {
        return None;
    };
    Some(Modifiers { bits: flag })
}

/// Whether a key was up or down.
#[derive(Copy, Clone, Debug, PartialEq, Eq, Structural)]
pub enum KeyState {
    Up,
    Down,
}

impl KeyState {
    pub fn from_bool(b: bool) -> (r: KeyState)
        ensures
            r == (if b { KeyState::Down } else { KeyState::Up }),
    {
        if b {
            KeyState::Down
        } else {
            KeyState::Up
        }
    }
}

/// The hardware scancode in a key message's packed parameter: bits 16 to 23, with
/// `0xE0` put in the high byte when bit 24 marks an extended key.
pub open spec fn lparam_scancode(l: isize) -> u16 {
    let low = ((l >> 16) & 0xFF) as u16;
    if l & 0x0100_0000 != 0 {
        low | 0xE000
    } else {
        low
    }
}

/// The fields packed in the parameter of a key message.
#[derive(Copy, Clone, Debug, PartialEq, Eq, Structural)]
pub struct KeyPressInfo {
    pub repeat_count: u16,
    pub scancode: u16,
    pub context_code: bool,
    pub previous_state: KeyState,
}

impl KeyPressInfo {
    /// Unpacks a key message's parameter: repeat count in bits 0 to 15, scancode as
    /// `lparam_scancode` reads it, context code in bit 28, previous key state in bit 30.
    pub fn from_isize(i: isize) -> (r: KeyPressInfo)
        ensures
            r.repeat_count == (i & 0xFFFF) as u16,
            r.scancode == lparam_scancode(i),
            r.context_code == (i & 0x1000_0000 != 0),
            r.previous_state == (if i & 0x4000_0000 != 0 { KeyState::Down } else { KeyState::Up }),
    {
        let repeat_count = (i & 0xFFFF) as u16;
        let low = ((i >> 16) & 0xFF) as u16;
        let scancode = if i & 0x0100_0000 != 0 {
            low | 0xE000
        } else {
            low
        };
        KeyPressInfo {
            repeat_count,
            scancode,
            context_code: i & 0x1000_0000 != 0,
            previous_state: KeyState::from_bool(i & 0x4000_0000 != 0),
        }
    }
}

/// The character of a single UTF-16 code unit; a surrogate half stands for none.
pub open spec fn unit_char(u: u16) -> Option<char> {
    if 0xD800 <= u <= 0xDFFF {
        None
    } else {
        Some(u as char)
    }
}

/// The character whose scalar value is `u`, or none for a surrogate or a value
/// past `0x10FFFF`.
pub open spec fn scalar_char(u: u32) -> Option<char> {
    if (u < 0xD800 || 0xDFFF < u) && u <= 0x10FFFF {
        Some(u as char)
    } else {
        None
    }
}

/// Relies on `char::from_u32`: the scalar value `u`, or none for a surrogate or
/// a value past `0x10FFFF`.
#[verifier::external_body]
pub(crate) fn char_from_u32(u: u32) -> (r: Option<char>)
    ensures
        r == scalar_char(u),
{
    char::from_u32(u)
}

/// Decodes one UTF-16 code unit.
pub fn char_from_unit(u: u16) -> (r: Option<char>)
    ensures
        r == unit_char(u),
{
    char_from_u32(u as u32)
}

} // verus!
