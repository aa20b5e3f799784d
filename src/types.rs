use vstd::prelude::*;

verus! {

/// Stable identifier of a window, derived from its native handle.
#[derive(Copy, Clone, Debug, Hash, PartialEq, Eq, Structural)]
pub struct WindowId(pub u64);

/// Whether a window is minimized, maximized, or in its restored state.
#[derive(Copy, Clone, Debug, PartialEq, Eq, Structural)]
pub enum WindowSizeState {
    Minimized,
    Maximized,
    Other,
}

/// Fullscreen mode of a window.
#[derive(Copy, Clone, Debug, PartialEq, Eq, Structural)]
pub enum FullscreenType {
    Exclusive,
    Borderless,
    NotFullscreen,
}

/// How insistently a window asks for the user's attention.
#[derive(Copy, Clone, Debug, PartialEq, Eq, Structural)]
pub enum UserAttentionType {
    Critical,
    Informational,
}

/// Colour theme of a window.
#[derive(Copy, Clone, Debug, PartialEq, Eq, Structural)]
pub enum Theme {
    Light,
    Dark,
}

/// The set of enabled window-chrome buttons.
#[derive(Copy, Clone, Debug, PartialEq, Eq, Structural)]
pub struct WindowButtons {
    pub bits: u8,
}

pub const BUTTON_CLOSE: u8 = 0x04;

pub const BUTTON_MINIMIZE: u8 = 0x01;

pub const BUTTON_MAXIMIZE: u8 = 0x02;

impl WindowButtons {
    /// Every button enabled.
    pub fn all() -> (r: WindowButtons)
        ensures
            r.bits == BUTTON_CLOSE | BUTTON_MINIMIZE | BUTTON_MAXIMIZE,
    {
        WindowButtons { bits: BUTTON_CLOSE | BUTTON_MINIMIZE | BUTTON_MAXIMIZE }
    }

    /// Whether every button of `other` is enabled in `self`.
    pub fn contains(&self, other: WindowButtons) -> (r: bool)
        ensures
            r == (self.bits & other.bits == other.bits),
    {
        self.bits & other.bits == other.bits
    }
}

} // verus!
