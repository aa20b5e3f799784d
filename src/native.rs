use vstd::prelude::*;

verus! {

pub const WM_CREATE: u32 = 0x0001;

pub const WM_DESTROY: u32 = 0x0002;

pub const WM_MOVE: u32 = 0x0003;

pub const WM_SIZE: u32 = 0x0005;

pub const WM_ACTIVATE: u32 = 0x0006;

pub const WM_SETTEXT: u32 = 0x000C;

pub const WM_CLOSE: u32 = 0x0010;

pub const WM_GETMINMAXINFO: u32 = 0x0024;

pub const WM_DISPLAYCHANGE: u32 = 0x007E;

pub const WM_KEYDOWN: u32 = 0x0100;

pub const WM_KEYUP: u32 = 0x0101;

pub const WM_SYSKEYDOWN: u32 = 0x0104;

pub const WM_SYSKEYUP: u32 = 0x0105;

pub const WM_MOUSEWHEEL: u32 = 0x020A;

pub const SIZE_RESTORED: usize = 0;

pub const SIZE_MINIMIZED: usize = 1;

pub const SIZE_MAXIMIZED: usize = 2;

pub const SIZE_MAXSHOW: usize = 3;

pub const SIZE_MAXHIDE: usize = 4;

pub const WA_INACTIVE: usize = 0;

pub const WA_ACTIVE: usize = 1;

pub const WA_CLICKACTIVE: usize = 2;

pub const SC_MAXIMIZE: u32 = 0xF030;

pub const SC_NEXTWINDOW: u32 = 0xF040;

pub const SC_RESTORE: u32 = 0xF120;

pub const SW_HIDE: u32 = 0;

pub const SW_NORMAL: u32 = 1;

pub const SW_MAXIMIZE: u32 = 3;

pub const SW_MINIMIZE: u32 = 6;

pub const SW_RESTORE: u32 = 9;

pub const WS_POPUP: u32 = 0x8000_0000;

pub const WS_VISIBLE: u32 = 0x1000_0000;

pub const WS_CLIPSIBLINGS: u32 = 0x0400_0000;

pub const WS_OVERLAPPEDWINDOW: u32 = 0x00CF_0000;

pub const WS_SIZEBOX: u32 = 0x0004_0000;

pub const WS_MINIMIZEBOX: u32 = 0x0002_0000;

pub const WS_MAXIMIZEBOX: u32 = 0x0001_0000;

pub const WS_EX_APPWINDOW: u32 = 0x0004_0000;

pub const SWP_NOACTIVATE: u32 = 0x0010;

pub const SWP_FRAMECHANGED: u32 = 0x0020;

pub const SWP_SHOWWINDOW: u32 = 0x0040;

pub const SWP_HIDEWINDOW: u32 = 0x0080;

pub const SWP_NOCOPYBITS: u32 = 0x0100;

pub const SWP_ASYNCWINDOWPOS: u32 = 0x4000;

pub const FLASHW_TRAY: u32 = 0x0002;

pub const FLASHW_ALL: u32 = 0x0003;

pub const FLASHW_TIMERNOFG: u32 = 0x000C;

/// Default position and size, left for the platform to choose.
pub const CW_USEDEFAULT: i32 = -2147483648;

/// Client-area size used when a popup-style window enters borderless fullscreen.
pub const FALLBACK_WIDTH: i32 = 600;

pub const FALLBACK_HEIGHT: i32 = 400;

/// A native call that the platform layer is asked to make on the window.
#[derive(Copy, Clone, Debug, PartialEq, Eq, Structural)]
pub enum NativeRequest {
    /// Move and resize the window, with the given position flags.
    SetWindowPos { x: i32, y: i32, width: i32, height: i32, flags: u32 },
    /// Show, hide, minimize, maximize or restore, by show command.
    ShowWindow(u32),
    /// Replace the window's style bits.
    SetStyle(u32),
    /// Replace the window's extended style bits.
    SetExStyle(u32),
    /// Give the window keyboard focus.
    SetFocus,
    /// Flash the window's caption or taskbar button, with the given flash flags and count.
    Flash { flags: u32, count: u32 },
    /// Destroy the window.
    Destroy,
    /// Deliver a system command to the window.
    SysCommand(u32),
}

} // verus!
