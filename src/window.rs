use vstd::prelude::*;

use crate::modifiers::Modifiers;
use crate::native::{
    NativeRequest, FLASHW_ALL, FLASHW_TIMERNOFG, FLASHW_TRAY, SWP_FRAMECHANGED, SWP_HIDEWINDOW,
    SWP_NOACTIVATE, SWP_SHOWWINDOW, SW_HIDE, SW_NORMAL, WS_CLIPSIBLINGS, WS_MAXIMIZEBOX,
    WS_MINIMIZEBOX, WS_SIZEBOX, WS_VISIBLE,
};
use crate::registry::{Registry, WindowError, WindowState};
use crate::types::{
    FullscreenType, Theme, UserAttentionType, WindowButtons, WindowId, WindowSizeState,
    BUTTON_CLOSE, BUTTON_MAXIMIZE, BUTTON_MINIMIZE,
};

verus! {

/// Position flags for moving or resizing the window in state `st`.
pub open spec fn position_flags(st: WindowState) -> u32 {
    SWP_NOACTIVATE | (if st.has_frame { SWP_FRAMECHANGED } else { 0 }) | (if st.visible {
        SWP_SHOWWINDOW
    } else {
        SWP_HIDEWINDOW
    })
}

/// The request that moves and sizes the window to the geometry recorded in `st`.
pub open spec fn place_request(st: WindowState) -> NativeRequest {
    NativeRequest::SetWindowPos {
        x: st.x,
        y: st.y,
        width: st.width,
        height: st.height,
        flags: position_flags(st),
    }
}

/// The style bits that show exactly the caption buttons of `buttons`.
pub open spec fn buttons_style(style: u32, buttons: u8) -> u32 {
    let boxes = WS_MAXIMIZEBOX | WS_MINIMIZEBOX;
    let wanted = (if buttons & BUTTON_MAXIMIZE != 0 { WS_MAXIMIZEBOX } else { 0 }) | (if buttons
        & BUTTON_MINIMIZE != 0 {
        WS_MINIMIZEBOX
    } else {
        0
    });
    (style & !boxes) | wanted
}

/// Flash flags and count for a request of the user's attention.
pub open spec fn attention_flash(attention: UserAttentionType) -> NativeRequest {
    match attention {
        UserAttentionType::Critical => NativeRequest::Flash {
            flags: FLASHW_ALL | FLASHW_TIMERNOFG,
            count: u32::MAX,
        },
        UserAttentionType::Informational => NativeRequest::Flash {
            flags: FLASHW_TRAY | FLASHW_TIMERNOFG,
            count: 0,
        },
    }
}

pub(crate) fn position_flags_of(st: &WindowState) -> (r: u32)
    ensures
        r == position_flags(*st),
{
    let frame = if st.has_frame {
        SWP_FRAMECHANGED
    } else {
        0
    };
    let shown = if st.visible {
        SWP_SHOWWINDOW
    } else {
        SWP_HIDEWINDOW
    };
    SWP_NOACTIVATE | frame | shown
}

impl Registry {
    /// The width of the window.
    pub fn width(&self, id: WindowId) -> (r: Result<u32, WindowError>)
        ensures
            self.has(id) ==> r == Ok::<u32, WindowError>(self.get(id).width as u32),
            !self.has(id) ==> r == Err::<u32, WindowError>(WindowError::UnknownWindow),
    {
        match self.state(id) {
            Ok(st) => Ok(st.width as u32),
            Err(e) => Err(e),
        }
    }

    /// The height of the window.
    pub fn height(&self, id: WindowId) -> (r: Result<u32, WindowError>)
        ensures
            self.has(id) ==> r == Ok::<u32, WindowError>(self.get(id).height as u32),
            !self.has(id) ==> r == Err::<u32, WindowError>(WindowError::UnknownWindow),
    {
        match self.state(id) {
            Ok(st) => Ok(st.height as u32),
            Err(e) => Err(e),
        }
    }

    /// The smallest width the window may be given.
    pub fn min_width(&self, id: WindowId) -> (r: Result<u32, WindowError>)
        ensures
            self.has(id) ==> r == Ok::<u32, WindowError>(self.get(id).min_width as u32),
            !self.has(id) ==> r == Err::<u32, WindowError>(WindowError::UnknownWindow),
    {
        match self.state(id) {
            Ok(st) => Ok(st.min_width as u32),
            Err(e) => Err(e),
        }
    }

    /// The smallest height the window may be given.
    pub fn min_height(&self, id: WindowId) -> (r: Result<u32, WindowError>)
        ensures
            self.has(id) ==> r == Ok::<u32, WindowError>(self.get(id).min_height as u32),
            !self.has(id) ==> r == Err::<u32, WindowError>(WindowError::UnknownWindow),
    {
        match self.state(id) {
            Ok(st) => Ok(st.min_height as u32),
            Err(e) => Err(e),
        }
    }

    /// The largest width the window may be given.
    pub fn max_width(&self, id: WindowId) -> (r: Result<u32, WindowError>)
        ensures
            self.has(id) ==> r == Ok::<u32, WindowError>(self.get(id).max_width as u32),
            !self.has(id) ==> r == Err::<u32, WindowError>(WindowError::UnknownWindow),
    {
        match self.state(id) {
            Ok(st) => Ok(st.max_width as u32),
            Err(e) => Err(e),
        }
    }

    /// The largest height the window may be given.
    pub fn max_height(&self, id: WindowId) -> (r: Result<u32, WindowError>)
        ensures
            self.has(id) ==> r == Ok::<u32, WindowError>(self.get(id).max_height as u32),
            !self.has(id) ==> r == Err::<u32, WindowError>(WindowError::UnknownWindow),
    {
        match self.state(id) {
            Ok(st) => Ok(st.max_height as u32),
            Err(e) => Err(e),
        }
    }

    /// Whether the window is shown.
    pub fn visible(&self, id: WindowId) -> (r: Result<bool, WindowError>)
        ensures
            self.has(id) ==> r == Ok::<bool, WindowError>(self.get(id).visible),
            !self.has(id) ==> r == Err::<bool, WindowError>(WindowError::UnknownWindow),
    {
        match self.state(id) {
            Ok(st) => Ok(st.visible),
            Err(e) => Err(e),
        }
    }

    /// Whether the user may resize the window.
    pub fn resizeable(&self, id: WindowId) -> (r: Result<bool, WindowError>)
        ensures
            self.has(id) ==> r == Ok::<bool, WindowError>(self.get(id).resizeable),
            !self.has(id) ==> r == Err::<bool, WindowError>(WindowError::UnknownWindow),
    {
        match self.state(id) {
            Ok(st) => Ok(st.resizeable),
            Err(e) => Err(e),
        }
    }

    /// Whether the window has keyboard focus.
    pub fn focused(&self, id: WindowId) -> (r: Result<bool, WindowError>)
        ensures
            self.has(id) ==> r == Ok::<bool, WindowError>(self.get(id).focused),
            !self.has(id) ==> r == Err::<bool, WindowError>(WindowError::UnknownWindow),
    {
        match self.state(id) {
            Ok(st) => Ok(st.focused),
            Err(e) => Err(e),
        }
    }

    /// The enabled caption buttons.
    pub fn enabled_buttons(&self, id: WindowId) -> (r: Result<WindowButtons, WindowError>)
        ensures
            self.has(id) ==> r == Ok::<WindowButtons, WindowError>(self.get(id).enabled_buttons),
            !self.has(id) ==> r == Err::<WindowButtons, WindowError>(WindowError::UnknownWindow),
    {
        match self.state(id) {
            Ok(st) => Ok(st.enabled_buttons),
            Err(e) => Err(e),
        }
    }

    /// Whether the window is minimized.
    pub fn minimized(&self, id: WindowId) -> (r: Result<bool, WindowError>)
        ensures
            self.has(id) ==> r == Ok::<bool, WindowError>(self.get(id).size_state == WindowSizeState::Minimized),
            !self.has(id) ==> r == Err::<bool, WindowError>(WindowError::UnknownWindow),
    {
        match self.state(id) {
            Ok(st) => Ok(st.size_state == WindowSizeState::Minimized),
            Err(e) => Err(e),
        }
    }

    /// Whether the window is maximized.
    pub fn maximized(&self, id: WindowId) -> (r: Result<bool, WindowError>)
        ensures
            self.has(id) ==> r == Ok::<bool, WindowError>(self.get(id).size_state == WindowSizeState::Maximized),
            !self.has(id) ==> r == Err::<bool, WindowError>(WindowError::UnknownWindow),
    {
        match self.state(id) {
            Ok(st) => Ok(st.size_state == WindowSizeState::Maximized),
            Err(e) => Err(e),
        }
    }

    /// Whether the window is neither minimized nor maximized.
    pub fn normalized(&self, id: WindowId) -> (r: Result<bool, WindowError>)
        ensures
            self.has(id) ==> r == Ok::<bool, WindowError>(self.get(id).size_state == WindowSizeState::Other),
            !self.has(id) ==> r == Err::<bool, WindowError>(WindowError::UnknownWindow),
    {
        match self.state(id) {
            Ok(st) => Ok(st.size_state == WindowSizeState::Other),
            Err(e) => Err(e),
        }
    }

    /// The fullscreen mode of the window.
    pub fn fullscreen_type(&self, id: WindowId) -> (r: Result<FullscreenType, WindowError>)
        ensures
            self.has(id) ==> r == Ok::<FullscreenType, WindowError>(self.get(id).fullscreen),
            !self.has(id) ==> r == Err::<FullscreenType, WindowError>(WindowError::UnknownWindow),
    {
        match self.state(id) {
            Ok(st) => Ok(st.fullscreen),
            Err(e) => Err(e),
        }
    }

    /// Whether the window is in either fullscreen mode.
    pub fn fullscreen(&self, id: WindowId) -> (r: Result<bool, WindowError>)
        ensures
            self.has(id) ==> r == Ok::<bool, WindowError>(self.get(id).fullscreen == FullscreenType::Borderless || self.get(id).fullscreen == FullscreenType::Exclusive),
            !self.has(id) ==> r == Err::<bool, WindowError>(WindowError::UnknownWindow),
    {
        match self.state(id) {
            Ok(st) => Ok(st.fullscreen == FullscreenType::Borderless || st.fullscreen == FullscreenType::Exclusive),
            Err(e) => Err(e),
        }
    }

    /// The colour theme of the window.
    pub fn theme(&self, id: WindowId) -> (r: Result<Theme, WindowError>)
        ensures
            self.has(id) ==> r == Ok::<Theme, WindowError>(self.get(id).theme),
            !self.has(id) ==> r == Err::<Theme, WindowError>(WindowError::UnknownWindow),
    {
        match self.state(id) {
            Ok(st) => Ok(st.theme),
            Err(e) => Err(e),
        }
    }

    /// The native style bits recorded for the window.
    pub fn style(&self, id: WindowId) -> (r: Result<u32, WindowError>)
        ensures
            self.has(id) ==> r == Ok::<u32, WindowError>(self.get(id).style),
            !self.has(id) ==> r == Err::<u32, WindowError>(WindowError::UnknownWindow),
    {
        match self.state(id) {
            Ok(st) => Ok(st.style),
            Err(e) => Err(e),
        }
    }

    /// The keyboard modifiers held down while the window had input.
    pub fn modifiers(&self, id: WindowId) -> (r: Result<Modifiers, WindowError>)
        ensures
            self.has(id) ==> r == Ok::<Modifiers, WindowError>(self.get(id).modifiers),
            !self.has(id) ==> r == Err::<Modifiers, WindowError>(WindowError::UnknownWindow),
    {
        match self.state(id) {
            Ok(st) => Ok(st.modifiers),
            Err(e) => Err(e),
        }
    }

    /// The title of the window.
    pub fn title(&self, id: WindowId) -> (r: Result<String, WindowError>)
        ensures
            self.has(id) ==> r is Ok && r->Ok_0@ == self.get(id).title@,
            !self.has(id) ==> r == Err::<String, WindowError>(WindowError::UnknownWindow),
    {
        match self.state(id) {
            Ok(st) => Ok(st.title.clone()),
            Err(e) => Err(e),
        }
    }

    /// Sets the width and asks the platform to resize the window to it.
    pub fn set_width(&mut self, id: WindowId, width: u32) -> (r: Result<NativeRequest, WindowError>)
        ensures
            old(self).has(id) ==> {
                let st = WindowState { width: width as i32, ..old(self).get(id) };
                &&& final(self).windows() == old(self).windows().insert(id.0, st)
                &&& r == Ok::<NativeRequest, WindowError>(place_request(st))
            },
            !old(self).has(id) ==> r == Err::<NativeRequest, WindowError>(WindowError::UnknownWindow)
                && final(self).windows() == old(self).windows(),
            final(self).handles() == old(self).handles(),
    {
        match self.take(id) {
            Some(mut st) => {
                st.width = width as i32;
                let req = NativeRequest::SetWindowPos {
                    x: st.x,
                    y: st.y,
                    width: st.width,
                    height: st.height,
                    flags: position_flags_of(&st),
                };
                self.put(id, st);
                Ok(req)
            },
            None => Err(WindowError::UnknownWindow),
        }
    }

    /// Sets the height and asks the platform to resize the window to it.
    pub fn set_height(&mut self, id: WindowId, height: u32) -> (r: Result<NativeRequest, WindowError>)
        ensures
            old(self).has(id) ==> {
                let st = WindowState { height: height as i32, ..old(self).get(id) };
                &&& final(self).windows() == old(self).windows().insert(id.0, st)
                &&& r == Ok::<NativeRequest, WindowError>(place_request(st))
            },
            !old(self).has(id) ==> r == Err::<NativeRequest, WindowError>(WindowError::UnknownWindow)
                && final(self).windows() == old(self).windows(),
            final(self).handles() == old(self).handles(),
    {
        match self.take(id) {
            Some(mut st) => {
                st.height = height as i32;
                let req = NativeRequest::SetWindowPos {
                    x: st.x,
                    y: st.y,
                    width: st.width,
                    height: st.height,
                    flags: position_flags_of(&st),
                };
                self.put(id, st);
                Ok(req)
            },
            None => Err(WindowError::UnknownWindow),
        }
    }

    /// Sets the min width that the platform is told when it asks for size limits.
    pub fn set_min_width(&mut self, id: WindowId, width: u32) -> (r: Result<(), WindowError>)
        ensures
            old(self).has(id) ==> r is Ok && final(self).windows() == old(self).windows().insert(
                id.0,
                WindowState { min_width: width as i32, ..old(self).get(id) },
            ),
            !old(self).has(id) ==> r == Err::<(), WindowError>(WindowError::UnknownWindow)
                && final(self).windows() == old(self).windows(),
            final(self).handles() == old(self).handles(),
    {
        match self.take(id) {
            Some(mut st) => {
                st.min_width = width as i32;
                self.put(id, st);
                Ok(())
            },
            None => Err(WindowError::UnknownWindow),
        }
    }

    /// Sets the min height that the platform is told when it asks for size limits.
    pub fn set_min_height(&mut self, id: WindowId, height: u32) -> (r: Result<(), WindowError>)
        ensures
            old(self).has(id) ==> r is Ok && final(self).windows() == old(self).windows().insert(
                id.0,
                WindowState { min_height: height as i32, ..old(self).get(id) },
            ),
            !old(self).has(id) ==> r == Err::<(), WindowError>(WindowError::UnknownWindow)
                && final(self).windows() == old(self).windows(),
            final(self).handles() == old(self).handles(),
    {
        match self.take(id) {
            Some(mut st) => {
                st.min_height = height as i32;
                self.put(id, st);
                Ok(())
            },
            None => Err(WindowError::UnknownWindow),
        }
    }

    /// Sets the max width that the platform is told when it asks for size limits.
    pub fn set_max_width(&mut self, id: WindowId, width: u32) -> (r: Result<(), WindowError>)
        ensures
            old(self).has(id) ==> r is Ok && final(self).windows() == old(self).windows().insert(
                id.0,
                WindowState { max_width: width as i32, ..old(self).get(id) },
            ),
            !old(self).has(id) ==> r == Err::<(), WindowError>(WindowError::UnknownWindow)
                && final(self).windows() == old(self).windows(),
            final(self).handles() == old(self).handles(),
    {
        match self.take(id) {
            Some(mut st) => {
                st.max_width = width as i32;
                self.put(id, st);
                Ok(())
            },
            None => Err(WindowError::UnknownWindow),
        }
    }

    /// Sets the max height that the platform is told when it asks for size limits.
    pub fn set_max_height(&mut self, id: WindowId, height: u32) -> (r: Result<(), WindowError>)
        ensures
            old(self).has(id) ==> r is Ok && final(self).windows() == old(self).windows().insert(
                id.0,
                WindowState { max_height: height as i32, ..old(self).get(id) },
            ),
            !old(self).has(id) ==> r == Err::<(), WindowError>(WindowError::UnknownWindow)
                && final(self).windows() == old(self).windows(),
            final(self).handles() == old(self).handles(),
    {
        match self.take(id) {
            Some(mut st) => {
                st.max_height = height as i32;
                self.put(id, st);
                Ok(())
            },
            None => Err(WindowError::UnknownWindow),
        }
    }

    /// Marks the window visible and asks the platform to show it.
    pub fn show(&mut self, id: WindowId) -> (r: Result<NativeRequest, WindowError>)
        ensures
            old(self).has(id) ==> {
                &&& r == Ok::<NativeRequest, WindowError>(NativeRequest::ShowWindow(SW_NORMAL))
                &&& final(self).windows() == old(self).windows().insert(
                    id.0,
                    WindowState { visible: true, style: old(self).get(id).style | WS_VISIBLE, ..old(self).get(id) },
                )
            },
            !old(self).has(id) ==> r == Err::<NativeRequest, WindowError>(WindowError::UnknownWindow)
                && final(self).windows() == old(self).windows(),
            final(self).handles() == old(self).handles(),
    {
        match self.take(id) {
            Some(mut st) => {
                st.visible = true;
                st.style = st.style | WS_VISIBLE;
                self.put(id, st);
                Ok(NativeRequest::ShowWindow(SW_NORMAL))
            },
            None => Err(WindowError::UnknownWindow),
        }
    }

    /// Marks the window hidden and asks the platform to hide it.
    pub fn hide_window(&mut self, id: WindowId) -> (r: Result<NativeRequest, WindowError>)
        ensures
            old(self).has(id) ==> {
                &&& r == Ok::<NativeRequest, WindowError>(NativeRequest::ShowWindow(SW_HIDE))
                &&& final(self).windows() == old(self).windows().insert(
                    id.0,
                    WindowState { visible: false, ..old(self).get(id) },
                )
            },
            !old(self).has(id) ==> r == Err::<NativeRequest, WindowError>(WindowError::UnknownWindow)
                && final(self).windows() == old(self).windows(),
            final(self).handles() == old(self).handles(),
    {
        match self.take(id) {
            Some(mut st) => {
                st.visible = false;
                self.put(id, st);
                Ok(NativeRequest::ShowWindow(SW_HIDE))
            },
            None => Err(WindowError::UnknownWindow),
        }
    }

    /// Allows or forbids resizing by the user, through the sizing-border style bit.
    pub fn set_resizeable(&mut self, id: WindowId, resizeable: bool) -> (r: Result<NativeRequest, WindowError>)
        ensures
            old(self).has(id) ==> {
                let old_style = old(self).get(id).style;
                let style = if resizeable { old_style | WS_SIZEBOX } else { old_style & !WS_SIZEBOX };
                &&& r == Ok::<NativeRequest, WindowError>(NativeRequest::SetStyle(style))
                &&& final(self).windows() == old(self).windows().insert(
                    id.0,
                    WindowState { resizeable, style, ..old(self).get(id) },
                )
            },
            !old(self).has(id) ==> r == Err::<NativeRequest, WindowError>(WindowError::UnknownWindow)
                && final(self).windows() == old(self).windows(),
            final(self).handles() == old(self).handles(),
    {
        match self.take(id) {
            Some(mut st) => {
                st.resizeable = resizeable;
                st.style = if resizeable {
                    st.style | WS_SIZEBOX
                } else {
                    st.style & !WS_SIZEBOX
                };
                let style = st.style;
                self.put(id, st);
                Ok(NativeRequest::SetStyle(style))
            },
            None => Err(WindowError::UnknownWindow),
        }
    }

    /// Enables exactly the caption buttons of `buttons`. Suppressing the close
    /// button, by leaving it out of `buttons`, is not supported.
    pub fn set_enabled_buttons(&mut self, id: WindowId, buttons: WindowButtons) -> (r: Result<NativeRequest, WindowError>)
        ensures
            old(self).has(id) && buttons.bits & BUTTON_CLOSE == 0 ==> r == Err::<NativeRequest, WindowError>(WindowError::Unsupported)
                && final(self).windows() == old(self).windows(),
            old(self).has(id) && buttons.bits & BUTTON_CLOSE != 0 ==> {
                let style = buttons_style(old(self).get(id).style, buttons.bits);
                &&& r == Ok::<NativeRequest, WindowError>(NativeRequest::SetStyle(style))
                &&& final(self).windows() == old(self).windows().insert(
                    id.0,
                    WindowState { enabled_buttons: buttons, style, ..old(self).get(id) },
                )
            },
            !old(self).has(id) ==> r == Err::<NativeRequest, WindowError>(WindowError::UnknownWindow)
                && final(self).windows() == old(self).windows(),
            final(self).handles() == old(self).handles(),
    {
        match self.take(id) {
            Some(mut st) => {
                if buttons.bits & BUTTON_CLOSE == 0 {
                    self.put(id, st);
                    proof {
                        assert(final(self).windows() =~= old(self).windows());
                    }
                    return Err(WindowError::Unsupported);
                }
                let maximize = if buttons.bits & BUTTON_MAXIMIZE != 0 {
                    WS_MAXIMIZEBOX
                } else {
                    0
                };
                let minimize = if buttons.bits & BUTTON_MINIMIZE != 0 {
                    WS_MINIMIZEBOX
                } else {
                    0
                };
                st.enabled_buttons = buttons;
                st.style = (st.style & !(WS_MAXIMIZEBOX | WS_MINIMIZEBOX)) | (maximize | minimize);
                let style = st.style;
                self.put(id, st);
                Ok(NativeRequest::SetStyle(style))
            },
            None => Err(WindowError::UnknownWindow),
        }
    }

    /// Changing the theme has no implementation on this platform.
    pub fn set_theme(&mut self, id: WindowId, theme: Theme) -> (r: Result<(), WindowError>)
        ensures
            old(self).has(id) ==> r == Err::<(), WindowError>(WindowError::Unsupported),
            !old(self).has(id) ==> r == Err::<(), WindowError>(WindowError::UnknownWindow),
            final(self).windows() == old(self).windows(),
            final(self).handles() == old(self).handles(),
    {
        if self.contains(id) {
            Err(WindowError::Unsupported)
        } else {
            Err(WindowError::UnknownWindow)
        }
    }

    /// Gives the window keyboard focus, unless it is already the active window.
    pub fn focus(&mut self, id: WindowId, active: bool) -> (r: Result<Option<NativeRequest>, WindowError>)
        ensures
            old(self).has(id) && active ==> r == Ok::<Option<NativeRequest>, WindowError>(None)
                && final(self).windows() == old(self).windows(),
            old(self).has(id) && !active ==> {
                &&& r == Ok::<Option<NativeRequest>, WindowError>(Some(NativeRequest::SetFocus))
                &&& final(self).windows() == old(self).windows().insert(
                    id.0,
                    WindowState { focused: true, ..old(self).get(id) },
                )
            },
            !old(self).has(id) ==> r == Err::<Option<NativeRequest>, WindowError>(WindowError::UnknownWindow)
                && final(self).windows() == old(self).windows(),
            final(self).handles() == old(self).handles(),
    {
        if !self.contains(id) {
            return Err(WindowError::UnknownWindow);
        }
        if active {
            return Ok(None);
        }
        match self.take(id) {
            Some(mut st) => {
                st.focused = true;
                self.put(id, st);
                Ok(Some(NativeRequest::SetFocus))
            },
            None => Err(WindowError::UnknownWindow),
        }
    }

    /// Asks for the user's attention by flashing the window, unless it is already
    /// the active window.
    pub fn request_user_attention(&self, id: WindowId, attention: UserAttentionType, active: bool) -> (r: Result<Option<NativeRequest>, WindowError>)
        ensures
            self.has(id) && active ==> r == Ok::<Option<NativeRequest>, WindowError>(None),
            self.has(id) && !active ==> r == Ok::<Option<NativeRequest>, WindowError>(Some(attention_flash(attention))),
            !self.has(id) ==> r == Err::<Option<NativeRequest>, WindowError>(WindowError::UnknownWindow),
    {
        if !self.contains(id) {
            return Err(WindowError::UnknownWindow);
        }
        if active {
            return Ok(None);
        }
        let req = match attention {
            UserAttentionType::Critical => NativeRequest::Flash {
                flags: FLASHW_ALL | FLASHW_TIMERNOFG,
                count: u32::MAX,
            },
            UserAttentionType::Informational => NativeRequest::Flash {
                flags: FLASHW_TRAY | FLASHW_TIMERNOFG,
                count: 0,
            },
        };
        Ok(Some(req))
    }

    /// Replaces the window's style, which is also the style to return to after
    /// fullscreen. Sibling clipping is always kept.
    pub fn set_style(&mut self, id: WindowId, style: u32) -> (r: Result<NativeRequest, WindowError>)
        ensures
            old(self).has(id) ==> {
                let s = style | WS_CLIPSIBLINGS;
                &&& r == Ok::<NativeRequest, WindowError>(NativeRequest::SetStyle(s))
                &&& final(self).windows() == old(self).windows().insert(
                    id.0,
                    WindowState { style: s, restore_style: s, ..old(self).get(id) },
                )
            },
            !old(self).has(id) ==> r == Err::<NativeRequest, WindowError>(WindowError::UnknownWindow)
                && final(self).windows() == old(self).windows(),
            final(self).handles() == old(self).handles(),
    {
        match self.take(id) {
            Some(mut st) => {
                let s = style | WS_CLIPSIBLINGS;
                st.style = s;
                st.restore_style = s;
                self.put(id, st);
                Ok(NativeRequest::SetStyle(s))
            },
            None => Err(WindowError::UnknownWindow),
        }
    }

    /// Replaces the window's extended style.
    pub fn set_style_ex(&mut self, id: WindowId, style_ex: u32) -> (r: Result<NativeRequest, WindowError>)
        ensures
            old(self).has(id) ==> {
                &&& r == Ok::<NativeRequest, WindowError>(NativeRequest::SetExStyle(style_ex))
                &&& final(self).windows() == old(self).windows().insert(
                    id.0,
                    WindowState { style_ex, ..old(self).get(id) },
                )
            },
            !old(self).has(id) ==> r == Err::<NativeRequest, WindowError>(WindowError::UnknownWindow)
                && final(self).windows() == old(self).windows(),
            final(self).handles() == old(self).handles(),
    {
        match self.take(id) {
            Some(mut st) => {
                st.style_ex = style_ex;
                self.put(id, st);
                Ok(NativeRequest::SetExStyle(style_ex))
            },
            None => Err(WindowError::UnknownWindow),
        }
    }
}

} // verus!
