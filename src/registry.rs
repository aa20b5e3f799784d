use vstd::prelude::*;
use vstd::string::StringExecFns;

use std::collections::HashMap;

use crate::event::EventSender;
use crate::modifiers::Modifiers;
use crate::native::{CW_USEDEFAULT, WS_CLIPSIBLINGS, WS_EX_APPWINDOW, WS_OVERLAPPEDWINDOW};
use crate::types::{
    FullscreenType, Theme, WindowButtons, WindowId, WindowSizeState, BUTTON_CLOSE,
    BUTTON_MAXIMIZE, BUTTON_MINIMIZE,
};

verus! {

broadcast use vstd::std_specs::hash::group_hash_axioms;

/// Why an operation on a window did not take place.
#[derive(Copy, Clone, Debug, PartialEq, Eq, Structural)]
pub enum WindowError {
    /// No state is registered for the window.
    UnknownWindow,
    /// The window is already registered and has a live handle.
    AlreadyRegistered,
    /// The operation has no implementation on this platform.
    Unsupported,
}

/// Everything the library knows about one live window.
pub struct WindowState {
    pub x: i32,
    pub y: i32,
    pub width: i32,
    pub height: i32,
    pub min_width: i32,
    pub min_height: i32,
    pub max_width: i32,
    pub max_height: i32,
    pub visible: bool,
    pub resizeable: bool,
    pub focused: bool,
    pub has_frame: bool,
    pub enabled_buttons: WindowButtons,
    pub size_state: WindowSizeState,
    pub fullscreen: FullscreenType,
    pub style: u32,
    pub style_ex: u32,
    /// Style and geometry to return to when leaving fullscreen; meaningful only
    /// while the window is fullscreen.
    pub restore_style: u32,
    pub restore_x: i32,
    pub restore_y: i32,
    pub restore_width: i32,
    pub restore_height: i32,
    pub modifiers: Modifiers,
    pub title: String,
    pub theme: Theme,
    pub sender: EventSender,
    /// Native module instance that owns the window class.
    pub instance: u64,
}

/// Whether `st` is the state of a window just created on a screen of the given size.
pub open spec fn is_initial_state(st: WindowState, screen_width: i32, screen_height: i32, instance: u64) -> bool {
    &&& st.x == CW_USEDEFAULT && st.y == CW_USEDEFAULT
    &&& st.width == CW_USEDEFAULT && st.height == CW_USEDEFAULT
    &&& st.min_width == 20 && st.min_height == 20
    &&& st.max_width == screen_width && st.max_height == screen_height
    &&& !st.visible && st.resizeable && !st.focused && !st.has_frame
    &&& st.enabled_buttons == WindowButtons { bits: BUTTON_CLOSE | BUTTON_MINIMIZE | BUTTON_MAXIMIZE }
    &&& st.size_state == WindowSizeState::Other
    &&& st.fullscreen == FullscreenType::NotFullscreen
    &&& st.style == WS_OVERLAPPEDWINDOW | WS_CLIPSIBLINGS
    &&& st.style_ex == WS_EX_APPWINDOW
    &&& st.restore_style == WS_OVERLAPPEDWINDOW | WS_CLIPSIBLINGS
    &&& st.restore_x == CW_USEDEFAULT && st.restore_y == CW_USEDEFAULT
    &&& st.restore_width == CW_USEDEFAULT && st.restore_height == CW_USEDEFAULT
    &&& st.modifiers == Modifiers { bits: 0 }
    &&& st.title@ == "nwin window"@
    &&& st.theme == Theme::Light
    &&& !st.sender.bound
    &&& st.instance == instance
}

impl WindowState {
    /// The state of a newly created window. `screen_width` and `screen_height`
    /// bound its size; `instance` is the native module that owns its class.
    pub fn new(screen_width: i32, screen_height: i32, instance: u64) -> (r: WindowState)
        ensures
            is_initial_state(r, screen_width, screen_height, instance),
    {
        WindowState {
            x: CW_USEDEFAULT,
            y: CW_USEDEFAULT,
            width: CW_USEDEFAULT,
            height: CW_USEDEFAULT,
            min_width: 20,
            min_height: 20,
            max_width: screen_width,
            max_height: screen_height,
            visible: false,
            resizeable: true,
            focused: false,
            has_frame: false,
            enabled_buttons: WindowButtons::all(),
            size_state: WindowSizeState::Other,
            fullscreen: FullscreenType::NotFullscreen,
            style: WS_OVERLAPPEDWINDOW | WS_CLIPSIBLINGS,
            style_ex: WS_EX_APPWINDOW,
            restore_style: WS_OVERLAPPEDWINDOW | WS_CLIPSIBLINGS,
            restore_x: CW_USEDEFAULT,
            restore_y: CW_USEDEFAULT,
            restore_width: CW_USEDEFAULT,
            restore_height: CW_USEDEFAULT,
            modifiers: Modifiers::empty(),
            title: String::from_str("nwin window"),
            theme: Theme::Light,
            sender: EventSender::new(),
            instance,
        }
    }
}

/// A handle to a live window. The registry counts the handles of each window;
/// releasing the last one removes the window's state.
pub struct Window {
    id: WindowId,
}

impl Window {
    pub closed spec fn spec_id(&self) -> WindowId {
        self.id
    }

    pub fn id(&self) -> (r: WindowId)
        ensures
            r == self.spec_id(),
    {
        self.id
    }
}

/// The store of every live window's state, keyed by the window's identifier.
pub struct Registry {
    windows: HashMap<u64, WindowState>,
    handles: HashMap<u64, u64>,
}

impl Registry {
    /// The state of each registered window, by identifier.
    pub closed spec fn windows(&self) -> Map<u64, WindowState> {
        self.windows@
    }

    /// The number of live handles of each window that has any.
    pub closed spec fn handles(&self) -> Map<u64, u64> {
        self.handles@
    }

    pub open spec fn has(&self, id: WindowId) -> bool {
        self.windows().contains_key(id.0)
    }

    pub open spec fn get(&self, id: WindowId) -> WindowState {
        self.windows()[id.0]
    }

    /// An empty registry.
    pub fn new() -> (r: Registry)
        ensures
            r.windows() == Map::<u64, WindowState>::empty(),
            r.handles() == Map::<u64, u64>::empty(),
    {
        Registry { windows: HashMap::new(), handles: HashMap::new() }
    }

    /// Whether state is registered for `id`.
    pub fn contains(&self, id: WindowId) -> (r: bool)
        ensures
            r == self.has(id),
    {
        self.windows.contains_key(&id.0)
    }

    /// The state of window `id`.
    pub fn state(&self, id: WindowId) -> (r: Result<&WindowState, WindowError>)
        ensures
            self.has(id) ==> r == Ok::<&WindowState, WindowError>(&self.get(id)),
            !self.has(id) ==> r == Err::<&WindowState, WindowError>(WindowError::UnknownWindow),
    {
        match self.windows.get(&id.0) {
            Some(st) => Ok(st),
            None => Err(WindowError::UnknownWindow),
        }
    }

    /// Registers `state` for a window that the platform has just created and
    /// returns its first handle. State registered for `id` without a live handle is
    /// replaced; a window that already has a handle is refused.
    pub fn install(&mut self, id: WindowId, state: WindowState) -> (r: Result<Window, WindowError>)
        ensures
            old(self).handles().contains_key(id.0) ==> {
                &&& r == Err::<Window, WindowError>(WindowError::AlreadyRegistered)
                &&& final(self).windows() == old(self).windows()
                &&& final(self).handles() == old(self).handles()
            },
            !old(self).handles().contains_key(id.0) ==> {
                &&& r is Ok
                &&& r->Ok_0.spec_id() == id
                &&& final(self).windows() == old(self).windows().insert(id.0, state)
                &&& final(self).handles() == old(self).handles().insert(id.0, 1)
            },
    {
        if self.handles.contains_key(&id.0) {
            return Err(WindowError::AlreadyRegistered);
        }
        self.windows.insert(id.0, state);
        self.handles.insert(id.0, 1);
        Ok(Window { id })
    }

    /// Removes the state of `id`; nothing happens if there is none.
    pub fn remove(&mut self, id: WindowId)
        ensures
            final(self).windows() == old(self).windows().remove(id.0),
            final(self).handles() == old(self).handles().remove(id.0),
    {
        self.windows.remove(&id.0);
        self.handles.remove(&id.0);
    }

    /// A further handle to the window of `w`.
    pub fn clone_handle(&mut self, w: &Window) -> (r: Window)
        ensures
            r.spec_id() == w.spec_id(),
            final(self).windows() == old(self).windows(),
            old(self).handles().contains_key(w.spec_id().0) && old(self).handles()[w.spec_id().0] < u64::MAX ==>
                final(self).handles() == old(self).handles().insert(
                    w.spec_id().0,
                    (old(self).handles()[w.spec_id().0] + 1) as u64,
                ),
            !(old(self).handles().contains_key(w.spec_id().0) && old(self).handles()[w.spec_id().0] < u64::MAX) ==>
                final(self).handles() == old(self).handles(),
    {
        let key = w.id.0;
        match self.handles.get(&key) {
            Some(n) => {
                let n = *n;
                if n < u64::MAX {
                    self.handles.insert(key, n + 1);
                }
            },
            None => {},
        }
        Window { id: w.id }
    }

    /// Gives back a handle. Releasing the last handle of a window removes its state.
    pub fn release(&mut self, w: Window)
        ensures
            old(self).handles().contains_key(w.spec_id().0) && old(self).handles()[w.spec_id().0] > 1 ==> {
                &&& final(self).windows() == old(self).windows()
                &&& final(self).handles() == old(self).handles().insert(
                    w.spec_id().0,
                    (old(self).handles()[w.spec_id().0] - 1) as u64,
                )
            },
            !(old(self).handles().contains_key(w.spec_id().0) && old(self).handles()[w.spec_id().0] > 1) ==> {
                &&& final(self).windows() == old(self).windows().remove(w.spec_id().0)
                &&& final(self).handles() == old(self).handles().remove(w.spec_id().0)
            },
    {
        let key = w.id.0;
        let count: u64 = match self.handles.get(&key) {
            Some(n) => *n,
            None => 0,
        };
        if count > 1 {
            self.handles.insert(key, count - 1);
        } else {
            self.windows.remove(&key);
            self.handles.remove(&key);
        }
    }

    /// Takes the state of `id` out of the registry, to be put back with `put`.
    pub(crate) fn take(&mut self, id: WindowId) -> (r: Option<WindowState>)
        ensures
            old(self).has(id) ==> r == Some(old(self).get(id)),
            !old(self).has(id) ==> r is None,
            final(self).windows() == old(self).windows().remove(id.0),
            final(self).handles() == old(self).handles(),
    {
        self.windows.remove(&id.0)
    }

    /// Stores `st` as the state of `id`.
    pub(crate) fn put(&mut self, id: WindowId, st: WindowState)
        ensures
            final(self).windows() == old(self).windows().insert(id.0, st),
            final(self).handles() == old(self).handles(),
    {
        self.windows.insert(id.0, st);
    }

    /// Binds the event sender of window `id` to the consumer's receiver.
    pub fn bind_sender(&mut self, id: WindowId) -> (r: Result<(), WindowError>)
        ensures
            old(self).has(id) ==> r is Ok && final(self).windows() == old(self).windows().insert(
                id.0,
                WindowState { sender: EventSender { bound: true }, ..old(self).get(id) },
            ),
            !old(self).has(id) ==> r == Err::<(), WindowError>(WindowError::UnknownWindow)
                && final(self).windows() == old(self).windows(),
            final(self).handles() == old(self).handles(),
    {
        match self.windows.remove(&id.0) {
            Some(st) => {
                let mut st = st;
                st.sender.bind();
                self.windows.insert(id.0, st);
                Ok(())
            },
            None => Err(WindowError::UnknownWindow),
        }
    }
}

} // verus!
