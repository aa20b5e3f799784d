use nwin::decoder::{handle_message, Dispatch};
use nwin::native::{
    NativeRequest, SIZE_MAXIMIZED, SIZE_MINIMIZED, SIZE_RESTORED, SWP_HIDEWINDOW, SWP_NOACTIVATE,
    SW_MAXIMIZE, SW_MINIMIZE, SW_NORMAL, SW_RESTORE, WM_MOVE, WM_SIZE, WS_CLIPSIBLINGS,
    WS_OVERLAPPEDWINDOW, WS_POPUP, WS_SIZEBOX, WS_VISIBLE, WS_MAXIMIZEBOX, WS_MINIMIZEBOX,
};
use nwin::types::{BUTTON_CLOSE, BUTTON_MAXIMIZE, BUTTON_MINIMIZE};
use nwin::{
    EventLoop, FullscreenType, Registry, Theme, UserAttentionType, Window, WindowButtons,
    WindowError, WindowEvent, WindowId, WindowState,
};

const SCREEN_W: i32 = 1920;
const SCREEN_H: i32 = 1080;

fn open_window(raw: u64) -> (Registry, EventLoop, Window) {
    let mut reg = Registry::new();
    let mut el = EventLoop::new();
    let w = reg
        .install(WindowId(raw), WindowState::new(SCREEN_W, SCREEN_H, 7))
        .unwrap();
    el.bind(&mut reg, &w).unwrap();
    (reg, el, w)
}

fn pack(lo: u32, hi: u32) -> isize {
    ((hi as isize) << 16) | lo as isize
}

/// Window at (0, 0) with an 800 by 600 client area, its notifications drained.
fn placed_window(raw: u64) -> (Registry, EventLoop, Window) {
    let (mut reg, mut el, w) = open_window(raw);
    let id = w.id();
    handle_message(&mut reg, el.receiver(), id, WM_MOVE, 0, pack(0, 0));
    handle_message(&mut reg, el.receiver(), id, WM_SIZE, SIZE_RESTORED, pack(800, 600));
    el.events();
    (reg, el, w)
}

#[test]
fn new_window_has_defaults() {
    let (reg, _el, w) = open_window(1);
    let id = w.id();
    assert_eq!(reg.title(id).unwrap(), "nwin window");
    assert_eq!(reg.min_width(id), Ok(20));
    assert_eq!(reg.max_width(id), Ok(1920));
    assert_eq!(reg.max_height(id), Ok(1080));
    assert_eq!(reg.visible(id), Ok(false));
    assert_eq!(reg.resizeable(id), Ok(true));
    assert_eq!(reg.normalized(id), Ok(true));
    assert_eq!(reg.fullscreen_type(id), Ok(FullscreenType::NotFullscreen));
    assert_eq!(reg.fullscreen(id), Ok(false));
    assert_eq!(reg.theme(id), Ok(Theme::Light));
    assert_eq!(reg.style(id), Ok(WS_OVERLAPPEDWINDOW | WS_CLIPSIBLINGS));
    assert_eq!(reg.enabled_buttons(id), Ok(WindowButtons::all()));
}

#[test]
fn set_width_then_poll_reports_resize() {
    let (mut reg, mut el, w) = placed_window(2);
    let id = w.id();
    let req = reg.set_width(id, 1024).unwrap();
    let (width, height) = match req {
        NativeRequest::SetWindowPos { x, y, width, height, flags } => {
            assert_eq!((x, y), (0, 0));
            assert_eq!(flags, SWP_NOACTIVATE | SWP_HIDEWINDOW);
            (width, height)
        }
        other => panic!("unexpected request {:?}", other),
    };
    assert_eq!((width, height), (1024, 600));
    // The platform answers the move with a size notification.
    handle_message(&mut reg, el.receiver(), id, WM_SIZE, SIZE_RESTORED, pack(width as u32, height as u32));
    assert_eq!(el.pump_targets(), Vec::<WindowId>::new());
    let ev = el.next_event();
    assert_eq!(ev, Some((id, WindowEvent::Resized { width: 1024, height: 600 })));
    assert_eq!(reg.normalized(id), Ok(true));
    assert_eq!(reg.width(id), Ok(1024));
    assert_eq!(reg.height(id), Ok(600));
    assert_eq!(el.next_event(), None);
    assert_eq!(el.pump_targets(), vec![id]);
}

#[test]
fn size_operations_are_idempotent() {
    let (mut reg, mut el, w) = placed_window(3);
    let id = w.id();
    assert_eq!(reg.minimize(id).unwrap(), vec![NativeRequest::ShowWindow(SW_MINIMIZE)]);
    handle_message(&mut reg, el.receiver(), id, WM_SIZE, SIZE_MINIMIZED, 0);
    assert_eq!(reg.minimized(id), Ok(true));
    assert_eq!(reg.minimize(id).unwrap(), vec![]);
    assert_eq!(reg.normalize(id).unwrap(), vec![NativeRequest::ShowWindow(SW_NORMAL)]);
    assert_eq!(reg.maximize(id).unwrap(), vec![NativeRequest::ShowWindow(SW_MAXIMIZE)]);
    handle_message(&mut reg, el.receiver(), id, WM_SIZE, SIZE_MAXIMIZED, 0);
    assert_eq!(reg.maximized(id), Ok(true));
    assert_eq!(reg.maximize(id).unwrap(), vec![]);
    assert_eq!(reg.normalize(id).unwrap(), vec![NativeRequest::ShowWindow(SW_RESTORE)]);
    handle_message(&mut reg, el.receiver(), id, WM_SIZE, SIZE_RESTORED, pack(800, 600));
    assert_eq!(reg.normalized(id), Ok(true));
    assert_eq!(reg.normalize(id).unwrap(), vec![]);
    // Minimized and maximized notifications carry no usable size: no Resized event.
    let evs = el.events();
    assert_eq!(evs, vec![(id, WindowEvent::Resized { width: 800, height: 600 })]);
}

#[test]
fn borderless_fullscreen_round_trip_restores_style_and_geometry() {
    let (mut reg, mut el, w) = placed_window(4);
    let id = w.id();
    let style = reg.style(id).unwrap();
    let reqs = reg
        .set_fullscreen(id, FullscreenType::Borderless, style, SCREEN_W, SCREEN_H)
        .unwrap();
    assert_eq!(reqs[0], NativeRequest::SetStyle(WS_VISIBLE | WS_POPUP));
    match reqs[1] {
        NativeRequest::SetWindowPos { x, y, width, height, .. } => {
            assert_eq!((x, y, width, height), (0, 0, SCREEN_W, SCREEN_H));
        }
        other => panic!("unexpected request {:?}", other),
    }
    assert_eq!(reg.fullscreen_type(id), Ok(FullscreenType::Borderless));
    // The platform reports the new geometry.
    handle_message(&mut reg, el.receiver(), id, WM_MOVE, 0, pack(0, 0));
    handle_message(&mut reg, el.receiver(), id, WM_SIZE, SIZE_RESTORED, pack(1920, 1080));
    assert_eq!(reg.width(id), Ok(1920));
    // Asking again for the same mode changes nothing.
    assert_eq!(
        reg.set_fullscreen(id, FullscreenType::Borderless, WS_VISIBLE | WS_POPUP, SCREEN_W, SCREEN_H)
            .unwrap(),
        vec![]
    );
    let reqs = reg
        .set_fullscreen(id, FullscreenType::NotFullscreen, WS_VISIBLE | WS_POPUP, SCREEN_W, SCREEN_H)
        .unwrap();
    assert_eq!(reqs[0], NativeRequest::SetStyle(style));
    match reqs[1] {
        NativeRequest::SetWindowPos { x, y, width, height, .. } => {
            assert_eq!((x, y, width, height), (0, 0, 800, 600));
        }
        other => panic!("unexpected request {:?}", other),
    }
    assert_eq!(reg.style(id), Ok(style));
    assert_eq!(reg.width(id), Ok(800));
    assert_eq!(reg.height(id), Ok(600));
    assert_eq!(reg.fullscreen(id), Ok(false));
}

#[test]
fn borderless_on_popup_base_uses_fallback_and_restores_popup_geometry() {
    let (mut reg, _el, w) = placed_window(5);
    let id = w.id();
    let popup = WS_VISIBLE | WS_POPUP;
    let reqs = reg
        .set_fullscreen(id, FullscreenType::Borderless, popup, SCREEN_W, SCREEN_H)
        .unwrap();
    assert_eq!(reqs[0], NativeRequest::SetStyle(WS_VISIBLE | WS_POPUP));
    match reqs[1] {
        NativeRequest::SetWindowPos { x, y, width, height, .. } => {
            assert_eq!((x, y, width, height), (0, 0, 600, 400));
        }
        other => panic!("unexpected request {:?}", other),
    }
    let reqs = reg
        .set_fullscreen(id, FullscreenType::NotFullscreen, 0, SCREEN_W, SCREEN_H)
        .unwrap();
    assert_eq!(reqs[0], NativeRequest::SetStyle(popup));
    match reqs[1] {
        NativeRequest::SetWindowPos { x, y, width, height, .. } => {
            assert_eq!((x, y, width, height), (0, 0, 800, 600));
        }
        other => panic!("unexpected request {:?}", other),
    }
    assert_eq!(reg.style(id), Ok(popup));
}

#[test]
fn exclusive_fullscreen_is_unsupported() {
    let (mut reg, _el, w) = placed_window(6);
    let id = w.id();
    assert_eq!(
        reg.set_fullscreen(id, FullscreenType::Exclusive, 0, SCREEN_W, SCREEN_H),
        Err(WindowError::Unsupported)
    );
    assert_eq!(reg.fullscreen_type(id), Ok(FullscreenType::NotFullscreen));
}

#[test]
fn normalize_leaves_borderless_fullscreen() {
    let (mut reg, _el, w) = placed_window(7);
    let id = w.id();
    let style = reg.style(id).unwrap();
    reg.set_fullscreen(id, FullscreenType::Borderless, style, SCREEN_W, SCREEN_H)
        .unwrap();
    let reqs = reg.normalize(id).unwrap();
    assert_eq!(reqs.len(), 2);
    assert_eq!(reqs[0], NativeRequest::SetStyle(style));
    assert_eq!(reg.fullscreen_type(id), Ok(FullscreenType::NotFullscreen));
}

#[test]
fn dropping_last_handle_removes_state() {
    let (mut reg, _el, w) = open_window(8);
    let id = w.id();
    let second = reg.clone_handle(&w);
    reg.release(w);
    assert_eq!(reg.width(id), Ok(CW_DEFAULT_AS_U32));
    reg.release(second);
    assert!(!reg.contains(id));
    assert_eq!(reg.width(id), Err(WindowError::UnknownWindow));
    assert_eq!(reg.title(id), Err(WindowError::UnknownWindow));
    assert_eq!(reg.set_width(id, 10), Err(WindowError::UnknownWindow));
}

const CW_DEFAULT_AS_U32: u32 = 0x8000_0000;

#[test]
fn install_refuses_a_live_window() {
    let (mut reg, _el, w) = open_window(9);
    let again = reg.install(w.id(), WindowState::new(1, 1, 0));
    assert!(matches!(again, Err(WindowError::AlreadyRegistered)));
    assert_eq!(reg.max_width(w.id()), Ok(1920));
}

#[test]
fn setters_update_state_and_ask_the_platform() {
    let (mut reg, _el, w) = placed_window(10);
    let id = w.id();
    assert_eq!(reg.show(id), Ok(NativeRequest::ShowWindow(SW_NORMAL)));
    assert_eq!(reg.visible(id), Ok(true));
    assert_eq!(reg.style(id).unwrap() & WS_VISIBLE, WS_VISIBLE);
    assert_eq!(reg.hide_window(id), Ok(NativeRequest::ShowWindow(0)));
    assert_eq!(reg.visible(id), Ok(false));
    let style = reg.style(id).unwrap();
    assert_eq!(reg.set_resizeable(id, false), Ok(NativeRequest::SetStyle(style & !WS_SIZEBOX)));
    assert_eq!(reg.resizeable(id), Ok(false));
    assert_eq!(reg.set_resizeable(id, true), Ok(NativeRequest::SetStyle(style | WS_SIZEBOX)));
    reg.set_min_width(id, 100).unwrap();
    reg.set_min_height(id, 50).unwrap();
    reg.set_max_width(id, 1000).unwrap();
    reg.set_max_height(id, 700).unwrap();
    assert_eq!(reg.min_width(id), Ok(100));
    assert_eq!(reg.min_height(id), Ok(50));
    assert_eq!(reg.max_width(id), Ok(1000));
    assert_eq!(reg.max_height(id), Ok(700));
    assert_eq!(reg.set_height(id, 300).map(|r| matches!(r, NativeRequest::SetWindowPos { height: 300, width: 800, .. })), Ok(true));
}

#[test]
fn enabled_buttons_drive_caption_boxes() {
    let (mut reg, _el, w) = placed_window(11);
    let id = w.id();
    let style = reg.style(id).unwrap();
    let only_min = WindowButtons { bits: BUTTON_CLOSE | BUTTON_MINIMIZE };
    let req = reg.set_enabled_buttons(id, only_min).unwrap();
    assert_eq!(req, NativeRequest::SetStyle((style & !WS_MAXIMIZEBOX) | WS_MINIMIZEBOX));
    assert_eq!(reg.enabled_buttons(id), Ok(only_min));
    assert!(WindowButtons::all().contains(WindowButtons { bits: BUTTON_MAXIMIZE }));
    assert!(!only_min.contains(WindowButtons { bits: BUTTON_MAXIMIZE }));
    // Suppressing the close button is not supported and changes nothing.
    assert_eq!(
        reg.set_enabled_buttons(id, WindowButtons { bits: BUTTON_MINIMIZE | BUTTON_MAXIMIZE }),
        Err(WindowError::Unsupported)
    );
    assert_eq!(reg.enabled_buttons(id), Ok(only_min));
}

#[test]
fn theme_change_is_unsupported() {
    let (mut reg, _el, w) = open_window(12);
    assert_eq!(reg.set_theme(w.id(), Theme::Dark), Err(WindowError::Unsupported));
    assert_eq!(reg.set_theme(WindowId(999), Theme::Dark), Err(WindowError::UnknownWindow));
}

#[test]
fn focus_and_attention_requests() {
    let (mut reg, _el, w) = open_window(13);
    let id = w.id();
    assert_eq!(reg.focus(id, true), Ok(None));
    assert_eq!(reg.focused(id), Ok(false));
    assert_eq!(reg.focus(id, false), Ok(Some(NativeRequest::SetFocus)));
    assert_eq!(reg.focused(id), Ok(true));
    assert_eq!(reg.request_user_attention(id, UserAttentionType::Critical, true), Ok(None));
    assert_eq!(
        reg.request_user_attention(id, UserAttentionType::Critical, false),
        Ok(Some(NativeRequest::Flash { flags: 0x3 | 0xC, count: u32::MAX }))
    );
    assert_eq!(
        reg.request_user_attention(id, UserAttentionType::Informational, false),
        Ok(Some(NativeRequest::Flash { flags: 0x2 | 0xC, count: 0 }))
    );
}

#[test]
fn unknown_window_message_is_passed_on() {
    let mut reg = Registry::new();
    let mut el = EventLoop::new();
    let r = handle_message(&mut reg, el.receiver(), WindowId(77), WM_MOVE, 0, pack(3, 4));
    assert_eq!(r, Dispatch::Handled);
    assert!(el.events().is_empty());
}

#[test]
fn style_setters_keep_sibling_clipping() {
    let (mut reg, _el, w) = open_window(14);
    let id = w.id();
    assert_eq!(reg.set_style(id, WS_POPUP), Ok(NativeRequest::SetStyle(WS_POPUP | WS_CLIPSIBLINGS)));
    assert_eq!(reg.style(id), Ok(WS_POPUP | WS_CLIPSIBLINGS));
    assert_eq!(reg.set_style_ex(id, 0x8), Ok(NativeRequest::SetExStyle(0x8)));
    assert_eq!(reg.set_style_ex(WindowId(0), 0x8), Err(WindowError::UnknownWindow));
}

#[test]
fn fullscreen_restores_a_minimized_window() {
    let (mut reg, mut el, w) = placed_window(15);
    let id = w.id();
    handle_message(&mut reg, el.receiver(), id, WM_SIZE, SIZE_MINIMIZED, 0);
    let style = reg.style(id).unwrap();
    let reqs = reg
        .set_fullscreen(id, FullscreenType::Borderless, style, SCREEN_W, SCREEN_H)
        .unwrap();
    assert_eq!(reqs.len(), 3);
    assert_eq!(reqs[0], NativeRequest::ShowWindow(SW_RESTORE));
    assert_eq!(reqs[1], NativeRequest::SetStyle(WS_VISIBLE | WS_POPUP));
    assert_eq!(reg.minimized(id), Ok(false));
    assert_eq!(reg.fullscreen(id), Ok(true));
}
