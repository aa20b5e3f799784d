use nwin::native::NativeRequest;
use nwin::xdecoder::{handle_x_event, XNotification, LOCK_MASK, SHIFT_MASK};
use nwin::modifiers::{MOD_CAPSLOCK, MOD_LSHIFT};
use nwin::{EventLoop, KeyboardScancode, Modifiers, MouseScancode, Registry, Window, WindowEvent, WindowId, WindowState};

fn open_x_window(raw: u64) -> (Registry, EventLoop, Window) {
    let mut reg = Registry::new();
    let mut el = EventLoop::new();
    let w = reg.install(WindowId(raw), WindowState::new(1280, 1024, 0)).unwrap();
    el.bind(&mut reg, &w).unwrap();
    (reg, el, w)
}

#[test]
fn configure_reports_move_then_resize() {
    let (mut reg, mut el, w) = open_x_window(0x40_0001);
    let id = w.id();
    let configure = XNotification::ConfigureNotify { x: 10, y: 20, width: 640, height: 480 };
    handle_x_event(&mut reg, el.receiver(), id, configure);
    handle_x_event(&mut reg, el.receiver(), id, configure);
    assert_eq!(
        el.events(),
        vec![
            (id, WindowEvent::Moved { x: 10, y: 20 }),
            (id, WindowEvent::Resized { width: 640, height: 480 }),
        ]
    );
    assert_eq!(reg.width(id), Ok(640));
}

#[test]
fn x_key_state_sets_modifiers_on_change() {
    let (mut reg, mut el, w) = open_x_window(0x40_0002);
    let id = w.id();
    // Keycode 38 is the A key (scancode 0x1E) on an evdev server.
    let press = XNotification::KeyPress { keycode: 38, keysym: 0x61, shifted_keysym: 0x41, state: SHIFT_MASK | LOCK_MASK };
    handle_x_event(&mut reg, el.receiver(), id, press);
    handle_x_event(&mut reg, el.receiver(), id, XNotification::KeyRelease { keycode: 38, keysym: 0x61, state: SHIFT_MASK | LOCK_MASK });
    handle_x_event(&mut reg, el.receiver(), id, XNotification::KeyPress { keycode: 38, keysym: 0x61, shifted_keysym: 0x61, state: 0 });
    let down = |c: char| WindowEvent::KeyDown {
        logical_scancode: KeyboardScancode::A,
        physical_scancode: Some(KeyboardScancode::A),
        character: Some(c),
        unshifted_char: Some('a'),
    };
    assert_eq!(
        el.events(),
        vec![
            (id, down('A')),
            (id, WindowEvent::ModifiersChanged(Modifiers::from_bits(MOD_LSHIFT | MOD_CAPSLOCK))),
            (id, WindowEvent::KeyUp { logical_scancode: KeyboardScancode::A, physical_scancode: Some(KeyboardScancode::A) }),
            (id, down('a')),
            (id, WindowEvent::ModifiersChanged(Modifiers::empty())),
        ]
    );
}

#[test]
fn x_buttons_focus_and_close() {
    let (mut reg, mut el, w) = open_x_window(0x40_0003);
    let id = w.id();
    handle_x_event(&mut reg, el.receiver(), id, XNotification::ButtonPress { button: 1 });
    handle_x_event(&mut reg, el.receiver(), id, XNotification::ButtonRelease { button: 9 });
    handle_x_event(&mut reg, el.receiver(), id, XNotification::FocusIn);
    handle_x_event(&mut reg, el.receiver(), id, XNotification::FocusIn);
    assert_eq!(
        handle_x_event(&mut reg, el.receiver(), id, XNotification::ClientMessage { data: 5, delete_atom: 5 }),
        Some(NativeRequest::Destroy)
    );
    assert_eq!(
        handle_x_event(&mut reg, el.receiver(), id, XNotification::ClientMessage { data: 4, delete_atom: 5 }),
        None
    );
    handle_x_event(&mut reg, el.receiver(), id, XNotification::DestroyNotify);
    assert_eq!(
        el.events(),
        vec![
            (id, WindowEvent::MouseButtonDown(MouseScancode::LClick)),
            (id, WindowEvent::MouseButtonUp(MouseScancode::ButtonN(9))),
            (id, WindowEvent::Focused(true)),
            (id, WindowEvent::CloseRequested),
            (id, WindowEvent::Destroyed),
        ]
    );
    assert!(!reg.contains(id));
    assert_eq!(handle_x_event(&mut reg, el.receiver(), id, XNotification::FocusOut), None);
    assert!(el.events().is_empty());
}

#[test]
fn x_keys_without_a_known_keysym_report_only_modifiers() {
    let (mut reg, mut el, w) = open_x_window(0x40_0004);
    let id = w.id();
    handle_x_event(&mut reg, el.receiver(), id, XNotification::KeyRelease { keycode: 200, keysym: 0x1008_FF11, state: 0 });
    assert!(el.events().is_empty());
    handle_x_event(&mut reg, el.receiver(), id, XNotification::KeyPress { keycode: 4, keysym: 0xFF0D, shifted_keysym: 0x0100_20AC, state: 0 });
    assert_eq!(
        el.events(),
        vec![(
            id,
            WindowEvent::KeyDown {
                logical_scancode: KeyboardScancode::Enter,
                physical_scancode: None,
                character: Some('\u{20ac}'),
                unshifted_char: None,
            }
        )]
    );
}
