use nwin::decoder::{
    handle_key, handle_message, is_key_message, key_query, record_title, record_title_utf16, Dispatch,
    KeyAnswer, KeyQuery,
};
use nwin::keys::{
    char_from_unit, key_from_oem_scancode, key_from_virtual_key, modifier_for_key,
    mouse_from_virtual_key, KeyPressInfo, KeyState, VK_CAPITAL, VK_LSHIFT, VK_RETURN, VK_RSHIFT,
    VK_SHIFT, VK_TAB,
};
use nwin::modifiers::{MOD_CAPSLOCK, MOD_LSHIFT, MOD_NUMLOCK, MOD_RSHIFT};
use nwin::native::{
    NativeRequest, SC_MAXIMIZE, SC_NEXTWINDOW, SC_RESTORE, SIZE_MAXIMIZED, WA_ACTIVE,
    WA_CLICKACTIVE, WA_INACTIVE, WM_ACTIVATE, WM_CLOSE, WM_CREATE, WM_DESTROY, WM_GETMINMAXINFO,
    WM_KEYDOWN, WM_KEYUP, WM_MOUSEWHEEL, WM_SETTEXT, WM_SIZE, WM_SYSKEYDOWN, WM_SYSKEYUP,
};
use nwin::{
    EventLoop, KeyboardScancode, Modifiers, MouseScancode, Registry, Window, WindowError,
    WindowEvent, WindowId, WindowState,
};

fn open_window(raw: u64) -> (Registry, EventLoop, Window) {
    let mut reg = Registry::new();
    let mut el = EventLoop::new();
    let w = reg.install(WindowId(raw), WindowState::new(1920, 1080, 0)).unwrap();
    el.bind(&mut reg, &w).unwrap();
    (reg, el, w)
}

fn key_lparam(scancode: u16, up: bool) -> isize {
    let extended = if scancode & 0xE000 == 0xE000 { 0x0100_0000 } else { 0 };
    let transition = if up { 0x4000_0000 } else { 0 };
    1 | (((scancode & 0xFF) as isize) << 16) | extended | transition
}

fn no_glyph(sided_vk: u16) -> KeyAnswer {
    KeyAnswer { sided_vk, translated_count: 0, translated_unit: 0, unshifted_count: 0, unshifted_unit: 0 }
}

/// Sends one key message with the given platform answer.
fn key(reg: &mut Registry, el: &mut EventLoop, id: WindowId, msg: u32, vk: u16, scancode: u16, answer: KeyAnswer) -> Dispatch {
    let up = msg == WM_KEYUP || msg == WM_SYSKEYUP;
    handle_key(reg, el.receiver(), id, msg, vk as usize, key_lparam(scancode, up), answer)
}

#[test]
fn shifted_a_resolves_upper_and_unshifted_lower() {
    let (mut reg, mut el, w) = open_window(1);
    let id = w.id();
    key(&mut reg, &mut el, id, WM_KEYDOWN, VK_SHIFT, 0x2A, no_glyph(VK_LSHIFT));
    assert_eq!(
        el.events(),
        vec![(id, WindowEvent::ModifiersChanged(Modifiers::from_bits(MOD_LSHIFT)))]
    );
    let q = key_query(&reg, id, WM_KEYDOWN, 0x41, key_lparam(0x1E, false)).unwrap();
    assert_eq!(q, KeyQuery { virtual_key: 0x41, scancode: 0x1E, shift: true, translate: true });
    // A US layout translates the key to 'A' with the shift bit set as asked, and
    // to 'a' with an empty key state.
    let answer = KeyAnswer {
        sided_vk: 0,
        translated_count: 1,
        translated_unit: 'A' as u16,
        unshifted_count: 1,
        unshifted_unit: 'a' as u16,
    };
    key(&mut reg, &mut el, id, WM_KEYDOWN, 0x41, 0x1E, answer);
    assert_eq!(
        el.next_event(),
        Some((
            id,
            WindowEvent::KeyDown {
                logical_scancode: KeyboardScancode::A,
                physical_scancode: Some(KeyboardScancode::A),
                character: Some('A'),
                unshifted_char: Some('a'),
            }
        ))
    );
    assert_eq!(el.next_event(), None);
}

#[test]
fn caps_lock_inverts_shift_for_translation() {
    let (mut reg, mut el, w) = open_window(2);
    let id = w.id();
    key(&mut reg, &mut el, id, WM_KEYDOWN, VK_CAPITAL, 0x3A, no_glyph(0));
    assert!(key_query(&reg, id, WM_KEYDOWN, 0x41, key_lparam(0x1E, false)).unwrap().shift);
    key(&mut reg, &mut el, id, WM_KEYDOWN, VK_SHIFT, 0x36, no_glyph(VK_RSHIFT));
    assert!(!key_query(&reg, id, WM_KEYDOWN, 0x41, key_lparam(0x1E, false)).unwrap().shift);
    assert_eq!(reg.modifiers(id), Ok(Modifiers::from_bits(MOD_CAPSLOCK | MOD_RSHIFT)));
}

#[test]
fn caps_lock_twice_restores_modifiers() {
    let (mut reg, mut el, w) = open_window(3);
    let id = w.id();
    key(&mut reg, &mut el, id, WM_KEYDOWN, VK_SHIFT, 0x2A, no_glyph(VK_LSHIFT));
    let before = reg.modifiers(id).unwrap();
    for _ in 0..2 {
        key(&mut reg, &mut el, id, WM_KEYDOWN, VK_CAPITAL, 0x3A, no_glyph(0));
        key(&mut reg, &mut el, id, WM_KEYUP, VK_CAPITAL, 0x3A, no_glyph(0));
    }
    assert_eq!(reg.modifiers(id), Ok(before));
    // Every press and release of the lock key reported the modifiers, changed or not.
    let evs = el.events();
    assert_eq!(evs.len(), 5);
    assert_eq!(evs[2], (id, WindowEvent::ModifiersChanged(Modifiers::from_bits(MOD_LSHIFT | MOD_CAPSLOCK))));
    assert_eq!(evs[4], (id, WindowEvent::ModifiersChanged(before)));
}

#[test]
fn shift_release_clears_its_bit_whatever_the_locks() {
    let m = Modifiers::from_bits(MOD_CAPSLOCK | MOD_NUMLOCK);
    let shift = Modifiers::from_bits(MOD_LSHIFT);
    let held = m.apply_key(shift, true);
    assert_eq!(held.bits(), MOD_CAPSLOCK | MOD_NUMLOCK | MOD_LSHIFT);
    let released = held.apply_key(shift, false);
    assert_eq!(released.bits(), MOD_CAPSLOCK | MOD_NUMLOCK);
    assert!(!released.contains(shift));
    let lock = Modifiers::from_bits(MOD_NUMLOCK);
    assert_eq!(m.apply_key(lock, false), m);
    assert_eq!(m.apply_key(lock, true).bits(), MOD_CAPSLOCK);
}

#[test]
fn physical_key_does_not_follow_the_layout() {
    let (mut reg, mut el, w) = open_window(4);
    let id = w.id();
    // The key at scancode 0x10 is Q on one layout and A on another.
    key(&mut reg, &mut el, id, WM_KEYDOWN, 0x51, 0x10, no_glyph(0));
    key(&mut reg, &mut el, id, WM_KEYDOWN, 0x41, 0x10, no_glyph(0));
    let evs = el.events();
    match (evs[0].1, evs[1].1) {
        (
            WindowEvent::KeyDown { logical_scancode: l1, physical_scancode: p1, .. },
            WindowEvent::KeyDown { logical_scancode: l2, physical_scancode: p2, .. },
        ) => {
            assert_eq!(p1, Some(KeyboardScancode::Q));
            assert_eq!(p1, p2);
            assert_eq!(l1, KeyboardScancode::Q);
            assert_eq!(l2, KeyboardScancode::A);
        }
        other => panic!("unexpected events {:?}", other),
    }
}

#[test]
fn key_up_reports_logical_and_physical_keys() {
    let (mut reg, mut el, w) = open_window(5);
    let id = w.id();
    assert_eq!(key(&mut reg, &mut el, id, WM_KEYUP, VK_RETURN, 0xE01C, no_glyph(0)), Dispatch::Handled);
    assert_eq!(
        el.events(),
        vec![(
            id,
            WindowEvent::KeyUp {
                logical_scancode: KeyboardScancode::Enter,
                physical_scancode: Some(KeyboardScancode::NumEnter),
            }
        )]
    );
}

#[test]
fn function_key_has_no_character() {
    let (mut reg, mut el, w) = open_window(6);
    let id = w.id();
    let q = key_query(&reg, id, WM_KEYDOWN, 0x70, key_lparam(0x3B, false)).unwrap();
    assert!(q.translate);
    key(&mut reg, &mut el, id, WM_KEYDOWN, 0x70, 0x3B, no_glyph(0));
    assert_eq!(
        el.events(),
        vec![(
            id,
            WindowEvent::KeyDown {
                logical_scancode: KeyboardScancode::F1,
                physical_scancode: Some(KeyboardScancode::F1),
                character: None,
                unshifted_char: None,
            }
        )]
    );
}

#[test]
fn alt_enter_and_alt_tab_go_to_the_platform() {
    let (mut reg, mut el, w) = open_window(7);
    let id = w.id();
    let q = key_query(&reg, id, WM_SYSKEYDOWN, VK_RETURN as usize, key_lparam(0x1C, false)).unwrap();
    assert!(!q.translate);
    assert_eq!(
        key(&mut reg, &mut el, id, WM_SYSKEYDOWN, VK_RETURN, 0x1C, no_glyph(0)),
        Dispatch::Request(NativeRequest::SysCommand(SC_MAXIMIZE))
    );
    assert_eq!(key(&mut reg, &mut el, id, WM_SYSKEYUP, VK_RETURN, 0x1C, no_glyph(0)), Dispatch::Handled);
    handle_message(&mut reg, el.receiver(), id, WM_SIZE, SIZE_MAXIMIZED, 0);
    assert_eq!(
        key(&mut reg, &mut el, id, WM_SYSKEYDOWN, VK_RETURN, 0x1C, no_glyph(0)),
        Dispatch::Request(NativeRequest::SysCommand(SC_RESTORE))
    );
    assert_eq!(
        key(&mut reg, &mut el, id, WM_SYSKEYDOWN, VK_TAB, 0x0F, no_glyph(0)),
        Dispatch::Request(NativeRequest::SysCommand(SC_NEXTWINDOW))
    );
    assert!(el.events().is_empty());
}

#[test]
fn draining_twice_gives_events_once() {
    let (mut reg, mut el, w) = open_window(8);
    let id = w.id();
    handle_message(&mut reg, el.receiver(), id, WM_CREATE, 0, 0);
    handle_message(&mut reg, el.receiver(), id, WM_MOUSEWHEEL, 0xFF88_0000, 0);
    let first = el.events();
    assert_eq!(
        first,
        vec![(id, WindowEvent::Created), (id, WindowEvent::MouseWheelScroll(-120))]
    );
    assert!(el.events().is_empty());
    assert!(el.events().is_empty());
}

#[test]
fn events_before_binding_are_dropped() {
    let mut reg = Registry::new();
    let mut el = EventLoop::new();
    let w = reg.install(WindowId(9), WindowState::new(1, 1, 0)).unwrap();
    handle_message(&mut reg, el.receiver(), w.id(), WM_CREATE, 0, 0);
    assert!(el.events().is_empty());
    el.bind(&mut reg, &w).unwrap();
    el.bind(&mut reg, &w).unwrap();
    assert_eq!(el.pump_targets(), vec![w.id()]);
    handle_message(&mut reg, el.receiver(), w.id(), WM_CREATE, 0, 0);
    assert_eq!(el.events(), vec![(w.id(), WindowEvent::Created)]);
}

#[test]
fn focus_is_reported_only_on_change() {
    let (mut reg, mut el, w) = open_window(10);
    let id = w.id();
    handle_message(&mut reg, el.receiver(), id, WM_ACTIVATE, WA_ACTIVE, 0);
    handle_message(&mut reg, el.receiver(), id, WM_ACTIVATE, WA_CLICKACTIVE, 0);
    assert_eq!(reg.focused(id), Ok(true));
    handle_message(&mut reg, el.receiver(), id, WM_ACTIVATE, WA_INACTIVE, 0);
    handle_message(&mut reg, el.receiver(), id, WM_ACTIVATE, 9, 0);
    assert_eq!(
        el.events(),
        vec![(id, WindowEvent::Focused(true)), (id, WindowEvent::Focused(false))]
    );
}

#[test]
fn close_and_destroy_lifecycle() {
    let (mut reg, mut el, w) = open_window(11);
    let id = w.id();
    assert_eq!(
        handle_message(&mut reg, el.receiver(), id, WM_CLOSE, 0, 0),
        Dispatch::Request(NativeRequest::Destroy)
    );
    assert_eq!(handle_message(&mut reg, el.receiver(), id, WM_DESTROY, 0, 0), Dispatch::Handled);
    assert_eq!(
        el.events(),
        vec![(id, WindowEvent::CloseRequested), (id, WindowEvent::Destroyed)]
    );
    assert_eq!(reg.visible(id), Err(WindowError::UnknownWindow));
    assert_eq!(
        handle_message(&mut reg, el.receiver(), id, WM_CLOSE, 0, 0),
        Dispatch::Request(NativeRequest::Destroy)
    );
    reg.release(w);
    assert!(!reg.contains(id));
}

#[test]
fn size_limits_and_title_from_the_platform() {
    let (mut reg, mut el, w) = open_window(12);
    let id = w.id();
    reg.set_min_width(id, 30).unwrap();
    assert_eq!(
        handle_message(&mut reg, el.receiver(), id, WM_GETMINMAXINFO, 0, 0),
        Dispatch::SizeLimits { min_width: 30, min_height: 20, max_width: 1920, max_height: 1080 }
    );
    assert_eq!(handle_message(&mut reg, el.receiver(), id, WM_SETTEXT, 0, 0), Dispatch::Default);
    assert_eq!(record_title(&mut reg, id, "renamed".to_string()), Dispatch::Default);
    assert_eq!(reg.title(id).unwrap(), "renamed");
    assert_eq!(handle_message(&mut reg, el.receiver(), id, 0x7FFF, 0, 0), Dispatch::Default);
}

#[test]
fn key_tables() {
    assert!(is_key_message(WM_SYSKEYUP));
    assert!(!is_key_message(WM_SIZE));
    assert_eq!(key_from_virtual_key(0x6C), Some(KeyboardScancode::NumPeriod));
    assert_eq!(key_from_virtual_key(0x6E), Some(KeyboardScancode::NumPeriod));
    assert_eq!(key_from_virtual_key(0xC0), Some(KeyboardScancode::Tilde));
    assert_eq!(key_from_virtual_key(VK_SHIFT), None);
    assert_eq!(key_from_oem_scancode(0x1C), Some(KeyboardScancode::Enter));
    assert_eq!(key_from_oem_scancode(0xE01C), Some(KeyboardScancode::NumEnter));
    assert_eq!(key_from_oem_scancode(0xE05B), Some(KeyboardScancode::LSys));
    assert_eq!(key_from_oem_scancode(0x00), None);
    assert_eq!(mouse_from_virtual_key(0x05), Some(MouseScancode::Button4));
    assert_eq!(mouse_from_virtual_key(0x07), None);
    assert_eq!(modifier_for_key(VK_SHIFT, VK_RSHIFT), Some(Modifiers::from_bits(MOD_RSHIFT)));
    assert_eq!(modifier_for_key(VK_LSHIFT, 0), Some(Modifiers::from_bits(MOD_LSHIFT)));
    assert_eq!(modifier_for_key(0x41, VK_LSHIFT), None);
}

#[test]
fn mouse_virtual_key_reports_button() {
    let (mut reg, mut el, w) = open_window(13);
    let id = w.id();
    key(&mut reg, &mut el, id, WM_KEYDOWN, 0x06, 0, no_glyph(0));
    key(&mut reg, &mut el, id, WM_KEYUP, 0x06, 0, no_glyph(0));
    assert_eq!(
        el.events(),
        vec![
            (id, WindowEvent::MouseButtonDown(MouseScancode::Button5)),
            (id, WindowEvent::MouseButtonUp(MouseScancode::Button5)),
        ]
    );
}

#[test]
fn key_press_info_unpacks_the_parameter() {
    let info = KeyPressInfo::from_isize(0x4138_0003);
    assert_eq!(info.repeat_count, 3);
    assert_eq!(info.scancode, 0xE038);
    assert!(!info.context_code);
    assert_eq!(info.previous_state, KeyState::Down);
    let info = KeyPressInfo::from_isize(0x101E_0001);
    assert_eq!(info.scancode, 0x001E);
    assert!(info.context_code);
    assert_eq!(info.previous_state, KeyState::Up);
    assert_eq!(KeyState::from_bool(true), KeyState::Down);
}

#[test]
fn utf16_units_decode_to_characters() {
    assert_eq!(char_from_unit(0x41), Some('A'));
    assert_eq!(char_from_unit(0x00E9), Some('\u{e9}'));
    assert_eq!(char_from_unit(0xD800), None);
    assert_eq!(char_from_unit(0xDFFF), None);
}

#[test]
fn key_decoder_leaves_other_messages_alone() {
    let (mut reg, mut el, w) = open_window(14);
    let id = w.id();
    assert_eq!(handle_key(&mut reg, el.receiver(), id, WM_SIZE, 0, 0, no_glyph(0)), Dispatch::Default);
    assert_eq!(key_query(&reg, id, WM_SIZE, 0, 0), None);
    assert_eq!(key_query(&reg, WindowId(404), WM_KEYDOWN, 0x41, 0), None);
    assert!(el.events().is_empty());
}

#[test]
fn dead_key_has_no_unshifted_character() {
    let (mut reg, mut el, w) = open_window(15);
    let id = w.id();
    // The acute-accent key of a dead-key layout: both translations report a dead key.
    let answer = KeyAnswer {
        sided_vk: 0,
        translated_count: -1,
        translated_unit: 0x00B4,
        unshifted_count: -1,
        unshifted_unit: 0x00B4,
    };
    key(&mut reg, &mut el, id, WM_KEYDOWN, 0xDE, 0x28, answer);
    assert_eq!(
        el.events(),
        vec![(
            id,
            WindowEvent::KeyDown {
                logical_scancode: KeyboardScancode::Apostrophe,
                physical_scancode: Some(KeyboardScancode::Apostrophe),
                character: None,
                unshifted_char: None,
            }
        )]
    );
}

#[test]
fn title_text_is_decoded_from_utf16() {
    let (mut reg, _el, w) = open_window(16);
    let id = w.id();
    let units: Vec<u16> = "héllo 😀".encode_utf16().collect();
    assert_eq!(record_title_utf16(&mut reg, id, &units), Dispatch::Default);
    assert_eq!(reg.title(id).unwrap(), "héllo 😀");
    // An unpaired surrogate leaves the title as it was.
    assert_eq!(record_title_utf16(&mut reg, id, &[0x41, 0xD800]), Dispatch::Default);
    assert_eq!(reg.title(id).unwrap(), "héllo 😀");
}
