use vstd::prelude::*;

use crate::event::{sent, EventReceiver, EventSender, WindowEvent};
use crate::keys::{
    char_from_unit, is_sideless_modifier, key_from_oem_scancode, key_from_virtual_key,
    lparam_scancode, logical_key, modifier_flag_of_vk, modifier_for_key, mouse_button,
    mouse_from_virtual_key, physical_key, unit_char, KeyPressInfo, KeyboardScancode,
    MouseScancode, VK_RETURN, VK_TAB,
};
use crate::modifiers::{modifiers_after, shift_active, Modifiers};
use crate::native::{
    NativeRequest, SC_MAXIMIZE, SC_NEXTWINDOW, SC_RESTORE, SIZE_MAXIMIZED, SIZE_MINIMIZED,
    SIZE_RESTORED, WA_ACTIVE, WA_CLICKACTIVE, WA_INACTIVE, WM_ACTIVATE, WM_CLOSE, WM_CREATE,
    WM_DESTROY, WM_GETMINMAXINFO, WM_KEYDOWN, WM_KEYUP, WM_MOUSEWHEEL, WM_MOVE, WM_SIZE,
    WM_SYSKEYDOWN, WM_SYSKEYUP,
};
use crate::registry::{Registry, WindowState};
use crate::types::{WindowId, WindowSizeState};

verus! {

/// What the window procedure does once the library has handled a message.
#[derive(Copy, Clone, Debug, PartialEq, Eq, Structural)]
pub enum Dispatch {
    /// The message is handled; answer zero.
    Handled,
    /// Pass the message on to the platform's default handling.
    Default,
    /// Answer a size-limits query with these bounds.
    SizeLimits { min_width: i32, min_height: i32, max_width: i32, max_height: i32 },
    /// Make this native call, then answer zero.
    Request(NativeRequest),
}

/// Bits 0 to 15 of a packed parameter.
pub open spec fn low_word(l: isize) -> u32 {
    (l & 0xFFFF) as u32
}

/// Bits 16 to 31 of a packed parameter.
pub open spec fn high_word(l: isize) -> u32 {
    ((l >> 16) & 0xFFFF) as u32
}

/// Sends each event of `evs`, in order, through `sender`.
pub(crate) fn send_all(sender: EventSender, rx: &mut EventReceiver, id: WindowId, evs: &Vec<WindowEvent>)
    ensures
        final(rx)@ == old(rx)@ + sent(sender, id, evs@),
{
    let mut i: usize = 0;
    while i < evs.len()
        invariant
            0 <= i <= evs@.len(),
            rx@ == old(rx)@ + sent(sender, id, evs@.subrange(0, i as int)),
        decreases evs@.len() - i,
    {
        let ev = evs[i];
        sender.send(rx, id, ev);
        proof {
            let before = evs@.subrange(0, i as int);
            let after = evs@.subrange(0, i + 1);
            assert(after =~= before.push(ev));
            assert(sent(sender, id, after) =~= sent(sender, id, before) + sent(sender, id, seq![ev]));
        }
        i = i + 1;
    }
    proof {
        assert(evs@.subrange(0, evs@.len() as int) =~= evs@);
    }
}

/// State and events after a move notification whose parameter is `l`.
pub open spec fn moved(st: WindowState, l: isize) -> (WindowState, Seq<WindowEvent>) {
    (
        WindowState { x: low_word(l) as i32, y: high_word(l) as i32, ..st },
        seq![WindowEvent::Moved { x: low_word(l), y: high_word(l) }],
    )
}

/// State and events after a size notification of kind `how` whose parameter is `l`.
/// A restored window takes the new size; a minimized or maximized one only changes
/// size state, since no usable size comes with it; other kinds are ignored.
pub open spec fn sized(st: WindowState, how: usize, l: isize) -> (WindowState, Seq<WindowEvent>) {
    if how == SIZE_RESTORED {
        (
            WindowState {
                width: low_word(l) as i32,
                height: high_word(l) as i32,
                size_state: WindowSizeState::Other,
                ..st
            },
            seq![WindowEvent::Resized { width: low_word(l), height: high_word(l) }],
        )
    } else if how == SIZE_MINIMIZED {
        (WindowState { size_state: WindowSizeState::Minimized, ..st }, seq![])
    } else if how == SIZE_MAXIMIZED {
        (WindowState { size_state: WindowSizeState::Maximized, ..st }, seq![])
    } else {
        (st, seq![])
    }
}

/// Whether the activation code `code` means focused; none for an unknown code.
pub open spec fn activation_focus(code: usize) -> Option<bool> {
    if code == WA_ACTIVE || code == WA_CLICKACTIVE {
        Some(true)
    } else if code == WA_INACTIVE {
        Some(false)
    } else {
        None
    }
}

/// State and events after an activation notification: focus is recorded and
/// reported only when it changes.
pub open spec fn activated(st: WindowState, w: usize) -> (WindowState, Seq<WindowEvent>) {
    match activation_focus(w & 0xFFFF) {
        Some(f) => if f != st.focused {
            (WindowState { focused: f, ..st }, seq![WindowEvent::Focused(f)])
        } else {
            (st, seq![])
        },
        None => (st, seq![]),
    }
}

/// The wheel delta in the high word of a wheel notification's first parameter.
pub open spec fn wheel_delta(w: usize) -> i16 {
    ((w >> 16) & 0xFFFF) as i16
}

/// State and events that a message other than a key or text message brings to a
/// registered window, and the reply. Destruction also removes the window.
pub open spec fn message_effect(st: WindowState, msg: u32, w: usize, l: isize) -> (WindowState, Seq<WindowEvent>, Dispatch) {
    if msg == WM_CREATE {
        (st, seq![WindowEvent::Created], Dispatch::Handled)
    } else if msg == WM_CLOSE {
        (st, seq![WindowEvent::CloseRequested], Dispatch::Request(NativeRequest::Destroy))
    } else if msg == WM_DESTROY {
        (st, seq![WindowEvent::Destroyed], Dispatch::Handled)
    } else if msg == WM_GETMINMAXINFO {
        (
            st,
            seq![],
            Dispatch::SizeLimits {
                min_width: st.min_width,
                min_height: st.min_height,
                max_width: st.max_width,
                max_height: st.max_height,
            },
        )
    } else if msg == WM_MOVE {
        (moved(st, l).0, moved(st, l).1, Dispatch::Handled)
    } else if msg == WM_SIZE {
        (sized(st, w, l).0, sized(st, w, l).1, Dispatch::Handled)
    } else if msg == WM_ACTIVATE {
        (activated(st, w).0, activated(st, w).1, Dispatch::Handled)
    } else if msg == WM_MOUSEWHEEL {
        (st, seq![WindowEvent::MouseWheelScroll(wheel_delta(w))], Dispatch::Handled)
    } else {
        (st, seq![], Dispatch::Default)
    }
}

/// The reply to a message for a window that is not registered: a close request is
/// still carried out, and the rest goes to default handling.
pub open spec fn unknown_window_reply(msg: u32) -> Dispatch {
    if msg == WM_CLOSE {
        Dispatch::Request(NativeRequest::Destroy)
    } else if msg == WM_DESTROY || msg == WM_MOVE || msg == WM_SIZE || msg == WM_ACTIVATE || msg
        == WM_CREATE || msg == WM_MOUSEWHEEL {
        Dispatch::Handled
    } else {
        Dispatch::Default
    }
}

/// Handles one native message for window `id` that is neither a key message nor a
/// title change: records what it changes and queues the events it brings.
#[verifier::spinoff_prover]
#[verifier::rlimit(50)]
pub fn handle_message(
    reg: &mut Registry,
    rx: &mut EventReceiver,
    id: WindowId,
    msg: u32,
    wparam: usize,
    lparam: isize,
) -> (r: Dispatch)
    ensures
        old(reg).has(id) ==> {
            let st = old(reg).get(id);
            let (st2, evs, reply) = message_effect(st, msg, wparam, lparam);
            &&& r == reply
            &&& final(rx)@ == old(rx)@ + sent(st.sender, id, evs)
            &&& msg == WM_DESTROY ==> final(reg).windows() == old(reg).windows().remove(id.0)
                && final(reg).handles() == old(reg).handles().remove(id.0)
            &&& msg != WM_DESTROY ==> final(reg).windows() == old(reg).windows().insert(id.0, st2)
                && final(reg).handles() == old(reg).handles()
        },
        !old(reg).has(id) ==> {
            &&& r == unknown_window_reply(msg)
            &&& final(rx)@ == old(rx)@
            &&& final(reg).windows() == old(reg).windows()
            &&& final(reg).handles() == old(reg).handles()
        },
{
    let st = match reg.take(id) {
        Some(st) => st,
        None => {
            let reply = if msg == WM_CLOSE {
                Dispatch::Request(NativeRequest::Destroy)
            } else if msg == WM_DESTROY || msg == WM_MOVE || msg == WM_SIZE || msg == WM_ACTIVATE
                || msg == WM_CREATE || msg == WM_MOUSEWHEEL {
                Dispatch::Handled
            } else {
                Dispatch::Default
            };
            proof {
                assert(reg.windows() =~= old(reg).windows());
            }
            return reply;
        },
    };
    let ghost st0 = st;
    let mut st = st;
    let mut evs: Vec<WindowEvent> = Vec::new();
    let mut reply = Dispatch::Handled;
    if msg == WM_CREATE {
        evs.push(WindowEvent::Created);
    } else if msg == WM_CLOSE {
        evs.push(WindowEvent::CloseRequested);
        reply = Dispatch::Request(NativeRequest::Destroy);
    } else if msg == WM_DESTROY {
        evs.push(WindowEvent::Destroyed);
    } else if msg == WM_GETMINMAXINFO {
        reply = Dispatch::SizeLimits {
            min_width: st.min_width,
            min_height: st.min_height,
            max_width: st.max_width,
            max_height: st.max_height,
        };
    } else if msg == WM_MOVE {
        let x = (lparam & 0xFFFF) as u32;
        let y = ((lparam >> 16) & 0xFFFF) as u32;
        st.x = x as i32;
        st.y = y as i32;
        evs.push(WindowEvent::Moved { x, y });
    } else if msg == WM_SIZE {
        if wparam == SIZE_RESTORED {
            let width = (lparam & 0xFFFF) as u32;
            let height = ((lparam >> 16) & 0xFFFF) as u32;
            st.width = width as i32;
            st.height = height as i32;
            st.size_state = WindowSizeState::Other;
            evs.push(WindowEvent::Resized { width, height });
        } else if wparam == SIZE_MINIMIZED {
            st.size_state = WindowSizeState::Minimized;
        } else if wparam == SIZE_MAXIMIZED {
            st.size_state = WindowSizeState::Maximized;
        }
    } else if msg == WM_ACTIVATE {
        let code = wparam & 0xFFFF;
        let focus = if code == WA_ACTIVE || code == WA_CLICKACTIVE {
            Some(true)
        } else if code == WA_INACTIVE {
            Some(false)
        } else {
            None
        };
        match focus {
            Some(f) => {
                if f != st.focused {
                    st.focused = f;
                    evs.push(WindowEvent::Focused(f));
                }
            },
            None => {},
        }
    } else if msg == WM_MOUSEWHEEL {
        let delta = ((wparam >> 16) & 0xFFFF) as i16;
        evs.push(WindowEvent::MouseWheelScroll(delta));
    } else {
        reply = Dispatch::Default;
    }
    proof {
        let (s2, e2, d2) = message_effect(st0, msg, wparam, lparam);
        assert(evs@ =~= e2);
        assert(st == s2);
        assert(reply == d2);
    }
    let sender = st.sender;
    send_all(sender, rx, id, &evs);
    if msg == WM_DESTROY {
        reg.remove(id);
        proof {
            assert(reg.windows() =~= old(reg).windows().remove(id.0));
        }
    } else {
        reg.put(id, st);
        proof {
            assert(reg.windows() =~= old(reg).windows().insert(id.0, st));
        }
    }
    reply
}

/// Records a title that the platform set on window `id`, from whatever caller.
/// The message then goes on to default handling.
pub fn record_title(reg: &mut Registry, id: WindowId, title: String) -> (r: Dispatch)
    ensures
        r == Dispatch::Default,
        old(reg).has(id) ==> final(reg).windows() == old(reg).windows().insert(
            id.0,
            WindowState { title, ..old(reg).get(id) },
        ),
        !old(reg).has(id) ==> final(reg).windows() == old(reg).windows(),
        final(reg).handles() == old(reg).handles(),
{
    match reg.take(id) {
        Some(st) => {
            let mut st = st;
            st.title = title;
            reg.put(id, st);
        },
        None => {
            proof {
                assert(reg.windows() =~= old(reg).windows());
            }
        },
    }
    Dispatch::Default
}

/// The characters that the UTF-16 units `u` encode, or none when `u` holds a
/// surrogate that is not part of a high-low pair.
pub open spec fn utf16_decode(u: Seq<u16>) -> Option<Seq<char>>
    decreases u.len(),
{
    if u.len() == 0 {
        Some(Seq::empty())
    } else if u[0] < 0xD800 || 0xDFFF < u[0] {
        match utf16_decode(u.drop_first()) {
            Some(rest) => Some(seq![u[0] as char] + rest),
            None => None,
        }
    } else if u[0] <= 0xDBFF && u.len() >= 2 && 0xDC00 <= u[1] <= 0xDFFF {
        let c = 0x10000 + (u[0] - 0xD800) * 0x400 + (u[1] - 0xDC00);
        match utf16_decode(u.subrange(2, u.len() as int)) {
            Some(rest) => Some(seq![c as char] + rest),
            None => None,
        }
    } else {
        None
    }
}

/// Relies on `String::from_utf16`: the decoded text, or an error when the units
/// hold an unpaired surrogate.
#[verifier::external_body]
fn string_from_utf16(units: &[u16]) -> (r: Option<String>)
    ensures
        match utf16_decode(units@) {
            Some(s) => r is Some && r->Some_0@ == s,
            None => r is None,
        },
{
    String::from_utf16(units).ok()
}

/// Records the title that the platform set on window `id`, given as the UTF-16
/// units of the message's text; text that does not decode is not recorded. The
/// message then goes on to default handling.
pub fn record_title_utf16(reg: &mut Registry, id: WindowId, units: &[u16]) -> (r: Dispatch)
    ensures
        r == Dispatch::Default,
        old(reg).has(id) && utf16_decode(units@) is Some ==> {
            &&& final(reg).has(id)
            &&& final(reg).get(id).title@ == utf16_decode(units@)->Some_0
            &&& final(reg).windows() == old(reg).windows().insert(
                id.0,
                WindowState { title: final(reg).get(id).title, ..old(reg).get(id) },
            )
        },
        !(old(reg).has(id) && utf16_decode(units@) is Some) ==> final(reg).windows() == old(reg).windows(),
        final(reg).handles() == old(reg).handles(),
{
    match string_from_utf16(units) {
        Some(title) => record_title(reg, id, title),
        None => Dispatch::Default,
    }
}

/// Whether `msg` is a key press or release.
pub open spec fn is_key_msg(msg: u32) -> bool {
    msg == WM_KEYDOWN || msg == WM_KEYUP || msg == WM_SYSKEYDOWN || msg == WM_SYSKEYUP
}

pub open spec fn is_key_down(msg: u32) -> bool {
    msg == WM_KEYDOWN || msg == WM_SYSKEYDOWN
}

/// Whether a key message is a system combination that the platform handles:
/// alt with tab, or alt with enter.
pub open spec fn is_intercepted(msg: u32, vk: u16) -> bool {
    (msg == WM_SYSKEYDOWN || msg == WM_SYSKEYUP) && (vk == VK_TAB || vk == VK_RETURN)
}

/// What the platform is asked to look up before a key message can be decoded.
#[derive(Copy, Clone, Debug, PartialEq, Eq, Structural)]
pub struct KeyQuery {
    /// Main virtual key, extended bits masked off.
    pub virtual_key: u16,
    /// Main hardware scancode, extended bits masked off.
    pub scancode: u16,
    /// Whether the shift bit is set in the key state used for the layout-aware
    /// translation; the unshifted translation uses an empty key state.
    pub shift: bool,
    /// Whether the key is to be translated into a character at all.
    pub translate: bool,
}

/// What the platform answered to a `KeyQuery`.
#[derive(Copy, Clone, Debug, PartialEq, Eq, Structural)]
pub struct KeyAnswer {
    /// The side-specific virtual key that the key's scancode maps to.
    pub sided_vk: u16,
    /// How many UTF-16 units the layout-aware translation produced.
    pub translated_count: i32,
    /// The first unit of that translation.
    pub translated_unit: u16,
    /// How many UTF-16 units the layout's translation of the key with no modifier
    /// held produced; negative for a dead key.
    pub unshifted_count: i32,
    /// The first unit of that translation.
    pub unshifted_unit: u16,
}

/// Whether the platform is to translate the key of this message into a character.
pub open spec fn wants_translation(msg: u32, vk: u16) -> bool {
    is_key_down(msg) && !is_intercepted(msg, vk) && logical_key(vk) is Some
}

/// The query for a key message to a window with modifiers `m`.
pub open spec fn key_query_of(m: Modifiers, msg: u32, w: usize, l: isize) -> KeyQuery {
    KeyQuery {
        virtual_key: (w as u16) & 0xFF,
        scancode: lparam_scancode(l) & 0xFF,
        shift: shift_active(m.bits),
        translate: wants_translation(msg, w as u16),
    }
}

/// Whether `msg` is a key message, whose decoding needs a `KeyAnswer`.
pub fn is_key_message(msg: u32) -> (r: bool)
    ensures
        r == is_key_msg(msg),
{
    msg == WM_KEYDOWN || msg == WM_KEYUP || msg == WM_SYSKEYDOWN || msg == WM_SYSKEYUP
}

/// The lookups that decoding a key message for window `id` needs, or none if
/// the message is no key message or the window is not registered.
#[verifier::spinoff_prover]
pub fn key_query(reg: &Registry, id: WindowId, msg: u32, wparam: usize, lparam: isize) -> (r: Option<KeyQuery>)
    ensures
        is_key_msg(msg) && reg.has(id) ==> r == Some(key_query_of(reg.get(id).modifiers, msg, wparam, lparam)),
        !(is_key_msg(msg) && reg.has(id)) ==> r is None,
{
    if !is_key_message(msg) {
        return None;
    }
    let st = match reg.state(id) {
        Ok(st) => st,
        Err(_) => {
            return None;
        },
    };
    let vk = wparam as u16;
    let down = msg == WM_KEYDOWN || msg == WM_SYSKEYDOWN;
    let sys = msg == WM_SYSKEYDOWN || msg == WM_SYSKEYUP;
    let intercepted = sys && (vk == VK_TAB || vk == VK_RETURN);
    let logical = key_from_virtual_key(vk);
    let info = KeyPressInfo::from_isize(lparam);
    Some(
        KeyQuery {
            virtual_key: vk & 0xFF,
            scancode: info.scancode & 0xFF,
            shift: st.modifiers.shift_active(),
            translate: down && !intercepted && logical.is_some(),
        },
    )
}

/// The layout-aware character of a key press, when the translation gave exactly one unit.
pub open spec fn answer_character(a: KeyAnswer) -> Option<char> {
    if a.translated_count == 1 {
        unit_char(a.translated_unit)
    } else {
        None
    }
}

/// The unshifted character of a key press: the layout's translation of the key with
/// an empty key state, when it gave exactly one unit. A dead key, or a key with no
/// glyph, has none.
pub open spec fn answer_unshifted(a: KeyAnswer) -> Option<char> {
    if a.unshifted_count == 1 {
        unit_char(a.unshifted_unit)
    } else {
        None
    }
}

/// The modifier flag that a key message concerns, if any.
pub open spec fn key_modifier_flag(vk: u16, a: KeyAnswer) -> Option<u16> {
    modifier_flag_of_vk(if is_sideless_modifier(vk) { a.sided_vk } else { vk })
}

/// The key event of a key message: the logical key comes from the virtual key, the
/// physical key from the hardware scancode alone.
pub open spec fn key_event(msg: u32, vk: u16, l: isize, a: KeyAnswer) -> Seq<WindowEvent> {
    let physical = physical_key(lparam_scancode(l));
    match logical_key(vk) {
        Some(k) => if is_key_down(msg) {
            seq![
                WindowEvent::KeyDown {
                    logical_scancode: k,
                    physical_scancode: physical,
                    character: answer_character(a),
                    unshifted_char: answer_unshifted(a),
                },
            ]
        } else {
            seq![WindowEvent::KeyUp { logical_scancode: k, physical_scancode: physical }]
        },
        None => seq![],
    }
}

/// The mouse-button event of a key message whose virtual key is a mouse button.
pub open spec fn key_mouse_event(msg: u32, vk: u16) -> Seq<WindowEvent> {
    match mouse_button(vk) {
        Some(b) => if is_key_down(msg) {
            seq![WindowEvent::MouseButtonDown(b)]
        } else {
            seq![WindowEvent::MouseButtonUp(b)]
        },
        None => seq![],
    }
}

/// The modifiers after a key message to a window whose modifiers were `m`.
pub open spec fn key_modifiers(m: Modifiers, msg: u32, vk: u16, a: KeyAnswer) -> Modifiers {
    match key_modifier_flag(vk, a) {
        Some(f) => Modifiers { bits: modifiers_after(m.bits, f, is_key_down(msg)) },
        None => m,
    }
}

/// State, events and reply for a key message to window state `st`. Alt with tab or
/// enter goes to the platform as a system command on press: enter restores a
/// maximized window and maximizes any other. Every other key message yields its key
/// event, its mouse-button event and, for a modifier key, the new modifiers.
pub open spec fn key_effect(st: WindowState, msg: u32, w: usize, l: isize, a: KeyAnswer) -> (WindowState, Seq<WindowEvent>, Dispatch) {
    let vk = w as u16;
    if is_intercepted(msg, vk) {
        let cmd = if vk == VK_RETURN {
            if st.size_state == WindowSizeState::Maximized {
                SC_RESTORE
            } else {
                SC_MAXIMIZE
            }
        } else {
            SC_NEXTWINDOW
        };
        (
            st,
            seq![],
            if is_key_down(msg) {
                Dispatch::Request(NativeRequest::SysCommand(cmd))
            } else {
                Dispatch::Handled
            },
        )
    } else {
        let m2 = key_modifiers(st.modifiers, msg, vk, a);
        let mod_ev = match key_modifier_flag(vk, a) {
            Some(_) => seq![WindowEvent::ModifiersChanged(m2)],
            None => seq![],
        };
        (
            WindowState { modifiers: m2, ..st },
            key_event(msg, vk, l, a) + key_mouse_event(msg, vk) + mod_ev,
            Dispatch::Handled,
        )
    }
}

/// Decodes a key message for window `id`, given the platform's answer to its
/// `KeyQuery`: records the modifiers it changes and queues the events it brings.
/// Any other message is left to default handling.
#[verifier::spinoff_prover]
#[verifier::rlimit(100)]
pub fn handle_key(
    reg: &mut Registry,
    rx: &mut EventReceiver,
    id: WindowId,
    msg: u32,
    wparam: usize,
    lparam: isize,
    answer: KeyAnswer,
) -> (r: Dispatch)
    ensures
        !is_key_msg(msg) ==> r == Dispatch::Default && final(rx)@ == old(rx)@ && final(reg).windows()
            == old(reg).windows(),
        is_key_msg(msg) && old(reg).has(id) ==> {
            let st = old(reg).get(id);
            let (st2, evs, reply) = key_effect(st, msg, wparam, lparam, answer);
            &&& r == reply
            &&& final(rx)@ == old(rx)@ + sent(st.sender, id, evs)
            &&& final(reg).windows() == old(reg).windows().insert(id.0, st2)
        },
        is_key_msg(msg) && !old(reg).has(id) ==> r == Dispatch::Handled && final(rx)@ == old(rx)@
            && final(reg).windows() == old(reg).windows(),
        final(reg).handles() == old(reg).handles(),
{
    if !is_key_message(msg) {
        return Dispatch::Default;
    }
    let st = match reg.take(id) {
        Some(st) => st,
        None => {
            proof {
                assert(reg.windows() =~= old(reg).windows());
            }
            return Dispatch::Handled;
        },
    };
    let ghost st0 = st;
    let vk = wparam as u16;
    let down = msg == WM_KEYDOWN || msg == WM_SYSKEYDOWN;
    let sys = msg == WM_SYSKEYDOWN || msg == WM_SYSKEYUP;
    if sys && (vk == VK_TAB || vk == VK_RETURN) {
        let cmd = if vk == VK_RETURN {
            if st.size_state == WindowSizeState::Maximized {
                SC_RESTORE
            } else {
                SC_MAXIMIZE
            }
        } else {
            SC_NEXTWINDOW
        };
        reg.put(id, st);
        proof {
            assert(reg.windows() =~= old(reg).windows().insert(id.0, st0));
            let (_, e2, _) = key_effect(st0, msg, wparam, lparam, answer);
            assert(sent(st0.sender, id, e2) =~= Seq::<(WindowId, WindowEvent)>::empty());
            assert(old(rx)@ + Seq::<(WindowId, WindowEvent)>::empty() =~= old(rx)@);
        }
        return if down {
            Dispatch::Request(NativeRequest::SysCommand(cmd))
        } else {
            Dispatch::Handled
        };
    }
    let mut evs: Vec<WindowEvent> = Vec::new();
    let info = KeyPressInfo::from_isize(lparam);
    let physical = key_from_oem_scancode(info.scancode);
    match key_from_virtual_key(vk) {
        Some(k) => {
            if down {
                let character = if answer.translated_count == 1 {
                    char_from_unit(answer.translated_unit)
                } else {
                    None
                };
                let unshifted_char = if answer.unshifted_count == 1 {
                    char_from_unit(answer.unshifted_unit)
                } else {
                    None
                };
                evs.push(
                    WindowEvent::KeyDown {
                        logical_scancode: k,
                        physical_scancode: physical,
                        character,
                        unshifted_char,
                    },
                );
            } else {
                evs.push(WindowEvent::KeyUp { logical_scancode: k, physical_scancode: physical });
            }
        },
        None => {},
    }
    match mouse_from_virtual_key(vk) {
        Some(b) => {
            if down {
                evs.push(WindowEvent::MouseButtonDown(b));
            } else {
                evs.push(WindowEvent::MouseButtonUp(b));
            }
        },
        None => {},
    }
    let mut st = st;
    match modifier_for_key(vk, answer.sided_vk) {
        Some(k) => {
            st.modifiers = st.modifiers.apply_key(k, down);
            evs.push(WindowEvent::ModifiersChanged(st.modifiers));
        },
        None => {},
    }
    proof {
        let (s2, e2, _) = key_effect(st0, msg, wparam, lparam, answer);
        assert(evs@ =~= e2);
        assert(st == s2);
    }
    let sender = st.sender;
    send_all(sender, rx, id, &evs);
    reg.put(id, st);
    Dispatch::Handled
}

/// The physical key of a key event depends on the message's scancode parameter
/// alone: two key messages with the same parameter report the same physical key,
/// whatever virtual keys the keyboard layouts made of them.
pub proof fn lemma_physical_key_layout_independent(
    msg: u32,
    vk1: u16,
    vk2: u16,
    l: isize,
    a1: KeyAnswer,
    a2: KeyAnswer,
)
    requires
        is_key_down(msg),
        logical_key(vk1) is Some,
        logical_key(vk2) is Some,
    ensures
        key_event(msg, vk1, l, a1).len() == 1,
        key_event(msg, vk2, l, a2).len() == 1,
        key_event(msg, vk1, l, a1)[0]->KeyDown_physical_scancode == physical_key(lparam_scancode(l)),
        key_event(msg, vk1, l, a1)[0]->KeyDown_physical_scancode
            == key_event(msg, vk2, l, a2)[0]->KeyDown_physical_scancode,
{
}

} // verus!
