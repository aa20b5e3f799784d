use vstd::prelude::*;

use crate::native::{
    NativeRequest, FALLBACK_HEIGHT, FALLBACK_WIDTH, SWP_FRAMECHANGED, SW_MAXIMIZE, SW_MINIMIZE,
    SW_NORMAL, SW_RESTORE, WS_POPUP, WS_VISIBLE,
};
use crate::registry::{Registry, WindowError, WindowState};
use crate::types::{FullscreenType, WindowId, WindowSizeState};
use crate::decoder::sized;
use crate::native::{SIZE_MAXIMIZED, SIZE_MINIMIZED, SIZE_RESTORED};
use crate::window::{position_flags, position_flags_of};

verus! {

/// The requests of `minimize` on a window in state `st`; the platform's size
/// notification later confirms the new size state.
pub open spec fn minimize_requests(st: WindowState) -> Seq<NativeRequest> {
    if st.size_state == WindowSizeState::Minimized {
        seq![]
    } else {
        seq![NativeRequest::ShowWindow(SW_MINIMIZE)]
    }
}

/// The requests of `maximize` on a window in state `st`.
pub open spec fn maximize_requests(st: WindowState) -> Seq<NativeRequest> {
    if st.size_state == WindowSizeState::Maximized {
        seq![]
    } else {
        seq![NativeRequest::ShowWindow(SW_MAXIMIZE)]
    }
}

/// Position flags used when the window changes fullscreen mode.
pub open spec fn fullscreen_flags(st: WindowState) -> u32 {
    position_flags(st) | SWP_FRAMECHANGED
}

/// The state after leaving borderless fullscreen: recorded style and geometry come back.
pub open spec fn left_fullscreen(st: WindowState) -> WindowState {
    WindowState {
        fullscreen: FullscreenType::NotFullscreen,
        style: st.restore_style,
        x: st.restore_x,
        y: st.restore_y,
        width: st.restore_width,
        height: st.restore_height,
        ..st
    }
}

/// The requests that leave borderless fullscreen from state `st`.
pub open spec fn leave_fullscreen_requests(st: WindowState) -> Seq<NativeRequest> {
    seq![
        NativeRequest::SetStyle(st.restore_style),
        NativeRequest::SetWindowPos {
            x: st.restore_x,
            y: st.restore_y,
            width: st.restore_width,
            height: st.restore_height,
            flags: fullscreen_flags(st),
        },
    ]
}

/// The style of a window in borderless fullscreen: a visible popup, without frame.
pub open spec fn borderless_style() -> u32 {
    WS_VISIBLE | WS_POPUP
}

/// The state after entering borderless fullscreen from `st`, whose native style is
/// `current`. A fullscreen window is never minimized: a minimized one is restored.
pub open spec fn entered_fullscreen(st: WindowState, current: u32) -> WindowState {
    WindowState {
        fullscreen: FullscreenType::Borderless,
        size_state: if st.size_state == WindowSizeState::Minimized {
            WindowSizeState::Other
        } else {
            st.size_state
        },
        style: borderless_style(),
        restore_style: current,
        restore_x: st.x,
        restore_y: st.y,
        restore_width: st.width,
        restore_height: st.height,
        ..st
    }
}

/// The requests that enter borderless fullscreen: a minimized window is first
/// restored; then the window spans the screen at the origin, or takes the fallback
/// size if its style was already a popup.
pub open spec fn enter_fullscreen_requests(
    st: WindowState,
    current: u32,
    screen_width: i32,
    screen_height: i32,
) -> Seq<NativeRequest> {
    let popup = current & WS_POPUP != 0;
    let restore = if st.size_state == WindowSizeState::Minimized {
        seq![NativeRequest::ShowWindow(SW_RESTORE)]
    } else {
        seq![]
    };
    restore + seq![
        NativeRequest::SetStyle(borderless_style()),
        NativeRequest::SetWindowPos {
            x: 0,
            y: 0,
            width: if popup { FALLBACK_WIDTH } else { screen_width },
            height: if popup { FALLBACK_HEIGHT } else { screen_height },
            flags: fullscreen_flags(st),
        },
    ]
}

/// The outcome of asking window state `st` for fullscreen mode `mode`: the new state
/// and the requests, or the error.
pub open spec fn fullscreen_result(
    st: WindowState,
    mode: FullscreenType,
    current: u32,
    screen_width: i32,
    screen_height: i32,
) -> Result<(WindowState, Seq<NativeRequest>), WindowError> {
    if st.fullscreen == mode {
        Ok((st, seq![]))
    } else {
        match mode {
            FullscreenType::Exclusive => Err(WindowError::Unsupported),
            FullscreenType::Borderless => Ok(
                (
                    entered_fullscreen(st, current),
                    enter_fullscreen_requests(st, current, screen_width, screen_height),
                ),
            ),
            FullscreenType::NotFullscreen => Ok((left_fullscreen(st), leave_fullscreen_requests(st))),
        }
    }
}

/// The outcome of `normalize` on window state `st`: borderless fullscreen is left
/// first, then a minimized window is shown normally and a maximized one restored.
pub open spec fn normalize_result(st: WindowState) -> (WindowState, Seq<NativeRequest>) {
    let (s, first) = if st.fullscreen == FullscreenType::Borderless {
        (left_fullscreen(st), leave_fullscreen_requests(st))
    } else {
        (st, seq![])
    };
    let then = match s.size_state {
        WindowSizeState::Minimized => seq![NativeRequest::ShowWindow(SW_NORMAL)],
        WindowSizeState::Maximized => seq![NativeRequest::ShowWindow(SW_RESTORE)],
        WindowSizeState::Other => seq![],
    };
    (s, first + then)
}

impl Registry {
    /// Asks the platform to minimize the window, unless it already is minimized.
    pub fn minimize(&self, id: WindowId) -> (r: Result<Vec<NativeRequest>, WindowError>)
        ensures
            self.has(id) ==> r is Ok && r->Ok_0@ == minimize_requests(self.get(id)),
            !self.has(id) ==> r == Err::<Vec<NativeRequest>, WindowError>(WindowError::UnknownWindow),
    {
        match self.state(id) {
            Ok(st) => {
                let mut reqs: Vec<NativeRequest> = Vec::new();
                if st.size_state != WindowSizeState::Minimized {
                    reqs.push(NativeRequest::ShowWindow(SW_MINIMIZE));
                }
                proof {
                    assert(reqs@ =~= minimize_requests(*st));
                }
                Ok(reqs)
            },
            Err(e) => Err(e),
        }
    }

    /// Asks the platform to maximize the window, unless it already is maximized.
    pub fn maximize(&self, id: WindowId) -> (r: Result<Vec<NativeRequest>, WindowError>)
        ensures
            self.has(id) ==> r is Ok && r->Ok_0@ == maximize_requests(self.get(id)),
            !self.has(id) ==> r == Err::<Vec<NativeRequest>, WindowError>(WindowError::UnknownWindow),
    {
        match self.state(id) {
            Ok(st) => {
                let mut reqs: Vec<NativeRequest> = Vec::new();
                if st.size_state != WindowSizeState::Maximized {
                    reqs.push(NativeRequest::ShowWindow(SW_MAXIMIZE));
                }
                proof {
                    assert(reqs@ =~= maximize_requests(*st));
                }
                Ok(reqs)
            },
            Err(e) => Err(e),
        }
    }

    /// Returns the window to its restored size state, leaving borderless
    /// fullscreen first.
    pub fn normalize(&mut self, id: WindowId) -> (r: Result<Vec<NativeRequest>, WindowError>)
        ensures
            old(self).has(id) ==> {
                let (st, reqs) = normalize_result(old(self).get(id));
                &&& r is Ok
                &&& r->Ok_0@ == reqs
                &&& final(self).windows() == old(self).windows().insert(id.0, st)
            },
            !old(self).has(id) ==> r == Err::<Vec<NativeRequest>, WindowError>(WindowError::UnknownWindow)
                && final(self).windows() == old(self).windows(),
            final(self).handles() == old(self).handles(),
    {
        match self.take(id) {
            Some(st) => {
                let mut reqs: Vec<NativeRequest> = Vec::new();
                let st = if st.fullscreen == FullscreenType::Borderless {
                    leave_fullscreen(st, &mut reqs)
                } else {
                    st
                };
                match st.size_state {
                    WindowSizeState::Minimized => reqs.push(NativeRequest::ShowWindow(SW_NORMAL)),
                    WindowSizeState::Maximized => reqs.push(NativeRequest::ShowWindow(SW_RESTORE)),
                    WindowSizeState::Other => {},
                }
                proof {
                    let (s, expected) = normalize_result(old(self).get(id));
                    assert(st == s);
                    assert(reqs@ =~= expected);
                }
                self.put(id, st);
                Ok(reqs)
            },
            None => Err(WindowError::UnknownWindow),
        }
    }

    /// Puts the window in fullscreen mode `mode`. `current_style` is the window's
    /// native style, kept to be restored on leaving; `screen_width` and
    /// `screen_height` are the display's size. Exclusive fullscreen is not supported.
    pub fn set_fullscreen(
        &mut self,
        id: WindowId,
        mode: FullscreenType,
        current_style: u32,
        screen_width: i32,
        screen_height: i32,
    ) -> (r: Result<Vec<NativeRequest>, WindowError>)
        ensures
            old(self).has(id) ==> match fullscreen_result(
                old(self).get(id),
                mode,
                current_style,
                screen_width,
                screen_height,
            ) {
                Ok((st, reqs)) => {
                    &&& r is Ok
                    &&& r->Ok_0@ == reqs
                    &&& final(self).windows() == old(self).windows().insert(id.0, st)
                },
                Err(e) => r == Err::<Vec<NativeRequest>, WindowError>(e) && final(self).windows()
                    == old(self).windows(),
            },
            !old(self).has(id) ==> r == Err::<Vec<NativeRequest>, WindowError>(WindowError::UnknownWindow)
                && final(self).windows() == old(self).windows(),
            final(self).handles() == old(self).handles(),
    {
        let st = match self.take(id) {
            Some(st) => st,
            None => {
                return Err(WindowError::UnknownWindow);
            },
        };
        let mut reqs: Vec<NativeRequest> = Vec::new();
        if st.fullscreen == mode {
            self.put(id, st);
            proof {
                assert(final(self).windows() =~= old(self).windows().insert(id.0, old(self).get(id)));
                assert(reqs@ =~= Seq::<NativeRequest>::empty());
            }
            return Ok(reqs);
        }
        match mode {
            FullscreenType::Exclusive => {
                self.put(id, st);
                proof {
                    assert(final(self).windows() =~= old(self).windows());
                }
                Err(WindowError::Unsupported)
            },
            FullscreenType::Borderless => {
                let st = enter_fullscreen(st, current_style, screen_width, screen_height, &mut reqs);
                proof {
                    assert(reqs@ =~= enter_fullscreen_requests(
                        old(self).get(id),
                        current_style,
                        screen_width,
                        screen_height,
                    ));
                }
                self.put(id, st);
                Ok(reqs)
            },
            FullscreenType::NotFullscreen => {
                let st = leave_fullscreen(st, &mut reqs);
                proof {
                    assert(reqs@ =~= leave_fullscreen_requests(old(self).get(id)));
                }
                self.put(id, st);
                Ok(reqs)
            },
        }
    }
}

fn fullscreen_flags_of(st: &WindowState) -> (r: u32)
    ensures
        r == fullscreen_flags(*st),
{
    position_flags_of(st) | SWP_FRAMECHANGED
}

/// Leaves borderless fullscreen, appending the requests that do so.
fn leave_fullscreen(st: WindowState, reqs: &mut Vec<NativeRequest>) -> (r: WindowState)
    ensures
        r == left_fullscreen(st),
        final(reqs)@ == old(reqs)@ + leave_fullscreen_requests(st),
{
    let flags = fullscreen_flags_of(&st);
    reqs.push(NativeRequest::SetStyle(st.restore_style));
    reqs.push(
        NativeRequest::SetWindowPos {
            x: st.restore_x,
            y: st.restore_y,
            width: st.restore_width,
            height: st.restore_height,
            flags,
        },
    );
    proof {
        assert(final(reqs)@ =~= old(reqs)@ + leave_fullscreen_requests(st));
    }
    let mut st = st;
    st.fullscreen = FullscreenType::NotFullscreen;
    st.style = st.restore_style;
    st.x = st.restore_x;
    st.y = st.restore_y;
    st.width = st.restore_width;
    st.height = st.restore_height;
    st
}

/// Enters borderless fullscreen, appending the requests that do so.
fn enter_fullscreen(
    st: WindowState,
    current: u32,
    screen_width: i32,
    screen_height: i32,
    reqs: &mut Vec<NativeRequest>,
) -> (r: WindowState)
    ensures
        r == entered_fullscreen(st, current),
        final(reqs)@ == old(reqs)@ + enter_fullscreen_requests(st, current, screen_width, screen_height),
{
    let flags = fullscreen_flags_of(&st);
    let popup = current & WS_POPUP != 0;
    let style = WS_VISIBLE | WS_POPUP;
    let minimized = st.size_state == WindowSizeState::Minimized;
    if minimized {
        reqs.push(NativeRequest::ShowWindow(SW_RESTORE));
    }
    let (width, height) = if popup {
        (FALLBACK_WIDTH, FALLBACK_HEIGHT)
    } else {
        (screen_width, screen_height)
    };
    reqs.push(NativeRequest::SetStyle(style));
    reqs.push(NativeRequest::SetWindowPos { x: 0, y: 0, width, height, flags });
    proof {
        assert(final(reqs)@ =~= old(reqs)@ + enter_fullscreen_requests(
            st,
            current,
            screen_width,
            screen_height,
        ));
    }
    let mut st = st;
    st.restore_style = current;
    st.restore_x = st.x;
    st.restore_y = st.y;
    st.restore_width = st.width;
    st.restore_height = st.height;
    st.style = style;
    st.fullscreen = FullscreenType::Borderless;
    if minimized {
        st.size_state = WindowSizeState::Other;
    }
    st
}

/// One of the three size operations.
#[derive(Copy, Clone, Debug, PartialEq, Eq, Structural)]
pub enum SizeOp {
    Minimize,
    Maximize,
    Normalize,
}

/// The size state that an operation brings a window to.
pub open spec fn op_target(op: SizeOp) -> WindowSizeState {
    match op {
        SizeOp::Minimize => WindowSizeState::Minimized,
        SizeOp::Maximize => WindowSizeState::Maximized,
        SizeOp::Normalize => WindowSizeState::Other,
    }
}

/// The state and requests of operation `op` on window state `st`: what
/// `Registry::minimize`, `Registry::maximize` and `Registry::normalize` ensure.
pub open spec fn op_result(st: WindowState, op: SizeOp) -> (WindowState, Seq<NativeRequest>) {
    match op {
        SizeOp::Minimize => (st, minimize_requests(st)),
        SizeOp::Maximize => (st, maximize_requests(st)),
        SizeOp::Normalize => normalize_result(st),
    }
}

/// The kind of size notification with which the platform confirms a show command.
pub open spec fn confirming_size_kind(cmd: u32) -> usize {
    if cmd == SW_MINIMIZE {
        SIZE_MINIMIZED
    } else if cmd == SW_MAXIMIZE {
        SIZE_MAXIMIZED
    } else {
        SIZE_RESTORED
    }
}

/// Size operations never repeat themselves: an operation on a window already in
/// its target size state (and, for `normalize`, not in borderless fullscreen) asks
/// for nothing and changes nothing.
pub proof fn lemma_size_op_idempotent(st: WindowState, op: SizeOp)
    requires
        st.size_state == op_target(op),
        op == SizeOp::Normalize ==> st.fullscreen != FullscreenType::Borderless,
    ensures
        op_result(st, op).0 == st,
        op_result(st, op).1.len() == 0,
{
    if op == SizeOp::Normalize {
        assert(normalize_result(st).1 =~= Seq::<NativeRequest>::empty());
    }
}

/// An operation on a window out of its target size state ends in one show command,
/// and the size notification that confirms that command puts the window in the
/// target state, whatever size comes with it. So any sequence of operations only
/// ever moves between the three size states, each confirmed step landing on the
/// state its operation names.
pub proof fn lemma_size_op_reaches_target(st: WindowState, op: SizeOp, l: isize)
    requires
        st.size_state != op_target(op),
    ensures
        ({
            let (st2, reqs) = op_result(st, op);
            &&& reqs.len() >= 1
            &&& reqs.last() is ShowWindow
            &&& sized(st2, confirming_size_kind(reqs.last()->ShowWindow_0), l).0.size_state == op_target(op)
        }),
{
}

/// The state after operation `op` and, when it ends in a show command, the size
/// notification that confirms it, carrying size parameter `l`; `sized` is what
/// `handle_message` ensures for a size notification.
pub open spec fn confirmed_step(st: WindowState, op: SizeOp, l: isize) -> WindowState {
    let (st2, reqs) = op_result(st, op);
    if reqs.len() > 0 && reqs.last() is ShowWindow {
        sized(st2, confirming_size_kind(reqs.last()->ShowWindow_0), l).0
    } else {
        st2
    }
}

/// The state after each operation of `ops` in turn, each confirmed as in `confirmed_step`.
pub open spec fn run_size_ops(st: WindowState, ops: Seq<SizeOp>, l: isize) -> WindowState
    decreases ops.len(),
{
    if ops.len() == 0 {
        st
    } else {
        confirmed_step(run_size_ops(st, ops.drop_last(), l), ops.last(), l)
    }
}

/// After any non-empty sequence of size operations, each confirmed by the platform,
/// the window is in the size state that the last operation names.
pub proof fn lemma_size_ops_sequence(st: WindowState, ops: Seq<SizeOp>, l: isize)
    requires
        ops.len() > 0,
    ensures
        run_size_ops(st, ops, l).size_state == op_target(ops.last()),
{
    let s = run_size_ops(st, ops.drop_last(), l);
    let op = ops.last();
    if s.size_state != op_target(op) {
        lemma_size_op_reaches_target(s, op, l);
    } else if op == SizeOp::Normalize && s.fullscreen == FullscreenType::Borderless {
        assert(normalize_result(s).1 =~= leave_fullscreen_requests(s));
    } else {
        lemma_size_op_idempotent(s, op);
    }
}

/// Entering borderless fullscreen and leaving it again brings back the style and
/// the geometry that the window had before, bit for bit, whatever was recorded in
/// between: `during` is any state that is still borderless fullscreen with the
/// snapshot taken on entry, as notifications decoded meanwhile leave it.
pub proof fn lemma_fullscreen_round_trip(
    st: WindowState,
    screen_width: i32,
    screen_height: i32,
    during: WindowState,
    current: u32,
    screen_width2: i32,
    screen_height2: i32,
)
    requires
        st.fullscreen == FullscreenType::NotFullscreen,
        ({
            let entered = entered_fullscreen(st, st.style);
            &&& during.fullscreen == FullscreenType::Borderless
            &&& during.restore_style == entered.restore_style
            &&& during.restore_x == entered.restore_x && during.restore_y == entered.restore_y
            &&& during.restore_width == entered.restore_width
            &&& during.restore_height == entered.restore_height
        }),
    ensures
        fullscreen_result(st, FullscreenType::Borderless, st.style, screen_width, screen_height)
            == Ok::<(WindowState, Seq<NativeRequest>), WindowError>(
            (
                entered_fullscreen(st, st.style),
                enter_fullscreen_requests(st, st.style, screen_width, screen_height),
            ),
        ),
        entered_fullscreen(st, st.style).size_state != WindowSizeState::Minimized,
        ({
            let left = fullscreen_result(
                during,
                FullscreenType::NotFullscreen,
                current,
                screen_width2,
                screen_height2,
            );
            &&& left is Ok
            &&& left->Ok_0.0.fullscreen == FullscreenType::NotFullscreen
            &&& left->Ok_0.0.style == st.style
            &&& left->Ok_0.0.x == st.x && left->Ok_0.0.y == st.y
            &&& left->Ok_0.0.width == st.width && left->Ok_0.0.height == st.height
            &&& left->Ok_0.1[0] == NativeRequest::SetStyle(st.style)
            &&& left->Ok_0.1[1] is SetWindowPos
            &&& left->Ok_0.1[1]->SetWindowPos_x == st.x && left->Ok_0.1[1]->SetWindowPos_y == st.y
            &&& left->Ok_0.1[1]->SetWindowPos_width == st.width
            &&& left->Ok_0.1[1]->SetWindowPos_height == st.height
        }),
{
}

} // verus!
