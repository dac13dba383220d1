//! The window-placement and overlay-lifecycle model.
//!
//! The windowing framework owns the real windows; this module models the
//! state the commands read and mutate: per-window geometry, pointer
//! passthrough, visibility, minimization and focus, plus the delivery log
//! of messages broadcast to the overlay and main windows. Every command is
//! a guarded transition on this model with an exact contract; the host
//! layer mirrors each transition onto the framework's windows.
//!
//! A window is identified by its logical label. The overlay window carries
//! the fixed label `"overlay"`, the main window `"main"`. A window is
//! *absent* until registered, *open* (hidden or shown via its `visible`
//! flag) afterwards, and *closed* — terminally — once destroyed; every
//! operation treats a closed or absent window as a non-fatal, reportable
//! condition, never a crash.

use vstd::prelude::*;
use vstd::string::*;
use crate::error::Error;
use crate::monitors::RawMonitor;

verus! {

/// The mutable state of one open window.
#[derive(Clone, Copy, Debug, PartialEq, Eq, Structural)]
pub struct WindowState {
    /// Left edge in physical pixels.
    pub x: i32,
    /// Top edge in physical pixels.
    pub y: i32,
    /// Width in physical pixels.
    pub width: u32,
    /// Height in physical pixels.
    pub height: u32,
    /// Whether pointer events pass through to whatever lies beneath.
    pub passthrough: bool,
    /// Whether the window is currently shown.
    pub visible: bool,
    /// Whether the window is minimized.
    pub minimized: bool,
    /// Whether the window holds input focus.
    pub focused: bool,
}

/// Where a window stands in its lifecycle.
#[derive(Clone, Copy)]
pub enum WindowPhase {
    /// The window exists; its state can be read and mutated.
    Open(WindowState),
    /// The window was destroyed; this is terminal.
    Closed,
}

/// One registered window.
pub struct Window {
    /// The logical label the host resolves the window by.
    pub label: String,
    /// Lifecycle phase and, while open, state.
    pub phase: WindowPhase,
}

/// The event channel a broadcast message is delivered on.
#[derive(Clone, Copy, Debug, PartialEq, Eq, Structural)]
pub enum Channel {
    /// Edit-mode toggling, for the overlay window.
    ToggleEditMode,
    /// Settings changes, for the overlay window; also the default.
    SettingsUpdate,
    /// Edit-mode state reports, for the main window.
    EditModeState,
}

impl Channel {
    /// The event name the host emits this channel under.
    pub fn name(&self) -> (r: &'static str)
        ensures
            r@ == self.name_spec(),
    {
        match self {
            Channel::ToggleEditMode => "toggle-edit-mode",
            Channel::SettingsUpdate => "settings-update",
            Channel::EditModeState => "edit-mode-state",
        }
    }

    /// What `name` returns for each channel.
    pub open spec fn name_spec(&self) -> Seq<char> {
        match self {
            Channel::ToggleEditMode => "toggle-edit-mode"@,
            Channel::SettingsUpdate => "settings-update"@,
            Channel::EditModeState => "edit-mode-state"@,
        }
    }
}

/// The channel a structured message is delivered on: its `type` field
/// selects the channel; an unrecognized or missing type falls back to
/// the settings channel.
pub open spec fn channel_for(msg_type: Option<Seq<char>>) -> Channel {
    match msg_type {
        Some(t) => if t == "toggle-edit-mode"@ {
            Channel::ToggleEditMode
        } else {
            Channel::SettingsUpdate
        },
        None => Channel::SettingsUpdate,
    }
}

/// The view of an optional message-type string.
pub open spec fn view_opt(msg_type: Option<&String>) -> Option<Seq<char>> {
    match msg_type {
        Some(t) => Some(t@),
        None => None,
    }
}

/// Picks the delivery channel for a message's optional `type` field.
pub fn channel_for_message(msg_type: Option<&String>) -> (r: Channel)
    ensures
        r == channel_for(view_opt(msg_type)),
{
    match msg_type {
        Some(t) => {
            let target = "toggle-edit-mode".to_owned();
            if *t == target {
                Channel::ToggleEditMode
            } else {
                Channel::SettingsUpdate
            }
        },
        None => Channel::SettingsUpdate,
    }
}

/// The model of the window system.
pub struct WindowManager {
    /// All registered windows, in registration order.
    pub windows: Vec<Window>,
    /// Channels of the messages delivered to the overlay window, oldest
    /// first.
    pub overlay_events: Vec<Channel>,
    /// Channels of the messages delivered to the main window, oldest
    /// first.
    pub main_events: Vec<Channel>,
}

/// The first window whose label reads `lbl`, scanning from `j`.
pub open spec fn find_from(ws: Seq<Window>, lbl: Seq<char>, j: int) -> Option<int>
    decreases ws.len() - j,
{
    if j >= ws.len() {
        None
    } else if ws[j].label@ == lbl {
        Some(j)
    } else {
        find_from(ws, lbl, j + 1)
    }
}

/// The index of the open window labelled `lbl`, if one exists; a closed
/// window is as good as absent.
pub open spec fn open_index(ws: Seq<Window>, lbl: Seq<char>) -> Option<int> {
    match find_from(ws, lbl, 0) {
        None => None,
        Some(i) => match ws[i].phase {
            WindowPhase::Open(_) => Some(i),
            WindowPhase::Closed => None,
        },
    }
}

/// The state of the window at `i`, which must be open.
pub open spec fn state_at(ws: Seq<Window>, i: int) -> WindowState
    recommends
        0 <= i < ws.len(),
        ws[i].phase is Open,
{
    match ws[i].phase {
        WindowPhase::Open(st) => st,
        WindowPhase::Closed => WindowState {
            x: 0,
            y: 0,
            width: 0,
            height: 0,
            passthrough: false,
            visible: false,
            minimized: false,
            focused: false,
        },
    }
}

/// The window at `i` with its state replaced, its label and everything
/// else kept.
pub open spec fn with_state(ws: Seq<Window>, i: int, st: WindowState) -> Seq<Window>
    recommends
        0 <= i < ws.len(),
{
    ws.update(i, Window { label: ws[i].label, phase: WindowPhase::Open(st) })
}

/// No two windows share a label.
pub open spec fn distinct_labels(ws: Seq<Window>) -> bool {
    forall|i: int, j: int| 0 <= i < j < ws.len() ==> ws[i].label@ != ws[j].label@
}

/// A successful scan found a window in range whose label matches.
pub proof fn lemma_find_some(ws: Seq<Window>, lbl: Seq<char>, j: int, i: int)
    requires
        find_from(ws, lbl, j) == Some(i),
    ensures
        j <= i < ws.len(),
        ws[i].label@ == lbl,
    decreases ws.len() - j,
{
    if j < ws.len() && ws[j].label@ != lbl {
        lemma_find_some(ws, lbl, j + 1, i);
    }
}

/// A scan that found nothing passed every remaining window by.
proof fn lemma_find_none(ws: Seq<Window>, lbl: Seq<char>, j: int)
    requires
        find_from(ws, lbl, j) is None,
    ensures
        forall|k: int| j <= k < ws.len() ==> ws[k].label@ != lbl,
    decreases ws.len() - j,
{
    if j < ws.len() {
        lemma_find_none(ws, lbl, j + 1);
    }
}

/// A label-preserving rewrite keeps labels distinct.
proof fn lemma_wf_same_labels(ws1: Seq<Window>, ws2: Seq<Window>)
    requires
        ws1.len() == ws2.len(),
        forall|k: int| 0 <= k < ws2.len() ==> #[trigger] ws2[k].label@ == ws1[k].label@,
    ensures
        distinct_labels(ws1) ==> distinct_labels(ws2),
{
    if distinct_labels(ws1) {
        assert forall|i: int, j: int| 0 <= i < j < ws2.len() implies ws2[i].label@ != ws2[
            j
        ].label@ by {
            assert(ws1[i].label@ != ws1[j].label@);
        }
    }
}

impl WindowManager {
    /// Labels are unique; the constructor establishes this and every
    /// operation preserves it.
    pub open spec fn wf(&self) -> bool {
        distinct_labels(self.windows@)
    }

    /// An empty model: no windows, nothing delivered.
    pub fn new() -> (r: WindowManager)
        ensures
            r.windows@ == Seq::<Window>::empty(),
            r.overlay_events@ == Seq::<Channel>::empty(),
            r.main_events@ == Seq::<Channel>::empty(),
            r.wf(),
    {
        WindowManager { windows: Vec::new(), overlay_events: Vec::new(), main_events: Vec::new() }
    }

    /// Registers a window under a fresh label, open in the given state.
    /// A duplicate label is rejected and changes nothing.
    pub fn register_window(&mut self, label: String, st: WindowState) -> (r: Result<(), Error>)
        ensures
            match r {
                Ok(()) => find_from(old(self).windows@, label@, 0) is None && final(self).windows@
                    == old(self).windows@.push(
                    Window { label, phase: WindowPhase::Open(st) },
                ),
                Err(e) => e == Error::InvalidArgument && find_from(old(self).windows@, label@, 0)
                    is Some && final(self).windows@ == old(self).windows@,
            },
            final(self).overlay_events@ == old(self).overlay_events@,
            final(self).main_events@ == old(self).main_events@,
            old(self).wf() ==> final(self).wf(),
    {
        match self.find_any(&label) {
            Some(_) => Err(Error::InvalidArgument),
            None => {
                proof {
                    lemma_find_none(self.windows@, label@, 0);
                }
                self.windows.push(Window { label, phase: WindowPhase::Open(st) });
                Ok(())
            },
        }
    }

    /// The index of the first window labelled `label`, open or closed.
    fn find_any(&self, label: &String) -> (r: Option<usize>)
        ensures
            match r {
                Some(i) => i < self.windows@.len() && find_from(self.windows@, label@, 0) == Some(
                    i as int,
                ),
                None => find_from(self.windows@, label@, 0) is None,
            },
    {
        let mut j: usize = 0;
        while j < self.windows.len()
            invariant
                j <= self.windows@.len(),
                find_from(self.windows@, label@, 0) == find_from(self.windows@, label@, j as int),
            decreases self.windows@.len() - j,
        {
            if self.windows[j].label == *label {
                return Some(j);
            }
            j = j + 1;
        }
        None
    }

    /// The index of the open window labelled `label`, if any.
    fn find_open(&self, label: &String) -> (r: Option<usize>)
        ensures
            match r {
                Some(i) => i < self.windows@.len() && open_index(self.windows@, label@) == Some(
                    i as int,
                ),
                None => open_index(self.windows@, label@) is None,
            },
    {
        match self.find_any(label) {
            None => None,
            Some(i) => match self.windows[i].phase {
                WindowPhase::Open(_) => Some(i),
                WindowPhase::Closed => None,
            },
        }
    }

    /// Replaces the state of the open window at `i`.
    fn set_window_state(&mut self, i: usize, st: WindowState)
        requires
            i < old(self).windows@.len(),
        ensures
            final(self).windows@ == with_state(old(self).windows@, i as int, st),
            final(self).overlay_events@ == old(self).overlay_events@,
            final(self).main_events@ == old(self).main_events@,
    {
        let label = self.windows[i].label.clone();
        self.windows[i] = Window { label, phase: WindowPhase::Open(st) };
    }
}

/// What binding a window to a monitor does to its state: the window takes
/// the monitor's exact bounds, and passthrough becomes the inverse of the
/// capture flag. Visibility, minimization and focus are untouched.
pub open spec fn bound_state(st: WindowState, m: RawMonitor, capture_input: bool) -> WindowState {
    WindowState {
        x: m.x,
        y: m.y,
        width: m.width,
        height: m.height,
        passthrough: !capture_input,
        ..st
    }
}

/// The window table after `bind_window_to_monitor`: unchanged unless the
/// window is open and the index is in range.
pub open spec fn bind_transition(
    ws: Seq<Window>,
    lbl: Seq<char>,
    mons: Seq<RawMonitor>,
    idx: int,
    capture_input: bool,
) -> Seq<Window> {
    match open_index(ws, lbl) {
        None => ws,
        Some(i) => if 0 <= idx < mons.len() {
            with_state(ws, i, bound_state(state_at(ws, i), mons[idx], capture_input))
        } else {
            ws
        },
    }
}

/// What `bind_window_to_monitor` reports: the missing window wins over the
/// out-of-range index, which wins over success.
pub open spec fn bind_result(ws: Seq<Window>, lbl: Seq<char>, mons_len: int, idx: int) -> Result<
    (),
    Error,
> {
    if open_index(ws, lbl) is None {
        Err(Error::NotFound)
    } else if idx >= mons_len {
        Err(Error::InvalidArgument)
    } else {
        Ok(())
    }
}

impl WindowManager {
    /// Resizes and repositions the window labelled `label` to exactly
    /// cover the monitor at `monitor_idx` of the fresh enumeration
    /// `monitors`, and sets pointer passthrough to the inverse of
    /// `capture_input`. Fails with `NotFound` when no such window is open
    /// and with `InvalidArgument` when the index is out of range; either
    /// failure changes nothing.
    pub fn bind_window_to_monitor(
        &mut self,
        label: &String,
        monitors: &Vec<RawMonitor>,
        monitor_idx: usize,
        capture_input: bool,
    ) -> (r: Result<(), Error>)
        ensures
            final(self).windows@ == bind_transition(
                old(self).windows@,
                label@,
                monitors@,
                monitor_idx as int,
                capture_input,
            ),
            r == bind_result(old(self).windows@, label@, monitors@.len() as int,
                monitor_idx as int),
            final(self).overlay_events@ == old(self).overlay_events@,
            final(self).main_events@ == old(self).main_events@,
            old(self).wf() ==> final(self).wf(),
    {
        let i = match self.find_open(label) {
            None => {
                return Err(Error::NotFound);
            },
            Some(i) => i,
        };
        if monitor_idx >= monitors.len() {
            return Err(Error::InvalidArgument);
        }
        let m = &monitors[monitor_idx];
        let st = match self.windows[i].phase {
            WindowPhase::Open(st) => st,
            WindowPhase::Closed => {
                proof {
                    assert(false);
                }
                return Err(Error::NotFound);
            },
        };
        let new_st = WindowState {
            x: m.x,
            y: m.y,
            width: m.width,
            height: m.height,
            passthrough: !capture_input,
            visible: st.visible,
            minimized: st.minimized,
            focused: st.focused,
        };
        self.set_window_state(i, new_st);
        proof {
            lemma_wf_same_labels(old(self).windows@, self.windows@);
        }
        Ok(())
    }
}

/// The window at `j` with its focus flag forced, when open.
pub open spec fn focused_window(w: Window, f: bool) -> Window {
    match w.phase {
        WindowPhase::Open(st) => Window {
            label: w.label,
            phase: WindowPhase::Open(WindowState { focused: f, ..st }),
        },
        WindowPhase::Closed => w,
    }
}

/// Focus moves to the window at `i`: it gains focus, every other open
/// window loses it.
pub open spec fn focus_only_seq(ws: Seq<Window>, i: int) -> Seq<Window> {
    Seq::new(ws.len(), |j: int| focused_window(ws[j], j == i))
}

/// The window table after `set_passthrough`.
pub open spec fn set_passthrough_transition(ws: Seq<Window>, lbl: Seq<char>, pass: bool) -> Seq<
    Window,
> {
    match open_index(ws, lbl) {
        None => ws,
        Some(i) => with_state(ws, i, WindowState { passthrough: pass, ..state_at(ws, i) }),
    }
}

/// The window table after `minimize_window`.
pub open spec fn minimize_transition(ws: Seq<Window>, lbl: Seq<char>) -> Seq<Window> {
    match open_index(ws, lbl) {
        None => ws,
        Some(i) => with_state(ws, i, WindowState { minimized: true, ..state_at(ws, i) }),
    }
}

/// The window table after `enable_overlay_interaction`: the window takes
/// focus and stops ignoring pointer events.
pub open spec fn enable_interaction_transition(ws: Seq<Window>, lbl: Seq<char>) -> Seq<Window> {
    match open_index(ws, lbl) {
        None => ws,
        Some(i) => {
            let ws1 = focus_only_seq(ws, i);
            with_state(ws1, i, WindowState { passthrough: false, ..state_at(ws1, i) })
        },
    }
}

/// The window table after `show_overlay_window`: the overlay becomes
/// visible and takes focus; an absent overlay leaves everything as it was.
pub open spec fn show_overlay_transition(ws: Seq<Window>) -> Seq<Window> {
    match open_index(ws, "overlay"@) {
        None => ws,
        Some(i) => {
            let ws1 = focus_only_seq(ws, i);
            with_state(ws1, i, WindowState { visible: true, ..state_at(ws1, i) })
        },
    }
}

/// The window table after `hide_overlay_window`.
pub open spec fn hide_overlay_transition(ws: Seq<Window>) -> Seq<Window> {
    match open_index(ws, "overlay"@) {
        None => ws,
        Some(i) => with_state(ws, i, WindowState { visible: false, ..state_at(ws, i) }),
    }
}

/// The window table after `destroy_overlay_window`: the overlay closes,
/// terminally.
pub open spec fn destroy_overlay_transition(ws: Seq<Window>) -> Seq<Window> {
    match open_index(ws, "overlay"@) {
        None => ws,
        Some(i) => ws.update(i, Window { label: ws[i].label, phase: WindowPhase::Closed }),
    }
}

/// The window table after `position_overlay_window`: the overlay takes
/// the monitor's exact bounds; passthrough is left alone.
pub open spec fn position_overlay_transition(
    ws: Seq<Window>,
    mons: Seq<RawMonitor>,
    idx: int,
) -> Seq<Window> {
    match open_index(ws, "overlay"@) {
        None => ws,
        Some(i) => if 0 <= idx < mons.len() {
            with_state(
                ws,
                i,
                WindowState {
                    x: mons[idx].x,
                    y: mons[idx].y,
                    width: mons[idx].width,
                    height: mons[idx].height,
                    ..state_at(ws, i)
                },
            )
        } else {
            ws
        },
    }
}

/// What an operation on the open window labelled `lbl` reports.
pub open spec fn lookup_result(ws: Seq<Window>, lbl: Seq<char>) -> Result<(), Error> {
    if open_index(ws, lbl) is None {
        Err(Error::NotFound)
    } else {
        Ok(())
    }
}

/// What `position_overlay_window` reports: the missing overlay wins over
/// the out-of-range id, which wins over success.
pub open spec fn position_result(ws: Seq<Window>, mons_len: int, idx: int) -> Result<(), Error> {
    if open_index(ws, "overlay"@) is None {
        Err(Error::NotFound)
    } else if idx >= mons_len {
        Err(Error::InvalidArgument)
    } else {
        Ok(())
    }
}

/// `with_state` keeps every label.
proof fn lemma_labels_with_state(ws: Seq<Window>, i: int, st: WindowState)
    requires
        0 <= i < ws.len(),
    ensures
        with_state(ws, i, st).len() == ws.len(),
        forall|k: int|
            0 <= k < ws.len() ==> #[trigger] with_state(ws, i, st)[k].label@ == ws[k].label@,
{
}

/// `focus_only_seq` keeps every label.
proof fn lemma_labels_focus_only(ws: Seq<Window>, i: int)
    ensures
        focus_only_seq(ws, i).len() == ws.len(),
        forall|k: int|
            0 <= k < ws.len() ==> #[trigger] focus_only_seq(ws, i)[k].label@ == ws[k].label@,
{
}

impl WindowManager {
    /// Gives the window at `i` focus and takes it from every other window.
    fn focus_only(&mut self, i: usize)
        requires
            i < old(self).windows@.len(),
        ensures
            final(self).windows@ == focus_only_seq(old(self).windows@, i as int),
            final(self).overlay_events@ == old(self).overlay_events@,
            final(self).main_events@ == old(self).main_events@,
    {
        let ghost ws0 = old(self).windows@;
        let mut j: usize = 0;
        while j < self.windows.len()
            invariant
                i < ws0.len(),
                j <= ws0.len(),
                self.windows@.len() == ws0.len(),
                forall|k: int|
                    0 <= k < j ==> self.windows@[k] == focus_only_seq(ws0, i as int)[k],
                forall|k: int| j <= k < ws0.len() ==> self.windows@[k] == ws0[k],
                self.overlay_events@ == old(self).overlay_events@,
                self.main_events@ == old(self).main_events@,
            decreases ws0.len() - j,
        {
            let ph = self.windows[j].phase;
            match ph {
                WindowPhase::Open(st) => {
                    let new_st = WindowState { focused: j == i, ..st };
                    let label = self.windows[j].label.clone();
                    self.windows[j] = Window { label, phase: WindowPhase::Open(new_st) };
                },
                WindowPhase::Closed => {},
            }
            j = j + 1;
        }
        proof {
            assert(self.windows@ =~= focus_only_seq(ws0, i as int));
        }
    }

    /// Minimizes the window labelled `label`; fails with `NotFound` when
    /// no such window is open.
    pub fn minimize_window(&mut self, label: &String) -> (r: Result<(), Error>)
        ensures
            final(self).windows@ == minimize_transition(old(self).windows@, label@),
            r == lookup_result(old(self).windows@, label@),
            final(self).overlay_events@ == old(self).overlay_events@,
            final(self).main_events@ == old(self).main_events@,
            old(self).wf() ==> final(self).wf(),
    {
        match self.find_open(label) {
            None => Err(Error::NotFound),
            Some(i) => {
                let st = self.open_state_at(i);
                self.set_window_state(i, WindowState { minimized: true, ..st });
                proof {
                    lemma_wf_same_labels(old(self).windows@, self.windows@);
                }
                Ok(())
            },
        }
    }

    /// Sets whether the window labelled `label` ignores pointer events;
    /// fails with `NotFound` when no such window is open.
    pub fn set_passthrough(&mut self, label: &String, pass: bool) -> (r: Result<(), Error>)
        ensures
            final(self).windows@ == set_passthrough_transition(old(self).windows@, label@, pass),
            r == lookup_result(old(self).windows@, label@),
            final(self).overlay_events@ == old(self).overlay_events@,
            final(self).main_events@ == old(self).main_events@,
            old(self).wf() ==> final(self).wf(),
    {
        match self.find_open(label) {
            None => Err(Error::NotFound),
            Some(i) => {
                let st = self.open_state_at(i);
                self.set_window_state(i, WindowState { passthrough: pass, ..st });
                proof {
                    lemma_wf_same_labels(old(self).windows@, self.windows@);
                }
                Ok(())
            },
        }
    }

    /// Focuses the window labelled `label` and stops it ignoring pointer
    /// events, so it receives interaction again.
    pub fn enable_overlay_interaction(&mut self, label: &String) -> (r: Result<(), Error>)
        ensures
            final(self).windows@ == enable_interaction_transition(old(self).windows@, label@),
            r == lookup_result(old(self).windows@, label@),
            final(self).overlay_events@ == old(self).overlay_events@,
            final(self).main_events@ == old(self).main_events@,
            old(self).wf() ==> final(self).wf(),
    {
        match self.find_open(label) {
            None => Err(Error::NotFound),
            Some(i) => {
                self.focus_only(i);
                proof {
                    assert(self.windows@[i as int] == focused_window(
                        old(self).windows@[i as int],
                        true,
                    ));
                }
                let st = self.open_state_at(i);
                self.set_window_state(i, WindowState { passthrough: false, ..st });
                proof {
                    lemma_labels_focus_only(old(self).windows@, i as int);
                    lemma_labels_with_state(
                        focus_only_seq(old(self).windows@, i as int),
                        i as int,
                        WindowState {
                            passthrough: false,
                            ..state_at(focus_only_seq(old(self).windows@, i as int), i as int)
                        },
                    );
                    lemma_wf_same_labels(old(self).windows@, self.windows@);
                }
                Ok(())
            },
        }
    }

    /// Makes the window labelled `label` ignore pointer events, so clicks
    /// pass through to whatever lies beneath.
    pub fn disable_overlay_interaction(&mut self, label: &String) -> (r: Result<(), Error>)
        ensures
            final(self).windows@ == set_passthrough_transition(old(self).windows@, label@, true),
            r == lookup_result(old(self).windows@, label@),
            final(self).overlay_events@ == old(self).overlay_events@,
            final(self).main_events@ == old(self).main_events@,
            old(self).wf() ==> final(self).wf(),
    {
        self.set_passthrough(label, true)
    }

    /// The state of the window at `i`, which must be open.
    fn open_state_at(&self, i: usize) -> (st: WindowState)
        requires
            i < self.windows@.len(),
            self.windows@[i as int].phase is Open,
        ensures
            st == state_at(self.windows@, i as int),
    {
        match self.windows[i].phase {
            WindowPhase::Open(st) => st,
            WindowPhase::Closed => {
                proof {
                    assert(false);
                }
                WindowState {
                    x: 0,
                    y: 0,
                    width: 0,
                    height: 0,
                    passthrough: false,
                    visible: false,
                    minimized: false,
                    focused: false,
                }
            },
        }
    }

    /// Resizes and repositions the overlay window to exactly cover the
    /// monitor at `monitor_id` of the fresh enumeration `monitors`. Fails
    /// with `NotFound` when the overlay does not exist and with
    /// `InvalidArgument` when the id is out of range; either failure
    /// changes nothing. Passthrough is a separate, caller-driven concern
    /// and is left alone.
    pub fn position_overlay_window(
        &mut self,
        monitors: &Vec<RawMonitor>,
        monitor_id: usize,
    ) -> (r: Result<(), Error>)
        ensures
            final(self).windows@ == position_overlay_transition(
                old(self).windows@,
                monitors@,
                monitor_id as int,
            ),
            r == position_result(old(self).windows@, monitors@.len() as int, monitor_id as int),
            final(self).overlay_events@ == old(self).overlay_events@,
            final(self).main_events@ == old(self).main_events@,
            old(self).wf() ==> final(self).wf(),
    {
        let overlay = "overlay".to_owned();
        let i = match self.find_open(&overlay) {
            None => {
                return Err(Error::NotFound);
            },
            Some(i) => i,
        };
        if monitor_id >= monitors.len() {
            return Err(Error::InvalidArgument);
        }
        let m = &monitors[monitor_id];
        let st = self.open_state_at(i);
        self.set_window_state(
            i,
            WindowState { x: m.x, y: m.y, width: m.width, height: m.height, ..st },
        );
        proof {
            lemma_wf_same_labels(old(self).windows@, self.windows@);
        }
        Ok(())
    }

    /// Shows the overlay window and gives it focus; an absent overlay is
    /// reported by the host layer but is not an error.
    pub fn show_overlay_window(&mut self) -> (r: Result<(), Error>)
        ensures
            r is Ok,
            final(self).windows@ == show_overlay_transition(old(self).windows@),
            final(self).overlay_events@ == old(self).overlay_events@,
            final(self).main_events@ == old(self).main_events@,
            old(self).wf() ==> final(self).wf(),
    {
        let overlay = "overlay".to_owned();
        match self.find_open(&overlay) {
            None => Ok(()),
            Some(i) => {
                self.focus_only(i);
                proof {
                    assert(self.windows@[i as int] == focused_window(
                        old(self).windows@[i as int],
                        true,
                    ));
                }
                let st = self.open_state_at(i);
                self.set_window_state(i, WindowState { visible: true, ..st });
                proof {
                    lemma_labels_focus_only(old(self).windows@, i as int);
                    lemma_labels_with_state(
                        focus_only_seq(old(self).windows@, i as int),
                        i as int,
                        WindowState {
                            visible: true,
                            ..state_at(focus_only_seq(old(self).windows@, i as int), i as int)
                        },
                    );
                    lemma_wf_same_labels(old(self).windows@, self.windows@);
                }
                Ok(())
            },
        }
    }

    /// Hides the overlay window; absence is silently a no-op.
    pub fn hide_overlay_window(&mut self) -> (r: Result<(), Error>)
        ensures
            r is Ok,
            final(self).windows@ == hide_overlay_transition(old(self).windows@),
            final(self).overlay_events@ == old(self).overlay_events@,
            final(self).main_events@ == old(self).main_events@,
            old(self).wf() ==> final(self).wf(),
    {
        let overlay = "overlay".to_owned();
        match self.find_open(&overlay) {
            None => Ok(()),
            Some(i) => {
                let st = self.open_state_at(i);
                self.set_window_state(i, WindowState { visible: false, ..st });
                proof {
                    lemma_wf_same_labels(old(self).windows@, self.windows@);
                }
                Ok(())
            },
        }
    }

    /// Closes the overlay window permanently; absence is a no-op. The
    /// same transition runs when the main window is about to close, so no
    /// orphaned always-on-top window outlives it.
    pub fn destroy_overlay_window(&mut self) -> (r: Result<(), Error>)
        ensures
            r is Ok,
            final(self).windows@ == destroy_overlay_transition(old(self).windows@),
            final(self).overlay_events@ == old(self).overlay_events@,
            final(self).main_events@ == old(self).main_events@,
            old(self).wf() ==> final(self).wf(),
    {
        let overlay = "overlay".to_owned();
        match self.find_open(&overlay) {
            None => Ok(()),
            Some(i) => {
                let label = self.windows[i].label.clone();
                self.windows[i] = Window { label, phase: WindowPhase::Closed };
                proof {
                    lemma_wf_same_labels(old(self).windows@, self.windows@);
                }
                Ok(())
            },
        }
    }

    /// Delivers a structured message to the overlay window: its `type`
    /// field selects the channel, anything else falls back to the
    /// settings channel. An absent overlay degrades to a no-op; the
    /// delivery is fire-and-forget either way.
    pub fn broadcast_to_overlay(&mut self, msg_type: Option<&String>) -> (r: Result<(), Error>)
        ensures
            r is Ok,
            final(self).windows@ == old(self).windows@,
            final(self).main_events@ == old(self).main_events@,
            final(self).overlay_events@ == if open_index(old(self).windows@, "overlay"@) is Some {
                old(self).overlay_events@.push(channel_for(view_opt(msg_type)))
            } else {
                old(self).overlay_events@
            },
            old(self).wf() ==> final(self).wf(),
    {
        let overlay = "overlay".to_owned();
        match self.find_open(&overlay) {
            None => Ok(()),
            Some(_) => {
                let ch = channel_for_message(msg_type);
                self.overlay_events.push(ch);
                Ok(())
            },
        }
    }

    /// Delivers an edit-mode state report to the main window; absence
    /// degrades to a no-op.
    pub fn broadcast_to_main(&mut self) -> (r: Result<(), Error>)
        ensures
            r is Ok,
            final(self).windows@ == old(self).windows@,
            final(self).overlay_events@ == old(self).overlay_events@,
            final(self).main_events@ == if open_index(old(self).windows@, "main"@) is Some {
                old(self).main_events@.push(Channel::EditModeState)
            } else {
                old(self).main_events@
            },
            old(self).wf() ==> final(self).wf(),
    {
        let main = "main".to_owned();
        match self.find_open(&main) {
            None => Ok(()),
            Some(_) => {
                self.main_events.push(Channel::EditModeState);
                Ok(())
            },
        }
    }
}

/// A scan cares about labels only.
proof fn lemma_find_same_labels(ws1: Seq<Window>, ws2: Seq<Window>, lbl: Seq<char>, j: int)
    requires
        0 <= j,
        ws1.len() == ws2.len(),
        forall|k: int| 0 <= k < ws2.len() ==> #[trigger] ws2[k].label@ == ws1[k].label@,
    ensures
        find_from(ws1, lbl, j) == find_from(ws2, lbl, j),
    decreases ws1.len() - j,
{
    if j < ws1.len() {
        lemma_find_same_labels(ws1, ws2, lbl, j + 1);
    }
}

/// Replacing the state of the open window found for `lbl` leaves it the
/// open window found for `lbl`.
proof fn lemma_open_index_with_state(ws: Seq<Window>, lbl: Seq<char>, i: int, st: WindowState)
    requires
        open_index(ws, lbl) == Some(i),
    ensures
        open_index(with_state(ws, i, st), lbl) == Some(i),
{
    lemma_find_some(ws, lbl, 0, i);
    lemma_labels_with_state(ws, i, st);
    lemma_find_same_labels(ws, with_state(ws, i, st), lbl, 0);
}

/// Binding to a valid monitor index succeeds and leaves the window's
/// position and size exactly the monitor's bounds, with passthrough the
/// inverse of the capture flag.
pub proof fn lemma_bind_covers_monitor(
    ws: Seq<Window>,
    lbl: Seq<char>,
    mons: Seq<RawMonitor>,
    idx: int,
    capture_input: bool,
    i: int,
)
    requires
        open_index(ws, lbl) == Some(i),
        0 <= idx < mons.len(),
    ensures
        bind_result(ws, lbl, mons.len() as int, idx) == Ok::<(), Error>(()),
        state_at(bind_transition(ws, lbl, mons, idx, capture_input), i).x == mons[idx].x,
        state_at(bind_transition(ws, lbl, mons, idx, capture_input), i).y == mons[idx].y,
        state_at(bind_transition(ws, lbl, mons, idx, capture_input), i).width == mons[idx].width,
        state_at(bind_transition(ws, lbl, mons, idx, capture_input), i).height == mons[idx].height,
        state_at(bind_transition(ws, lbl, mons, idx, capture_input), i).passthrough
            == !capture_input,
{
    lemma_find_some(ws, lbl, 0, i);
}

/// Binding with an out-of-range monitor index performs no mutation, and
/// fails with `InvalidArgument` whenever the window itself is open.
pub proof fn lemma_bind_out_of_range(
    ws: Seq<Window>,
    lbl: Seq<char>,
    mons: Seq<RawMonitor>,
    idx: int,
    capture_input: bool,
)
    requires
        idx >= mons.len(),
    ensures
        bind_transition(ws, lbl, mons, idx, capture_input) == ws,
        open_index(ws, lbl) is Some ==> bind_result(ws, lbl, mons.len() as int, idx) == Err::<
            (),
            Error,
        >(Error::InvalidArgument),
{
}

/// Positioning the overlay twice with the same monitor id is idempotent:
/// the second run changes nothing, so position and size end identical
/// both times.
pub proof fn lemma_position_overlay_idempotent(ws: Seq<Window>, mons: Seq<RawMonitor>, idx: int)
    ensures
        position_overlay_transition(position_overlay_transition(ws, mons, idx), mons, idx)
            == position_overlay_transition(ws, mons, idx),
{
    match open_index(ws, "overlay"@) {
        None => {},
        Some(i) => {
            if 0 <= idx < mons.len() {
                lemma_find_some(ws, "overlay"@, 0, i);
                let st1 = WindowState {
                    x: mons[idx].x,
                    y: mons[idx].y,
                    width: mons[idx].width,
                    height: mons[idx].height,
                    ..state_at(ws, i)
                };
                let ws1 = with_state(ws, i, st1);
                lemma_open_index_with_state(ws, "overlay"@, i, st1);
                assert(state_at(ws1, i) == st1);
                assert(with_state(ws1, i, st1) =~= ws1);
            }
        },
    }
}

/// Setting passthrough is idempotent: the second run with the same flag
/// changes nothing. In particular, disabling overlay interaction twice
/// has the same effect as once.
pub proof fn lemma_set_passthrough_idempotent(ws: Seq<Window>, lbl: Seq<char>, pass: bool)
    ensures
        set_passthrough_transition(set_passthrough_transition(ws, lbl, pass), lbl, pass)
            == set_passthrough_transition(ws, lbl, pass),
{
    match open_index(ws, lbl) {
        None => {},
        Some(i) => {
            lemma_find_some(ws, lbl, 0, i);
            let st1 = WindowState { passthrough: pass, ..state_at(ws, i) };
            let ws1 = with_state(ws, i, st1);
            lemma_open_index_with_state(ws, lbl, i, st1);
            assert(state_at(ws1, i) == st1);
            assert(with_state(ws1, i, st1) =~= ws1);
        },
    }
}

/// Enabling overlay interaction twice has the same effect as once: the
/// window already holds focus and already receives pointer events.
pub proof fn lemma_enable_interaction_idempotent(ws: Seq<Window>, lbl: Seq<char>)
    ensures
        enable_interaction_transition(enable_interaction_transition(ws, lbl), lbl)
            == enable_interaction_transition(ws, lbl),
{
    match open_index(ws, lbl) {
        None => {},
        Some(i) => {
            lemma_find_some(ws, lbl, 0, i);
            let ws1 = focus_only_seq(ws, i);
            let st1 = WindowState { passthrough: false, ..state_at(ws1, i) };
            let ws2 = with_state(ws1, i, st1);
            lemma_labels_focus_only(ws, i);
            lemma_labels_with_state(ws1, i, st1);
            lemma_find_same_labels(ws, ws1, lbl, 0);
            lemma_find_same_labels(ws1, ws2, lbl, 0);
            assert(open_index(ws2, lbl) == Some(i));
            let ws3 = focus_only_seq(ws2, i);
            assert(ws3 =~= ws2) by {
                assert forall|k: int| 0 <= k < ws2.len() implies ws3[k] == ws2[k] by {
                    if k != i {
                        assert(ws2[k] == focused_window(ws[k], false));
                    }
                }
            }
            let st2 = WindowState { passthrough: false, ..state_at(ws3, i) };
            assert(state_at(ws3, i) == st1);
            assert(with_state(ws3, i, st2) =~= ws2);
        },
    }
}

} // verus!
