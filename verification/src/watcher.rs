use vstd::prelude::*;
use crate::geometry::{distance_squared, drag_distance_fits, is_meaningful_drag, min_drag_distance_squared};

verus! {

/// A left-button drag in progress: where it started, the point reached
/// farthest from the start, and the generation it was started under.
pub struct NativeDrag {
    pub start_x: i32,
    pub start_y: i32,
    pub farthest_x: i32,
    pub farthest_y: i32,
    pub max_distance_squared: i64,
    pub move_count: u32,
    pub generation: u64,
}

impl NativeDrag {
    /// The recorded maximum is the squared distance from the start to the
    /// farthest point.
    pub open spec fn wf(&self) -> bool {
        self.max_distance_squared == distance_squared(
            self.start_x as int,
            self.start_y as int,
            self.farthest_x as int,
            self.farthest_y as int,
        )
    }

    /// Observing `(x, y)` stays within the 64-bit distance arithmetic.
    pub open spec fn can_observe(&self, x: i32, y: i32) -> bool {
        drag_distance_fits(self.start_x as int, self.start_y as int, x as int, y as int)
    }

    /// The drag after the pointer was seen at `(x, y)`.
    pub open spec fn observed(self, x: i32, y: i32) -> NativeDrag {
        let d = distance_squared(self.start_x as int, self.start_y as int, x as int, y as int);
        let moves = if self.move_count == u32::MAX { u32::MAX } else { (self.move_count + 1) as u32 };
        if d > self.max_distance_squared {
            NativeDrag { max_distance_squared: d as i64, farthest_x: x, farthest_y: y, move_count: moves, ..self }
        } else {
            NativeDrag { move_count: moves, ..self }
        }
    }

    /// A drag just started at `(x, y)` under `generation`.
    pub open spec fn started(x: i32, y: i32, generation: u64) -> NativeDrag {
        NativeDrag {
            start_x: x,
            start_y: y,
            farthest_x: x,
            farthest_y: y,
            max_distance_squared: 0,
            move_count: 0,
            generation,
        }
    }

    /// Starts a drag at `(x, y)` under `generation`.
    pub fn new(x: i32, y: i32, generation: u64) -> (drag: NativeDrag)
        ensures
            drag.wf(),
            drag == NativeDrag::started(x, y, generation),
    {
        NativeDrag {
            start_x: x,
            start_y: y,
            farthest_x: x,
            farthest_y: y,
            max_distance_squared: 0,
            move_count: 0,
            generation,
        }
    }

    /// Records a pointer position; the farthest point moves there when it is
    /// strictly farther from the start than the previous farthest point.
    pub fn observe(&mut self, x: i32, y: i32)
        requires
            old(self).wf(),
            old(self).can_observe(x, y),
        ensures
            final(self).wf(),
            *final(self) == old(self).observed(x, y),
    {
        self.move_count = self.move_count.saturating_add(1);
        let delta_x: i64 = x as i64 - self.start_x as i64;
        let delta_y: i64 = y as i64 - self.start_y as i64;
        assert(delta_x * delta_x >= 0 && delta_y * delta_y >= 0) by (nonlinear_arith);
        let distance_squared: i64 = delta_x * delta_x + delta_y * delta_y;
        if distance_squared > self.max_distance_squared {
            self.max_distance_squared = distance_squared;
            self.farthest_x = x;
            self.farthest_y = y;
        }
    }

    /// The drag went at least 4 pixels away from its start at some point.
    pub fn is_meaningful(&self) -> (res: bool)
        ensures
            res == (self.max_distance_squared >= min_drag_distance_squared()),
    {
        self.max_distance_squared >= 16
    }
}

/// Whether a capture started under `generation` is still the newest one,
/// given the watcher's current generation `latest`.
pub fn is_latest_generation(latest: u64, generation: u64) -> (res: bool)
    ensures
        res == (latest == generation),
{
    latest == generation
}

/// The physical cursor position where the platform has no separate query for
/// it: the last position reported by the input listener.
pub fn physical_cursor_position(fallback: (i32, i32)) -> (res: (i32, i32))
    ensures
        res == fallback,
{
    fallback
}

/// A global mouse event, with whether it happened over one of the
/// application's own windows (the button, the panel or the settings window).
pub enum MouseEvent {
    LeftDown { x: i32, y: i32, in_own_window: bool },
    Move { x: i32, y: i32 },
    LeftUp { x: i32, y: i32, in_own_window: bool },
    OtherDown { in_own_window: bool },
}

/// What the application does after the watcher saw an event.
pub enum WatcherAction {
    /// Nothing to do.
    Ignore,
    /// Hide the translate button and forget the current selection; also hide
    /// the translation panel when `hide_panel` holds.
    Dismiss { hide_panel: bool },
    /// Capture the selected text of the drag from the start point to the end
    /// point, on behalf of the given generation.
    Capture { start_x: i32, start_y: i32, end_x: i32, end_y: i32, generation: u64 },
}

/// The selection watcher: the newest selection generation and the drag in
/// progress, if any.
pub struct SelectionWatcher {
    pub generation: u64,
    pub drag: Option<NativeDrag>,
}

impl SelectionWatcher {
    /// The drag in progress, if any, is well formed and belongs to the
    /// current generation.
    pub open spec fn wf(&self) -> bool {
        self.drag matches Some(d) ==> d.wf() && d.generation == self.generation
    }

    /// `event` can be handled without leaving the watcher's arithmetic: a new
    /// press does not exhaust the generation counter, and a pointer position
    /// is within 64-bit squared distance of the drag's start.
    pub open spec fn accepts(&self, event: MouseEvent) -> bool {
        match event {
            MouseEvent::LeftDown { in_own_window, .. } => !in_own_window ==> self.generation < u64::MAX,
            MouseEvent::OtherDown { in_own_window } => !in_own_window ==> self.generation < u64::MAX,
            MouseEvent::Move { x, y } => self.drag matches Some(d) ==> d.can_observe(x, y),
            MouseEvent::LeftUp { x, y, in_own_window } => !in_own_window ==> (self.drag matches Some(d)
                ==> d.can_observe(x, y)),
        }
    }

    /// The action for a left release at `(x, y)` ending `drag` (already
    /// observed at the release point): nothing unless the drag went at least
    /// 4 pixels away from its start; then a capture that ends at the release
    /// point when it is itself 4 pixels away, and at the farthest point
    /// otherwise.
    pub open spec fn release_action(drag: NativeDrag, x: i32, y: i32) -> WatcherAction {
        if drag.max_distance_squared < min_drag_distance_squared() {
            WatcherAction::Ignore
        } else if distance_squared(drag.start_x as int, drag.start_y as int, x as int, y as int)
            >= min_drag_distance_squared() {
            WatcherAction::Capture {
                start_x: drag.start_x,
                start_y: drag.start_y,
                end_x: x,
                end_y: y,
                generation: drag.generation,
            }
        } else {
            WatcherAction::Capture {
                start_x: drag.start_x,
                start_y: drag.start_y,
                end_x: drag.farthest_x,
                end_y: drag.farthest_y,
                generation: drag.generation,
            }
        }
    }

    /// The watcher and the action after `event`.
    pub open spec fn step(self, event: MouseEvent) -> (SelectionWatcher, WatcherAction) {
        match event {
            MouseEvent::LeftDown { x, y, in_own_window } => if in_own_window {
                (SelectionWatcher { drag: None, ..self }, WatcherAction::Ignore)
            } else {
                let g = (self.generation + 1) as u64;
                (
                    SelectionWatcher { generation: g, drag: Some(NativeDrag::started(x, y, g)) },
                    WatcherAction::Dismiss { hide_panel: true },
                )
            },
            MouseEvent::OtherDown { in_own_window } => if in_own_window {
                (SelectionWatcher { drag: None, ..self }, WatcherAction::Ignore)
            } else {
                (
                    SelectionWatcher { generation: (self.generation + 1) as u64, drag: None },
                    WatcherAction::Dismiss { hide_panel: false },
                )
            },
            MouseEvent::Move { x, y } => match self.drag {
                Some(d) => (SelectionWatcher { drag: Some(d.observed(x, y)), ..self }, WatcherAction::Ignore),
                None => (self, WatcherAction::Ignore),
            },
            MouseEvent::LeftUp { x, y, in_own_window } => {
                let next = SelectionWatcher { drag: None, ..self };
                if in_own_window {
                    (next, WatcherAction::Ignore)
                } else {
                    match self.drag {
                        None => (next, WatcherAction::Ignore),
                        Some(d) => (next, SelectionWatcher::release_action(d.observed(x, y), x, y)),
                    }
                }
            },
        }
    }

    /// A watcher that has seen no press yet.
    pub fn new() -> (w: SelectionWatcher)
        ensures
            w.wf(),
            w.generation == 0,
            w.drag is None,
    {
        SelectionWatcher { generation: 0, drag: None }
    }

    /// Whether `event` can be handled (see `accepts`).
    pub fn can_handle(&self, event: &MouseEvent) -> (res: bool)
        requires
            self.wf(),
        ensures
            res == self.accepts(*event),
    {
        match event {
            MouseEvent::LeftDown { in_own_window, .. } => *in_own_window || self.generation < u64::MAX,
            MouseEvent::OtherDown { in_own_window } => *in_own_window || self.generation < u64::MAX,
            MouseEvent::Move { x, y } => match &self.drag {
                Some(d) => crate::geometry::distance_fits(d.start_x, d.start_y, *x, *y),
                None => true,
            },
            MouseEvent::LeftUp { x, y, in_own_window } => *in_own_window || match &self.drag {
                Some(d) => crate::geometry::distance_fits(d.start_x, d.start_y, *x, *y),
                None => true,
            },
        }
    }

    /// Handles one mouse event.
    ///
    /// A press outside the application's windows starts a new generation and
    /// dismisses the button; a left press also hides the panel and starts a
    /// drag. A left release ends the drag, and asks for a capture only when
    /// the drag went at least 4 pixels away from its start; the capture ends
    /// at the release point when that is itself 4 pixels away, and at the
    /// farthest point reached otherwise. Presses and releases over the
    /// application's own windows only forget the drag.
    pub fn handle(&mut self, event: MouseEvent) -> (action: WatcherAction)
        requires
            old(self).wf(),
            old(self).accepts(event),
        ensures
            final(self).wf(),
            (*final(self), action) == old(self).step(event),
    {
        match event {
            MouseEvent::LeftDown { x, y, in_own_window } => {
                if in_own_window {
                    self.drag = None;
                    return WatcherAction::Ignore;
                }
                self.generation = self.generation + 1;
                self.drag = Some(NativeDrag::new(x, y, self.generation));
                WatcherAction::Dismiss { hide_panel: true }
            },
            MouseEvent::OtherDown { in_own_window } => {
                if in_own_window {
                    self.drag = None;
                    return WatcherAction::Ignore;
                }
                self.generation = self.generation + 1;
                self.drag = None;
                WatcherAction::Dismiss { hide_panel: false }
            },
            MouseEvent::Move { x, y } => {
                match self.drag.take() {
                    Some(mut d) => {
                        d.observe(x, y);
                        self.drag = Some(d);
                    },
                    None => {},
                }
                WatcherAction::Ignore
            },
            MouseEvent::LeftUp { x, y, in_own_window } => {
                if in_own_window {
                    self.drag = None;
                    return WatcherAction::Ignore;
                }
                let taken = self.drag.take();
                match taken {
                    None => WatcherAction::Ignore,
                    Some(mut d) => {
                        d.observe(x, y);
                        if !d.is_meaningful() {
                            return WatcherAction::Ignore;
                        }
                        if is_meaningful_drag(d.start_x, d.start_y, x, y) {
                            WatcherAction::Capture {
                                start_x: d.start_x,
                                start_y: d.start_y,
                                end_x: x,
                                end_y: y,
                                generation: d.generation,
                            }
                        } else {
                            WatcherAction::Capture {
                                start_x: d.start_x,
                                start_y: d.start_y,
                                end_x: d.farthest_x,
                                end_y: d.farthest_y,
                                generation: d.generation,
                            }
                        }
                    },
                }
            },
        }
    }
}

/// A mouse event from the low-level hook, before it is known whether it
/// happened over one of the application's windows. Presses and releases of
/// the left button carry whether the input was injected by software.
pub enum HookEvent {
    LeftDown(i32, i32, bool),
    Move(i32, i32),
    LeftUp(i32, i32, bool),
    OtherDown,
}

/// The hook's flags mark the event as injected (`LLMHF_INJECTED`, bit 0).
pub open spec fn is_injected(flags: u32) -> bool {
    flags & 1 != 0
}

/// The Win32 message of pointer motion.
pub open spec fn wm_mousemove() -> u32 {
    0x0200
}

/// The Win32 message of a left-button press.
pub open spec fn wm_lbuttondown() -> u32 {
    0x0201
}

/// The Win32 message of a left-button release.
pub open spec fn wm_lbuttonup() -> u32 {
    0x0202
}

/// The Win32 message of a right-button press.
pub open spec fn wm_rbuttondown() -> u32 {
    0x0204
}

/// The Win32 message of a middle-button press.
pub open spec fn wm_mbuttondown() -> u32 {
    0x0207
}

/// The Win32 message of an extra-button press.
pub open spec fn wm_xbuttondown() -> u32 {
    0x020B
}

/// What the hook reports for `message` at `(x, y)` with the hook's `flags`,
/// and whether the left button is down afterwards: presses and releases of
/// the left button (with whether they were injected), moves while it is
/// down, and presses of the other buttons.
pub open spec fn hook_report(message: u32, flags: u32, left_down: bool, x: i32, y: i32) -> (Option<HookEvent>, bool) {
    if message == wm_lbuttondown() {
        (Some(HookEvent::LeftDown(x, y, is_injected(flags))), true)
    } else if message == wm_mousemove() && left_down {
        (Some(HookEvent::Move(x, y)), left_down)
    } else if message == wm_lbuttonup() {
        (Some(HookEvent::LeftUp(x, y, is_injected(flags))), false)
    } else if message == wm_rbuttondown() || message == wm_mbuttondown() || message == wm_xbuttondown() {
        (Some(HookEvent::OtherDown), left_down)
    } else {
        (None, left_down)
    }
}

/// Classifies a message of the low-level mouse hook (see `hook_report`).
pub fn classify_hook_message(message: u32, flags: u32, left_down: bool, x: i32, y: i32) -> (res: (Option<HookEvent>, bool))
    ensures
        res == hook_report(message, flags, left_down, x, y),
{
    let injected = flags & 1 != 0;
    if message == 0x0201 {
        (Some(HookEvent::LeftDown(x, y, injected)), true)
    } else if message == 0x0200 && left_down {
        (Some(HookEvent::Move(x, y)), left_down)
    } else if message == 0x0202 {
        (Some(HookEvent::LeftUp(x, y, injected)), false)
    } else if message == 0x0204 || message == 0x0207 || message == 0x020B {
        (Some(HookEvent::OtherDown), left_down)
    } else {
        (None, left_down)
    }
}

/// Pointer motion is only reported while the left button is held: a move
/// is reported exactly when the left button was down, and a left press or
/// release sets or clears that state.
pub proof fn lemma_moves_only_while_dragging(message: u32, flags: u32, left_down: bool, x: i32, y: i32)
    ensures
        hook_report(message, flags, left_down, x, y).0 matches Some(HookEvent::Move(_, _)) ==> left_down,
        message == wm_mousemove() && left_down ==> hook_report(message, flags, left_down, x, y).0 matches Some(
            HookEvent::Move(_, _),
        ),
        message == wm_lbuttondown() ==> hook_report(message, flags, left_down, x, y).1,
        message == wm_lbuttonup() ==> !hook_report(message, flags, left_down, x, y).1,
{
}

/// Every event keeps the watcher well formed, and a capture always carries
/// the watcher's current generation, so a capture is never stale when it is
/// asked for.
pub proof fn lemma_capture_belongs_to_current_generation(w: SelectionWatcher, event: MouseEvent)
    requires
        w.wf(),
        w.accepts(event),
    ensures
        w.step(event).0.wf(),
        w.step(event).1 matches WatcherAction::Capture { generation, .. } ==> generation
            == w.step(event).0.generation,
{
}

/// A capture is only asked for when its end point is at least 4 pixels away
/// from its start point.
pub proof fn lemma_capture_spans_a_drag(w: SelectionWatcher, event: MouseEvent)
    requires
        w.wf(),
        w.accepts(event),
    ensures
        w.step(event).1 matches WatcherAction::Capture { start_x, start_y, end_x, end_y, .. }
            ==> distance_squared(start_x as int, start_y as int, end_x as int, end_y as int)
            >= min_drag_distance_squared(),
{
}

/// A plain click, or a press and release less than 4 pixels apart with no
/// pointer motion between them, never asks for a capture.
pub proof fn lemma_click_is_not_a_selection(w: SelectionWatcher, x: i32, y: i32, x2: i32, y2: i32)
    requires
        w.wf(),
        w.generation < u64::MAX,
        drag_distance_fits(x as int, y as int, x2 as int, y2 as int),
        distance_squared(x as int, y as int, x2 as int, y2 as int) < min_drag_distance_squared(),
    ensures
        ({
            let w1 = w.step(MouseEvent::LeftDown { x, y, in_own_window: false }).0;
            w1.step(MouseEvent::LeftUp { x: x2, y: y2, in_own_window: false }).1 is Ignore
        }),
{
}

/// A press outside the application's windows makes every capture asked for
/// before it stale: the new generation differs from the capture's.
pub proof fn lemma_press_outdates_capture(w: SelectionWatcher, event: MouseEvent, press: MouseEvent)
    requires
        w.wf(),
        w.accepts(event),
        w.step(event).0.accepts(press),
        (press matches MouseEvent::LeftDown { in_own_window, .. } && !in_own_window)
            || (press matches MouseEvent::OtherDown { in_own_window } && !in_own_window),
    ensures
        w.step(event).1 matches WatcherAction::Capture { generation, .. } ==> w.step(event).0.step(
            press,
        ).0.generation != generation,
{
}

/// The drag after the pointer was seen at each of `points`, in order.
pub open spec fn observe_run(d: NativeDrag, points: Seq<(i32, i32)>) -> NativeDrag
    decreases points.len(),
{
    if points.len() == 0 {
        d
    } else {
        observe_run(d, points.drop_last()).observed(points.last().0, points.last().1)
    }
}

/// The squared distance of `p` from `(sx, sy)`.
pub open spec fn distance_from(sx: i32, sy: i32, p: (i32, i32)) -> int {
    distance_squared(sx as int, sy as int, p.0 as int, p.1 as int)
}

/// The largest squared distance of `points` from `(sx, sy)`, or 0 for none.
pub open spec fn run_max(sx: i32, sy: i32, points: Seq<(i32, i32)>) -> int
    decreases points.len(),
{
    if points.len() == 0 {
        0
    } else {
        let m = run_max(sx, sy, points.drop_last());
        let d = distance_from(sx, sy, points.last());
        if d > m { d } else { m }
    }
}

/// `k` is the first index of `points` at the largest distance from
/// `(sx, sy)`.
pub open spec fn first_farthest_index(sx: i32, sy: i32, points: Seq<(i32, i32)>, k: int) -> bool {
    &&& 0 <= k < points.len()
    &&& distance_from(sx, sy, points[k]) == run_max(sx, sy, points)
    &&& forall|j: int| 0 <= j < k ==> distance_from(sx, sy, #[trigger] points[j]) < run_max(sx, sy, points)
}

/// Every point of the run stays within 64-bit squared distance of the start.
pub open spec fn run_fits(sx: i32, sy: i32, points: Seq<(i32, i32)>) -> bool {
    forall|i: int| 0 <= i < points.len() ==> drag_distance_fits(sx as int, sy as int, (#[trigger] points[i]).0 as int, points[i].1 as int)
}

/// A drag started at `(sx, sy)` under `g` and then observed at `points`:
/// its maximum is the largest squared distance reached (0 for none), its
/// farthest point is the first point at that distance when it is positive
/// and the start otherwise, its move count is the number of points capped at
/// `u32::MAX`, and its start and generation stay.
pub proof fn lemma_drag_run(sx: i32, sy: i32, g: u64, points: Seq<(i32, i32)>)
    requires
        run_fits(sx, sy, points),
    ensures
        ({
            let d = observe_run(NativeDrag::started(sx, sy, g), points);
            &&& d.wf()
            &&& d.start_x == sx && d.start_y == sy && d.generation == g
            &&& d.max_distance_squared == run_max(sx, sy, points)
            &&& d.move_count == (if points.len() <= u32::MAX { points.len() } else { u32::MAX as nat })
            &&& forall|i: int| 0 <= i < points.len() ==> distance_from(sx, sy, #[trigger] points[i])
                <= run_max(sx, sy, points)
            &&& run_max(sx, sy, points) >= 0
            &&& if run_max(sx, sy, points) > 0 {
                exists|k: int| first_farthest_index(sx, sy, points, k) && (d.farthest_x, d.farthest_y) == points[k]
            } else {
                d.farthest_x == sx && d.farthest_y == sy
            }
        }),
    decreases points.len(),
{
    if points.len() > 0 {
        let prefix = points.drop_last();
        assert(run_fits(sx, sy, prefix)) by {
            assert forall|i: int| 0 <= i < prefix.len() implies drag_distance_fits(sx as int, sy as int, (#[trigger] prefix[i]).0 as int, prefix[i].1 as int) by {
                assert(prefix[i] == points[i]);
            }
        }
        lemma_drag_run(sx, sy, g, prefix);
        let d0 = observe_run(NativeDrag::started(sx, sy, g), prefix);
        let p = points.last();
        let m = run_max(sx, sy, prefix);
        let dp = distance_from(sx, sy, p);
        assert(drag_distance_fits(sx as int, sy as int, p.0 as int, p.1 as int)) by {
            assert(points[points.len() - 1] == p);
        }
        assert(dp >= 0) by (nonlinear_arith)
            requires dp == (p.0 - sx) * (p.0 - sx) + (p.1 - sy) * (p.1 - sy);
        assert forall|i: int| 0 <= i < points.len() implies distance_from(sx, sy, #[trigger] points[i])
            <= run_max(sx, sy, points) by {
            if i < points.len() - 1 {
                assert(points[i] == prefix[i]);
            }
        }
        if dp > m {
            let k = points.len() - 1;
            assert forall|j: int| 0 <= j < k implies distance_from(sx, sy, #[trigger] points[j]) < run_max(sx, sy, points) by {
                assert(points[j] == prefix[j]);
            }
            assert(first_farthest_index(sx, sy, points, k));
        } else if m > 0 {
            let k = choose|k: int| first_farthest_index(sx, sy, prefix, k) && (d0.farthest_x, d0.farthest_y) == prefix[k];
            assert forall|j: int| 0 <= j < k implies distance_from(sx, sy, #[trigger] points[j]) < run_max(sx, sy, points) by {
                assert(points[j] == prefix[j]);
                assert(distance_from(sx, sy, prefix[j]) < m);
            }
            assert(points[k] == prefix[k]);
            assert(first_farthest_index(sx, sy, points, k));
        }
    }
}

/// A drag is meaningful exactly when some point of its run is a meaningful
/// drag from its start.
pub proof fn lemma_drag_run_meaningful(sx: i32, sy: i32, g: u64, points: Seq<(i32, i32)>)
    requires
        run_fits(sx, sy, points),
    ensures
        observe_run(NativeDrag::started(sx, sy, g), points).max_distance_squared >= min_drag_distance_squared()
            <==> exists|i: int| 0 <= i < points.len() && distance_from(sx, sy, #[trigger] points[i])
            >= min_drag_distance_squared(),
{
    lemma_drag_run(sx, sy, g, points);
    if run_max(sx, sy, points) >= min_drag_distance_squared() {
        let k = choose|k: int| first_farthest_index(sx, sy, points, k) && (observe_run(NativeDrag::started(sx, sy, g), points).farthest_x, observe_run(NativeDrag::started(sx, sy, g), points).farthest_y) == points[k];
        assert(distance_from(sx, sy, points[k]) >= min_drag_distance_squared());
    }
}

/// The watcher after pointer moves to each of `points`, in order.
pub open spec fn watch_moves(w: SelectionWatcher, points: Seq<(i32, i32)>) -> SelectionWatcher
    decreases points.len(),
{
    if points.len() == 0 {
        w
    } else {
        watch_moves(w, points.drop_last()).step(MouseEvent::Move { x: points.last().0, y: points.last().1 }).0
    }
}

/// Moves only feed the drag in progress and keep the generation.
proof fn lemma_moves_feed_drag(w: SelectionWatcher, d: NativeDrag, points: Seq<(i32, i32)>)
    requires
        w.drag == Some(d),
    ensures
        watch_moves(w, points).drag == Some(observe_run(d, points)),
        watch_moves(w, points).generation == w.generation,
    decreases points.len(),
{
    if points.len() > 0 {
        lemma_moves_feed_drag(w, d, points.drop_last());
    }
}

/// A press, moves and a release outside the application's windows ask for
/// exactly one capture if and only if some point of the drag (a move or the
/// release) is at least 4 pixels from the press; the capture starts at the
/// press, carries the press's new generation, and ends at the release point
/// when that is 4 pixels away and at the first farthest point otherwise.
pub proof fn lemma_drag_to_capture(w: SelectionWatcher, sx: i32, sy: i32, points: Seq<(i32, i32)>, x: i32, y: i32)
    requires
        w.wf(),
        w.generation < u64::MAX,
        run_fits(sx, sy, points.push((x, y))),
    ensures
        ({
            let all = points.push((x, y));
            let w1 = w.step(MouseEvent::LeftDown { x: sx, y: sy, in_own_window: false }).0;
            let a = watch_moves(w1, points).step(MouseEvent::LeftUp { x, y, in_own_window: false }).1;
            &&& (a is Capture <==> exists|i: int| 0 <= i < all.len() && distance_from(sx, sy, #[trigger] all[i])
                >= min_drag_distance_squared())
            &&& (a is Capture || a is Ignore)
            &&& a matches WatcherAction::Capture { start_x, start_y, end_x, end_y, generation } ==> {
                &&& start_x == sx && start_y == sy
                &&& generation == w.generation + 1
                &&& if distance_from(sx, sy, (x, y)) >= min_drag_distance_squared() {
                    end_x == x && end_y == y
                } else {
                    exists|k: int| first_farthest_index(sx, sy, all, k) && (end_x, end_y) == all[k]
                }
            }
        }),
{
    let all = points.push((x, y));
    let g = (w.generation + 1) as u64;
    let w1 = w.step(MouseEvent::LeftDown { x: sx, y: sy, in_own_window: false }).0;
    let start = NativeDrag::started(sx, sy, g);
    lemma_moves_feed_drag(w1, start, points);
    assert(all.drop_last() =~= points);
    assert(all.last() == (x, y));
    assert(observe_run(start, all) == observe_run(start, points).observed(x, y));
    lemma_drag_run(sx, sy, g, all);
    lemma_drag_run_meaningful(sx, sy, g, all);
    assert(distance_from(sx, sy, all[all.len() - 1]) == distance_from(sx, sy, (x, y)));
}

/// A press outside the application's windows starts a new generation (one
/// more than before) and dismisses the button, a left press also hiding the
/// panel and starting a drag; a press over the application's own windows
/// keeps the generation, does nothing else and drops the drag in progress.
pub proof fn lemma_press_dismisses(w: SelectionWatcher, event: MouseEvent)
    requires
        w.wf(),
        w.accepts(event),
        event is LeftDown || event is OtherDown,
    ensures
        ({
            let (w2, a) = w.step(event);
            let inside = match event {
                MouseEvent::LeftDown { in_own_window, .. } => in_own_window,
                MouseEvent::OtherDown { in_own_window } => in_own_window,
                _ => false,
            };
            &&& inside ==> w2.generation == w.generation && a is Ignore && w2.drag is None
            &&& !inside ==> w2.generation == w.generation + 1
            &&& !inside ==> a == (WatcherAction::Dismiss { hide_panel: event is LeftDown })
            &&& event matches MouseEvent::LeftDown { x, y, in_own_window } ==> (!in_own_window ==> w2.drag
                == Some(NativeDrag::started(x, y, w2.generation)))
            &&& (event is OtherDown) ==> w2.drag is None
        }),
{
}

} // verus!
