use vstd::prelude::*;

verus! {

/// Squared Euclidean distance between two screen points, over the integers.
pub open spec fn distance_squared(start_x: int, start_y: int, end_x: int, end_y: int) -> int {
    (end_x - start_x) * (end_x - start_x) + (end_y - start_y) * (end_y - start_y)
}

/// The smallest squared pointer travel that counts as a text-selection drag
/// (a distance of 4 pixels).
pub open spec fn min_drag_distance_squared() -> int {
    16
}

/// The squared distance between two points fits the 64-bit arithmetic that
/// drag detection uses.
pub open spec fn drag_distance_fits(start_x: int, start_y: int, end_x: int, end_y: int) -> bool {
    distance_squared(start_x, start_y, end_x, end_y) <= i64::MAX
}

/// Whether the squared distance between two points fits 64-bit arithmetic.
pub fn distance_fits(start_x: i32, start_y: i32, end_x: i32, end_y: i32) -> (res: bool)
    ensures
        res == drag_distance_fits(start_x as int, start_y as int, end_x as int, end_y as int),
{
    let delta_x: i128 = end_x as i128 - start_x as i128;
    let delta_y: i128 = end_y as i128 - start_y as i128;
    assert(-0x1_0000_0000 < delta_x < 0x1_0000_0000 && -0x1_0000_0000 < delta_y < 0x1_0000_0000);
    assert(0 <= delta_x * delta_x <= 0x1_0000_0000_0000_0000) by (nonlinear_arith)
        requires -0x1_0000_0000 < delta_x < 0x1_0000_0000;
    assert(0 <= delta_y * delta_y <= 0x1_0000_0000_0000_0000) by (nonlinear_arith)
        requires -0x1_0000_0000 < delta_y < 0x1_0000_0000;
    delta_x * delta_x + delta_y * delta_y <= i64::MAX as i128
}

/// Computes the squared distance in 64-bit arithmetic.
fn squared_distance_i64(start_x: i32, start_y: i32, end_x: i32, end_y: i32) -> (res: i64)
    requires
        drag_distance_fits(start_x as int, start_y as int, end_x as int, end_y as int),
    ensures
        res == distance_squared(start_x as int, start_y as int, end_x as int, end_y as int),
{
    let delta_x: i64 = end_x as i64 - start_x as i64;
    let delta_y: i64 = end_y as i64 - start_y as i64;
    assert(delta_x * delta_x >= 0 && delta_y * delta_y >= 0) by (nonlinear_arith);
    let dx2: i64 = delta_x * delta_x;
    let dy2: i64 = delta_y * delta_y;
    dx2 + dy2
}

/// A press and release count as a selection drag when the pointer moved at
/// least 4 pixels; a plain click or pointer jitter does not.
pub fn is_meaningful_drag(start_x: i32, start_y: i32, end_x: i32, end_y: i32) -> (res: bool)
    requires
        drag_distance_fits(start_x as int, start_y as int, end_x as int, end_y as int),
    ensures
        res == (distance_squared(start_x as int, start_y as int, end_x as int, end_y as int)
            >= min_drag_distance_squared()),
{
    squared_distance_i64(start_x, start_y, end_x, end_y) >= 16
}

/// The usable area of a monitor (without task bars), in physical pixels.
pub struct WorkArea {
    pub x: i32,
    pub y: i32,
    pub width: u32,
    pub height: u32,
}

/// The gap kept between a window and the edge of the work area.
pub open spec fn edge_margin() -> int {
    8
}

/// `v` clamped into `[low, max(high, low)]`, as `v.clamp(low, high.max(low))`.
pub open spec fn clamp_into(v: int, low: int, high: int) -> int {
    let top = if high >= low { high } else { low };
    if v < low {
        low
    } else if v > top {
        top
    } else {
        v
    }
}

/// The bounds `(left, top, right, bottom)` within which a window of the given
/// size may be placed in `area`.
pub open spec fn placement_bounds(area: WorkArea, width: int, height: int) -> (int, int, int, int) {
    (
        area.x + edge_margin(),
        area.y + edge_margin(),
        area.x + area.width - width - edge_margin(),
        area.y + area.height - height - edge_margin(),
    )
}

/// Where a window of the given size asked for at `(x, y)` is placed: as near
/// as possible inside the work area of the monitor under the point, keeping
/// 8 pixels from its edges (the top-left edges win when the window is too
/// large), or exactly at `(x, y)` when no monitor is found.
pub open spec fn clamped_position(x: int, y: int, width: int, height: int, area: Option<WorkArea>) -> (int, int) {
    match area {
        Some(a) => {
            let (left, top, right, bottom) = placement_bounds(a, width, height);
            (clamp_into(x, left, right), clamp_into(y, top, bottom))
        },
        None => (x, y),
    }
}

/// The placement arithmetic stays within 32-bit integers.
pub open spec fn placement_fits(width: int, height: int, area: Option<WorkArea>) -> bool {
    area matches Some(a) ==> {
        &&& a.width <= i32::MAX && a.height <= i32::MAX
        &&& i32::MIN <= a.x + edge_margin() <= i32::MAX
        &&& i32::MIN <= a.y + edge_margin() <= i32::MAX
        &&& i32::MIN <= a.x + a.width <= i32::MAX
        &&& i32::MIN <= a.y + a.height <= i32::MAX
        &&& i32::MIN <= a.x + a.width - width <= i32::MAX
        &&& i32::MIN <= a.y + a.height - height <= i32::MAX
        &&& i32::MIN <= a.x + a.width - width - edge_margin() <= i32::MAX
        &&& i32::MIN <= a.y + a.height - height - edge_margin() <= i32::MAX
    }
}

/// Whether placing a window of the given size in `area` stays within 32-bit
/// arithmetic.
pub fn placement_in_range(width: i32, height: i32, area: &Option<WorkArea>) -> (res: bool)
    ensures
        res == placement_fits(width as int, height as int, *area),
{
    match area {
        None => true,
        Some(a) => {
            let ax: i64 = a.x as i64;
            let ay: i64 = a.y as i64;
            let aw: i64 = a.width as i64;
            let ah: i64 = a.height as i64;
            let lo: i64 = i32::MIN as i64;
            let hi: i64 = i32::MAX as i64;
            aw <= hi && ah <= hi && lo <= ax + 8 && ax + 8 <= hi && lo <= ay + 8 && ay + 8 <= hi
                && lo <= ax + aw && ax + aw <= hi && lo <= ay + ah && ay + ah <= hi
                && lo <= ax + aw - width as i64 && ax + aw - width as i64 <= hi
                && lo <= ay + ah - height as i64 && ay + ah - height as i64 <= hi
                && lo <= ax + aw - width as i64 - 8 && ax + aw - width as i64 - 8 <= hi
                && lo <= ay + ah - height as i64 - 8 && ay + ah - height as i64 - 8 <= hi
        },
    }
}

/// Places a window of `width` by `height` asked for at `(x, y)` inside the
/// work area of the monitor under that point (see `clamped_position`).
pub fn clamp_window(x: i32, y: i32, width: i32, height: i32, area: Option<WorkArea>) -> (res: (i32, i32))
    requires
        placement_fits(width as int, height as int, area),
    ensures
        (res.0 as int, res.1 as int) == clamped_position(x as int, y as int, width as int, height as int, area),
{
    match area {
        Some(a) => {
            let left = a.x + 8;
            let top = a.y + 8;
            let right = a.x + a.width as i32 - width - 8;
            let bottom = a.y + a.height as i32 - height - 8;
            let right_edge = if right >= left { right } else { left };
            let bottom_edge = if bottom >= top { bottom } else { top };
            let rx = if x < left { left } else if x > right_edge { right_edge } else { x };
            let ry = if y < top { top } else if y > bottom_edge { bottom_edge } else { y };
            (rx, ry)
        },
        None => (x, y),
    }
}

/// Placing an already placed window again does not move it.
pub proof fn lemma_clamp_is_stable(x: int, y: int, width: int, height: int, area: Option<WorkArea>)
    ensures
        ({
            let (cx, cy) = clamped_position(x, y, width, height, area);
            clamped_position(cx, cy, width, height, area) == (cx, cy)
        }),
{
}

/// A window that fits in the work area is placed wholly inside it, at least
/// 8 pixels from each edge.
pub proof fn lemma_clamp_keeps_window_inside(x: int, y: int, width: int, height: int, a: WorkArea)
    requires
        width >= 0,
        height >= 0,
        width + 2 * edge_margin() <= a.width,
        height + 2 * edge_margin() <= a.height,
    ensures
        ({
            let (cx, cy) = clamped_position(x, y, width, height, Some(a));
            &&& a.x + edge_margin() <= cx
            &&& cx + width + edge_margin() <= a.x + a.width
            &&& a.y + edge_margin() <= cy
            &&& cy + height + edge_margin() <= a.y + a.height
        }),
{
}

/// The outer frame of one of the application's visible windows.
pub struct WindowFrame {
    pub x: i32,
    pub y: i32,
    pub width: u32,
    pub height: u32,
}

/// `(x, y)` lies in the frame, edges included.
pub open spec fn frame_contains(f: WindowFrame, x: int, y: int) -> bool {
    f.x <= x <= f.x + f.width && f.y <= y <= f.y + f.height
}

/// The frame's far edges are 32-bit coordinates.
pub open spec fn frame_fits(f: WindowFrame) -> bool {
    f.width <= i32::MAX && f.height <= i32::MAX && f.x + f.width <= i32::MAX && f.y + f.height <= i32::MAX
}

/// The size of the round native translate button, in pixels.
pub open spec fn native_button_size() -> int {
    42
}

/// The radius around the button's centre that reacts to the pointer.
pub open spec fn native_button_hit_radius() -> int {
    20
}

/// `(x, y)` is within the hit radius of the centre of the native button whose
/// window has its top-left corner at `(left, top)`.
pub open spec fn in_native_button(left: int, top: int, x: int, y: int) -> bool {
    let local_x = x - left - native_button_size() / 2;
    let local_y = y - top - native_button_size() / 2;
    local_x * local_x + local_y * local_y <= native_button_hit_radius() * native_button_hit_radius()
}

/// The hit test stays within 32-bit arithmetic.
pub open spec fn native_hit_fits(left: int, top: int, x: int, y: int) -> bool {
    let local_x = x - left - native_button_size() / 2;
    let local_y = y - top - native_button_size() / 2;
    &&& i32::MIN <= x - left <= i32::MAX
    &&& i32::MIN <= y - top <= i32::MAX
    &&& i32::MIN <= local_x <= i32::MAX
    &&& i32::MIN <= local_y <= i32::MAX
    &&& local_x * local_x <= i32::MAX
    &&& local_y * local_y <= i32::MAX
    &&& local_x * local_x + local_y * local_y <= i32::MAX
}

/// Whether the native-button hit test of `(x, y)` stays within 32-bit
/// arithmetic.
pub fn native_hit_in_range(left: i32, top: i32, x: i32, y: i32) -> (res: bool)
    ensures
        res == native_hit_fits(left as int, top as int, x as int, y as int),
{
    let lx: i128 = x as i128 - left as i128 - 21;
    let ly: i128 = y as i128 - top as i128 - 21;
    assert(-0x4_0000_0000 < lx < 0x4_0000_0000 && -0x4_0000_0000 < ly < 0x4_0000_0000);
    assert(0 <= lx * lx <= 0x10_0000_0000_0000_0000) by (nonlinear_arith)
        requires -0x4_0000_0000 < lx < 0x4_0000_0000;
    assert(0 <= ly * ly <= 0x10_0000_0000_0000_0000) by (nonlinear_arith)
        requires -0x4_0000_0000 < ly < 0x4_0000_0000;
    let lo: i128 = i32::MIN as i128;
    let hi: i128 = i32::MAX as i128;
    let dx: i128 = x as i128 - left as i128;
    let dy: i128 = y as i128 - top as i128;
    lo <= dx && dx <= hi && lo <= dy && dy <= hi && lo <= lx && lx <= hi && lo <= ly && ly <= hi
        && lx * lx <= hi && ly * ly <= hi && lx * lx + ly * ly <= hi
}

/// Whether `(x, y)` is on the native translate button whose window has its
/// top-left corner at `(left, top)`: within 20 pixels of its centre.
pub fn native_button_contains(left: i32, top: i32, x: i32, y: i32) -> (res: bool)
    requires
        native_hit_fits(left as int, top as int, x as int, y as int),
    ensures
        res == in_native_button(left as int, top as int, x as int, y as int),
{
    let local_x = x - left - 42 / 2;
    let local_y = y - top - 42 / 2;
    assert(local_x * local_x >= 0 && local_y * local_y >= 0) by (nonlinear_arith);
    local_x * local_x + local_y * local_y <= 20 * 20
}

/// The pointer is over one of the application's own windows: the native
/// button (when its window's corner is given) or one of the visible frames.
pub open spec fn over_own_window(x: int, y: int, frames: Seq<WindowFrame>, button: Option<(i32, i32)>) -> bool {
    ||| (button matches Some((left, top)) && in_native_button(left as int, top as int, x, y))
    ||| exists|i: int| 0 <= i < frames.len() && frame_contains(#[trigger] frames[i], x, y)
}

/// Whether `(x, y)` is over one of the application's own windows (see
/// `over_own_window`); presses there never start or end a selection.
pub fn point_in_own_window(x: i32, y: i32, frames: &Vec<WindowFrame>, button: Option<(i32, i32)>) -> (res: bool)
    requires
        forall|i: int| 0 <= i < frames@.len() ==> frame_fits(#[trigger] frames@[i]),
        button matches Some((left, top)) ==> native_hit_fits(left as int, top as int, x as int, y as int),
    ensures
        res == over_own_window(x as int, y as int, frames@, button),
{
    if let Some((left, top)) = button {
        if native_button_contains(left, top, x, y) {
            return true;
        }
    }
    let mut i: usize = 0;
    while i < frames.len()
        invariant
            i <= frames.len(),
            forall|k: int| 0 <= k < frames@.len() ==> frame_fits(#[trigger] frames@[k]),
            forall|k: int| 0 <= k < i ==> !frame_contains(#[trigger] frames@[k], x as int, y as int),
        decreases frames.len() - i,
    {
        let f = &frames[i];
        assert(frame_fits(frames@[i as int]));
        if x >= f.x && x <= f.x + f.width as i32 && y >= f.y && y <= f.y + f.height as i32 {
            return true;
        }
        i = i + 1;
    }
    false
}

/// A point is over one of the given frames exactly when it is over the
/// frames before the last or within the last one's edges: x between its left
/// edge and its left edge plus its width, y between its top edge and its top
/// edge plus its height. So a point lies over the frames exactly when some
/// frame spans it in both directions, and a point below or right of every
/// frame is over none.
pub proof fn lemma_frame_hit_within_edges(x: int, y: int, frames: Seq<WindowFrame>, f: WindowFrame)
    ensures
        !over_own_window(x, y, Seq::empty(), None),
        over_own_window(x, y, frames.push(f), None) <==> (over_own_window(x, y, frames, None) || (f.x <= x
            <= f.x + f.width && f.y <= y <= f.y + f.height)),
        (y > f.y + f.height || x > f.x + f.width) ==> !over_own_window(x, y, seq![f], None),
{
    let g = frames.push(f);
    if over_own_window(x, y, g, None) {
        let i = choose|i: int| 0 <= i < g.len() && frame_contains(#[trigger] g[i], x, y);
        if i < frames.len() {
            assert(g[i] == frames[i]);
        }
    }
    if over_own_window(x, y, frames, None) {
        let i = choose|i: int| 0 <= i < frames.len() && frame_contains(#[trigger] frames[i], x, y);
        assert(g[i] == frames[i]);
    }
    if f.x <= x <= f.x + f.width && f.y <= y <= f.y + f.height {
        assert(g[frames.len() as int] == f);
    }
    if over_own_window(x, y, seq![f], None) {
        let i = choose|i: int| 0 <= i < 1 && frame_contains(#[trigger] seq![f][i], x, y);
        assert(seq![f][i] == f);
    }
}

/// The distance from the pointer at which the button and the panel open.
pub open spec fn pointer_offset() -> int {
    12
}

/// Where the translate button or the panel is asked to open for a pointer at
/// `(x, y)`: 12 pixels right of and below it.
pub fn pointer_anchor(x: i32, y: i32) -> (res: (i32, i32))
    requires
        x + pointer_offset() <= i32::MAX,
        y + pointer_offset() <= i32::MAX,
    ensures
        res.0 == x + pointer_offset(),
        res.1 == y + pointer_offset(),
{
    (x + 12, y + 12)
}

/// The 16-bit two's-complement value of the low 16 bits of `v`.
pub open spec fn low_word_signed(v: int) -> int {
    let w = v % 0x10000;
    if w >= 0x8000 {
        w - 0x10000
    } else {
        w
    }
}

/// The screen point packed in the `LPARAM` of a hit-test message: x in the
/// low word and y in the next word, each a signed 16-bit value.
pub fn decode_screen_point(lparam: isize) -> (res: (i32, i32))
    ensures
        res.0 == low_word_signed(lparam as int),
        res.1 == low_word_signed((lparam as int) / 0x10000),
{
    let bits: u32 = lparam as u32;
    let low: u32 = bits & 0xffff;
    let high: u32 = (bits >> 16) & 0xffff;
    assert(low == (lparam as int) % 0x10000) by (bit_vector)
        requires bits == lparam as u32, low == bits & 0xffff;
    assert(high == ((lparam as int) / 0x10000) % 0x10000) by (bit_vector)
        requires bits == lparam as u32, high == (bits >> 16) & 0xffff;
    let sx: i32 = if low >= 0x8000 { low as i32 - 0x10000 } else { low as i32 };
    let sy: i32 = if high >= 0x8000 { high as i32 - 0x10000 } else { high as i32 };
    (sx, sy)
}

} // verus!
