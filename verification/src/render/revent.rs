//! The event trigger: turns raw controller input into keyboard and pointer
//! events and finds the nodes they go to.
//!
//! Once per scheduling quantum the caller polls the hardware and hands the
//! reading to [`EventTrigger::poll_event_and_wait_for_work`], together with
//! the time in milliseconds. Touches become `mousedown`, `mouseup` and,
//! for a short touch that stayed in place, `click`. Held buttons become
//! `keypress`, at once when they change and then repeating after a delay.
//! Pointer events go to the topmost listening node under the point;
//! keyboard events go to every listening node.

use vstd::prelude::*;
use crate::render::image_data_set::{take_update, ImageDataSet, ImageState};
use crate::render::rdom::node_tree::{tree_wf, Node, NodeTree};

verus! {

/// Button A.
pub const KEY_A: u32 = 0x1;

/// Button B.
pub const KEY_B: u32 = 0x2;

/// Select.
pub const KEY_SELECT: u32 = 0x4;

/// Start.
pub const KEY_START: u32 = 0x8;

/// Directional pad, right.
pub const KEY_DPAD_RIGHT: u32 = 0x10;

/// Directional pad, left.
pub const KEY_DPAD_LEFT: u32 = 0x20;

/// Directional pad, up.
pub const KEY_DPAD_UP: u32 = 0x40;

/// Directional pad, down.
pub const KEY_DPAD_DOWN: u32 = 0x80;

/// Shoulder button R.
pub const KEY_R: u32 = 0x100;

/// Shoulder button L.
pub const KEY_L: u32 = 0x200;

/// Button X.
pub const KEY_X: u32 = 0x400;

/// Button Y.
pub const KEY_Y: u32 = 0x800;

/// Shoulder button ZL.
pub const KEY_ZL: u32 = 0x4000;

/// Shoulder button ZR.
pub const KEY_ZR: u32 = 0x8000;

/// A touch shorter than this many milliseconds can be a click.
pub const CLICK_MAX_MS: u64 = 1000;

/// A touch that ends less than this far from where it began can be a
/// click: the square of twenty pixels.
pub const CLICK_MAX_DISTANCE_SQUARED: u64 = 400;

/// Buttons held unchanged for longer than this many milliseconds repeat.
pub const KEY_REPEAT_DELAY_MS: u64 = 300;

/// Held buttons repeat when this many milliseconds have passed since the
/// last repeat.
pub const KEY_REPEAT_INTERVAL_MS: u64 = 60;

/// The logical key of a keyboard event.
#[derive(Clone, Copy, PartialEq, Eq, Structural, Debug)]
pub enum Key {
    /// No logical key: the event is told apart by its code.
    Unidentified,
}

/// The physical key of a keyboard event.
#[derive(Clone, Copy, PartialEq, Eq, Structural, Debug)]
pub enum Code {
    /// Button A.
    KeyA,
    /// Button B.
    KeyB,
    /// Button Y.
    KeyY,
    /// Button X.
    KeyX,
    /// Shoulder button L.
    KeyL,
    /// Shoulder button R.
    KeyR,
    /// Shoulder button ZL.
    ControlLeft,
    /// Shoulder button ZR.
    ControlRight,
    /// Directional pad, left.
    ArrowLeft,
    /// Directional pad, right.
    ArrowRight,
    /// Directional pad, up.
    ArrowUp,
    /// Directional pad, down.
    ArrowDown,
    /// Start.
    Enter,
    /// Select.
    ShiftLeft,
}

/// The payload of a keyboard event.
#[derive(Clone, Copy, PartialEq, Eq, Structural, Debug)]
pub struct KeyEventData(pub Key, pub Code);

/// The payload of a pointer event: a point on the bottom screen, in pixels.
#[derive(Clone, Copy, PartialEq, Eq, Structural, Debug)]
pub struct MouseEventData(pub u16, pub u16);

/// The event types the engine dispatches.
#[derive(Clone, Copy, PartialEq, Eq, Structural, Debug)]
pub enum EventKind {
    /// `"keypress"`
    Keypress,
    /// `"mousedown"`
    Mousedown,
    /// `"mouseup"`
    Mouseup,
    /// `"click"`
    Click,
}

/// The payload of a dispatched event.
#[derive(Clone, Copy, PartialEq, Eq, Structural, Debug)]
pub enum EventData {
    /// A key.
    Key(KeyEventData),
    /// A point.
    Mouse(MouseEventData),
}

/// An event on its way to a mounted node.
#[derive(Clone, Copy, PartialEq, Eq, Structural, Debug)]
pub struct Dispatch {
    /// The event type.
    pub kind: EventKind,
    /// The mounted id of the node that receives it.
    pub target: usize,
    /// The payload.
    pub data: EventData,
}

/// One reading of the controller.
#[derive(Clone, Copy, PartialEq, Eq, Debug)]
pub struct ControllerInput {
    /// The buttons held, as a bit mask.
    pub keys_held: u32,
    /// The touched point in pixels, if the screen is touched.
    pub touch: Option<(u16, u16)>,
    /// The stereo slider, in thousandths; zero is off.
    pub slider: u16,
}

/// What one reading of the controller amounts to.
#[derive(Clone, Copy, PartialEq, Eq, Debug)]
pub struct ScanResult {
    /// The buttons that fire a keyboard event now; zero for none.
    pub keypad: u32,
    /// The stereo slider, as read.
    pub slider: u16,
    /// The point of a click, if the reading completes one.
    pub click: Option<(u16, u16)>,
    /// The point where a touch began, if it began with this reading.
    pub mousedown: Option<(u16, u16)>,
    /// The last point of a touch, if it ended with this reading.
    pub mouseup: Option<(u16, u16)>,
    /// Whether nothing urgent was read, so that the caller should yield to
    /// other work before the next poll: no key fires, or the slider stands
    /// where it stood.
    pub idle: bool,
}

/// A touch in progress.
#[derive(Clone, Copy, PartialEq, Eq, Debug)]
pub struct Touch {
    /// Where the touch began: the origin of a possible tap.
    pub first: (u16, u16),
    /// The last touched point.
    pub last: (u16, u16),
    /// When the touch began.
    pub at: u64,
}

/// The state the trigger keeps between readings. Times are in milliseconds
/// on the caller's clock.
#[derive(Clone, Copy, PartialEq, Eq, Debug)]
pub struct EventTrigger {
    /// The mounted node that received the last `mousedown` and is owed the
    /// `mouseup`.
    pub mousedown_node_id: Option<usize>,
    /// The touch in progress, if the screen was touched at the last
    /// reading.
    pub touch: Option<Touch>,
    /// The buttons held at the last reading.
    pub keypad: u32,
    /// When the held buttons last changed.
    pub last_keypad_at: u64,
    /// When held buttons last repeated.
    pub last_repeat_at: u64,
}

/// What one poll amounts to.
pub struct PollOutcome {
    /// The events to dispatch, in order.
    pub dispatches: Vec<Dispatch>,
    /// The new slider value, if the slider moved.
    pub new_3d: Option<u16>,
    /// Whether control returns to the frame scheduler: the slider moved,
    /// the image cache has news, or the application asked to exit.
    pub wake: bool,
    /// Whether the caller should yield to other work before the next poll.
    pub idle: bool,
}

/// The keyboard event a button mask stands for: one for each of the
/// fourteen buttons held alone, none for any other mask.
pub open spec fn key_event_of(keypad: u32) -> Option<KeyEventData> {
    if keypad == KEY_A {
        Some(KeyEventData(Key::Unidentified, Code::KeyA))
    } else if keypad == KEY_B {
        Some(KeyEventData(Key::Unidentified, Code::KeyB))
    } else if keypad == KEY_Y {
        Some(KeyEventData(Key::Unidentified, Code::KeyY))
    } else if keypad == KEY_X {
        Some(KeyEventData(Key::Unidentified, Code::KeyX))
    } else if keypad == KEY_L {
        Some(KeyEventData(Key::Unidentified, Code::KeyL))
    } else if keypad == KEY_R {
        Some(KeyEventData(Key::Unidentified, Code::KeyR))
    } else if keypad == KEY_ZL {
        Some(KeyEventData(Key::Unidentified, Code::ControlLeft))
    } else if keypad == KEY_ZR {
        Some(KeyEventData(Key::Unidentified, Code::ControlRight))
    } else if keypad == KEY_DPAD_LEFT {
        Some(KeyEventData(Key::Unidentified, Code::ArrowLeft))
    } else if keypad == KEY_DPAD_RIGHT {
        Some(KeyEventData(Key::Unidentified, Code::ArrowRight))
    } else if keypad == KEY_DPAD_UP {
        Some(KeyEventData(Key::Unidentified, Code::ArrowUp))
    } else if keypad == KEY_DPAD_DOWN {
        Some(KeyEventData(Key::Unidentified, Code::ArrowDown))
    } else if keypad == KEY_START {
        Some(KeyEventData(Key::Unidentified, Code::Enter))
    } else if keypad == KEY_SELECT {
        Some(KeyEventData(Key::Unidentified, Code::ShiftLeft))
    } else {
        None
    }
}

/// Maps a button mask to the keyboard event it stands for.
pub fn create_keyboard_event_data(keypad: u32) -> (data: Option<KeyEventData>)
    ensures
        data == key_event_of(keypad),
{
    if keypad == KEY_A {
        Some(KeyEventData(Key::Unidentified, Code::KeyA))
    } else if keypad == KEY_B {
        Some(KeyEventData(Key::Unidentified, Code::KeyB))
    } else if keypad == KEY_Y {
        Some(KeyEventData(Key::Unidentified, Code::KeyY))
    } else if keypad == KEY_X {
        Some(KeyEventData(Key::Unidentified, Code::KeyX))
    } else if keypad == KEY_L {
        Some(KeyEventData(Key::Unidentified, Code::KeyL))
    } else if keypad == KEY_R {
        Some(KeyEventData(Key::Unidentified, Code::KeyR))
    } else if keypad == KEY_ZL {
        Some(KeyEventData(Key::Unidentified, Code::ControlLeft))
    } else if keypad == KEY_ZR {
        Some(KeyEventData(Key::Unidentified, Code::ControlRight))
    } else if keypad == KEY_DPAD_LEFT {
        Some(KeyEventData(Key::Unidentified, Code::ArrowLeft))
    } else if keypad == KEY_DPAD_RIGHT {
        Some(KeyEventData(Key::Unidentified, Code::ArrowRight))
    } else if keypad == KEY_DPAD_UP {
        Some(KeyEventData(Key::Unidentified, Code::ArrowUp))
    } else if keypad == KEY_DPAD_DOWN {
        Some(KeyEventData(Key::Unidentified, Code::ArrowDown))
    } else if keypad == KEY_START {
        Some(KeyEventData(Key::Unidentified, Code::Enter))
    } else if keypad == KEY_SELECT {
        Some(KeyEventData(Key::Unidentified, Code::ShiftLeft))
    } else {
        None
    }
}

/// A length in thousandths as whole pixels on the touch screen: rounded
/// towards zero and held to the range of a 16-bit coordinate.
pub open spec fn pixel_of(v: i32) -> int {
    if v <= 0 {
        0
    } else if v / 1000 > 0xffff {
        0xffff
    } else {
        v as int / 1000
    }
}

/// The horizontal pixel position of a node's box: the pixel offsets of the
/// node and of its ancestors, added up.
pub open spec fn pixel_x(nodes: Seq<Node>, i: int) -> int
    decreases i,
{
    if 0 <= i < nodes.len() {
        pixel_of(nodes[i].geometry.x) + (match nodes[i].parent {
            Some(p) => if p < i {
                pixel_x(nodes, p as int)
            } else {
                0
            },
            None => 0,
        })
    } else {
        0
    }
}

/// The vertical pixel position of a node's box.
pub open spec fn pixel_y(nodes: Seq<Node>, i: int) -> int
    decreases i,
{
    if 0 <= i < nodes.len() {
        pixel_of(nodes[i].geometry.y) + (match nodes[i].parent {
            Some(p) => if p < i {
                pixel_y(nodes, p as int)
            } else {
                0
            },
            None => 0,
        })
    } else {
        0
    }
}

/// Whether a node listens for an event type.
pub open spec fn listens(node: Node, kind: EventKind) -> bool {
    match kind {
        EventKind::Keypress => node.listeners.keypress,
        EventKind::Mousedown => node.listeners.mousedown,
        EventKind::Mouseup => node.listeners.mouseup,
        EventKind::Click => node.listeners.click,
    }
}

/// Whether a node is hit by a pointer event: it is mounted, listens for
/// the event type, and its box, edges included, contains the point.
pub open spec fn is_hit(nodes: Seq<Node>, i: int, kind: EventKind, point: (u16, u16)) -> bool {
    &&& 0 <= i < nodes.len()
    &&& nodes[i].mounted_id.is_some()
    &&& listens(nodes[i], kind)
    &&& pixel_x(nodes, i) <= point.0 <= pixel_x(nodes, i) + pixel_of(nodes[i].geometry.width)
    &&& pixel_y(nodes, i) <= point.1 <= pixel_y(nodes, i) + pixel_of(nodes[i].geometry.height)
}

/// Whether a node is the topmost one hit: no node painted after it is hit.
pub open spec fn is_topmost_hit(nodes: Seq<Node>, i: int, kind: EventKind, point: (u16, u16)) -> bool {
    &&& is_hit(nodes, i, kind, point)
    &&& forall|j: int| i < j < nodes.len() ==> !is_hit(nodes, j, kind, point)
}

/// The node a pointer event goes to: the topmost node hit, if any is hit.
pub open spec fn hit_target(nodes: Seq<Node>, kind: EventKind, point: (u16, u16)) -> Option<int> {
    if exists|i: int| is_topmost_hit(nodes, i, kind, point) {
        Some(choose|i: int| is_topmost_hit(nodes, i, kind, point))
    } else {
        None
    }
}

/// The key presses that the first `n` nodes receive for a key: one for
/// every mounted node that listens for key presses, in arena order.
pub open spec fn keypress_dispatches(nodes: Seq<Node>, n: nat, key: KeyEventData) -> Seq<Dispatch>
    decreases n,
{
    if n == 0 || n > nodes.len() {
        Seq::empty()
    } else {
        let earlier = keypress_dispatches(nodes, (n - 1) as nat, key);
        let node = nodes[n - 1];
        match node.mounted_id {
            Some(target) => if node.listeners.keypress {
                earlier.push(
                    Dispatch { kind: EventKind::Keypress, target, data: EventData::Key(key) },
                )
            } else {
                earlier
            },
            None => earlier,
        }
    }
}

/// The keyboard events a fired button mask gives rise to: its key event,
/// once for every mounted node that listens for key presses, in arena
/// order; none if the mask stands for no key.
pub open spec fn keyboard_dispatches(nodes: Seq<Node>, keypad: u32) -> Seq<Dispatch> {
    match key_event_of(keypad) {
        Some(key) => keypress_dispatches(nodes, nodes.len(), key),
        None => Seq::empty(),
    }
}

/// What a pointer event does: the node now owed a `mouseup`, and the
/// dispatch, if the event goes anywhere.
///
/// A `mouseup` goes to the node that received the last `mousedown`, which
/// is then owed nothing more; without such a node it goes nowhere. Any
/// other event goes to the topmost node hit; a `mousedown` is remembered.
pub open spec fn mouse_dispatch(
    owed: Option<usize>,
    nodes: Seq<Node>,
    kind: EventKind,
    point: (u16, u16),
) -> (Option<usize>, Option<Dispatch>) {
    let data = EventData::Mouse(MouseEventData(point.0, point.1));
    if kind == EventKind::Mouseup {
        match owed {
            Some(target) => (None, Some(Dispatch { kind, target, data })),
            None => (None, None),
        }
    } else {
        match hit_target(nodes, kind, point) {
            Some(i) => {
                let target = nodes[i].mounted_id.unwrap();
                (
                    if kind == EventKind::Mousedown {
                        Some(target)
                    } else {
                        owed
                    },
                    Some(Dispatch { kind, target, data }),
                )
            },
            None => (owed, None),
        }
    }
}

/// The time that has passed since `at`; zero if the clock stands before it.
pub open spec fn elapsed(now: u64, at: u64) -> u64 {
    if now >= at {
        (now - at) as u64
    } else {
        0
    }
}

/// The square of the distance between two points.
pub open spec fn distance_squared(a: (u16, u16), b: (u16, u16)) -> int {
    (a.0 - b.0) * (a.0 - b.0) + (a.1 - b.1) * (a.1 - b.1)
}

/// Whether a touch that began at `first` at time `began` and is released
/// at `last` at time `now` counts as a click: it was short, and it ended
/// near where it began.
pub open spec fn is_click(first: (u16, u16), last: (u16, u16), began: u64, now: u64) -> bool {
    elapsed(now, began) < CLICK_MAX_MS && distance_squared(last, first) < CLICK_MAX_DISTANCE_SQUARED
}

/// What a reading of the controller does to the trigger and amounts to.
///
/// Pointer: a touch that begins is a `mousedown` at its point; a touch
/// that ends is a `mouseup` at its last point, and a `click` there if it
/// counts as one. Keyboard: a changed button mask fires at once; an
/// unchanged one fires again once the repeat delay has passed since the
/// change and the repeat interval since the last repeat.
pub open spec fn scan_spec(t: EventTrigger, input: ControllerInput, now: u64, previous_3d: u16) -> (
    EventTrigger,
    ScanResult,
) {
    let changed = input.keys_held != t.keypad;
    let repeats = !changed && elapsed(now, t.last_keypad_at) > KEY_REPEAT_DELAY_MS && elapsed(
        now,
        t.last_repeat_at,
    ) > KEY_REPEAT_INTERVAL_MS;
    let keypad = if changed || repeats {
        input.keys_held
    } else {
        0
    };
    (
        EventTrigger {
            mousedown_node_id: t.mousedown_node_id,
            touch: match (t.touch, input.touch) {
                (_, None) => None,
                (None, Some(point)) => Some(Touch { first: point, last: point, at: now }),
                (Some(touch), Some(point)) => Some(Touch { last: point, ..touch }),
            },
            keypad: input.keys_held,
            last_keypad_at: if changed {
                now
            } else {
                t.last_keypad_at
            },
            last_repeat_at: if repeats {
                now
            } else {
                t.last_repeat_at
            },
        },
        ScanResult {
            keypad,
            slider: input.slider,
            click: match (t.touch, input.touch) {
                (Some(touch), None) => if is_click(touch.first, touch.last, touch.at, now) {
                    Some(touch.last)
                } else {
                    None
                },
                _ => None,
            },
            mousedown: match (t.touch, input.touch) {
                (None, Some(point)) => Some(point),
                _ => None,
            },
            mouseup: match (t.touch, input.touch) {
                (Some(touch), None) => Some(touch.last),
                _ => None,
            },
            idle: keypad == 0 || input.slider == previous_3d,
        },
    )
}

/// The pointer events of a reading, dispatched in order: click, mousedown,
/// mouseup. Gives the node owed a `mouseup` afterwards and the dispatches.
pub open spec fn pointer_dispatches(owed: Option<usize>, nodes: Seq<Node>, scan: ScanResult) -> (
    Option<usize>,
    Seq<Dispatch>,
) {
    let click = match scan.click {
        Some(point) => mouse_dispatch(owed, nodes, EventKind::Click, point),
        None => (owed, None),
    };
    let down = match scan.mousedown {
        Some(point) => mouse_dispatch(click.0, nodes, EventKind::Mousedown, point),
        None => (click.0, None),
    };
    let up = match scan.mouseup {
        Some(point) => mouse_dispatch(down.0, nodes, EventKind::Mouseup, point),
        None => (down.0, None),
    };
    (up.0, optional(click.1) + optional(down.1) + optional(up.1))
}

/// A sequence of the one dispatch, or of none.
pub open spec fn optional(dispatch: Option<Dispatch>) -> Seq<Dispatch> {
    match dispatch {
        Some(d) => seq![d],
        None => Seq::empty(),
    }
}

/// Why a poll returns control to the frame scheduler, and the image cache
/// afterwards: the slider moved; or else the image cache has news, whose
/// flag is lowered by the look; or else the application asked to exit.
pub open spec fn wake_spec(slider: u16, current_3d: u16, images: ImageState, exit: bool) -> (
    ImageState,
    bool,
) {
    if slider != current_3d {
        (images, true)
    } else {
        (take_update(images).0, take_update(images).1 || exit)
    }
}

fn pixel(v: i32) -> (p: u64)
    ensures
        p == pixel_of(v),
        p <= 0xffff,
{
    if v <= 0 {
        0
    } else {
        let whole: u32 = (v as u32) / 1000;
        if whole > 0xffff {
            0xffff
        } else {
            whole as u64
        }
    }
}

proof fn lemma_pixel_bounds(nodes: Seq<Node>, i: int)
    requires
        0 <= i < nodes.len(),
    ensures
        0 <= pixel_x(nodes, i) <= (i + 1) * 0xffff,
        0 <= pixel_y(nodes, i) <= (i + 1) * 0xffff,
    decreases i,
{
    assert((i + 1) * 0xffff == i * 0xffff + 0xffff) by (nonlinear_arith);
    assert(i * 0xffff >= 0) by (nonlinear_arith)
        requires
            i >= 0,
    ;
    match nodes[i].parent {
        Some(p) => {
            if p < i {
                lemma_pixel_bounds(nodes, p as int);
                assert((p + 1) * 0xffff <= i * 0xffff) by (nonlinear_arith)
                    requires
                        p + 1 <= i,
                ;
            }
        },
        None => {},
    }
}

fn pixel_origins(tree: &NodeTree) -> (origins: Vec<(u64, u64)>)
    requires
        tree.wf(),
    ensures
        origins@.len() == tree@.len(),
        forall|i: int|
            0 <= i < tree@.len() ==> #[trigger] origins@[i] == (
                pixel_x(tree@, i) as u64,
                pixel_y(tree@, i) as u64,
            ) && 0 <= pixel_x(tree@, i) <= 0x1_0000_0000_0000 && 0 <= pixel_y(tree@, i)
                <= 0x1_0000_0000_0000,
{
    let len = tree.len();
    let mut origins: Vec<(u64, u64)> = Vec::new();
    let mut i: usize = 0;
    while i < len
        invariant
            i <= len,
            len == tree@.len(),
            tree.wf(),
            origins@.len() == i,
            forall|j: int|
                0 <= j < i ==> #[trigger] origins@[j] == (
                    pixel_x(tree@, j) as u64,
                    pixel_y(tree@, j) as u64,
                ) && 0 <= pixel_x(tree@, j) <= 0x1_0000_0000_0000 && 0 <= pixel_y(tree@, j)
                    <= 0x1_0000_0000_0000,
        decreases len - i,
    {
        let node = tree.get(i).unwrap();
        let (px, py): (u64, u64) = match node.parent {
            Some(p) => {
                if p < i {
                    origins[p]
                } else {
                    (0, 0)
                }
            },
            None => (0, 0),
        };
        proof {
            lemma_pixel_bounds(tree@, i as int);
            assert((i + 1) * 0xffff <= 0x10_0000 * 0xffff) by (nonlinear_arith)
                requires
                    i + 1 <= 0x10_0000,
            ;
        }
        let x: u64 = px + pixel(node.geometry.x);
        let y: u64 = py + pixel(node.geometry.y);
        origins.push((x, y));
        i += 1;
    }
    origins
}

fn node_listens(node: &Node, kind: EventKind) -> (res: bool)
    ensures
        res == listens(*node, kind),
{
    match kind {
        EventKind::Keypress => node.listeners.keypress,
        EventKind::Mousedown => node.listeners.mousedown,
        EventKind::Mouseup => node.listeners.mouseup,
        EventKind::Click => node.listeners.click,
    }
}

/// Finds the node a pointer event goes to: of all mounted nodes that
/// listen for the event type and whose box contains the point, the one
/// painted last, which is the one on top.
pub fn hit_test(tree: &NodeTree, kind: EventKind, point: (u16, u16)) -> (hit: Option<usize>)
    requires
        tree.wf(),
    ensures
        match hit {
            Some(i) => hit_target(tree@, kind, point) == Some(i as int) && is_topmost_hit(
                tree@,
                i as int,
                kind,
                point,
            ),
            None => hit_target(tree@, kind, point).is_none() && forall|j: int|
                !is_hit(tree@, j, kind, point),
        },
{
    let origins = pixel_origins(tree);
    let len = tree.len();
    let mut i: usize = len;
    while i > 0
        invariant
            i <= len,
            len == tree@.len(),
            origins@.len() == len,
            forall|j: int|
                0 <= j < len ==> #[trigger] origins@[j] == (
                    pixel_x(tree@, j) as u64,
                    pixel_y(tree@, j) as u64,
                ) && 0 <= pixel_x(tree@, j) <= 0x1_0000_0000_0000 && 0 <= pixel_y(tree@, j)
                    <= 0x1_0000_0000_0000,
            forall|j: int| i <= j < len ==> !is_hit(tree@, j, kind, point),
        decreases i,
    {
        i -= 1;
        let node = tree.get(i).unwrap();
        let (x, y) = origins[i];
        proof {
            lemma_pixel_bounds(tree@, i as int);
        }
        let tx: u64 = x + pixel(node.geometry.width);
        let ty: u64 = y + pixel(node.geometry.height);
        let cx: u64 = point.0 as u64;
        let cy: u64 = point.1 as u64;
        if node.mounted_id.is_some() && node_listens(node, kind) && !(cx < x || cx > tx || cy < y
            || cy > ty) {
            proof {
                let nodes = tree@;
                assert(is_topmost_hit(nodes, i as int, kind, point));
                let c = choose|c: int| is_topmost_hit(nodes, c, kind, point);
                assert(is_topmost_hit(nodes, c, kind, point));
                assert(c == i) by {
                    if c < i {
                        assert(!is_hit(nodes, i as int, kind, point));
                    }
                    if i < c {
                        assert(!is_hit(nodes, c, kind, point));
                    }
                }
            }
            return Some(i);
        }
    }
    proof {
        let nodes = tree@;
        assert forall|j: int| !is_hit(nodes, j, kind, point) by {
            if 0 <= j < nodes.len() {
                assert(!is_hit(nodes, j, kind, point));
            }
        }
    }
    None
}

impl EventTrigger {
    /// A trigger at rest: nothing touched, nothing held, both key clocks
    /// at `now`.
    pub fn new(now: u64) -> (trigger: EventTrigger)
        ensures
            trigger == (EventTrigger {
                mousedown_node_id: None,
                touch: None,
                keypad: 0,
                last_keypad_at: now,
                last_repeat_at: now,
            }),
    {
        EventTrigger {
            mousedown_node_id: None,
            touch: None,
            keypad: 0,
            last_keypad_at: now,
            last_repeat_at: now,
        }
    }

    /// The keyboard events for a fired button mask: one for every mounted
    /// node that listens for key presses, in arena order.
    pub fn handle_keyboard_event(&self, keypad: u32, tree: &NodeTree) -> (dispatches: Vec<Dispatch>)
        ensures
            dispatches@ == keyboard_dispatches(tree@, keypad),
    {
        let mut dispatches: Vec<Dispatch> = Vec::new();
        match create_keyboard_event_data(keypad) {
            Some(key) => {
                let len = tree.len();
                let mut i: usize = 0;
                while i < len
                    invariant
                        i <= len,
                        len == tree@.len(),
                        dispatches@ == keypress_dispatches(tree@, i as nat, key),
                    decreases len - i,
                {
                    let node = tree.get(i).unwrap();
                    match node.mounted_id {
                        Some(target) => {
                            if node.listeners.keypress {
                                dispatches.push(
                                    Dispatch {
                                        kind: EventKind::Keypress,
                                        target,
                                        data: EventData::Key(key),
                                    },
                                );
                            }
                        },
                        None => {},
                    }
                    i += 1;
                }
            },
            None => {},
        }
        dispatches
    }

    /// Finds where a pointer event goes and remembers the node that a
    /// `mousedown` went to, so that the `mouseup` can follow it.
    pub fn handle_mouse_event(&mut self, kind: EventKind, point: (u16, u16), tree: &NodeTree) -> (dispatch:
        Option<Dispatch>)
        requires
            tree.wf(),
        ensures
            (final(self).mousedown_node_id, dispatch) == mouse_dispatch(
                old(self).mousedown_node_id,
                tree@,
                kind,
                point,
            ),
            *final(self) == (EventTrigger {
                mousedown_node_id: final(self).mousedown_node_id,
                ..*old(self)
            }),
    {
        let data = EventData::Mouse(MouseEventData(point.0, point.1));
        match kind {
            EventKind::Mouseup => {
                let owed = self.mousedown_node_id;
                self.mousedown_node_id = None;
                match owed {
                    Some(target) => Some(Dispatch { kind, target, data }),
                    None => None,
                }
            },
            _ => {
                match hit_test(tree, kind, point) {
                    Some(i) => {
                        let target = tree.get(i).unwrap().mounted_id.unwrap();
                        match kind {
                            EventKind::Mousedown => {
                                self.mousedown_node_id = Some(target);
                            },
                            _ => {},
                        }
                        Some(Dispatch { kind, target, data })
                    },
                    None => None,
                }
            },
        }
    }

    /// Takes in one reading of the controller at time `now`; see
    /// [`scan_spec`].
    pub fn scan_controller_input(&mut self, input: ControllerInput, now: u64, previous_3d: u16) -> (scan:
        ScanResult)
        ensures
            (*final(self), scan) == scan_spec(*old(self), input, now, previous_3d),
    {
        let mut click = None;
        let mut mousedown = None;
        let mut mouseup = None;
        match (self.touch, input.touch) {
            (Some(touch), None) => {
                mouseup = Some(touch.last);
                if since(now, touch.at) < CLICK_MAX_MS && squared_distance(touch.last, touch.first)
                    < CLICK_MAX_DISTANCE_SQUARED {
                    click = Some(touch.last);
                }
                self.touch = None;
            },
            (None, Some(point)) => {
                mousedown = Some(point);
                self.touch = Some(Touch { first: point, last: point, at: now });
            },
            (Some(touch), Some(point)) => {
                self.touch = Some(Touch { first: touch.first, last: point, at: touch.at });
            },
            (None, None) => {},
        }
        let mut keypad = input.keys_held;
        if keypad != self.keypad {
            self.keypad = keypad;
            self.last_keypad_at = now;
        } else if since(now, self.last_keypad_at) > KEY_REPEAT_DELAY_MS && since(
            now,
            self.last_repeat_at,
        ) > KEY_REPEAT_INTERVAL_MS {
            self.last_repeat_at = now;
        } else {
            keypad = 0;
        }
        ScanResult {
            keypad,
            slider: input.slider,
            click,
            mousedown,
            mouseup,
            idle: keypad == 0 || input.slider == previous_3d,
        }
    }

    /// One poll: takes in a reading of the controller, finds the nodes its
    /// events go to, and says whether control returns to the frame
    /// scheduler. Keyboard events come first, then click, mousedown and
    /// mouseup.
    pub fn poll_event_and_wait_for_work(
        &mut self,
        input: ControllerInput,
        now: u64,
        tree: &NodeTree,
        current_3d: u16,
        images: &mut ImageDataSet,
        exit: bool,
    ) -> (outcome: PollOutcome)
        requires
            tree.wf(),
        ensures
            ({
                let scanned = scan_spec(*old(self), input, now, current_3d);
                let pointer = pointer_dispatches(
                    scanned.0.mousedown_node_id,
                    tree@,
                    scanned.1,
                );
                let wake = wake_spec(input.slider, current_3d, old(images)@, exit);
                &&& *final(self) == (EventTrigger { mousedown_node_id: pointer.0, ..scanned.0 })
                &&& outcome.dispatches@ == keyboard_dispatches(tree@, scanned.1.keypad) + pointer.1
                &&& outcome.new_3d == if input.slider != current_3d {
                    Some(input.slider)
                } else {
                    None
                }
                &&& outcome.idle == scanned.1.idle
                &&& final(images)@ == wake.0
                &&& outcome.wake == wake.1
            }),
    {
        let scan = self.scan_controller_input(input, now, current_3d);
        let mut dispatches = self.handle_keyboard_event(scan.keypad, tree);
        let ghost keys = dispatches@;
        let ghost owed = self.mousedown_node_id;
        match scan.click {
            Some(point) => {
                match self.handle_mouse_event(EventKind::Click, point, tree) {
                    Some(d) => {
                        dispatches.push(d);
                    },
                    None => {},
                }
            },
            None => {},
        }
        let ghost click = match scan.click {
            Some(point) => mouse_dispatch(owed, tree@, EventKind::Click, point),
            None => (owed, None),
        };
        assert(dispatches@ =~= keys + optional(click.1));
        match scan.mousedown {
            Some(point) => {
                match self.handle_mouse_event(EventKind::Mousedown, point, tree) {
                    Some(d) => {
                        dispatches.push(d);
                    },
                    None => {},
                }
            },
            None => {},
        }
        let ghost down = match scan.mousedown {
            Some(point) => mouse_dispatch(click.0, tree@, EventKind::Mousedown, point),
            None => (click.0, None),
        };
        assert(dispatches@ =~= keys + optional(click.1) + optional(down.1));
        match scan.mouseup {
            Some(point) => {
                match self.handle_mouse_event(EventKind::Mouseup, point, tree) {
                    Some(d) => {
                        dispatches.push(d);
                    },
                    None => {},
                }
            },
            None => {},
        }
        let ghost up = match scan.mouseup {
            Some(point) => mouse_dispatch(down.0, tree@, EventKind::Mouseup, point),
            None => (down.0, None),
        };
        assert(dispatches@ =~= keys + (optional(click.1) + optional(down.1) + optional(up.1)));
        let moved = scan.slider != current_3d;
        let wake = if moved {
            true
        } else if images.is_update() {
            true
        } else {
            exit
        };
        PollOutcome {
            dispatches,
            new_3d: if moved {
                Some(scan.slider)
            } else {
                None
            },
            wake,
            idle: scan.idle,
        }
    }
}

fn since(now: u64, at: u64) -> (ms: u64)
    ensures
        ms == elapsed(now, at),
{
    if now >= at {
        now - at
    } else {
        0
    }
}

fn squared_distance(a: (u16, u16), b: (u16, u16)) -> (d: u64)
    ensures
        d == distance_squared(a, b),
{
    let dx: u64 = if a.0 >= b.0 {
        (a.0 - b.0) as u64
    } else {
        (b.0 - a.0) as u64
    };
    let dy: u64 = if a.1 >= b.1 {
        (a.1 - b.1) as u64
    } else {
        (b.1 - a.1) as u64
    };
    assert(dx * dx <= 0xffff * 0xffff && dy * dy <= 0xffff * 0xffff) by (nonlinear_arith)
        requires
            dx <= 0xffff,
            dy <= 0xffff,
    ;
    assert(dx * dx == (a.0 - b.0) * (a.0 - b.0)) by (nonlinear_arith)
        requires
            dx == a.0 - b.0 || dx == b.0 - a.0,
    ;
    assert(dy * dy == (a.1 - b.1) * (a.1 - b.1)) by (nonlinear_arith)
        requires
            dy == a.1 - b.1 || dy == b.1 - a.1,
    ;
    dx * dx + dy * dy
}

/// Topmost wins. Where two nodes are both hit by a pointer event, the
/// event goes to one node only, and never to the one painted earlier: the
/// target is painted no earlier than the later of the two.
pub proof fn lemma_topmost_wins(nodes: Seq<Node>, kind: EventKind, point: (u16, u16), a: int, b: int)
    requires
        tree_wf(nodes),
        a < b,
        is_hit(nodes, a, kind, point),
        is_hit(nodes, b, kind, point),
    ensures
        hit_target(nodes, kind, point) matches Some(target) && target >= b && target != a
            && is_hit(nodes, target, kind, point),
{
    lemma_some_topmost(nodes, kind, point, b, nodes.len() as int);
    let target = choose|i: int| is_topmost_hit(nodes, i, kind, point);
    if target < b {
        assert(!is_hit(nodes, b, kind, point));
    }
}

proof fn lemma_some_topmost(nodes: Seq<Node>, kind: EventKind, point: (u16, u16), b: int, n: int)
    requires
        0 <= b < n <= nodes.len(),
        is_hit(nodes, b, kind, point),
        forall|j: int| n <= j < nodes.len() ==> !is_hit(nodes, j, kind, point),
    ensures
        exists|i: int| is_topmost_hit(nodes, i, kind, point),
    decreases n - b,
{
    if is_hit(nodes, n - 1, kind, point) {
        assert(is_topmost_hit(nodes, n - 1, kind, point));
    } else {
        lemma_some_topmost(nodes, kind, point, b, n - 1);
    }
}

/// Tap or drag. A touch that begins on an untouched screen fires
/// `mousedown` where it begins, and when it is released, after any
/// movement, `mouseup` at its last point. It fires `click` there exactly
/// when it lasted less than a second and ended less than twenty pixels
/// from where it began.
pub proof fn lemma_tap_or_drag(
    t: EventTrigger,
    first: (u16, u16),
    last: (u16, u16),
    keys: u32,
    began: u64,
    moved: u64,
    released: u64,
    slider: u16,
)
    requires
        t.touch.is_none(),
    ensures
        ({
            let down = scan_spec(
                t,
                ControllerInput { keys_held: keys, touch: Some(first), slider },
                began,
                slider,
            );
            let drag = scan_spec(
                down.0,
                ControllerInput { keys_held: keys, touch: Some(last), slider },
                moved,
                slider,
            );
            let up = scan_spec(
                drag.0,
                ControllerInput { keys_held: keys, touch: None, slider },
                released,
                slider,
            );
            &&& down.1.mousedown == Some(first)
            &&& down.1.mouseup.is_none() && down.1.click.is_none()
            &&& drag.1.mousedown.is_none() && drag.1.mouseup.is_none() && drag.1.click.is_none()
            &&& up.1.mouseup == Some(last)
            &&& up.1.mousedown.is_none()
            &&& up.1.click == if elapsed(released, began) < CLICK_MAX_MS && distance_squared(
                last,
                first,
            ) < CLICK_MAX_DISTANCE_SQUARED {
                Some(last)
            } else {
                None
            }
            &&& up.0.touch.is_none()
        }),
{
}

/// Key repeat. Buttons fire at once when the mask changes, and the delay
/// starts anew. Held unchanged, they fire again exactly when more than the
/// initial delay has passed since the change and more than the repeat
/// interval since the last repeat; each repeat starts the interval anew,
/// and a silent reading changes no clock.
pub proof fn lemma_key_repeat(t: EventTrigger, input: ControllerInput, now: u64, slider: u16)
    ensures
        ({
            let scan = scan_spec(t, input, now, slider);
            let due = elapsed(now, t.last_keypad_at) > KEY_REPEAT_DELAY_MS && elapsed(
                now,
                t.last_repeat_at,
            ) > KEY_REPEAT_INTERVAL_MS;
            &&& scan.0.keypad == input.keys_held
            &&& input.keys_held != t.keypad ==> scan.1.keypad == input.keys_held
                && scan.0.last_keypad_at == now && scan.0.last_repeat_at == t.last_repeat_at
            &&& input.keys_held == t.keypad && due ==> scan.1.keypad == input.keys_held
                && scan.0.last_repeat_at == now && scan.0.last_keypad_at == t.last_keypad_at
            &&& input.keys_held == t.keypad && !due ==> scan.1.keypad == 0
                && scan.0.last_repeat_at == t.last_repeat_at && scan.0.last_keypad_at
                == t.last_keypad_at
        }),
{
}

} // verus!
