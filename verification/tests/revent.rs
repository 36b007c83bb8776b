use save_cloud::render::image_data_set::ImageDataSet;
use save_cloud::render::rdom::node_tree::{ElementTag, Listeners, Node, NodeTree, NodeType};
use save_cloud::render::rdom::rdom_style::RdomStyle;
use save_cloud::render::rdom::taffy_layout::{Layout, TaffyLayout};
use save_cloud::render::revent::{
    create_keyboard_event_data, hit_test, Code, ControllerInput, Dispatch, EventData, EventKind,
    EventTrigger, Key, KeyEventData, MouseEventData, Touch, KEY_A, KEY_B, KEY_DPAD_DOWN, KEY_DPAD_LEFT,
    KEY_DPAD_RIGHT, KEY_DPAD_UP, KEY_L, KEY_R, KEY_SELECT, KEY_START, KEY_X, KEY_Y, KEY_ZL, KEY_ZR,
};

fn listeners(keypress: bool, mousedown: bool, mouseup: bool, click: bool) -> Listeners {
    Listeners { keypress, mousedown, mouseup, click }
}

fn node(parent: Option<usize>, geometry: (i32, i32, i32, i32), mounted_id: Option<usize>, listeners: Listeners) -> Node {
    Node {
        parent,
        node_type: NodeType::Element(ElementTag::Div),
        attributes: vec![],
        style: RdomStyle::default(),
        layout: TaffyLayout::default(),
        geometry: Layout { x: geometry.0, y: geometry.1, width: geometry.2, height: geometry.3 },
        mounted_id,
        listeners,
    }
}

fn tree_of(nodes: Vec<Node>) -> NodeTree {
    let mut tree = NodeTree::new();
    for n in nodes {
        assert!(tree.push(n).is_some());
    }
    tree
}

fn clickable() -> Listeners {
    listeners(false, true, false, true)
}

fn touch(x: u16, y: u16) -> ControllerInput {
    ControllerInput { keys_held: 0, touch: Some((x, y)), slider: 0 }
}

fn release() -> ControllerInput {
    ControllerInput { keys_held: 0, touch: None, slider: 0 }
}

fn keys(keys_held: u32) -> ControllerInput {
    ControllerInput { keys_held, touch: None, slider: 0 }
}

fn mouse(kind: EventKind, target: usize, x: u16, y: u16) -> Dispatch {
    Dispatch { kind, target, data: EventData::Mouse(MouseEventData(x, y)) }
}

#[test]
fn single_buttons_map_to_codes() {
    let table = [
        (KEY_A, Code::KeyA),
        (KEY_B, Code::KeyB),
        (KEY_Y, Code::KeyY),
        (KEY_X, Code::KeyX),
        (KEY_L, Code::KeyL),
        (KEY_R, Code::KeyR),
        (KEY_ZL, Code::ControlLeft),
        (KEY_ZR, Code::ControlRight),
        (KEY_DPAD_LEFT, Code::ArrowLeft),
        (KEY_DPAD_RIGHT, Code::ArrowRight),
        (KEY_DPAD_UP, Code::ArrowUp),
        (KEY_DPAD_DOWN, Code::ArrowDown),
        (KEY_START, Code::Enter),
        (KEY_SELECT, Code::ShiftLeft),
    ];
    for (mask, code) in table {
        assert_eq!(create_keyboard_event_data(mask), Some(KeyEventData(Key::Unidentified, code)));
    }
}

#[test]
fn button_masks_have_the_hardware_bits() {
    assert_eq!(
        [KEY_A, KEY_B, KEY_SELECT, KEY_START, KEY_DPAD_RIGHT, KEY_DPAD_LEFT, KEY_DPAD_UP, KEY_DPAD_DOWN],
        [1, 2, 4, 8, 16, 32, 64, 128]
    );
    assert_eq!([KEY_R, KEY_L, KEY_X, KEY_Y, KEY_ZL, KEY_ZR], [256, 512, 1024, 2048, 16384, 32768]);
}

#[test]
fn other_masks_map_to_no_key() {
    assert_eq!(create_keyboard_event_data(0), None);
    assert_eq!(create_keyboard_event_data(KEY_A | KEY_B), None);
    assert_eq!(create_keyboard_event_data(1 << 20), None);
    assert_eq!(create_keyboard_event_data(1 << 12), None);
    assert_eq!(create_keyboard_event_data(u32::MAX), None);
}

#[test]
fn new_trigger_is_at_rest() {
    let trigger = EventTrigger::new(5000);
    assert_eq!(trigger.mousedown_node_id, None);
    assert_eq!(trigger.touch, None);
    assert_eq!(trigger.keypad, 0);
    assert_eq!(trigger.last_keypad_at, 5000);
    assert_eq!(trigger.last_repeat_at, 5000);
}

#[test]
fn short_still_touch_is_a_click() {
    let mut trigger = EventTrigger::new(0);
    let down = trigger.scan_controller_input(touch(100, 100), 1000, 0);
    assert_eq!(down.mousedown, Some((100, 100)));
    assert_eq!(down.mouseup, None);
    assert_eq!(down.click, None);
    let held = trigger.scan_controller_input(touch(110, 110), 1500, 0);
    assert_eq!((held.mousedown, held.mouseup, held.click), (None, None, None));
    assert_eq!(trigger.touch, Some(Touch { first: (100, 100), last: (110, 110), at: 1000 }));
    let up = trigger.scan_controller_input(release(), 1900, 0);
    assert_eq!(up.mousedown, None);
    assert_eq!(up.mouseup, Some((110, 110)));
    assert_eq!(up.click, Some((110, 110)));
    assert_eq!(trigger.touch, None);
}

#[test]
fn long_touch_is_no_click() {
    let mut trigger = EventTrigger::new(0);
    assert_eq!(trigger.scan_controller_input(touch(100, 100), 1000, 0).mousedown, Some((100, 100)));
    let up = trigger.scan_controller_input(release(), 2200, 0);
    assert_eq!(up.mouseup, Some((100, 100)));
    assert_eq!(up.click, None);
}

#[test]
fn touch_of_exactly_one_second_is_no_click() {
    let mut trigger = EventTrigger::new(0);
    trigger.scan_controller_input(touch(100, 100), 1000, 0);
    assert_eq!(trigger.scan_controller_input(release(), 2000, 0).click, None);
    let mut other = EventTrigger::new(0);
    other.scan_controller_input(touch(100, 100), 1000, 0);
    assert_eq!(other.scan_controller_input(release(), 1999, 0).click, Some((100, 100)));
}

#[test]
fn dragged_touch_is_no_click() {
    let mut trigger = EventTrigger::new(0);
    trigger.scan_controller_input(touch(100, 100), 1000, 0);
    trigger.scan_controller_input(touch(125, 100), 1100, 0);
    let up = trigger.scan_controller_input(release(), 1200, 0);
    assert_eq!(up.mouseup, Some((125, 100)));
    assert_eq!(up.click, None);
}

#[test]
fn click_radius_is_twenty_pixels() {
    let release_after_move = |x: u16, y: u16| {
        let mut trigger = EventTrigger::new(0);
        trigger.scan_controller_input(touch(100, 100), 0, 0);
        trigger.scan_controller_input(touch(x, y), 10, 0);
        trigger.scan_controller_input(release(), 20, 0).click
    };
    assert_eq!(release_after_move(119, 100), Some((119, 100)));
    assert_eq!(release_after_move(120, 100), None);
    assert_eq!(release_after_move(100, 81), Some((100, 81)));
    assert_eq!(release_after_move(100, 80), None);
    assert_eq!(release_after_move(114, 114), Some((114, 114)));
    assert_eq!(release_after_move(115, 114), None);
}

#[test]
fn touch_that_returns_to_its_start_is_a_click() {
    let mut trigger = EventTrigger::new(0);
    trigger.scan_controller_input(touch(100, 100), 0, 0);
    trigger.scan_controller_input(touch(200, 200), 100, 0);
    trigger.scan_controller_input(touch(101, 100), 200, 0);
    assert_eq!(trigger.scan_controller_input(release(), 300, 0).click, Some((101, 100)));
}

#[test]
fn far_corners_do_not_overflow() {
    let mut trigger = EventTrigger::new(0);
    trigger.scan_controller_input(touch(65535, 65535), 0, 0);
    trigger.scan_controller_input(touch(1, 1), 1, 0);
    let up = trigger.scan_controller_input(release(), 2, 0);
    assert_eq!(up.mouseup, Some((1, 1)));
    assert_eq!(up.click, None);
}

#[test]
fn no_touch_gives_no_pointer_events() {
    let mut trigger = EventTrigger::new(0);
    let scan = trigger.scan_controller_input(release(), 100, 0);
    assert_eq!((scan.mousedown, scan.mouseup, scan.click), (None, None, None));
}

#[test]
fn clock_running_backwards_counts_as_no_time() {
    let mut trigger = EventTrigger::new(0);
    trigger.scan_controller_input(touch(10, 10), 5000, 0);
    assert_eq!(trigger.scan_controller_input(release(), 100, 0).click, Some((10, 10)));
}

#[test]
fn changed_buttons_fire_at_once() {
    let mut trigger = EventTrigger::new(0);
    assert_eq!(trigger.scan_controller_input(keys(KEY_A), 10, 0).keypad, KEY_A);
    assert_eq!(trigger.scan_controller_input(keys(KEY_A), 20, 0).keypad, 0);
    assert_eq!(trigger.scan_controller_input(keys(KEY_A | KEY_B), 30, 0).keypad, KEY_A | KEY_B);
    assert_eq!(trigger.scan_controller_input(keys(0), 40, 0).keypad, 0);
    assert_eq!(trigger.keypad, 0);
    assert_eq!(trigger.last_keypad_at, 40);
}

#[test]
fn held_buttons_repeat_after_delay_at_interval() {
    let mut trigger = EventTrigger::new(0);
    assert_eq!(trigger.scan_controller_input(keys(KEY_DPAD_DOWN), 1000, 0).keypad, KEY_DPAD_DOWN);
    assert_eq!(trigger.scan_controller_input(keys(KEY_DPAD_DOWN), 1200, 0).keypad, 0);
    assert_eq!(trigger.scan_controller_input(keys(KEY_DPAD_DOWN), 1300, 0).keypad, 0);
    assert_eq!(trigger.scan_controller_input(keys(KEY_DPAD_DOWN), 1301, 0).keypad, KEY_DPAD_DOWN);
    assert_eq!(trigger.last_repeat_at, 1301);
    assert_eq!(trigger.scan_controller_input(keys(KEY_DPAD_DOWN), 1340, 0).keypad, 0);
    assert_eq!(trigger.scan_controller_input(keys(KEY_DPAD_DOWN), 1361, 0).keypad, 0);
    assert_eq!(trigger.scan_controller_input(keys(KEY_DPAD_DOWN), 1362, 0).keypad, KEY_DPAD_DOWN);
    assert_eq!(trigger.scan_controller_input(keys(KEY_DPAD_DOWN), 1423, 0).keypad, KEY_DPAD_DOWN);
    assert_eq!(trigger.last_keypad_at, 1000);
}

#[test]
fn idle_when_no_key_fires_or_slider_stands() {
    let mut trigger = EventTrigger::new(0);
    let moved = ControllerInput { keys_held: KEY_A, touch: None, slider: 500 };
    assert!(!trigger.scan_controller_input(moved, 10, 0).idle);
    let still = ControllerInput { keys_held: KEY_B, touch: None, slider: 500 };
    assert!(trigger.scan_controller_input(still, 20, 500).idle);
    let quiet = ControllerInput { keys_held: KEY_B, touch: None, slider: 700 };
    let scan = trigger.scan_controller_input(quiet, 30, 500);
    assert_eq!(scan.keypad, 0);
    assert_eq!(scan.slider, 700);
    assert!(scan.idle);
}

#[test]
fn topmost_of_two_overlapping_nodes_is_hit() {
    let tree = tree_of(vec![
        node(None, (0, 0, 320000, 240000), Some(1), clickable()),
        node(Some(0), (10000, 10000, 100000, 100000), Some(2), clickable()),
        node(Some(0), (50000, 50000, 100000, 100000), Some(3), clickable()),
    ]);
    assert_eq!(hit_test(&tree, EventKind::Click, (60, 60)), Some(2));
    assert_eq!(hit_test(&tree, EventKind::Click, (20, 20)), Some(1));
    assert_eq!(hit_test(&tree, EventKind::Click, (200, 200)), Some(0));
    assert_eq!(hit_test(&tree, EventKind::Click, (321, 10)), None);
}

#[test]
fn later_painted_node_wins_even_when_it_is_larger() {
    let tree = tree_of(vec![
        node(None, (0, 0, 10000, 10000), Some(1), clickable()),
        node(None, (0, 0, 300000, 200000), Some(2), clickable()),
    ]);
    assert_eq!(hit_test(&tree, EventKind::Click, (5, 5)), Some(1));
}

#[test]
fn hit_box_includes_its_edges() {
    let tree = tree_of(vec![node(None, (10000, 20000, 30000, 40000), Some(1), clickable())]);
    assert_eq!(hit_test(&tree, EventKind::Click, (10, 20)), Some(0));
    assert_eq!(hit_test(&tree, EventKind::Click, (40, 60)), Some(0));
    assert_eq!(hit_test(&tree, EventKind::Click, (9, 20)), None);
    assert_eq!(hit_test(&tree, EventKind::Click, (41, 60)), None);
    assert_eq!(hit_test(&tree, EventKind::Click, (10, 19)), None);
    assert_eq!(hit_test(&tree, EventKind::Click, (40, 61)), None);
}

#[test]
fn hit_box_uses_whole_pixels_of_each_ancestor() {
    let tree = tree_of(vec![
        node(None, (10900, 0, 100000, 100000), None, clickable()),
        node(Some(0), (10900, 0, 5999, 5000), Some(9), clickable()),
    ]);
    assert_eq!(hit_test(&tree, EventKind::Click, (20, 0)), Some(1));
    assert_eq!(hit_test(&tree, EventKind::Click, (25, 5)), Some(1));
    assert_eq!(hit_test(&tree, EventKind::Click, (26, 5)), None);
    assert_eq!(hit_test(&tree, EventKind::Click, (19, 0)), None);
}

#[test]
fn negative_offsets_count_as_zero_pixels() {
    let tree = tree_of(vec![node(None, (-5000, -5000, 10000, 10000), Some(1), clickable())]);
    assert_eq!(hit_test(&tree, EventKind::Click, (10, 10)), Some(0));
    assert_eq!(hit_test(&tree, EventKind::Click, (11, 10)), None);
}

#[test]
fn only_mounted_listeners_of_the_event_type_are_hit() {
    let tree = tree_of(vec![
        node(None, (0, 0, 100000, 100000), Some(1), listeners(false, true, false, false)),
        node(None, (0, 0, 100000, 100000), None, clickable()),
        node(None, (0, 0, 100000, 100000), Some(3), listeners(true, false, true, false)),
    ]);
    assert_eq!(hit_test(&tree, EventKind::Mousedown, (5, 5)), Some(0));
    assert_eq!(hit_test(&tree, EventKind::Click, (5, 5)), None);
    assert_eq!(hit_test(&tree, EventKind::Mouseup, (5, 5)), Some(2));
    assert_eq!(hit_test(&tree, EventKind::Keypress, (5, 5)), Some(2));
    assert_eq!(hit_test(&NodeTree::new(), EventKind::Click, (5, 5)), None);
}

#[test]
fn keypress_goes_to_every_listener_in_order() {
    let tree = tree_of(vec![
        node(None, (0, 0, 0, 0), Some(10), listeners(true, false, false, false)),
        node(Some(0), (0, 0, 0, 0), Some(11), listeners(false, true, false, true)),
        node(Some(0), (0, 0, 0, 0), None, listeners(true, false, false, false)),
        node(Some(2), (0, 0, 0, 0), Some(13), listeners(true, false, false, false)),
    ]);
    let trigger = EventTrigger::new(0);
    let key = EventData::Key(KeyEventData(Key::Unidentified, Code::KeyA));
    assert_eq!(
        trigger.handle_keyboard_event(KEY_A, &tree),
        vec![
            Dispatch { kind: EventKind::Keypress, target: 10, data: key },
            Dispatch { kind: EventKind::Keypress, target: 13, data: key },
        ]
    );
    assert_eq!(trigger.handle_keyboard_event(KEY_A | KEY_B, &tree), vec![]);
    assert_eq!(trigger.handle_keyboard_event(0, &tree), vec![]);
}

#[test]
fn mouseup_follows_the_mousedown_node() {
    let tree = tree_of(vec![
        node(None, (0, 0, 100000, 100000), Some(1), clickable()),
        node(None, (200000, 0, 100000, 100000), Some(2), listeners(false, true, true, true)),
    ]);
    let mut trigger = EventTrigger::new(0);
    assert_eq!(
        trigger.handle_mouse_event(EventKind::Mousedown, (5, 5), &tree),
        Some(mouse(EventKind::Mousedown, 1, 5, 5))
    );
    assert_eq!(trigger.mousedown_node_id, Some(1));
    assert_eq!(
        trigger.handle_mouse_event(EventKind::Mouseup, (250, 5), &tree),
        Some(mouse(EventKind::Mouseup, 1, 250, 5))
    );
    assert_eq!(trigger.mousedown_node_id, None);
    assert_eq!(trigger.handle_mouse_event(EventKind::Mouseup, (250, 5), &tree), None);
}

#[test]
fn click_does_not_change_the_mousedown_node() {
    let tree = tree_of(vec![node(None, (0, 0, 100000, 100000), Some(1), clickable())]);
    let mut trigger = EventTrigger::new(0);
    trigger.mousedown_node_id = Some(7);
    assert_eq!(
        trigger.handle_mouse_event(EventKind::Click, (5, 5), &tree),
        Some(mouse(EventKind::Click, 1, 5, 5))
    );
    assert_eq!(trigger.mousedown_node_id, Some(7));
    assert_eq!(trigger.handle_mouse_event(EventKind::Click, (500, 5), &tree), None);
    assert_eq!(trigger.mousedown_node_id, Some(7));
    assert_eq!(trigger.handle_mouse_event(EventKind::Mousedown, (500, 5), &tree), None);
    assert_eq!(trigger.mousedown_node_id, Some(7));
}

#[test]
fn poll_dispatches_a_whole_tap() {
    let tree = tree_of(vec![
        node(None, (0, 0, 320000, 240000), Some(1), listeners(true, true, false, true)),
        node(Some(0), (10000, 10000, 50000, 50000), Some(2), clickable()),
    ]);
    let mut trigger = EventTrigger::new(0);
    let mut images = ImageDataSet::new();
    let down = trigger.poll_event_and_wait_for_work(touch(20, 20), 100, &tree, 0, &mut images, false);
    assert_eq!(down.dispatches, vec![mouse(EventKind::Mousedown, 2, 20, 20)]);
    assert!(!down.wake);
    assert_eq!(down.new_3d, None);
    let up = trigger.poll_event_and_wait_for_work(release(), 300, &tree, 0, &mut images, false);
    assert_eq!(
        up.dispatches,
        vec![mouse(EventKind::Click, 2, 20, 20), mouse(EventKind::Mouseup, 2, 20, 20)]
    );
    assert_eq!(trigger.mousedown_node_id, None);
}

#[test]
fn poll_puts_keyboard_before_pointer() {
    let tree = tree_of(vec![node(None, (0, 0, 320000, 240000), Some(1), listeners(true, true, false, true))]);
    let mut trigger = EventTrigger::new(0);
    let mut images = ImageDataSet::new();
    let input = ControllerInput { keys_held: KEY_START, touch: Some((5, 5)), slider: 0 };
    let outcome = trigger.poll_event_and_wait_for_work(input, 100, &tree, 0, &mut images, false);
    assert_eq!(
        outcome.dispatches,
        vec![
            Dispatch {
                kind: EventKind::Keypress,
                target: 1,
                data: EventData::Key(KeyEventData(Key::Unidentified, Code::Enter)),
            },
            mouse(EventKind::Mousedown, 1, 5, 5),
        ]
    );
}

#[test]
fn poll_wakes_when_the_slider_moves() {
    let tree = NodeTree::new();
    let mut trigger = EventTrigger::new(0);
    let mut images = ImageDataSet::new();
    images.complete_loading(1, None);
    let input = ControllerInput { keys_held: 0, touch: None, slider: 300 };
    let outcome = trigger.poll_event_and_wait_for_work(input, 100, &tree, 0, &mut images, false);
    assert!(outcome.wake);
    assert_eq!(outcome.new_3d, Some(300));
    assert!(images.is_update());
}

#[test]
fn poll_wakes_on_image_news_and_lowers_the_flag() {
    let tree = NodeTree::new();
    let mut trigger = EventTrigger::new(0);
    let mut images = ImageDataSet::new();
    images.complete_loading(1, None);
    let input = ControllerInput { keys_held: 0, touch: None, slider: 300 };
    let outcome = trigger.poll_event_and_wait_for_work(input, 100, &tree, 300, &mut images, false);
    assert!(outcome.wake);
    assert_eq!(outcome.new_3d, None);
    assert!(!images.is_update());
    let quiet = trigger.poll_event_and_wait_for_work(input, 200, &tree, 300, &mut images, false);
    assert!(!quiet.wake);
    assert!(quiet.idle);
}

#[test]
fn poll_wakes_on_exit() {
    let tree = NodeTree::new();
    let mut trigger = EventTrigger::new(0);
    let mut images = ImageDataSet::new();
    let outcome = trigger.poll_event_and_wait_for_work(keys(0), 100, &tree, 0, &mut images, true);
    assert!(outcome.wake);
    assert_eq!(outcome.dispatches, vec![]);
}

#[test]
fn touch_at_the_corner_is_a_touch() {
    let mut trigger = EventTrigger::new(0);
    assert_eq!(trigger.scan_controller_input(touch(0, 0), 10, 0).mousedown, Some((0, 0)));
    let up = trigger.scan_controller_input(release(), 20, 0);
    assert_eq!(up.mouseup, Some((0, 0)));
    assert_eq!(up.click, Some((0, 0)));
}
