use save_cloud::render::image_data_set::{ImageDataSet, ImageHandle};
use save_cloud::render::rdom::attribute::{Attribute, AttributeValue};
use save_cloud::render::rdom::node_tree::{ElementTag, Listeners, Node, NodeTree, NodeType};
use save_cloud::render::rdom::rdom_style::{RdomStyle, Screen};
use save_cloud::render::rdom::taffy_layout::{Layout, TaffyLayout};
use save_cloud::render::{render, stereo_shift, DrawCommand, RenderTarget};

fn attr(name: &str, value: AttributeValue) -> Attribute {
    Attribute { name: name.to_string(), value }
}

fn text(value: &str) -> AttributeValue {
    AttributeValue::Text(value.to_string())
}

fn node(parent: Option<usize>, node_type: NodeType, attributes: Vec<Attribute>, geometry: Layout) -> Node {
    Node {
        parent,
        node_type,
        attributes,
        style: RdomStyle::default(),
        layout: TaffyLayout::default(),
        geometry,
        mounted_id: None,
        listeners: Listeners { keypress: false, mousedown: false, mouseup: false, click: false },
    }
}

fn div(parent: Option<usize>, attributes: Vec<Attribute>, geometry: Layout) -> Node {
    node(parent, NodeType::Element(ElementTag::Div), attributes, geometry)
}

fn img(parent: Option<usize>, attributes: Vec<Attribute>, geometry: Layout) -> Node {
    node(parent, NodeType::Element(ElementTag::Img), attributes, geometry)
}

fn boxed(x: i32, y: i32, width: i32, height: i32) -> Layout {
    Layout { x, y, width, height }
}

fn frame(nodes: Vec<Node>, slider: u16, images: &mut ImageDataSet, sheet_count: usize) -> Vec<DrawCommand> {
    let mut tree = NodeTree::new();
    for n in nodes {
        assert!(tree.push(n).is_some());
    }
    tree.resolve_styles();
    render(&tree, slider, images, sheet_count)
}

#[test]
fn green_box_is_drawn_once_for_each_eye() {
    let nodes = vec![div(
        None,
        vec![
            attr("background-color", text("green")),
            attr("width", AttributeValue::Int(48)),
            attr("height", AttributeValue::Int(48)),
            attr("deep_3d", AttributeValue::Float(1000)),
        ],
        boxed(0, 0, 48000, 48000),
    )];
    let commands = frame(nodes, 2000, &mut ImageDataSet::new(), 8);
    assert_eq!(
        commands,
        vec![
            DrawCommand::Select { target: RenderTarget::Top },
            DrawCommand::Rect { x: -2000, y: 0, z: 0, width: 48000, height: 48000, color: 0xff00ff00 },
            DrawCommand::Select { target: RenderTarget::TopRight },
            DrawCommand::Rect { x: 2000, y: 0, z: 0, width: 48000, height: 48000, color: 0xff00ff00 },
        ]
    );
}

#[test]
fn slider_off_draws_one_eye_without_shift() {
    let nodes = vec![div(
        None,
        vec![attr("background-color", text("green")), attr("deep_3d", AttributeValue::Float(1000))],
        boxed(3000, 4000, 48000, 48000),
    )];
    let commands = frame(nodes, 0, &mut ImageDataSet::new(), 8);
    assert_eq!(
        commands,
        vec![
            DrawCommand::Select { target: RenderTarget::Top },
            DrawCommand::Rect { x: 3000, y: 4000, z: 0, width: 48000, height: 48000, color: 0xff00ff00 },
        ]
    );
}

#[test]
fn bottom_screen_is_never_drawn_in_stereo() {
    let nodes = vec![div(
        None,
        vec![
            attr("screen", text("bottom")),
            attr("background-color", text("red")),
            attr("deep_3d", AttributeValue::Float(3000)),
            attr("z-index", AttributeValue::Float(500)),
        ],
        boxed(3000, 4000, 320000, 240000),
    )];
    let commands = frame(nodes, 1000, &mut ImageDataSet::new(), 8);
    assert_eq!(
        commands,
        vec![
            DrawCommand::Select { target: RenderTarget::Bottom },
            DrawCommand::Rect { x: 3000, y: 4000, z: 500, width: 320000, height: 240000, color: 0xff0000ff },
        ]
    );
}

#[test]
fn stereo_shift_is_symmetric_in_depth() {
    assert_eq!(stereo_shift(1000, 2000), 2000);
    assert_eq!(stereo_shift(-1000, 2000), -2000);
    assert_eq!(stereo_shift(5000, 1000), 5000);
    assert_eq!(stereo_shift(-5000, 1000), -5000);
    assert_eq!(stereo_shift(2000, 500), 1000);
    assert_eq!(stereo_shift(0, 1000), 0);
    assert_eq!(stereo_shift(1000, 0), 0);
}

#[test]
fn stereo_shift_rounds_towards_zero() {
    assert_eq!(stereo_shift(1, 1), 0);
    assert_eq!(stereo_shift(-1, 1), 0);
    assert_eq!(stereo_shift(1999, 1), 1);
    assert_eq!(stereo_shift(-1999, 1), -1);
    assert_eq!(stereo_shift(333, 1000), 333);
    assert_eq!(stereo_shift(333, 500), 166);
    assert_eq!(stereo_shift(-333, 500), -166);
}

#[test]
fn stereo_shift_at_the_extremes() {
    assert_eq!(stereo_shift(i32::MAX, u16::MAX), (i32::MAX as i64) * 65535 / 1000);
    assert_eq!(stereo_shift(i32::MIN, u16::MAX), -((1i64 << 31) * 65535 / 1000));
}

#[test]
fn negative_depth_swaps_the_sides() {
    let nodes = vec![div(
        None,
        vec![attr("background-color", text("blue")), attr("deep_3d", AttributeValue::Float(-1000))],
        boxed(10000, 0, 1000, 1000),
    )];
    let commands = frame(nodes, 500, &mut ImageDataSet::new(), 8);
    assert_eq!(
        commands,
        vec![
            DrawCommand::Select { target: RenderTarget::Top },
            DrawCommand::Rect { x: 10500, y: 0, z: 0, width: 1000, height: 1000, color: 0xffff0000 },
            DrawCommand::Select { target: RenderTarget::TopRight },
            DrawCommand::Rect { x: 9500, y: 0, z: 0, width: 1000, height: 1000, color: 0xffff0000 },
        ]
    );
}

#[test]
fn screen_clear_comes_first_and_covers_both_eyes() {
    let nodes = vec![div(
        None,
        vec![attr("bg_reset", text("main_bg")), attr("background-color", text("panel_bg"))],
        boxed(0, 0, 400000, 240000),
    )];
    let commands = frame(nodes, 1000, &mut ImageDataSet::new(), 8);
    assert_eq!(
        commands,
        vec![
            DrawCommand::Clear { target: RenderTarget::Top, color: 0xff222222 },
            DrawCommand::Select { target: RenderTarget::Top },
            DrawCommand::Clear { target: RenderTarget::TopRight, color: 0xff222222 },
            DrawCommand::Select { target: RenderTarget::TopRight },
            DrawCommand::Select { target: RenderTarget::Top },
            DrawCommand::Rect { x: 0, y: 0, z: 0, width: 400000, height: 240000, color: 0xff262626 },
            DrawCommand::Select { target: RenderTarget::TopRight },
            DrawCommand::Rect { x: 0, y: 0, z: 0, width: 400000, height: 240000, color: 0xff262626 },
        ]
    );
}

#[test]
fn screen_clear_on_bottom_screen_and_without_stereo() {
    let bottom = frame(
        vec![div(None, vec![attr("screen", text("bottom")), attr("bg_reset", text("black"))], boxed(0, 0, 1, 1))],
        1000,
        &mut ImageDataSet::new(),
        8,
    );
    assert_eq!(
        bottom,
        vec![
            DrawCommand::Clear { target: RenderTarget::Bottom, color: 0xff000000 },
            DrawCommand::Select { target: RenderTarget::Bottom },
        ]
    );
    let flat = frame(
        vec![div(None, vec![attr("bg_reset", text("black"))], boxed(0, 0, 1, 1))],
        0,
        &mut ImageDataSet::new(),
        8,
    );
    assert_eq!(
        flat,
        vec![
            DrawCommand::Clear { target: RenderTarget::Top, color: 0xff000000 },
            DrawCommand::Select { target: RenderTarget::Top },
        ]
    );
}

#[test]
fn child_is_drawn_at_parent_origin_without_parent_shift() {
    let nodes = vec![
        div(None, vec![attr("deep_3d", AttributeValue::Float(2000))], boxed(10000, 20000, 100000, 100000)),
        node(Some(0), NodeType::Text("hello".to_string()), vec![], boxed(5000, 6000, 30000, 12000)),
    ];
    let commands = frame(nodes, 1000, &mut ImageDataSet::new(), 8);
    assert_eq!(
        commands,
        vec![
            DrawCommand::Select { target: RenderTarget::Top },
            DrawCommand::Text {
                node: 1,
                x: 13000,
                y: 26000,
                z: 0,
                scale: 1000,
                color: 0xff000000,
                max_width: None
            },
            DrawCommand::Select { target: RenderTarget::TopRight },
            DrawCommand::Text {
                node: 1,
                x: 17000,
                y: 26000,
                z: 0,
                scale: 1000,
                color: 0xff000000,
                max_width: None
            },
        ]
    );
}

#[test]
fn wrapped_text_is_shifted_for_both_eyes() {
    let nodes = vec![
        div(
            None,
            vec![
                attr("max-width", AttributeValue::Int(240)),
                attr("scale", AttributeValue::Float(400)),
                attr("color", text("tips")),
                attr("deep_3d", AttributeValue::Float(1000)),
            ],
            boxed(0, 0, 240000, 100000),
        ),
        node(Some(0), NodeType::Text("long text".to_string()), vec![], boxed(0, 0, 240000, 24000)),
    ];
    let commands = frame(nodes, 1000, &mut ImageDataSet::new(), 8);
    assert_eq!(
        commands,
        vec![
            DrawCommand::Select { target: RenderTarget::Top },
            DrawCommand::Text {
                node: 1,
                x: -1000,
                y: 0,
                z: 0,
                scale: 400,
                color: 0xffaaaaaa,
                max_width: Some(240000)
            },
            DrawCommand::Select { target: RenderTarget::TopRight },
            DrawCommand::Text {
                node: 1,
                x: 1000,
                y: 0,
                z: 0,
                scale: 400,
                color: 0xffaaaaaa,
                max_width: Some(240000)
            },
        ]
    );
}

#[test]
fn sheet_image_by_index() {
    let commands = frame(
        vec![img(None, vec![attr("src", AttributeValue::Int(2)), attr("scale", AttributeValue::Float(500))], boxed(1000, 2000, 3000, 4000))],
        0,
        &mut ImageDataSet::new(),
        8,
    );
    assert_eq!(
        commands,
        vec![
            DrawCommand::Select { target: RenderTarget::Top },
            DrawCommand::Image { image: ImageHandle::Sheet(2), x: 1000, y: 2000, z: 0, scale: 500 },
        ]
    );
}

#[test]
fn image_out_of_sheet_falls_back_to_placeholder() {
    for src in [8, 9, -1, i64::MAX, i64::MIN] {
        let commands = frame(
            vec![img(None, vec![attr("src", AttributeValue::Int(src))], boxed(0, 0, 1, 1))],
            0,
            &mut ImageDataSet::new(),
            8,
        );
        assert_eq!(
            commands,
            vec![
                DrawCommand::Select { target: RenderTarget::Top },
                DrawCommand::Image { image: ImageHandle::Sheet(4), x: 0, y: 0, z: 0, scale: 1000 },
            ]
        );
    }
}

#[test]
fn image_without_source_shows_placeholder() {
    let commands = frame(vec![img(None, vec![], boxed(0, 0, 1, 1))], 0, &mut ImageDataSet::new(), 5);
    assert_eq!(
        commands,
        vec![
            DrawCommand::Select { target: RenderTarget::Top },
            DrawCommand::Image { image: ImageHandle::Sheet(4), x: 0, y: 0, z: 0, scale: 1000 },
        ]
    );
}

#[test]
fn nothing_is_drawn_when_the_sheet_has_no_placeholder() {
    let commands = frame(vec![img(None, vec![], boxed(0, 0, 1, 1))], 0, &mut ImageDataSet::new(), 4);
    assert_eq!(commands, vec![]);
}

#[test]
fn icon_shows_placeholder_until_loaded() {
    let nodes = || {
        vec![img(
            None,
            vec![attr("src", text("1125899907040512")), attr("media", text("sd"))],
            boxed(0, 0, 48000, 48000),
        )]
    };
    let mut images = ImageDataSet::new();
    let first = frame(nodes(), 0, &mut images, 8);
    assert_eq!(
        first,
        vec![
            DrawCommand::Select { target: RenderTarget::Top },
            DrawCommand::Image { image: ImageHandle::Sheet(4), x: 0, y: 0, z: 0, scale: 1000 },
        ]
    );
    assert_eq!(images.pending().len(), 1);
    let second = frame(nodes(), 0, &mut images, 8);
    assert_eq!(second, first);
    assert_eq!(images.pending().len(), 1);
    images.complete_loading(1125899907040512, Some(vec![1; 0x900]));
    let third = frame(nodes(), 0, &mut images, 8);
    assert_eq!(
        third,
        vec![
            DrawCommand::Select { target: RenderTarget::Top },
            DrawCommand::Image {
                image: ImageHandle::Icon(1125899907040512),
                x: 0,
                y: 0,
                z: 0,
                scale: 1000
            },
        ]
    );
}

#[test]
fn keyed_image_without_media_shows_placeholder_and_queues_nothing() {
    let mut images = ImageDataSet::new();
    let commands = frame(
        vec![img(None, vec![attr("src", text("7"))], boxed(0, 0, 1, 1))],
        0,
        &mut images,
        8,
    );
    assert_eq!(
        commands,
        vec![
            DrawCommand::Select { target: RenderTarget::Top },
            DrawCommand::Image { image: ImageHandle::Sheet(4), x: 0, y: 0, z: 0, scale: 1000 },
        ]
    );
    assert!(images.pending().is_empty());
}

#[test]
fn qrcode_image_is_generated_while_drawing() {
    let mut images = ImageDataSet::new();
    let commands = frame(
        vec![img(
            None,
            vec![attr("src", text("https://example.org")), attr("media", text("qrcode"))],
            boxed(0, 0, 128000, 128000),
        )],
        1000,
        &mut images,
        8,
    );
    assert_eq!(
        commands,
        vec![
            DrawCommand::Select { target: RenderTarget::Top },
            DrawCommand::Image { image: ImageHandle::QrCode(0), x: 0, y: 0, z: 0, scale: 1000 },
            DrawCommand::Select { target: RenderTarget::TopRight },
            DrawCommand::Image { image: ImageHandle::QrCode(0), x: 0, y: 0, z: 0, scale: 1000 },
        ]
    );
    assert_eq!(images.qrcode_count(), 1);
    images.release_qrcode();
    assert_eq!(images.qrcode_count(), 1);
    images.release_qrcode();
    assert_eq!(images.qrcode_count(), 0);
}

#[test]
fn nodes_are_drawn_in_paint_order() {
    let nodes = vec![
        div(None, vec![attr("background-color", AttributeValue::Int(1))], boxed(0, 0, 10, 10)),
        div(Some(0), vec![attr("background-color", AttributeValue::Int(2))], boxed(1, 1, 10, 10)),
        div(Some(1), vec![attr("background-color", AttributeValue::Int(3))], boxed(1, 1, 10, 10)),
        div(Some(0), vec![attr("background-color", AttributeValue::Int(4))], boxed(5, 5, 10, 10)),
    ];
    let commands = frame(nodes, 0, &mut ImageDataSet::new(), 8);
    let rects: Vec<(i64, i64, u32)> = commands
        .iter()
        .filter_map(|c| match c {
            DrawCommand::Rect { x, y, color, .. } => Some((*x, *y, *color)),
            _ => None,
        })
        .collect();
    assert_eq!(rects, vec![(0, 0, 1), (1, 1, 2), (2, 2, 3), (5, 5, 4)]);
}

#[test]
fn placeholder_and_plain_nodes_draw_nothing() {
    let nodes = vec![
        node(None, NodeType::Placeholder, vec![], boxed(0, 0, 10, 10)),
        node(None, NodeType::Element(ElementTag::Other), vec![], boxed(0, 0, 10, 10)),
        div(None, vec![], boxed(0, 0, 10, 10)),
    ];
    assert_eq!(frame(nodes, 1000, &mut ImageDataSet::new(), 8), vec![]);
}

#[test]
fn empty_tree_draws_nothing() {
    assert_eq!(frame(vec![], 1000, &mut ImageDataSet::new(), 8), vec![]);
}

#[test]
fn screens_follow_the_style() {
    let mut style = RdomStyle::default();
    assert!(style.is_top());
    style.screen = Screen::Bottom;
    assert!(!style.is_top());
}

#[test]
fn screen_is_cleared_by_the_declaring_node_only() {
    let nodes = vec![
        div(None, vec![attr("bg_reset", text("main_bg"))], boxed(0, 0, 400000, 240000)),
        div(Some(0), vec![], boxed(0, 0, 100000, 100000)),
        div(Some(1), vec![attr("bg_reset", AttributeValue::Int(0))], boxed(0, 0, 1000, 1000)),
    ];
    let commands = frame(nodes, 0, &mut ImageDataSet::new(), 8);
    assert_eq!(
        commands,
        vec![
            DrawCommand::Clear { target: RenderTarget::Top, color: 0xff222222 },
            DrawCommand::Select { target: RenderTarget::Top },
        ]
    );
}

#[test]
fn inherited_background_fills_the_childs_box() {
    let nodes = vec![
        div(None, vec![attr("background-color", text("red"))], boxed(0, 0, 100000, 50000)),
        div(Some(0), vec![], boxed(10000, 5000, 20000, 10000)),
    ];
    let commands = frame(nodes, 0, &mut ImageDataSet::new(), 8);
    assert_eq!(
        commands,
        vec![
            DrawCommand::Select { target: RenderTarget::Top },
            DrawCommand::Rect { x: 0, y: 0, z: 0, width: 100000, height: 50000, color: 0xff0000ff },
            DrawCommand::Select { target: RenderTarget::Top },
            DrawCommand::Rect { x: 10000, y: 5000, z: 0, width: 20000, height: 10000, color: 0xff0000ff },
        ]
    );
}
