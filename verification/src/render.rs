//! The rendering and event-dispatch engine.
//!
//! [`render`] walks the node arena in paint order and produces the draw
//! commands of one frame. On the stereo-capable top screen, with the depth
//! slider up, everything a node draws is drawn twice: shifted one way for
//! the primary eye and the same distance the other way for the secondary.

use vstd::prelude::*;
use crate::render::image_data_set::{
    lookup_image,
    lookup_qrcode,
    qr_image,
    ImageDataSet,
    ImageHandle,
    ImageState,
    QrEcc,
    QRCODE_SIZE,
};
use crate::render::rdom::attribute::{attribute_value, find_attribute, Attribute, AttributeValue};
use crate::render::rdom::node_tree::{
    lemma_origin_bounds,
    origin_x,
    origin_y,
    ElementTag,
    Node,
    NodeTree,
    NodeType,
};
use crate::render::rdom::rdom_style::{declared_reset_color, RdomStyle, Screen};
use crate::render::rdom::taffy_layout::Layout;
use crate::text::str_eq;

pub mod image_data_set;
pub mod rdom;
pub mod revent;
pub mod scheduler;

verus! {

/// Position in the sprite sheet of the image shown where another cannot be.
pub const PLACEHOLDER_SPRITE: i64 = 4;

/// Where drawing goes.
#[derive(Clone, Copy, PartialEq, Eq, Structural, Debug)]
pub enum RenderTarget {
    /// The top screen, primary eye.
    Top,
    /// The top screen, secondary eye.
    TopRight,
    /// The bottom screen.
    Bottom,
}

/// One call to the drawing backend. Positions and sizes are in thousandths
/// of a pixel, from the top left corner of the selected target.
#[derive(Clone, Copy, PartialEq, Eq, Structural, Debug)]
pub enum DrawCommand {
    /// Clear a target to a colour.
    Clear { target: RenderTarget, color: u32 },
    /// Direct the following commands to a target.
    Select { target: RenderTarget },
    /// Fill a rectangle.
    Rect { x: i64, y: i64, z: i32, width: i32, height: i32, color: u32 },
    /// Draw the text of the node at the given position in the arena,
    /// wrapped at `max_width` if given.
    Text { node: usize, x: i64, y: i64, z: i32, scale: i32, color: u32, max_width: Option<i32> },
    /// Draw an image, scaled alike on both axes.
    Image { image: ImageHandle, x: i64, y: i64, z: i32, scale: i32 },
}

/// The distance by which a node is shifted for each eye, in thousandths:
/// the product of its stereo depth and the slider value, both in
/// thousandths, rounded towards zero.
pub open spec fn stereo_offset(depth: i32, slider: u16) -> int {
    if depth >= 0 {
        (depth * slider) / 1000
    } else {
        -((-depth * slider) / 1000)
    }
}

/// Whether a node is drawn for both eyes: it is on the top screen and the
/// slider is up.
pub open spec fn draws_stereo(style: RdomStyle, slider: u16) -> bool {
    style.screen == Screen::Top && slider != 0
}

/// Where a node is drawn for the primary eye, given where it would be
/// without stereo.
pub open spec fn primary_x(origin: int, style: RdomStyle, slider: u16) -> int {
    if draws_stereo(style, slider) {
        origin - stereo_offset(style.deep_3d, slider)
    } else {
        origin
    }
}

/// Where a node is drawn for the secondary eye.
pub open spec fn secondary_x(origin: int, style: RdomStyle, slider: u16) -> int {
    origin + stereo_offset(style.deep_3d, slider)
}

/// The target a node is drawn on first.
pub open spec fn main_target(style: RdomStyle) -> RenderTarget {
    if style.screen == Screen::Top {
        RenderTarget::Top
    } else {
        RenderTarget::Bottom
    }
}

/// The commands that clear the node's screen, if the node itself declares
/// a screen-clear colour: the primary target is cleared and selected, then
/// the secondary, if drawn.
pub open spec fn clear_commands(declared: Option<u32>, style: RdomStyle, slider: u16) -> Seq<
    DrawCommand,
> {
    match declared {
        Some(color) => {
            let first = seq![
                DrawCommand::Clear { target: main_target(style), color },
                DrawCommand::Select { target: main_target(style) },
            ];
            if draws_stereo(style, slider) {
                first + seq![
                    DrawCommand::Clear { target: RenderTarget::TopRight, color },
                    DrawCommand::Select { target: RenderTarget::TopRight },
                ]
            } else {
                first
            }
        },
        None => Seq::empty(),
    }
}

/// The commands that fill the node's box, if it has a background colour.
pub open spec fn background_commands(
    style: RdomStyle,
    geometry: Layout,
    x: int,
    y: int,
    slider: u16,
) -> Seq<DrawCommand> {
    match style.background_color {
        Some(color) => {
            let first = seq![
                DrawCommand::Select { target: main_target(style) },
                DrawCommand::Rect {
                    x: primary_x(x, style, slider) as i64,
                    y: y as i64,
                    z: style.z_index,
                    width: geometry.width,
                    height: geometry.height,
                    color,
                },
            ];
            if draws_stereo(style, slider) {
                first + seq![
                    DrawCommand::Select { target: RenderTarget::TopRight },
                    DrawCommand::Rect {
                        x: secondary_x(x, style, slider) as i64,
                        y: y as i64,
                        z: style.z_index,
                        width: geometry.width,
                        height: geometry.height,
                        color,
                    },
                ]
            } else {
                first
            }
        },
        None => Seq::empty(),
    }
}

/// The commands that draw a text node.
pub open spec fn text_commands(node: usize, style: RdomStyle, x: int, y: int, slider: u16) -> Seq<
    DrawCommand,
> {
    let first = seq![
        DrawCommand::Select { target: main_target(style) },
        DrawCommand::Text {
            node,
            x: primary_x(x, style, slider) as i64,
            y: y as i64,
            z: style.z_index,
            scale: style.scale,
            color: style.color,
            max_width: style.max_width,
        },
    ];
    if draws_stereo(style, slider) {
        first + seq![
            DrawCommand::Select { target: RenderTarget::TopRight },
            DrawCommand::Text {
                node,
                x: secondary_x(x, style, slider) as i64,
                y: y as i64,
                z: style.z_index,
                scale: style.scale,
                color: style.color,
                max_width: style.max_width,
            },
        ]
    } else {
        first
    }
}

/// The commands that draw an image, if there is one to draw.
pub open spec fn image_commands(
    image: Option<ImageHandle>,
    style: RdomStyle,
    x: int,
    y: int,
    slider: u16,
) -> Seq<DrawCommand> {
    match image {
        Some(image) => {
            let first = seq![
                DrawCommand::Select { target: main_target(style) },
                DrawCommand::Image {
                    image,
                    x: primary_x(x, style, slider) as i64,
                    y: y as i64,
                    z: style.z_index,
                    scale: style.scale,
                },
            ];
            if draws_stereo(style, slider) {
                first + seq![
                    DrawCommand::Select { target: RenderTarget::TopRight },
                    DrawCommand::Image {
                        image,
                        x: secondary_x(x, style, slider) as i64,
                        y: y as i64,
                        z: style.z_index,
                        scale: style.scale,
                    },
                ]
            } else {
                first
            }
        },
        None => Seq::empty(),
    }
}

/// The sprite at a position of a sheet of `sheet_count` sprites; none if
/// the position is outside the sheet.
pub open spec fn sheet_image(index: i64, sheet_count: usize) -> Option<ImageHandle> {
    if 0 <= index < sheet_count {
        Some(ImageHandle::Sheet(index as usize))
    } else {
        None
    }
}

/// The image an element's attributes name, and the cache after looking it
/// up. A whole-number `src` is a position in the sprite sheet. A text `src`
/// with a text `media` is a QR code of that text if `media` is `"qrcode"`,
/// and a title icon otherwise. Anything else names no image.
pub open spec fn named_image(attrs: Seq<Attribute>, s: ImageState, sheet_count: usize) -> (
    ImageState,
    Option<ImageHandle>,
) {
    match attribute_value(attrs, "src"@) {
        Some(AttributeValue::Int(index)) => (s, sheet_image(index, sheet_count)),
        Some(AttributeValue::Text(id)) => match attribute_value(attrs, "media"@) {
            Some(AttributeValue::Text(media)) => if media@ == "qrcode"@ {
                lookup_qrcode(s, id@, qr_image(id@, QrEcc::Low, QRCODE_SIZE as nat))
            } else {
                lookup_image(s, id@, media@)
            },
            _ => (s, None),
        },
        _ => (s, None),
    }
}

/// The image an image element shows: the one its attributes name, or the
/// placeholder sprite where that cannot be had.
pub open spec fn shown_image(attrs: Seq<Attribute>, s: ImageState, sheet_count: usize) -> (
    ImageState,
    Option<ImageHandle>,
) {
    let named = named_image(attrs, s, sheet_count);
    (
        named.0,
        match named.1 {
            Some(image) => Some(image),
            None => sheet_image(PLACEHOLDER_SPRITE, sheet_count),
        },
    )
}

/// What one node draws at a given origin, and the cache afterwards: the
/// screen clear if the node declares one, the background if one is
/// resolved for it, then the text or the image.
pub open spec fn node_commands(
    node: Node,
    index: usize,
    x: int,
    y: int,
    slider: u16,
    s: ImageState,
    sheet_count: usize,
) -> (ImageState, Seq<DrawCommand>) {
    let before = clear_commands(declared_reset_color(node.attributes@), node.style, slider)
        + background_commands(
        node.style,
        node.geometry,
        x,
        y,
        slider,
    );
    match node.node_type {
        NodeType::Text(_) => (s, before + text_commands(index, node.style, x, y, slider)),
        NodeType::Element(ElementTag::Img) => {
            let shown = shown_image(node.attributes@, s, sheet_count);
            (shown.0, before + image_commands(shown.1, node.style, x, y, slider))
        },
        _ => (s, before),
    }
}

/// What the first `n` nodes draw, in paint order, and the cache afterwards.
pub open spec fn render_prefix(
    nodes: Seq<Node>,
    n: nat,
    slider: u16,
    s: ImageState,
    sheet_count: usize,
) -> (ImageState, Seq<DrawCommand>)
    decreases n,
{
    if n == 0 {
        (s, Seq::empty())
    } else {
        let i = (n - 1) as nat;
        let earlier = render_prefix(nodes, i, slider, s, sheet_count);
        let this = node_commands(
            nodes[i as int],
            i as usize,
            origin_x(nodes, i as int),
            origin_y(nodes, i as int),
            slider,
            earlier.0,
            sheet_count,
        );
        (this.0, earlier.1 + this.1)
    }
}

/// The draw commands of one frame and the cache afterwards: every node in
/// paint order, each at the origin its ancestors' boxes give it.
pub open spec fn render_spec(nodes: Seq<Node>, slider: u16, s: ImageState, sheet_count: usize) -> (
    ImageState,
    Seq<DrawCommand>,
) {
    render_prefix(nodes, nodes.len(), slider, s, sheet_count)
}

/// Computes the stereo shift of a node.
pub fn stereo_shift(depth: i32, slider: u16) -> (offset: i64)
    ensures
        offset == stereo_offset(depth, slider),
        -0x8000_0000_0000 <= offset <= 0x8000_0000_0000,
{
    let magnitude: u64 = if depth >= 0 {
        depth as u64
    } else {
        (-(depth as i64)) as u64
    };
    assert(magnitude * slider <= 0x8000_0000 * 0x1_0000) by (nonlinear_arith)
        requires
            magnitude <= 0x8000_0000,
            slider <= 0x1_0000,
    ;
    let product: u64 = magnitude * (slider as u64);
    let quotient: i64 = (product / 1000) as i64;
    if depth >= 0 {
        quotient
    } else {
        -quotient
    }
}

fn target_of(style: &RdomStyle) -> (target: RenderTarget)
    ensures
        target == main_target(*style),
{
    if style.is_top() {
        RenderTarget::Top
    } else {
        RenderTarget::Bottom
    }
}

fn sprite(index: i64, sheet_count: usize) -> (image: Option<ImageHandle>)
    ensures
        image == sheet_image(index, sheet_count),
{
    if index >= 0 && (index as u64) < (sheet_count as u64) {
        Some(ImageHandle::Sheet(index as usize))
    } else {
        None
    }
}

fn resolve_image(attributes: &Vec<Attribute>, images: &mut ImageDataSet, sheet_count: usize) -> (image:
    Option<ImageHandle>)
    ensures
        (final(images)@, image) == shown_image(attributes@, old(images)@, sheet_count),
{
    let named = match find_attribute(attributes, "src") {
        Some(AttributeValue::Int(index)) => sprite(*index, sheet_count),
        Some(AttributeValue::Text(id)) => match find_attribute(attributes, "media") {
            Some(AttributeValue::Text(media)) => {
                if str_eq(media.as_str(), "qrcode") {
                    images.get_qrcode(id.as_str())
                } else {
                    images.get_image(id.as_str(), media.as_str())
                }
            },
            _ => None,
        },
        _ => None,
    };
    match named {
        Some(image) => Some(image),
        None => sprite(PLACEHOLDER_SPRITE, sheet_count),
    }
}

fn push_clear(
    declared: Option<u32>,
    style: &RdomStyle,
    slider: u16,
    commands: &mut Vec<DrawCommand>,
)
    ensures
        final(commands)@ == old(commands)@ + clear_commands(declared, *style, slider),
{
    let stereo = style.is_top() && slider != 0;
    let target = target_of(style);
    match declared {
        Some(color) => {
            commands.push(DrawCommand::Clear { target, color });
            commands.push(DrawCommand::Select { target });
            if stereo {
                commands.push(DrawCommand::Clear { target: RenderTarget::TopRight, color });
                commands.push(DrawCommand::Select { target: RenderTarget::TopRight });
            }
        },
        None => {},
    }
    assert(commands@ =~= old(commands)@ + clear_commands(declared, *style, slider));
}

fn push_background(
    style: &RdomStyle,
    geometry: &Layout,
    x: i64,
    y: i64,
    slider: u16,
    commands: &mut Vec<DrawCommand>,
)
    requires
        -0x10_0000_0000_0000 <= x <= 0x10_0000_0000_0000,
    ensures
        final(commands)@ == old(commands)@ + background_commands(
            *style,
            *geometry,
            x as int,
            y as int,
            slider,
        ),
{
    let stereo = style.is_top() && slider != 0;
    let shift = stereo_shift(style.deep_3d, slider);
    let target = target_of(style);
    match style.background_color {
        Some(color) => {
            commands.push(DrawCommand::Select { target });
            commands.push(
                DrawCommand::Rect {
                    x: if stereo {
                        x - shift
                    } else {
                        x
                    },
                    y,
                    z: style.z_index,
                    width: geometry.width,
                    height: geometry.height,
                    color,
                },
            );
            if stereo {
                commands.push(DrawCommand::Select { target: RenderTarget::TopRight });
                commands.push(
                    DrawCommand::Rect {
                        x: x + shift,
                        y,
                        z: style.z_index,
                        width: geometry.width,
                        height: geometry.height,
                        color,
                    },
                );
            }
        },
        None => {},
    }
    assert(commands@ =~= old(commands)@ + background_commands(
        *style,
        *geometry,
        x as int,
        y as int,
        slider,
    ));
}

fn push_text(
    index: usize,
    style: &RdomStyle,
    x: i64,
    y: i64,
    slider: u16,
    commands: &mut Vec<DrawCommand>,
)
    requires
        -0x10_0000_0000_0000 <= x <= 0x10_0000_0000_0000,
    ensures
        final(commands)@ == old(commands)@ + text_commands(
            index,
            *style,
            x as int,
            y as int,
            slider,
        ),
{
    let stereo = style.is_top() && slider != 0;
    let shift = stereo_shift(style.deep_3d, slider);
    let target = target_of(style);
    commands.push(DrawCommand::Select { target });
    commands.push(
        DrawCommand::Text {
            node: index,
            x: if stereo {
                x - shift
            } else {
                x
            },
            y,
            z: style.z_index,
            scale: style.scale,
            color: style.color,
            max_width: style.max_width,
        },
    );
    if stereo {
        commands.push(DrawCommand::Select { target: RenderTarget::TopRight });
        commands.push(
            DrawCommand::Text {
                node: index,
                x: x + shift,
                y,
                z: style.z_index,
                scale: style.scale,
                color: style.color,
                max_width: style.max_width,
            },
        );
    }
    assert(commands@ =~= old(commands)@ + text_commands(index, *style, x as int, y as int, slider));
}

fn push_image(
    shown: Option<ImageHandle>,
    style: &RdomStyle,
    x: i64,
    y: i64,
    slider: u16,
    commands: &mut Vec<DrawCommand>,
)
    requires
        -0x10_0000_0000_0000 <= x <= 0x10_0000_0000_0000,
    ensures
        final(commands)@ == old(commands)@ + image_commands(
            shown,
            *style,
            x as int,
            y as int,
            slider,
        ),
{
    let stereo = style.is_top() && slider != 0;
    let shift = stereo_shift(style.deep_3d, slider);
    let target = target_of(style);
    match shown {
        Some(image) => {
            commands.push(DrawCommand::Select { target });
            commands.push(
                DrawCommand::Image {
                    image,
                    x: if stereo {
                        x - shift
                    } else {
                        x
                    },
                    y,
                    z: style.z_index,
                    scale: style.scale,
                },
            );
            if stereo {
                commands.push(DrawCommand::Select { target: RenderTarget::TopRight });
                commands.push(
                    DrawCommand::Image {
                        image,
                        x: x + shift,
                        y,
                        z: style.z_index,
                        scale: style.scale,
                    },
                );
            }
        },
        None => {},
    }
    assert(commands@ =~= old(commands)@ + image_commands(shown, *style, x as int, y as int, slider));
}

fn render_node(
    node: &Node,
    index: usize,
    x: i64,
    y: i64,
    slider: u16,
    images: &mut ImageDataSet,
    sheet_count: usize,
    commands: &mut Vec<DrawCommand>,
)
    requires
        -0x10_0000_0000_0000 <= x <= 0x10_0000_0000_0000,
    ensures
        final(images)@ == node_commands(
            *node,
            index,
            x as int,
            y as int,
            slider,
            old(images)@,
            sheet_count,
        ).0,
        final(commands)@ == old(commands)@ + node_commands(
            *node,
            index,
            x as int,
            y as int,
            slider,
            old(images)@,
            sheet_count,
        ).1,
{
    let ghost start = commands@;
    let declared = RdomStyle::declared_reset(&node.attributes);
    let ghost clear = clear_commands(declared, node.style, slider);
    let ghost fill = background_commands(node.style, node.geometry, x as int, y as int, slider);
    push_clear(declared, &node.style, slider, commands);
    push_background(&node.style, &node.geometry, x, y, slider, commands);
    assert(commands@ =~= start + (clear + fill));
    match &node.node_type {
        NodeType::Text(_) => {
            push_text(index, &node.style, x, y, slider, commands);
            assert(commands@ =~= start + ((clear + fill) + text_commands(
                index,
                node.style,
                x as int,
                y as int,
                slider,
            )));
        },
        NodeType::Element(ElementTag::Img) => {
            let shown = resolve_image(&node.attributes, images, sheet_count);
            push_image(shown, &node.style, x, y, slider, commands);
            assert(commands@ =~= start + ((clear + fill) + image_commands(
                shown,
                node.style,
                x as int,
                y as int,
                slider,
            )));
        },
        _ => {},
    }
}

/// Draws the tree: walks the nodes in paint order and returns the draw
/// commands of the frame. Images that nodes ask for are resolved through
/// the cache, which queues the icons it does not hold yet.
pub fn render(tree: &NodeTree, current_3d: u16, images: &mut ImageDataSet, sheet_count: usize) -> (commands:
    Vec<DrawCommand>)
    requires
        tree.wf(),
    ensures
        (final(images)@, commands@) == render_spec(tree@, current_3d, old(images)@, sheet_count),
{
    let origins = tree.origins();
    let mut commands: Vec<DrawCommand> = Vec::new();
    let len = tree.len();
    let mut i: usize = 0;
    while i < len
        invariant
            i <= len,
            len == tree@.len(),
            tree.wf(),
            origins@.len() == len,
            forall|j: int|
                0 <= j < len ==> #[trigger] origins@[j] == (
                    origin_x(tree@, j) as i64,
                    origin_y(tree@, j) as i64,
                ) && i64::MIN <= origin_x(tree@, j) <= i64::MAX && i64::MIN <= origin_y(tree@, j)
                    <= i64::MAX,
            (images@, commands@) == render_prefix(
                tree@,
                i as nat,
                current_3d,
                old(images)@,
                sheet_count,
            ),
        decreases len - i,
    {
        let node = tree.get(i).unwrap();
        let (x, y) = origins[i];
        proof {
            lemma_origin_bounds(tree@, i as int);
            assert((i + 1) * 0x8000_0000 <= 0x10_0000 * 0x8000_0000) by (nonlinear_arith)
                requires
                    i + 1 <= 0x10_0000,
            ;
        }
        render_node(node, i, x, y, current_3d, images, sheet_count, &mut commands);
        i += 1;
    }
    commands
}

/// Stereo symmetry. A node drawn for both eyes stands, for the primary eye,
/// as far to one side of its place without stereo as it stands to the other
/// side for the secondary eye. That distance is the product of depth and
/// slider value (both in thousandths) rounded towards zero, so it is exact
/// whenever the product is a whole number of thousandths, and it changes
/// sign with the depth.
pub proof fn lemma_stereo_symmetry(origin: int, style: RdomStyle, slider: u16)
    requires
        draws_stereo(style, slider),
    ensures
        primary_x(origin, style, slider) - origin == -stereo_offset(style.deep_3d, slider),
        secondary_x(origin, style, slider) - origin == stereo_offset(style.deep_3d, slider),
        (style.deep_3d * slider) % 1000 == 0 ==> stereo_offset(style.deep_3d, slider) * 1000
            == style.deep_3d * slider,
        -1000 < stereo_offset(style.deep_3d, slider) * 1000 - style.deep_3d * slider < 1000,
        style.deep_3d > i32::MIN ==> stereo_offset((-style.deep_3d) as i32, slider)
            == -stereo_offset(style.deep_3d, slider),
{
    let d = style.deep_3d as int;
    let s = slider as int;
    assert((-(-d)) * s == d * s);
    if d >= 0 {
        assert(0 <= d * s) by (nonlinear_arith)
            requires
                d >= 0,
                s >= 0,
        ;
        assert(d == 0 ==> d * s == 0 && (-d) * s == 0) by (nonlinear_arith);
        lemma_division(d * s);
    } else {
        assert(0 <= (-d) * s && (-d) * s == -(d * s)) by (nonlinear_arith)
            requires
                d < 0,
                s >= 0,
        ;
        lemma_division((-d) * s);
    }
}

/// Whether a draw command is directed at a target, if it names one.
pub open spec fn names_target(command: DrawCommand, target: RenderTarget) -> bool {
    match command {
        DrawCommand::Clear { target: t, .. } => t == target,
        DrawCommand::Select { target: t } => t == target,
        _ => false,
    }
}

/// Stereo is for the top screen alone. What a node draws never names a
/// target of the other screen, and names the secondary eye's target only
/// if the node is drawn for both eyes.
pub proof fn lemma_targets(
    node: Node,
    index: usize,
    x: int,
    y: int,
    slider: u16,
    s: ImageState,
    sheet_count: usize,
    k: int,
)
    requires
        0 <= k < node_commands(node, index, x, y, slider, s, sheet_count).1.len(),
    ensures
        ({
            let command = node_commands(node, index, x, y, slider, s, sheet_count).1[k];
            &&& node.style.screen == Screen::Top ==> !names_target(command, RenderTarget::Bottom)
            &&& node.style.screen == Screen::Bottom ==> !names_target(command, RenderTarget::Top)
            &&& !draws_stereo(node.style, slider) ==> !names_target(
                command,
                RenderTarget::TopRight,
            )
        }),
{
    let clear = clear_commands(declared_reset_color(node.attributes@), node.style, slider);
    let fill = background_commands(node.style, node.geometry, x, y, slider);
    let text = text_commands(index, node.style, x, y, slider);
    let shown = shown_image(node.attributes@, s, sheet_count);
    let image = image_commands(shown.1, node.style, x, y, slider);
    let all = node_commands(node, index, x, y, slider, s, sheet_count).1;
    assert(all == clear + fill || all == clear + fill + text || all == clear + fill + image);
    if k < clear.len() {
        assert(all[k] == clear[k]);
    } else if k < clear.len() + fill.len() {
        assert(all[k] == fill[k - clear.len()]);
    } else if all == clear + fill + text {
        assert(all[k] == text[k - clear.len() - fill.len()]);
    } else {
        assert(all[k] == image[k - clear.len() - fill.len()]);
    }
}

proof fn lemma_division(p: int)
    requires
        p >= 0,
    ensures
        0 <= p - (p / 1000) * 1000 < 1000,
        p % 1000 == 0 ==> (p / 1000) * 1000 == p,
        (-p) % 1000 == 0 ==> p % 1000 == 0,
{
    assert(p == (p / 1000) * 1000 + p % 1000 && 0 <= p % 1000 < 1000) by (nonlinear_arith);
    if (-p) % 1000 == 0 {
        assert(-p == ((-p) / 1000) * 1000) by (nonlinear_arith)
            requires
                (-p) % 1000 == 0,
        ;
        assert(p % 1000 == 0) by (nonlinear_arith)
            requires
                p == (-((-p) / 1000)) * 1000,
        ;
    }
}

} // verus!
