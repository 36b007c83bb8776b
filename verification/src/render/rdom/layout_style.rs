//! The layout vocabulary: the box and flex properties a node can set, and
//! how attribute values are read into them.

use vstd::prelude::*;
use crate::constant::SCALAR_UNIT;
use crate::text::str_eq;
use super::attribute::{Attribute, AttributeValue};

verus! {

/// How a node lays out its children.
#[derive(Clone, Copy, PartialEq, Eq, Structural, Debug)]
pub enum Display {
    /// Children stack as blocks.
    Block,
    /// Children are flex items.
    Flex,
}

/// What happens to content that leaves the node's box.
#[derive(Clone, Copy, PartialEq, Eq, Structural, Debug)]
pub enum Overflow {
    /// Content may leave the box and counts towards the parent's size.
    Visible,
    /// Content is cut at the box.
    Hidden,
}

/// Whether a node takes part in the flow of its siblings.
#[derive(Clone, Copy, PartialEq, Eq, Structural, Debug)]
pub enum Position {
    /// Laid out in flow, then shifted by the inset.
    Relative,
    /// Taken out of flow and placed by the inset.
    Absolute,
}

/// The main axis of a flex container.
#[derive(Clone, Copy, PartialEq, Eq, Structural, Debug)]
pub enum FlexDirection {
    /// Left to right.
    Row,
    /// Top to bottom.
    Column,
    /// Right to left.
    RowReverse,
    /// Bottom to top.
    ColumnReverse,
}

/// Whether flex items may wrap onto further lines.
#[derive(Clone, Copy, PartialEq, Eq, Structural, Debug)]
pub enum FlexWrap {
    /// One line.
    NoWrap,
    /// Wrap onto lines below.
    Wrap,
    /// Wrap onto lines above.
    WrapReverse,
}

/// Alignment of items on the cross axis.
#[derive(Clone, Copy, PartialEq, Eq, Structural, Debug)]
pub enum AlignItems {
    /// Along the text baseline.
    Baseline,
    /// Centred.
    Center,
    /// At the end of the axis.
    FlexEnd,
    /// At the start of the axis.
    FlexStart,
    /// Stretched to fill.
    Stretch,
}

/// Distribution of lines or items along an axis.
#[derive(Clone, Copy, PartialEq, Eq, Structural, Debug)]
pub enum AlignContent {
    /// Centred.
    Center,
    /// Packed at the end.
    FlexEnd,
    /// Packed at the start.
    FlexStart,
    /// Equal space around each.
    SpaceAround,
    /// Equal space between neighbours.
    SpaceBetween,
    /// Stretched to fill.
    Stretch,
}

/// Four lengths, one per side, in thousandths.
#[derive(Clone, Copy, PartialEq, Eq, Structural, Debug)]
pub struct Edges {
    /// Left side.
    pub left: i32,
    /// Right side.
    pub right: i32,
    /// Top side.
    pub top: i32,
    /// Bottom side.
    pub bottom: i32,
}

/// Four optional offsets, one per side, in thousandths; `None` is automatic.
#[derive(Clone, Copy, PartialEq, Eq, Structural, Debug)]
pub struct Inset {
    /// From the left.
    pub left: Option<i32>,
    /// From the right.
    pub right: Option<i32>,
    /// From the top.
    pub top: Option<i32>,
    /// From the bottom.
    pub bottom: Option<i32>,
}

/// The layout properties of one node, as handed to the flex solver.
/// Lengths are in thousandths; `None` stands for an automatic length.
#[derive(Clone, Copy, PartialEq, Eq, Structural, Debug)]
pub struct LayoutStyle {
    /// Layout mode of the children.
    pub display: Display,
    /// Overflow on both axes.
    pub overflow: Overflow,
    /// In flow or out of flow.
    pub position: Position,
    /// Offsets from the containing box.
    pub inset: Inset,
    /// Width of the box.
    pub width: Option<i32>,
    /// Height of the box.
    pub height: Option<i32>,
    /// Outer spacing.
    pub margin: Edges,
    /// Inner spacing.
    pub padding: Edges,
    /// Border widths.
    pub border: Edges,
    /// Cross-axis alignment of the children.
    pub align_items: Option<AlignItems>,
    /// Cross-axis alignment of this node within its parent.
    pub align_self: Option<AlignItems>,
    /// Distribution of lines on the cross axis.
    pub align_content: Option<AlignContent>,
    /// Distribution of items on the main axis.
    pub justify_content: Option<AlignContent>,
    /// Space between items, on both axes.
    pub gap: i32,
    /// Main axis.
    pub flex_direction: FlexDirection,
    /// Line wrapping.
    pub flex_wrap: FlexWrap,
    /// Initial main size.
    pub flex_basis: Option<i32>,
    /// Share of free space taken.
    pub flex_grow: i32,
    /// Share of overflow given up.
    pub flex_shrink: i32,
}

/// The layout attributes the engine recognises.
#[derive(Clone, Copy, PartialEq, Eq, Structural, Debug)]
pub enum LayoutAttribute {
    /// `align-content`
    AlignContent,
    /// `align-items`
    AlignItems,
    /// `align-self`
    AlignSelf,
    /// `border-bottom-width`
    BorderBottomWidth,
    /// `border-left-width`
    BorderLeftWidth,
    /// `border-right-width`
    BorderRightWidth,
    /// `border-top-width`
    BorderTopWidth,
    /// `bottom`
    Bottom,
    /// `display`
    Display,
    /// `flex`
    Flex,
    /// `flex-basis`
    FlexBasis,
    /// `flex-direction`
    FlexDirection,
    /// `flex-grow`
    FlexGrow,
    /// `flex-shrink`
    FlexShrink,
    /// `flex-wrap`
    FlexWrap,
    /// `gap`
    Gap,
    /// `height`
    Height,
    /// `justify-content`
    JustifyContent,
    /// `left`
    Left,
    /// `margin`
    Margin,
    /// `margin-bottom`
    MarginBottom,
    /// `margin-left`
    MarginLeft,
    /// `margin-right`
    MarginRight,
    /// `margin-top`
    MarginTop,
    /// `padding`
    Padding,
    /// `padding-bottom`
    PaddingBottom,
    /// `padding-left`
    PaddingLeft,
    /// `padding-right`
    PaddingRight,
    /// `padding-top`
    PaddingTop,
    /// `position`
    Position,
    /// `right`
    Right,
    /// `top`
    Top,
    /// `width`
    Width,
}

/// The recognised layout attribute that a name denotes, if any.
pub open spec fn layout_attribute_of(name: Seq<char>) -> Option<LayoutAttribute> {
    if name == "align-content"@ {
        Some(LayoutAttribute::AlignContent)
    } else if name == "align-items"@ {
        Some(LayoutAttribute::AlignItems)
    } else if name == "align-self"@ {
        Some(LayoutAttribute::AlignSelf)
    } else if name == "border-bottom-width"@ {
        Some(LayoutAttribute::BorderBottomWidth)
    } else if name == "border-left-width"@ {
        Some(LayoutAttribute::BorderLeftWidth)
    } else if name == "border-right-width"@ {
        Some(LayoutAttribute::BorderRightWidth)
    } else if name == "border-top-width"@ {
        Some(LayoutAttribute::BorderTopWidth)
    } else if name == "bottom"@ {
        Some(LayoutAttribute::Bottom)
    } else if name == "display"@ {
        Some(LayoutAttribute::Display)
    } else if name == "flex"@ {
        Some(LayoutAttribute::Flex)
    } else if name == "flex-basis"@ {
        Some(LayoutAttribute::FlexBasis)
    } else if name == "flex-direction"@ {
        Some(LayoutAttribute::FlexDirection)
    } else if name == "flex-grow"@ {
        Some(LayoutAttribute::FlexGrow)
    } else if name == "flex-shrink"@ {
        Some(LayoutAttribute::FlexShrink)
    } else if name == "flex-wrap"@ {
        Some(LayoutAttribute::FlexWrap)
    } else if name == "gap"@ {
        Some(LayoutAttribute::Gap)
    } else if name == "height"@ {
        Some(LayoutAttribute::Height)
    } else if name == "justify-content"@ {
        Some(LayoutAttribute::JustifyContent)
    } else if name == "left"@ {
        Some(LayoutAttribute::Left)
    } else if name == "margin"@ {
        Some(LayoutAttribute::Margin)
    } else if name == "margin-bottom"@ {
        Some(LayoutAttribute::MarginBottom)
    } else if name == "margin-left"@ {
        Some(LayoutAttribute::MarginLeft)
    } else if name == "margin-right"@ {
        Some(LayoutAttribute::MarginRight)
    } else if name == "margin-top"@ {
        Some(LayoutAttribute::MarginTop)
    } else if name == "padding"@ {
        Some(LayoutAttribute::Padding)
    } else if name == "padding-bottom"@ {
        Some(LayoutAttribute::PaddingBottom)
    } else if name == "padding-left"@ {
        Some(LayoutAttribute::PaddingLeft)
    } else if name == "padding-right"@ {
        Some(LayoutAttribute::PaddingRight)
    } else if name == "padding-top"@ {
        Some(LayoutAttribute::PaddingTop)
    } else if name == "position"@ {
        Some(LayoutAttribute::Position)
    } else if name == "right"@ {
        Some(LayoutAttribute::Right)
    } else if name == "top"@ {
        Some(LayoutAttribute::Top)
    } else if name == "width"@ {
        Some(LayoutAttribute::Width)
    } else {
        None
    }
}

/// Classifies an attribute name; names outside the layout vocabulary give
/// `None` and are ignored by the engine.
pub fn layout_attribute(name: &str) -> (kind: Option<LayoutAttribute>)
    ensures
        kind == layout_attribute_of(name@),
{
    if str_eq(name, "align-content") {
        Some(LayoutAttribute::AlignContent)
    } else if str_eq(name, "align-items") {
        Some(LayoutAttribute::AlignItems)
    } else if str_eq(name, "align-self") {
        Some(LayoutAttribute::AlignSelf)
    } else if str_eq(name, "border-bottom-width") {
        Some(LayoutAttribute::BorderBottomWidth)
    } else if str_eq(name, "border-left-width") {
        Some(LayoutAttribute::BorderLeftWidth)
    } else if str_eq(name, "border-right-width") {
        Some(LayoutAttribute::BorderRightWidth)
    } else if str_eq(name, "border-top-width") {
        Some(LayoutAttribute::BorderTopWidth)
    } else if str_eq(name, "bottom") {
        Some(LayoutAttribute::Bottom)
    } else if str_eq(name, "display") {
        Some(LayoutAttribute::Display)
    } else if str_eq(name, "flex") {
        Some(LayoutAttribute::Flex)
    } else if str_eq(name, "flex-basis") {
        Some(LayoutAttribute::FlexBasis)
    } else if str_eq(name, "flex-direction") {
        Some(LayoutAttribute::FlexDirection)
    } else if str_eq(name, "flex-grow") {
        Some(LayoutAttribute::FlexGrow)
    } else if str_eq(name, "flex-shrink") {
        Some(LayoutAttribute::FlexShrink)
    } else if str_eq(name, "flex-wrap") {
        Some(LayoutAttribute::FlexWrap)
    } else if str_eq(name, "gap") {
        Some(LayoutAttribute::Gap)
    } else if str_eq(name, "height") {
        Some(LayoutAttribute::Height)
    } else if str_eq(name, "justify-content") {
        Some(LayoutAttribute::JustifyContent)
    } else if str_eq(name, "left") {
        Some(LayoutAttribute::Left)
    } else if str_eq(name, "margin") {
        Some(LayoutAttribute::Margin)
    } else if str_eq(name, "margin-bottom") {
        Some(LayoutAttribute::MarginBottom)
    } else if str_eq(name, "margin-left") {
        Some(LayoutAttribute::MarginLeft)
    } else if str_eq(name, "margin-right") {
        Some(LayoutAttribute::MarginRight)
    } else if str_eq(name, "margin-top") {
        Some(LayoutAttribute::MarginTop)
    } else if str_eq(name, "padding") {
        Some(LayoutAttribute::Padding)
    } else if str_eq(name, "padding-bottom") {
        Some(LayoutAttribute::PaddingBottom)
    } else if str_eq(name, "padding-left") {
        Some(LayoutAttribute::PaddingLeft)
    } else if str_eq(name, "padding-right") {
        Some(LayoutAttribute::PaddingRight)
    } else if str_eq(name, "padding-top") {
        Some(LayoutAttribute::PaddingTop)
    } else if str_eq(name, "position") {
        Some(LayoutAttribute::Position)
    } else if str_eq(name, "right") {
        Some(LayoutAttribute::Right)
    } else if str_eq(name, "top") {
        Some(LayoutAttribute::Top)
    } else if str_eq(name, "width") {
        Some(LayoutAttribute::Width)
    } else {
        None
    }
}

/// Four equal edges.
pub open spec fn edges_all(v: i32) -> Edges {
    Edges { left: v, right: v, top: v, bottom: v }
}

/// The style every solver node has until told otherwise: a flex container
/// with visible overflow, automatic size and inset, no spacing.
pub open spec fn solver_default_style() -> LayoutStyle {
    LayoutStyle {
        display: Display::Flex,
        overflow: Overflow::Visible,
        position: Position::Relative,
        inset: Inset { left: None, right: None, top: None, bottom: None },
        width: None,
        height: None,
        margin: edges_all(0),
        padding: edges_all(0),
        border: edges_all(0),
        align_items: None,
        align_self: None,
        align_content: None,
        justify_content: None,
        gap: 0,
        flex_direction: FlexDirection::Row,
        flex_wrap: FlexWrap::NoWrap,
        flex_basis: None,
        flex_grow: 0,
        flex_shrink: SCALAR_UNIT,
    }
}

/// The style a container starts from before its attributes are read: a
/// block that hides its overflow.
pub open spec fn container_base_style() -> LayoutStyle {
    LayoutStyle {
        display: Display::Block,
        overflow: Overflow::Hidden,
        ..solver_default_style()
    }
}

/// The style of a text leaf: the solver default with a fixed size.
pub open spec fn text_leaf_style(width: i32, height: i32) -> LayoutStyle {
    LayoutStyle { width: Some(width), height: Some(height), ..solver_default_style() }
}

/// The `align-content` keyword a text denotes.
pub open spec fn align_content_of(text: Seq<char>) -> Option<AlignContent> {
    if text == "center"@ {
        Some(AlignContent::Center)
    } else if text == "flex-end"@ {
        Some(AlignContent::FlexEnd)
    } else if text == "flex-start"@ {
        Some(AlignContent::FlexStart)
    } else if text == "space-around"@ {
        Some(AlignContent::SpaceAround)
    } else if text == "space-between"@ {
        Some(AlignContent::SpaceBetween)
    } else if text == "stretch"@ {
        Some(AlignContent::Stretch)
    } else {
        None
    }
}

/// The `align-items` or `align-self` keyword a text denotes.
pub open spec fn align_items_of(text: Seq<char>) -> Option<AlignItems> {
    if text == "baseline"@ {
        Some(AlignItems::Baseline)
    } else if text == "center"@ {
        Some(AlignItems::Center)
    } else if text == "flex-end"@ {
        Some(AlignItems::FlexEnd)
    } else if text == "flex-start"@ {
        Some(AlignItems::FlexStart)
    } else if text == "stretch"@ {
        Some(AlignItems::Stretch)
    } else {
        None
    }
}

/// The `justify-content` keyword a text denotes.
pub open spec fn justify_content_of(text: Seq<char>) -> Option<AlignContent> {
    if text == "center"@ {
        Some(AlignContent::Center)
    } else if text == "flex-end"@ {
        Some(AlignContent::FlexEnd)
    } else if text == "flex-start"@ {
        Some(AlignContent::FlexStart)
    } else if text == "space-around"@ {
        Some(AlignContent::SpaceAround)
    } else if text == "space-between"@ {
        Some(AlignContent::SpaceBetween)
    } else {
        None
    }
}

/// The `display` keyword a text denotes; anything unknown is a block.
pub open spec fn display_of(text: Seq<char>) -> Display {
    if text == "flex"@ {
        Display::Flex
    } else {
        Display::Block
    }
}

/// The `flex-direction` keyword a text denotes; anything unknown is a row.
pub open spec fn flex_direction_of(text: Seq<char>) -> FlexDirection {
    if text == "column"@ {
        FlexDirection::Column
    } else if text == "column-reverse"@ {
        FlexDirection::ColumnReverse
    } else if text == "row-reverse"@ {
        FlexDirection::RowReverse
    } else {
        FlexDirection::Row
    }
}

/// The `flex-wrap` keyword a text denotes; anything unknown is no wrap.
pub open spec fn flex_wrap_of(text: Seq<char>) -> FlexWrap {
    if text == "wrap"@ {
        FlexWrap::Wrap
    } else if text == "wrap-reverse"@ {
        FlexWrap::WrapReverse
    } else {
        FlexWrap::NoWrap
    }
}

/// The `position` keyword a text denotes; anything unknown is relative.
pub open spec fn position_of(text: Seq<char>) -> Position {
    if text == "absolute"@ {
        Position::Absolute
    } else {
        Position::Relative
    }
}

/// The text of a value, or the empty text if it is not a string.
pub open spec fn value_text(value: AttributeValue) -> Seq<char> {
    match value.text() {
        Some(t) => t,
        None => Seq::empty(),
    }
}

/// The number of a value in thousandths, or `fallback` if it is not numeric.
pub open spec fn value_number(value: AttributeValue, fallback: i32) -> i32 {
    match value.scalar() {
        Some(v) => v as i32,
        None => fallback,
    }
}

/// The effect of one recognised attribute on a layout style.
pub open spec fn apply_layout(style: LayoutStyle, kind: LayoutAttribute, value: AttributeValue) -> LayoutStyle {
    let text = value_text(value);
    let number = value_number(value, 0);
    match kind {
        LayoutAttribute::AlignContent => match align_content_of(text) {
            Some(a) => LayoutStyle { align_content: Some(a), ..style },
            None => style,
        },
        LayoutAttribute::AlignItems => match align_items_of(text) {
            Some(a) => LayoutStyle { align_items: Some(a), ..style },
            None => style,
        },
        LayoutAttribute::AlignSelf => match align_items_of(text) {
            Some(a) => LayoutStyle { align_self: Some(a), ..style },
            None => style,
        },
        LayoutAttribute::BorderBottomWidth => LayoutStyle {
            border: Edges { bottom: number, ..style.border },
            ..style
        },
        LayoutAttribute::BorderLeftWidth => LayoutStyle {
            border: Edges { left: number, ..style.border },
            ..style
        },
        LayoutAttribute::BorderRightWidth => LayoutStyle {
            border: Edges { right: number, ..style.border },
            ..style
        },
        LayoutAttribute::BorderTopWidth => LayoutStyle {
            border: Edges { top: number, ..style.border },
            ..style
        },
        LayoutAttribute::Bottom => LayoutStyle {
            inset: Inset { bottom: Some(number), ..style.inset },
            ..style
        },
        LayoutAttribute::Display => LayoutStyle { display: display_of(text), ..style },
        LayoutAttribute::Flex => LayoutStyle {
            flex_grow: number,
            flex_shrink: SCALAR_UNIT,
            flex_basis: Some(number),
            ..style
        },
        LayoutAttribute::FlexBasis => LayoutStyle { flex_basis: Some(number), ..style },
        LayoutAttribute::FlexDirection => LayoutStyle {
            flex_direction: flex_direction_of(text),
            ..style
        },
        LayoutAttribute::FlexGrow => LayoutStyle { flex_grow: number, ..style },
        LayoutAttribute::FlexShrink => LayoutStyle {
            flex_shrink: value_number(value, SCALAR_UNIT),
            ..style
        },
        LayoutAttribute::FlexWrap => LayoutStyle { flex_wrap: flex_wrap_of(text), ..style },
        LayoutAttribute::Gap => LayoutStyle { gap: number, ..style },
        LayoutAttribute::Height => LayoutStyle { height: Some(number), ..style },
        LayoutAttribute::JustifyContent => LayoutStyle {
            justify_content: justify_content_of(text),
            ..style
        },
        LayoutAttribute::Left => LayoutStyle {
            inset: Inset { left: Some(number), ..style.inset },
            ..style
        },
        LayoutAttribute::Margin => LayoutStyle { margin: edges_all(number), ..style },
        LayoutAttribute::MarginBottom => LayoutStyle {
            margin: Edges { bottom: number, ..style.margin },
            ..style
        },
        LayoutAttribute::MarginLeft => LayoutStyle {
            margin: Edges { left: number, ..style.margin },
            ..style
        },
        LayoutAttribute::MarginRight => LayoutStyle {
            margin: Edges { right: number, ..style.margin },
            ..style
        },
        LayoutAttribute::MarginTop => LayoutStyle {
            margin: Edges { top: number, ..style.margin },
            ..style
        },
        LayoutAttribute::Padding => LayoutStyle { padding: edges_all(number), ..style },
        LayoutAttribute::PaddingBottom => LayoutStyle {
            padding: Edges { bottom: number, ..style.padding },
            ..style
        },
        LayoutAttribute::PaddingLeft => LayoutStyle {
            padding: Edges { left: number, ..style.padding },
            ..style
        },
        LayoutAttribute::PaddingRight => LayoutStyle {
            padding: Edges { right: number, ..style.padding },
            ..style
        },
        LayoutAttribute::PaddingTop => LayoutStyle {
            padding: Edges { top: number, ..style.padding },
            ..style
        },
        LayoutAttribute::Position => LayoutStyle { position: position_of(text), ..style },
        LayoutAttribute::Right => LayoutStyle {
            inset: Inset { right: Some(number), ..style.inset },
            ..style
        },
        LayoutAttribute::Top => LayoutStyle {
            inset: Inset { top: Some(number), ..style.inset },
            ..style
        },
        LayoutAttribute::Width => LayoutStyle { width: Some(number), ..style },
    }
}

/// The effect of one attribute on a layout style: nothing for a value that
/// belongs to the component framework or a name outside the vocabulary.
pub open spec fn apply_layout_attribute(style: LayoutStyle, attr: Attribute) -> LayoutStyle {
    if attr.value is Custom {
        style
    } else {
        match layout_attribute_of(attr.name@) {
            Some(kind) => apply_layout(style, kind, attr.value),
            None => style,
        }
    }
}

/// The container style after the first `n` attributes have been applied in
/// order.
pub open spec fn container_style_prefix(attrs: Seq<Attribute>, n: nat) -> LayoutStyle
    decreases n,
{
    if n == 0 {
        container_base_style()
    } else {
        apply_layout_attribute(container_style_prefix(attrs, (n - 1) as nat), attrs[n - 1])
    }
}

/// The layout style of a container with the given attributes.
pub open spec fn container_style(attrs: Seq<Attribute>) -> LayoutStyle {
    container_style_prefix(attrs, attrs.len())
}

fn parse_align_content(text: &str) -> (res: Option<AlignContent>)
    ensures
        res == align_content_of(text@),
{
    if str_eq(text, "center") {
        Some(AlignContent::Center)
    } else if str_eq(text, "flex-end") {
        Some(AlignContent::FlexEnd)
    } else if str_eq(text, "flex-start") {
        Some(AlignContent::FlexStart)
    } else if str_eq(text, "space-around") {
        Some(AlignContent::SpaceAround)
    } else if str_eq(text, "space-between") {
        Some(AlignContent::SpaceBetween)
    } else if str_eq(text, "stretch") {
        Some(AlignContent::Stretch)
    } else {
        None
    }
}

fn parse_align_items(text: &str) -> (res: Option<AlignItems>)
    ensures
        res == align_items_of(text@),
{
    if str_eq(text, "baseline") {
        Some(AlignItems::Baseline)
    } else if str_eq(text, "center") {
        Some(AlignItems::Center)
    } else if str_eq(text, "flex-end") {
        Some(AlignItems::FlexEnd)
    } else if str_eq(text, "flex-start") {
        Some(AlignItems::FlexStart)
    } else if str_eq(text, "stretch") {
        Some(AlignItems::Stretch)
    } else {
        None
    }
}

fn parse_justify_content(text: &str) -> (res: Option<AlignContent>)
    ensures
        res == justify_content_of(text@),
{
    if str_eq(text, "center") {
        Some(AlignContent::Center)
    } else if str_eq(text, "flex-end") {
        Some(AlignContent::FlexEnd)
    } else if str_eq(text, "flex-start") {
        Some(AlignContent::FlexStart)
    } else if str_eq(text, "space-around") {
        Some(AlignContent::SpaceAround)
    } else if str_eq(text, "space-between") {
        Some(AlignContent::SpaceBetween)
    } else {
        None
    }
}

fn parse_display(text: &str) -> (res: Display)
    ensures
        res == display_of(text@),
{
    if str_eq(text, "flex") {
        Display::Flex
    } else {
        Display::Block
    }
}

fn parse_flex_direction(text: &str) -> (res: FlexDirection)
    ensures
        res == flex_direction_of(text@),
{
    if str_eq(text, "column") {
        FlexDirection::Column
    } else if str_eq(text, "column-reverse") {
        FlexDirection::ColumnReverse
    } else if str_eq(text, "row-reverse") {
        FlexDirection::RowReverse
    } else {
        FlexDirection::Row
    }
}

fn parse_flex_wrap(text: &str) -> (res: FlexWrap)
    ensures
        res == flex_wrap_of(text@),
{
    if str_eq(text, "wrap") {
        FlexWrap::Wrap
    } else if str_eq(text, "wrap-reverse") {
        FlexWrap::WrapReverse
    } else {
        FlexWrap::NoWrap
    }
}

fn parse_position(text: &str) -> (res: Position)
    ensures
        res == position_of(text@),
{
    if str_eq(text, "absolute") {
        Position::Absolute
    } else {
        Position::Relative
    }
}

impl LayoutStyle {
    /// The solver's default style.
    pub fn solver_default() -> (style: LayoutStyle)
        ensures
            style == solver_default_style(),
    {
        let zero = Edges { left: 0, right: 0, top: 0, bottom: 0 };
        LayoutStyle {
            display: Display::Flex,
            overflow: Overflow::Visible,
            position: Position::Relative,
            inset: Inset { left: None, right: None, top: None, bottom: None },
            width: None,
            height: None,
            margin: zero,
            padding: zero,
            border: zero,
            align_items: None,
            align_self: None,
            align_content: None,
            justify_content: None,
            gap: 0,
            flex_direction: FlexDirection::Row,
            flex_wrap: FlexWrap::NoWrap,
            flex_basis: None,
            flex_grow: 0,
            flex_shrink: SCALAR_UNIT,
        }
    }

    /// The style of a text leaf of the given measured size.
    pub fn text_leaf(width: i32, height: i32) -> (style: LayoutStyle)
        ensures
            style == text_leaf_style(width, height),
    {
        let mut style = LayoutStyle::solver_default();
        style.width = Some(width);
        style.height = Some(height);
        style
    }

    /// Applies one recognised attribute to the style.
    pub fn apply(self, kind: LayoutAttribute, value: &AttributeValue) -> (style: LayoutStyle)
        ensures
            style == apply_layout(self, kind, *value),
    {
        let text: &str = match value.as_text() {
            Some(t) => t,
            None => "",
        };
        proof {
            reveal_strlit("");
            assert(""@ =~= Seq::<char>::empty());
        }
        let number: i32 = match value.as_float() {
            Some(v) => v,
            None => 0,
        };
        let mut style = self;
        match kind {
            LayoutAttribute::AlignContent => {
                match parse_align_content(text) {
                    Some(a) => {
                        style.align_content = Some(a);
                    },
                    None => {},
                }
            },
            LayoutAttribute::AlignItems => {
                match parse_align_items(text) {
                    Some(a) => {
                        style.align_items = Some(a);
                    },
                    None => {},
                }
            },
            LayoutAttribute::AlignSelf => {
                match parse_align_items(text) {
                    Some(a) => {
                        style.align_self = Some(a);
                    },
                    None => {},
                }
            },
            LayoutAttribute::BorderBottomWidth => {
                style.border.bottom = number;
            },
            LayoutAttribute::BorderLeftWidth => {
                style.border.left = number;
            },
            LayoutAttribute::BorderRightWidth => {
                style.border.right = number;
            },
            LayoutAttribute::BorderTopWidth => {
                style.border.top = number;
            },
            LayoutAttribute::Bottom => {
                style.inset.bottom = Some(number);
            },
            LayoutAttribute::Display => {
                style.display = parse_display(text);
            },
            LayoutAttribute::Flex => {
                style.flex_grow = number;
                style.flex_shrink = SCALAR_UNIT;
                style.flex_basis = Some(number);
            },
            LayoutAttribute::FlexBasis => {
                style.flex_basis = Some(number);
            },
            LayoutAttribute::FlexDirection => {
                style.flex_direction = parse_flex_direction(text);
            },
            LayoutAttribute::FlexGrow => {
                style.flex_grow = number;
            },
            LayoutAttribute::FlexShrink => {
                style.flex_shrink = match value.as_float() {
                    Some(v) => v,
                    None => SCALAR_UNIT,
                };
            },
            LayoutAttribute::FlexWrap => {
                style.flex_wrap = parse_flex_wrap(text);
            },
            LayoutAttribute::Gap => {
                style.gap = number;
            },
            LayoutAttribute::Height => {
                style.height = Some(number);
            },
            LayoutAttribute::JustifyContent => {
                style.justify_content = parse_justify_content(text);
            },
            LayoutAttribute::Left => {
                style.inset.left = Some(number);
            },
            LayoutAttribute::Margin => {
                style.margin = Edges { left: number, right: number, top: number, bottom: number };
            },
            LayoutAttribute::MarginBottom => {
                style.margin.bottom = number;
            },
            LayoutAttribute::MarginLeft => {
                style.margin.left = number;
            },
            LayoutAttribute::MarginRight => {
                style.margin.right = number;
            },
            LayoutAttribute::MarginTop => {
                style.margin.top = number;
            },
            LayoutAttribute::Padding => {
                style.padding = Edges { left: number, right: number, top: number, bottom: number };
            },
            LayoutAttribute::PaddingBottom => {
                style.padding.bottom = number;
            },
            LayoutAttribute::PaddingLeft => {
                style.padding.left = number;
            },
            LayoutAttribute::PaddingRight => {
                style.padding.right = number;
            },
            LayoutAttribute::PaddingTop => {
                style.padding.top = number;
            },
            LayoutAttribute::Position => {
                style.position = parse_position(text);
            },
            LayoutAttribute::Right => {
                style.inset.right = Some(number);
            },
            LayoutAttribute::Top => {
                style.inset.top = Some(number);
            },
            LayoutAttribute::Width => {
                style.width = Some(number);
            },
        }
        style
    }

    /// Reads a container's layout style from its attributes, in order;
    /// later attributes override earlier ones.
    pub fn from_attributes(attributes: &Vec<Attribute>) -> (style: LayoutStyle)
        ensures
            style == container_style(attributes@),
    {
        let mut style = LayoutStyle::solver_default();
        style.display = Display::Block;
        style.overflow = Overflow::Hidden;
        let mut i: usize = 0;
        while i < attributes.len()
            invariant
                i <= attributes.len(),
                style == container_style_prefix(attributes@, i as nat),
            decreases attributes.len() - i,
        {
            let attr = &attributes[i];
            if !attr.value.is_custom() {
                match layout_attribute(attr.name.as_str()) {
                    Some(kind) => {
                        style = style.apply(kind, &attr.value);
                    },
                    None => {},
                }
            }
            i += 1;
        }
        style
    }
}

} // verus!
