//! The style resolver: cascading visual attributes of one node.
//!
//! A node's style is computed from its own attributes and the style its
//! parent has already resolved to. Every field that no attribute of the
//! node sets is inherited from the parent, and takes a fixed default at the
//! root.

use vstd::prelude::*;
use crate::c2d::{rgba, rgba_spec};
use crate::constant::{MAX_DEEP_3D, SCALAR_UNIT};
use crate::text::str_eq;
use crate::utils::{color_name_rgba, color_name_rgba_spec};
use super::attribute::{Attribute, AttributeValue};

verus! {

/// The physical screen a node is drawn on.
#[derive(Clone, Copy, PartialEq, Eq, Structural, Debug)]
pub enum Screen {
    /// The upper, stereo-capable screen.
    Top,
    /// The lower, touch-sensitive screen.
    Bottom,
}

/// The attributes the style resolver recognises.
#[derive(Clone, Copy, PartialEq, Eq, Structural, Debug)]
pub enum StyleAttribute {
    /// `color`: text colour.
    Color,
    /// `screen`: `"top"` or `"bottom"`.
    Screen,
    /// `scale`: text and image scale.
    Scale,
    /// `deep_3d`: stereo depth.
    Deep3d,
    /// `z-index`: drawing depth.
    ZIndex,
    /// `max-width`: text wrap width.
    MaxWidth,
    /// `background-color`: fill of the node's box.
    BackgroundColor,
    /// `bg_reset`: colour the screen is cleared to before the node is drawn.
    BgReset,
}

/// The resolved style of a node.
#[derive(Clone, Copy, PartialEq, Eq, Structural, Debug)]
pub struct RdomStyle {
    /// Text colour, packed.
    pub color: u32,
    /// Fill of the node's box, if any.
    pub background_color: Option<u32>,
    /// The screen-clear colour in force: the node's own or, failing that,
    /// the nearest ancestor's. Only the node that declares it clears the
    /// screen.
    pub reset_color: Option<u32>,
    /// Scale of text and images, in thousandths.
    pub scale: i32,
    /// Stereo depth, in thousandths; within `-MAX_DEEP_3D..=MAX_DEEP_3D`
    /// in every style the cascade resolves.
    pub deep_3d: i32,
    /// Drawing depth, in thousandths.
    pub z_index: i32,
    /// Width at which text wraps, in thousandths, if limited.
    pub max_width: Option<i32>,
    /// The screen the node is drawn on.
    pub screen: Screen,
}

/// The recognised attribute that a name denotes, if any.
pub open spec fn style_attribute_of(name: Seq<char>) -> Option<StyleAttribute> {
    if name == "color"@ {
        Some(StyleAttribute::Color)
    } else if name == "screen"@ {
        Some(StyleAttribute::Screen)
    } else if name == "scale"@ {
        Some(StyleAttribute::Scale)
    } else if name == "deep_3d"@ {
        Some(StyleAttribute::Deep3d)
    } else if name == "z-index"@ {
        Some(StyleAttribute::ZIndex)
    } else if name == "max-width"@ {
        Some(StyleAttribute::MaxWidth)
    } else if name == "background-color"@ {
        Some(StyleAttribute::BackgroundColor)
    } else if name == "bg_reset"@ {
        Some(StyleAttribute::BgReset)
    } else {
        None
    }
}

/// Classifies an attribute name; names outside the style vocabulary give
/// `None` and are ignored by the resolver.
pub fn style_attribute(name: &str) -> (kind: Option<StyleAttribute>)
    ensures
        kind == style_attribute_of(name@),
{
    if str_eq(name, "color") {
        Some(StyleAttribute::Color)
    } else if str_eq(name, "screen") {
        Some(StyleAttribute::Screen)
    } else if str_eq(name, "scale") {
        Some(StyleAttribute::Scale)
    } else if str_eq(name, "deep_3d") {
        Some(StyleAttribute::Deep3d)
    } else if str_eq(name, "z-index") {
        Some(StyleAttribute::ZIndex)
    } else if str_eq(name, "max-width") {
        Some(StyleAttribute::MaxWidth)
    } else if str_eq(name, "background-color") {
        Some(StyleAttribute::BackgroundColor)
    } else if str_eq(name, "bg_reset") {
        Some(StyleAttribute::BgReset)
    } else {
        None
    }
}

/// The style of a root node without attributes.
pub open spec fn default_style() -> RdomStyle {
    RdomStyle {
        color: rgba_spec(0x00, 0x00, 0x00, 0xff),
        background_color: None,
        reset_color: None,
        scale: SCALAR_UNIT,
        deep_3d: 0,
        z_index: 0,
        max_width: None,
        screen: Screen::Top,
    }
}

/// The style a node starts from before its own attributes are read: the
/// parent's resolved style, or the defaults at the root.
pub open spec fn inherited(parent: Option<RdomStyle>) -> RdomStyle {
    match parent {
        Some(p) => p,
        None => default_style(),
    }
}

/// A stereo depth held to the symmetric range around zero.
pub open spec fn clamp_depth(depth: i32) -> i32 {
    if depth > MAX_DEEP_3D {
        MAX_DEEP_3D
    } else if depth < -MAX_DEEP_3D {
        (-MAX_DEEP_3D) as i32
    } else {
        depth
    }
}

/// The colour an attribute value denotes: a palette name, or a positive
/// whole number whose low 32 bits are the packed colour. Anything else
/// denotes none.
pub open spec fn color_of(value: AttributeValue) -> Option<u32> {
    match value {
        AttributeValue::Text(name) => Some(color_name_rgba_spec(name@)),
        AttributeValue::Int(n) if n > 0 => Some(n as u32),
        _ => None,
    }
}

/// The screen an attribute value denotes, if it is one of the two names.
pub open spec fn screen_of(value: AttributeValue) -> Option<Screen> {
    match value {
        AttributeValue::Text(name) => if name@ == "top"@ {
            Some(Screen::Top)
        } else if name@ == "bottom"@ {
            Some(Screen::Bottom)
        } else {
            None
        },
        _ => None,
    }
}

/// The effect of one attribute on a style being resolved. A value of the
/// wrong kind falls back to what the node would have inherited; a name
/// outside the vocabulary changes nothing. The stereo depth is held to its
/// range wherever it comes from.
pub open spec fn apply_attribute(
    style: RdomStyle,
    attr: Attribute,
    parent: Option<RdomStyle>,
) -> RdomStyle {
    let base = inherited(parent);
    match style_attribute_of(attr.name@) {
        Some(StyleAttribute::Color) => RdomStyle {
            color: match color_of(attr.value) {
                Some(c) => c,
                None => base.color,
            },
            ..style
        },
        Some(StyleAttribute::Screen) => RdomStyle {
            screen: match screen_of(attr.value) {
                Some(s) => s,
                None => base.screen,
            },
            ..style
        },
        Some(StyleAttribute::Scale) => RdomStyle {
            scale: match attr.value.scalar() {
                Some(v) => v as i32,
                None => base.scale,
            },
            ..style
        },
        Some(StyleAttribute::Deep3d) => RdomStyle {
            deep_3d: clamp_depth(
                match attr.value.scalar() {
                    Some(v) => v as i32,
                    None => base.deep_3d,
                },
            ),
            ..style
        },
        Some(StyleAttribute::ZIndex) => RdomStyle {
            z_index: match attr.value.scalar() {
                Some(v) => v as i32,
                None => base.z_index,
            },
            ..style
        },
        Some(StyleAttribute::MaxWidth) => RdomStyle {
            max_width: match attr.value.scalar() {
                Some(v) => Some(v as i32),
                None => base.max_width,
            },
            ..style
        },
        Some(StyleAttribute::BackgroundColor) => RdomStyle {
            background_color: match color_of(attr.value) {
                Some(c) => Some(c),
                None => base.background_color,
            },
            ..style
        },
        Some(StyleAttribute::BgReset) => RdomStyle {
            reset_color: match color_of(attr.value) {
                Some(c) => Some(c),
                None => base.reset_color,
            },
            ..style
        },
        None => style,
    }
}

/// The style after the first `n` attributes have been applied in order.
pub open spec fn resolve_prefix(attrs: Seq<Attribute>, parent: Option<RdomStyle>, n: nat) -> RdomStyle
    decreases n,
{
    if n == 0 {
        inherited(parent)
    } else {
        apply_attribute(resolve_prefix(attrs, parent, (n - 1) as nat), attrs[n - 1], parent)
    }
}

/// The resolved style of a node with the given attributes under the given
/// parent style (`None` at the root).
pub open spec fn resolve(attrs: Seq<Attribute>, parent: Option<RdomStyle>) -> RdomStyle {
    resolve_prefix(attrs, parent, attrs.len())
}

/// The screen-clear colour a node declares itself: the one its own
/// attributes resolve to, whatever its parent's.
pub open spec fn declared_reset_color(attrs: Seq<Attribute>) -> Option<u32> {
    resolve(attrs, None).reset_color
}

/// Whether some attribute in the list is the given recognised one.
pub open spec fn has_attribute(attrs: Seq<Attribute>, which: StyleAttribute) -> bool {
    exists|i: int|
        0 <= i < attrs.len() && style_attribute_of((#[trigger] attrs[i]).name@) == Some(which)
}

/// What one resolution step does to a node: the new style, and whether it
/// differs from the one the node held before.
pub open spec fn update_spec(
    previous: RdomStyle,
    attrs: Seq<Attribute>,
    parent: Option<RdomStyle>,
) -> (RdomStyle, bool) {
    (resolve(attrs, parent), previous != resolve(attrs, parent))
}

fn color_value(value: &AttributeValue) -> (res: Option<u32>)
    ensures
        res == color_of(*value),
{
    match value {
        AttributeValue::Text(name) => Some(color_name_rgba(name.as_str())),
        AttributeValue::Int(n) => {
            if *n > 0 {
                Some(#[verifier::truncate] (*n as u32))
            } else {
                None
            }
        },
        _ => None,
    }
}

fn screen_value(value: &AttributeValue) -> (res: Option<Screen>)
    ensures
        res == screen_of(*value),
{
    match value {
        AttributeValue::Text(name) => {
            if str_eq(name.as_str(), "top") {
                Some(Screen::Top)
            } else if str_eq(name.as_str(), "bottom") {
                Some(Screen::Bottom)
            } else {
                None
            }
        },
        _ => None,
    }
}

fn clamp_depth_exec(depth: i32) -> (res: i32)
    ensures
        res == clamp_depth(depth),
{
    if depth > MAX_DEEP_3D {
        MAX_DEEP_3D
    } else if depth < -MAX_DEEP_3D {
        -MAX_DEEP_3D
    } else {
        depth
    }
}

impl RdomStyle {
    /// Whether the node is drawn on the top screen.
    pub fn is_top(&self) -> (top: bool)
        ensures
            top == (self.screen == Screen::Top),
    {
        match self.screen {
            Screen::Top => true,
            Screen::Bottom => false,
        }
    }

    /// The style a node starts from under the given parent.
    pub fn inherit(parent: Option<RdomStyle>) -> (style: RdomStyle)
        ensures
            style == inherited(parent),
    {
        match parent {
            Some(p) => p,
            None => RdomStyle::default(),
        }
    }

    /// The screen-clear colour that a node with the given attributes
    /// declares itself.
    pub fn declared_reset(attributes: &Vec<Attribute>) -> (color: Option<u32>)
        ensures
            color == declared_reset_color(attributes@),
    {
        let mut own = RdomStyle::default();
        own.update(attributes, None);
        own.reset_color
    }

    /// Resolves the node's style from its attributes and the parent's
    /// resolved style, stores it, and reports whether it changed.
    pub fn update(&mut self, attributes: &Vec<Attribute>, parent: Option<RdomStyle>) -> (changed:
        bool)
        ensures
            (*final(self), changed) == update_spec(*old(self), attributes@, parent),
    {
        let base = RdomStyle::inherit(parent);
        let mut new = base;
        let mut i: usize = 0;
        while i < attributes.len()
            invariant
                i <= attributes.len(),
                base == inherited(parent),
                new == resolve_prefix(attributes@, parent, i as nat),
            decreases attributes.len() - i,
        {
            let attr = &attributes[i];
            match style_attribute(attr.name.as_str()) {
                Some(StyleAttribute::Color) => {
                    new.color = match color_value(&attr.value) {
                        Some(c) => c,
                        None => base.color,
                    };
                },
                Some(StyleAttribute::Screen) => {
                    new.screen = match screen_value(&attr.value) {
                        Some(s) => s,
                        None => base.screen,
                    };
                },
                Some(StyleAttribute::Scale) => {
                    new.scale = match attr.value.as_float() {
                        Some(v) => v,
                        None => base.scale,
                    };
                },
                Some(StyleAttribute::Deep3d) => {
                    new.deep_3d = clamp_depth_exec(
                        match attr.value.as_float() {
                            Some(v) => v,
                            None => base.deep_3d,
                        },
                    );
                },
                Some(StyleAttribute::ZIndex) => {
                    new.z_index = match attr.value.as_float() {
                        Some(v) => v,
                        None => base.z_index,
                    };
                },
                Some(StyleAttribute::MaxWidth) => {
                    new.max_width = match attr.value.as_float() {
                        Some(v) => Some(v),
                        None => base.max_width,
                    };
                },
                Some(StyleAttribute::BackgroundColor) => {
                    new.background_color = match color_value(&attr.value) {
                        Some(c) => Some(c),
                        None => base.background_color,
                    };
                },
                Some(StyleAttribute::BgReset) => {
                    new.reset_color = match color_value(&attr.value) {
                        Some(c) => Some(c),
                        None => base.reset_color,
                    };
                },
                None => {},
            }
            i += 1;
        }
        let changed = new != *self;
        *self = new;
        changed
    }
}

impl Default for RdomStyle {
    /// Opaque black text at full scale on the top screen, flat, without
    /// backgrounds or wrap width.
    fn default() -> (style: RdomStyle)
        ensures
            style == default_style(),
    {
        RdomStyle {
            color: rgba(0x00, 0x00, 0x00, 0xff),
            background_color: None,
            reset_color: None,
            scale: SCALAR_UNIT,
            screen: Screen::Top,
            deep_3d: 0,
            max_width: None,
            z_index: 0,
        }
    }
}

/// Resolving a node again, with the same attributes under the same parent
/// style, gives the same style and reports no change.
pub proof fn lemma_resolve_idempotent(
    previous: RdomStyle,
    attrs: Seq<Attribute>,
    parent: Option<RdomStyle>,
)
    ensures
        update_spec(update_spec(previous, attrs, parent).0, attrs, parent) == (
            update_spec(previous, attrs, parent).0,
            false,
        ),
{
}

proof fn lemma_prefix_untouched(attrs: Seq<Attribute>, parent: Option<RdomStyle>, n: nat)
    requires
        n <= attrs.len(),
    ensures
        !has_attribute(attrs.take(n as int), StyleAttribute::Color) ==> resolve_prefix(
            attrs,
            parent,
            n,
        ).color == inherited(parent).color,
        !has_attribute(attrs.take(n as int), StyleAttribute::Screen) ==> resolve_prefix(
            attrs,
            parent,
            n,
        ).screen == inherited(parent).screen,
        !has_attribute(attrs.take(n as int), StyleAttribute::Scale) ==> resolve_prefix(
            attrs,
            parent,
            n,
        ).scale == inherited(parent).scale,
        !has_attribute(attrs.take(n as int), StyleAttribute::Deep3d) ==> resolve_prefix(
            attrs,
            parent,
            n,
        ).deep_3d == inherited(parent).deep_3d,
        !has_attribute(attrs.take(n as int), StyleAttribute::ZIndex) ==> resolve_prefix(
            attrs,
            parent,
            n,
        ).z_index == inherited(parent).z_index,
        !has_attribute(attrs.take(n as int), StyleAttribute::MaxWidth) ==> resolve_prefix(
            attrs,
            parent,
            n,
        ).max_width == inherited(parent).max_width,
        !has_attribute(attrs.take(n as int), StyleAttribute::BackgroundColor) ==> resolve_prefix(
            attrs,
            parent,
            n,
        ).background_color == inherited(parent).background_color,
        !has_attribute(attrs.take(n as int), StyleAttribute::BgReset) ==> resolve_prefix(
            attrs,
            parent,
            n,
        ).reset_color == inherited(parent).reset_color,
    decreases n,
{
    if n > 0 {
        let m = (n - 1) as nat;
        lemma_prefix_untouched(attrs, parent, m);
        let shorter = attrs.take(m as int);
        let longer = attrs.take(n as int);
        assert(longer[m as int] == attrs[m as int]);
        assert forall|which: StyleAttribute| has_attribute(shorter, which) implies has_attribute(
            longer,
            which,
        ) by {
            let i = choose|i: int|
                0 <= i < shorter.len() && style_attribute_of((#[trigger] shorter[i]).name@) == Some(
                    which,
                );
            assert(longer[i] == shorter[i]);
        }
    }
}

/// Inheritance: a node that carries no attribute for a field of the style
/// resolves that field to its parent's resolved value, and to the fixed
/// default at the root.
pub proof fn lemma_inheritance(attrs: Seq<Attribute>, parent: Option<RdomStyle>)
    ensures
        !has_attribute(attrs, StyleAttribute::Color) ==> resolve(attrs, parent).color == inherited(
            parent,
        ).color,
        !has_attribute(attrs, StyleAttribute::Screen) ==> resolve(attrs, parent).screen
            == inherited(parent).screen,
        !has_attribute(attrs, StyleAttribute::Scale) ==> resolve(attrs, parent).scale == inherited(
            parent,
        ).scale,
        !has_attribute(attrs, StyleAttribute::Deep3d) ==> resolve(attrs, parent).deep_3d
            == inherited(parent).deep_3d,
        !has_attribute(attrs, StyleAttribute::ZIndex) ==> resolve(attrs, parent).z_index
            == inherited(parent).z_index,
        !has_attribute(attrs, StyleAttribute::MaxWidth) ==> resolve(attrs, parent).max_width
            == inherited(parent).max_width,
        !has_attribute(attrs, StyleAttribute::BackgroundColor) ==> resolve(
            attrs,
            parent,
        ).background_color == inherited(parent).background_color,
        !has_attribute(attrs, StyleAttribute::BgReset) ==> resolve(attrs, parent).reset_color
            == inherited(parent).reset_color,
        parent matches Some(p) ==> inherited(parent) == p,
        parent.is_none() ==> inherited(parent) == default_style(),
{
    lemma_prefix_untouched(attrs, parent, attrs.len());
    assert(attrs.take(attrs.len() as int) =~= attrs);
}

/// Once a node carries its own `deep_3d` attribute, its resolved stereo
/// depth lies within the symmetric range.
pub proof fn lemma_depth_clamped(attrs: Seq<Attribute>, parent: Option<RdomStyle>)
    requires
        has_attribute(attrs, StyleAttribute::Deep3d),
    ensures
        -MAX_DEEP_3D <= resolve(attrs, parent).deep_3d <= MAX_DEEP_3D,
{
    lemma_prefix_clamped(attrs, parent, attrs.len());
    assert(attrs.take(attrs.len() as int) =~= attrs);
}

proof fn lemma_prefix_clamped(attrs: Seq<Attribute>, parent: Option<RdomStyle>, n: nat)
    requires
        n <= attrs.len(),
    ensures
        has_attribute(attrs.take(n as int), StyleAttribute::Deep3d) ==> -MAX_DEEP_3D
            <= resolve_prefix(attrs, parent, n).deep_3d <= MAX_DEEP_3D,
    decreases n,
{
    if n > 0 {
        let m = (n - 1) as nat;
        lemma_prefix_clamped(attrs, parent, m);
        let shorter = attrs.take(m as int);
        let longer = attrs.take(n as int);
        if has_attribute(longer, StyleAttribute::Deep3d) {
            let i = choose|i: int|
                0 <= i < longer.len() && style_attribute_of((#[trigger] longer[i]).name@) == Some(
                    StyleAttribute::Deep3d,
                );
            if i < m {
                assert(shorter[i] == longer[i]);
                assert(has_attribute(shorter, StyleAttribute::Deep3d));
            } else {
                assert(longer[i] == attrs[m as int]);
            }
        }
    }
}

proof fn lemma_prefix_in_range(attrs: Seq<Attribute>, parent: Option<RdomStyle>, n: nat)
    requires
        n <= attrs.len(),
        -MAX_DEEP_3D <= inherited(parent).deep_3d <= MAX_DEEP_3D,
    ensures
        -MAX_DEEP_3D <= resolve_prefix(attrs, parent, n).deep_3d <= MAX_DEEP_3D,
    decreases n,
{
    if n > 0 {
        lemma_prefix_in_range(attrs, parent, (n - 1) as nat);
    }
}

/// The stereo depth stays within its range down the tree: a node whose
/// parent's resolved depth lies within the symmetric range, or that is a
/// root, resolves to a depth within the range.
pub proof fn lemma_depth_in_range(attrs: Seq<Attribute>, parent: Option<RdomStyle>)
    requires
        parent matches Some(p) ==> -MAX_DEEP_3D <= p.deep_3d <= MAX_DEEP_3D,
    ensures
        -MAX_DEEP_3D <= resolve(attrs, parent).deep_3d <= MAX_DEEP_3D,
{
    lemma_prefix_in_range(attrs, parent, attrs.len());
}

} // verus!
