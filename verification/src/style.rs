//! Styling data for UI elements: positioning mode, edge offsets, sizing,
//! colors and rotation. All scalar fields are fixed-point micro-units (see
//! [`crate::fixed`]): `FX_ONE` units are one pixel, or 1.0 of a percentage or
//! color channel.

use vstd::prelude::*;
use crate::fixed::{FX_ONE, fx_ok, fx_mul_spec, fx_mul};

verus! {

/// A two-component fixed-point vector (a point, a size, or a pair of display
/// dimensions).
#[derive(Clone, Copy, Debug, PartialEq, Eq, Structural)]
pub struct Vec2 {
    pub x: i64,
    pub y: i64,
}

/// Both components lie in the representable coordinate range.
pub open spec fn vec2_ok(v: Vec2) -> bool {
    fx_ok(v.x as int) && fx_ok(v.y as int)
}

/// Defines the positioning of a `UIElement`.
///
/// * `Parent` - edge offsets are measured from the element's parent box.
/// * `Absolute` - edge offsets are measured from the whole display surface.
#[derive(Clone, Copy, Debug, PartialEq, Eq, Structural, Default)]
pub enum PositionSetting {
    #[default]
    Parent,
    Absolute,
}

/// Defines a resolvable size in a `Style`.
///
/// * `Auto` - not set; resolves to zero.
/// * `Px(pixels)` - a fixed length, in micro-pixels.
/// * `PercentWidth(percent)` - a fraction of the display width (`FX_ONE` = 100%).
/// * `PercentHeight(percent)` - a fraction of the display height.
#[derive(Clone, Copy, Debug, PartialEq, Eq, Structural, Default)]
pub enum Sizing {
    #[default]
    Auto,
    Px(i64),
    PercentWidth(i64),
    PercentHeight(i64),
}

/// The payload, if any, lies in the representable coordinate range.
pub open spec fn sizing_ok(s: Sizing) -> bool {
    match s {
        Sizing::Auto => true,
        Sizing::Px(p) => fx_ok(p as int),
        Sizing::PercentWidth(p) => fx_ok(p as int),
        Sizing::PercentHeight(p) => fx_ok(p as int),
    }
}

/// What a sizing stands for against the given dimensions: `Auto` is zero,
/// `Px` is itself, and the percent forms scale the matching dimension.
pub open spec fn sizing_val(s: Sizing, dimensions: Vec2) -> int {
    match s {
        Sizing::Auto => 0,
        Sizing::Px(p) => p as int,
        Sizing::PercentWidth(p) => fx_mul_spec(dimensions.x as int, p as int),
        Sizing::PercentHeight(p) => fx_mul_spec(dimensions.y as int, p as int),
    }
}

/// Every sizing with an in-range payload resolves to an in-range length.
pub proof fn lemma_sizing_val_ok(s: Sizing, dimensions: Vec2)
    requires
        sizing_ok(s),
    ensures
        fx_ok(sizing_val(s, dimensions)),
{
}

/// A sizing is set exactly when it is not `Auto`.
pub open spec fn sizing_is_set(s: Sizing) -> bool {
    !(s is Auto)
}

impl Sizing {
    /// Resolve this sizing to a pixel length against the given dimensions.
    pub fn size(&self, dimensions: &Vec2) -> (r: i64)
        requires
            sizing_ok(*self),
        ensures
            r == sizing_val(*self, *dimensions),
            fx_ok(r as int),
    {
        match self {
            Sizing::Auto => 0,
            Sizing::Px(px) => *px,
            Sizing::PercentWidth(percent) => fx_mul(dimensions.x, *percent),
            Sizing::PercentHeight(percent) => fx_mul(dimensions.y, *percent),
        }
    }

    /// Returns true if this is not `Auto`.
    pub fn is_set(&self) -> (r: bool)
        ensures
            r == sizing_is_set(*self),
    {
        !matches!(self, Sizing::Auto)
    }
}

/// An RGBA color; `FX_ONE` units are 1.0 of a channel.
#[derive(Clone, Copy, Debug, PartialEq, Eq, Structural)]
pub struct Color {
    pub red: i64,
    pub green: i64,
    pub blue: i64,
    pub alpha: i64,
}

impl Color {
    /// The rgba components as a 4-element array.
    pub fn to_array(&self) -> (r: [i64; 4])
        ensures
            r@ == seq![self.red, self.green, self.blue, self.alpha],
    {
        let a = [self.red, self.green, self.blue, self.alpha];
        proof {
            assert(a@ =~= seq![self.red, self.green, self.blue, self.alpha]);
        }
        a
    }
}

impl Default for Color {
    /// Opaque white.
    fn default() -> (r: Self)
        ensures
            r == (Color { red: FX_ONE, green: FX_ONE, blue: FX_ONE, alpha: FX_ONE }),
    {
        Color { red: FX_ONE, green: FX_ONE, blue: FX_ONE, alpha: FX_ONE }
    }
}

/// All four channels lie in the representable range.
pub open spec fn color_ok(c: Color) -> bool {
    fx_ok(c.red as int) && fx_ok(c.green as int) && fx_ok(c.blue as int) && fx_ok(c.alpha as int)
}

/// The style used to lay out and render a `UIElement`.
///
/// * `position_setting` - what the edge offsets are measured against.
/// * `color` / `border_color` - fill and border colors.
/// * `left`, `right`, `top`, `bottom` - edge offsets; an offset takes part in
///   anchoring only when set (left wins over right, top over bottom).
/// * `border` - border thickness; `Auto` for no border.
/// * `round` - corner rounding; `Auto` for square corners.
/// * `width`, `height` - the element's size.
/// * `rotation` - Z rotation in micro-degrees; affects only the encoded
///   transform, never the resolved box.
#[derive(Clone, Copy, Debug)]
pub struct Style {
    pub position_setting: PositionSetting,
    pub color: Color,
    pub border_color: Color,
    pub left: Sizing,
    pub right: Sizing,
    pub top: Sizing,
    pub bottom: Sizing,
    pub border: Sizing,
    pub round: Sizing,
    pub width: Sizing,
    pub height: Sizing,
    pub rotation: i64,
}

/// Every scalar the style holds lies in the representable range.
pub open spec fn style_ok(s: Style) -> bool {
    &&& color_ok(s.color)
    &&& color_ok(s.border_color)
    &&& sizing_ok(s.left)
    &&& sizing_ok(s.right)
    &&& sizing_ok(s.top)
    &&& sizing_ok(s.bottom)
    &&& sizing_ok(s.border)
    &&& sizing_ok(s.round)
    &&& sizing_ok(s.width)
    &&& sizing_ok(s.height)
    &&& fx_ok(s.rotation as int)
}

/// The size a style asks for against the given display dimensions.
pub open spec fn min_size_spec(s: Style, display_size: Vec2) -> Vec2 {
    Vec2 {
        x: sizing_val(s.width, display_size) as i64,
        y: sizing_val(s.height, display_size) as i64,
    }
}

impl Style {
    /// The minimum size of this style against the given display size.
    pub fn min_size(&self, display_size: &Vec2) -> (r: Vec2)
        requires
            sizing_ok(self.width),
            sizing_ok(self.height),
        ensures
            r == min_size_spec(*self, *display_size),
            vec2_ok(r),
    {
        Vec2 { x: self.width.size(display_size), y: self.height.size(display_size) }
    }

    /// Returns true if the left offset is set.
    pub fn left_set(&self) -> (r: bool)
        ensures
            r == sizing_is_set(self.left),
    {
        self.left.is_set()
    }

    /// Returns true if the right offset is set.
    pub fn right_set(&self) -> (r: bool)
        ensures
            r == sizing_is_set(self.right),
    {
        self.right.is_set()
    }

    /// Returns true if the top offset is set.
    pub fn top_set(&self) -> (r: bool)
        ensures
            r == sizing_is_set(self.top),
    {
        self.top.is_set()
    }

    /// Returns true if the bottom offset is set.
    pub fn bottom_set(&self) -> (r: bool)
        ensures
            r == sizing_is_set(self.bottom),
    {
        self.bottom.is_set()
    }
}

impl Default for Style {
    /// A centered, unrotated, white container style with nothing set.
    fn default() -> (r: Self)
        ensures
            r.position_setting == PositionSetting::Parent,
            r.color == (Color { red: FX_ONE, green: FX_ONE, blue: FX_ONE, alpha: FX_ONE }),
            r.border_color == (Color { red: FX_ONE, green: FX_ONE, blue: FX_ONE, alpha: FX_ONE }),
            r.left == Sizing::Auto,
            r.right == Sizing::Auto,
            r.top == Sizing::Auto,
            r.bottom == Sizing::Auto,
            r.border == Sizing::Auto,
            r.round == Sizing::Auto,
            r.width == Sizing::Auto,
            r.height == Sizing::Auto,
            r.rotation == 0,
            style_ok(r),
    {
        Style {
            position_setting: PositionSetting::Parent,
            color: Color::default(),
            border_color: Color::default(),
            left: Sizing::Auto,
            right: Sizing::Auto,
            top: Sizing::Auto,
            bottom: Sizing::Auto,
            border: Sizing::Auto,
            round: Sizing::Auto,
            width: Sizing::Auto,
            height: Sizing::Auto,
            rotation: 0,
        }
    }
}

} // verus!
