//! The instance encoder: a resolved box plus its style becomes a packed
//! per-quad instance record.
//!
//! The record keeps the model transform in factored form - a translation in
//! normalized device coordinates, a scale, and a Z rotation - together with
//! the fill color, border color and normalized corner/border radii. A
//! renderer expands the factored transform into the 4x4 matrix
//! `translation * rotation_z * scale` when packing bytes for the GPU; the
//! factoring is lossless, so the decoding functions here recover the
//! pixel-space center and size from a record exactly whenever the encoding
//! divisions were exact.

use vstd::prelude::*;
use crate::fixed::{FX_ONE, COORD_MAX, fx_ok, clamp_fx, tdiv, fx_div_spec, fx_mul_spec, clamp_i128,
    tdiv_i128, tdiv_i64, fx_div, fx_mul};
use crate::style::{Vec2, vec2_ok, Color, Style, style_ok, sizing_val};

verus! {

/// A GPU instance record in factored form. `ndc_*` and `layer` are the
/// translation in normalized device coordinates, `scale_*` the NDC scale,
/// `rotation` the Z rotation in micro-degrees; `corner_radius` and
/// `border_radius` are normalized by the larger box dimension.
#[derive(Clone, Copy, Debug, PartialEq, Eq, Structural)]
pub struct UIInstance {
    pub ndc_x: i64,
    pub ndc_y: i64,
    pub layer: i64,
    pub scale_x: i64,
    pub scale_y: i64,
    pub rotation: i64,
    pub color: Color,
    pub border_color: Color,
    pub corner_radius: i64,
    pub border_radius: i64,
}

/// A pixel coordinate mapped to normalized device coordinates:
/// `2 * c / display - 1`, in fixed point, saturated.
pub open spec fn ndc_of(c: int, display: int) -> int
    recommends
        display >= 1,
{
    clamp_fx(tdiv(2 * c * (FX_ONE as int), display) - FX_ONE as int)
}

/// An NDC coordinate mapped back to pixels: `(ndc + 1) * display / 2`,
/// in fixed point, saturated.
pub open spec fn ndc_back(ndc: int, display: int) -> int {
    clamp_fx(tdiv((ndc + FX_ONE as int) * display, 2 * FX_ONE as int))
}

/// The larger of two scalars.
pub open spec fn max_spec(a: int, b: int) -> int {
    if a >= b {
        a
    } else {
        b
    }
}

/// A length normalized by the larger box dimension; zero when the box has no
/// positive extent, so a degenerate box never divides by zero.
pub open spec fn radius_of(v: int, m: int) -> int {
    if m <= 0 {
        0
    } else {
        fx_div_spec(v, m)
    }
}

/// The instance record encoded for a box resolved at `pos`/`size` with the
/// given style, display size and depth layer. The encoded center is the box
/// midpoint; radii normalize the style's corner rounding and border width by
/// the larger box dimension.
pub open spec fn instance_spec(style: Style, pos: Vec2, size: Vec2, display: Vec2, layer: i64)
    -> UIInstance {
    let cx = pos.x + tdiv(size.x as int, 2);
    let cy = pos.y + tdiv(size.y as int, 2);
    let m = max_spec(size.x as int, size.y as int);
    UIInstance {
        ndc_x: ndc_of(cx, display.x as int) as i64,
        ndc_y: ndc_of(cy, display.y as int) as i64,
        layer: layer,
        scale_x: fx_div_spec(size.x as int, display.x as int) as i64,
        scale_y: fx_div_spec(size.y as int, display.y as int) as i64,
        rotation: style.rotation,
        color: style.color,
        border_color: style.border_color,
        corner_radius: radius_of(sizing_val(style.round, display), m) as i64,
        border_radius: radius_of(sizing_val(style.border, display), m) as i64,
    }
}

/// Map a pixel coordinate to normalized device coordinates.
pub fn ndc_encode(c: i64, display: i64) -> (r: i64)
    requires
        display >= 1,
        -2 * COORD_MAX <= c <= 2 * COORD_MAX,
    ensures
        r == ndc_of(c as int, display as int),
        fx_ok(r as int),
{
    proof {
        assert(i128::MIN < 2 * (c as int) * (FX_ONE as int) < i128::MAX) by (nonlinear_arith)
            requires
                -2 * COORD_MAX <= c <= 2 * COORD_MAX,
                FX_ONE == 1_000_000,
                COORD_MAX == 1_000_000_000_000_000,
        ;
    }
    let t: i128 = 2 * (c as i128) * (FX_ONE as i128);
    let q = tdiv_i128(t, display as i128);
    proof {
        if t >= 0 {
            assert(0 <= q <= t) by (nonlinear_arith)
                requires
                    q == (t as int) / (display as int),
                    t >= 0,
                    display >= 1,
            ;
        } else {
            assert(0 <= -q <= -t) by (nonlinear_arith)
                requires
                    -q == (-t as int) / (display as int),
                    t < 0,
                    display >= 1,
            ;
        }
    }
    clamp_i128(q - (FX_ONE as i128))
}

/// Map a normalized device coordinate back to pixels.
pub fn ndc_decode(ndc: i64, display: i64) -> (r: i64)
    requires
        1 <= display <= COORD_MAX,
        fx_ok(ndc as int),
    ensures
        r == ndc_back(ndc as int, display as int),
        fx_ok(r as int),
{
    proof {
        assert(i128::MIN < ((ndc as int) + (FX_ONE as int)) * (display as int) < i128::MAX)
            by (nonlinear_arith)
            requires
                -COORD_MAX <= ndc <= COORD_MAX,
                1 <= display <= COORD_MAX,
                FX_ONE == 1_000_000,
                COORD_MAX == 1_000_000_000_000_000,
        ;
    }
    let t: i128 = ((ndc as i128) + (FX_ONE as i128)) * (display as i128);
    let q = tdiv_i128(t, 2 * (FX_ONE as i128));
    clamp_i128(q)
}

/// Map an NDC scale factor back to a pixel length: `scale * display`.
pub fn scale_decode(scale: i64, display: i64) -> (r: i64)
    ensures
        r == fx_mul_spec(scale as int, display as int),
        fx_ok(r as int),
{
    fx_mul(scale, display)
}

/// Normalize a length by the larger box dimension.
pub fn radius_encode(v: i64, m: i64) -> (r: i64)
    ensures
        r == radius_of(v as int, m as int),
        fx_ok(r as int),
{
    if m <= 0 {
        0
    } else {
        fx_div(v, m)
    }
}

/// Round trip of the NDC mapping: when the pixel-to-NDC division is exact
/// and neither side saturates, mapping a center to normalized device
/// coordinates and back recovers it exactly.
pub proof fn lemma_center_round_trip(c: int, d: int)
    requires
        1 <= d <= COORD_MAX,
        -COORD_MAX <= c <= COORD_MAX,
        (2 * c * FX_ONE) % d == 0,
        fx_ok(tdiv(2 * c * (FX_ONE as int), d) - FX_ONE as int),
    ensures
        ndc_back(ndc_of(c, d), d) == c,
{
    let f = FX_ONE as int;
    let a = 2 * c * f;
    let k = a / d;
    vstd::arithmetic::div_mod::lemma_fundamental_div_mod(a, d);
    assert(a == d * k);
    crate::fixed::lemma_tdiv_multiples_vanish(k, d);
    assert(tdiv(a, d) == k);
    let ndc = ndc_of(c, d);
    assert(ndc == k - f);
    assert((ndc + f) * d == d * k) by (nonlinear_arith)
        requires
            ndc == k - f,
    ;
    assert(d * k == (2 * f) * c) by (nonlinear_arith)
        requires
            d * k == 2 * c * f,
    ;
    crate::fixed::lemma_tdiv_multiples_vanish(c, 2 * f);
    assert(tdiv((ndc + f) * d, 2 * f) == c);
}

/// Round trip of the scale mapping: when the size-to-scale division is
/// exact and nothing saturates, multiplying the NDC scale by the display
/// dimension recovers the pixel size exactly.
pub proof fn lemma_scale_round_trip(s: int, d: int)
    requires
        1 <= d,
        fx_ok(s),
        (s * FX_ONE) % d == 0,
        fx_ok(tdiv(s * (FX_ONE as int), d)),
    ensures
        fx_mul_spec(fx_div_spec(s, d), d) == s,
{
    let f = FX_ONE as int;
    let a = s * f;
    let k = a / d;
    vstd::arithmetic::div_mod::lemma_fundamental_div_mod(a, d);
    assert(a == d * k);
    crate::fixed::lemma_tdiv_multiples_vanish(k, d);
    assert(tdiv(a, d) == k);
    assert(fx_div_spec(s, d) == k);
    assert(k * d == f * s) by (nonlinear_arith)
        requires
            d * k == s * f,
    ;
    crate::fixed::lemma_tdiv_multiples_vanish(s, f);
    assert(tdiv(k * d, f) == s);
}

/// Round trip of the whole factored transform: with exact divisions and no
/// saturation, the record encoded for a box recovers the box center, the
/// box size and the rotation exactly.
pub proof fn lemma_transform_round_trip(
    style: Style,
    pos: Vec2,
    size: Vec2,
    display: Vec2,
    layer: i64,
)
    requires
        1 <= display.x <= COORD_MAX,
        1 <= display.y <= COORD_MAX,
        vec2_ok(pos),
        vec2_ok(size),
        -COORD_MAX <= pos.x + tdiv(size.x as int, 2) <= COORD_MAX,
        -COORD_MAX <= pos.y + tdiv(size.y as int, 2) <= COORD_MAX,
        (2 * (pos.x + tdiv(size.x as int, 2)) * FX_ONE) % (display.x as int) == 0,
        (2 * (pos.y + tdiv(size.y as int, 2)) * FX_ONE) % (display.y as int) == 0,
        (size.x * FX_ONE) % (display.x as int) == 0,
        (size.y * FX_ONE) % (display.y as int) == 0,
        fx_ok(tdiv(2 * (pos.x + tdiv(size.x as int, 2)) * (FX_ONE as int), display.x as int)
            - FX_ONE as int),
        fx_ok(tdiv(2 * (pos.y + tdiv(size.y as int, 2)) * (FX_ONE as int), display.y as int)
            - FX_ONE as int),
        fx_ok(tdiv(size.x * (FX_ONE as int), display.x as int)),
        fx_ok(tdiv(size.y * (FX_ONE as int), display.y as int)),
    ensures
        ndc_back(instance_spec(style, pos, size, display, layer).ndc_x as int, display.x as int)
            == pos.x + tdiv(size.x as int, 2),
        ndc_back(instance_spec(style, pos, size, display, layer).ndc_y as int, display.y as int)
            == pos.y + tdiv(size.y as int, 2),
        fx_mul_spec(instance_spec(style, pos, size, display, layer).scale_x as int, display.x as int)
            == size.x,
        fx_mul_spec(instance_spec(style, pos, size, display, layer).scale_y as int, display.y as int)
            == size.y,
        instance_spec(style, pos, size, display, layer).rotation == style.rotation,
{
    lemma_center_round_trip(pos.x + tdiv(size.x as int, 2), display.x as int);
    lemma_center_round_trip(pos.y + tdiv(size.y as int, 2), display.y as int);
    lemma_scale_round_trip(size.x as int, display.x as int);
    lemma_scale_round_trip(size.y as int, display.y as int);
}

/// Encode the instance record for a resolved box.
pub fn encode_instance(style: &Style, pos: Vec2, size: Vec2, display: Vec2, layer: i64) -> (r:
    UIInstance)
    requires
        style_ok(*style),
        vec2_ok(pos),
        vec2_ok(size),
        vec2_ok(display),
        display.x >= 1,
        display.y >= 1,
    ensures
        r == instance_spec(*style, pos, size, display, layer),
{
    let cx = pos.x + tdiv_i64(size.x, 2);
    let cy = pos.y + tdiv_i64(size.y, 2);
    let m = if size.x >= size.y {
        size.x
    } else {
        size.y
    };
    let round_v = style.round.size(&display);
    let border_v = style.border.size(&display);
    UIInstance {
        ndc_x: ndc_encode(cx, display.x),
        ndc_y: ndc_encode(cy, display.y),
        layer: layer,
        scale_x: fx_div(size.x, display.x),
        scale_y: fx_div(size.y, display.y),
        rotation: style.rotation,
        color: style.color,
        border_color: style.border_color,
        corner_radius: radius_encode(round_v, m),
        border_radius: radius_encode(border_v, m),
    }
}

} // verus!
