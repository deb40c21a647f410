//! The recursive layout resolver and frame walk.
//!
//! `calculate_position_size` resolves one element's box against its parent:
//! the element starts centered in the parent, then a set `left`/`right`
//! offset overrides the horizontal position and a set `top`/`bottom` offset
//! the vertical one. `left` wins over `right` and `top` over `bottom`; under
//! `Parent` positioning offsets are measured from the parent's box, under
//! `Absolute` from the display surface. The coordinate origin is the top
//! left corner of the display, so `top` mirrors `left` and `bottom` mirrors
//! `right`. Rotation never affects the resolved box.
//!
//! `update_ui` walks a forest of elements top-down, producing one instance
//! write per element in draw order (depth first, children after their
//! parent, siblings in insertion order) and one text area per text element,
//! stepping the depth layer down by `LAYER_STEP` per generation.

use vstd::prelude::*;
use crate::fixed::{fx_ok, clamp_fx, tdiv, clamp_i64, tdiv_i64};
use crate::style::{Vec2, vec2_ok, PositionSetting, Style, style_ok, sizing_val, sizing_is_set,
    min_size_spec};
use crate::elements::{BufferHandle, TextureRef, TextHandle, TextColor, ElementInfo, UIElement,
    elem_ok, forest_ok};
use crate::instance::{UIInstance, instance_spec, encode_instance};

verus! {

/// How much the depth layer steps down for each generation of children
/// (0.05 in fixed point).
pub const LAYER_STEP: i64 = 50_000;

/// The depth layer of the root elements (0.5 in fixed point).
pub const LAYER_START: i64 = 500_000;

/// Horizontal inset of a text run within its resolved box (5 pixels).
pub const TEXT_INSET: i64 = 5_000_000;

/// The resolved box of an element's parent plus the display dimensions,
/// passed by value down the recursion.
#[derive(Clone, Copy, Debug, PartialEq, Eq, Structural)]
pub struct UIRenderInfo {
    pub position: Vec2,
    pub size: Vec2,
    pub display_size: Vec2,
}

/// The parent box lies in the representable range and the display has
/// positive extent in both dimensions.
pub open spec fn info_ok(info: UIRenderInfo) -> bool {
    &&& vec2_ok(info.position)
    &&& vec2_ok(info.size)
    &&& vec2_ok(info.display_size)
    &&& info.display_size.x >= 1
    &&& info.display_size.y >= 1
}

/// An element's resolved size: its style's width and height against the
/// display dimensions. The parent box never enters.
pub open spec fn resolved_size(style: Style, info: UIRenderInfo) -> Vec2 {
    min_size_spec(style, info.display_size)
}

/// The unsaturated horizontal position: centered in the parent, overridden
/// by a set `left` (else `right`) offset.
pub open spec fn resolved_x_raw(style: Style, info: UIRenderInfo) -> int {
    let w = resolved_size(style, info).x as int;
    if sizing_is_set(style.left) {
        let offset = sizing_val(style.left, info.display_size);
        if style.position_setting is Parent {
            info.position.x + offset
        } else {
            offset
        }
    } else if sizing_is_set(style.right) {
        let offset = sizing_val(style.right, info.display_size);
        if style.position_setting is Parent {
            info.position.x + info.size.x - w - offset
        } else {
            info.display_size.x - w - offset
        }
    } else {
        info.position.x + tdiv(info.size.x - w, 2)
    }
}

/// The unsaturated vertical position: centered in the parent, overridden by
/// a set `top` (else `bottom`) offset; `top` mirrors `left`, `bottom`
/// mirrors `right`.
pub open spec fn resolved_y_raw(style: Style, info: UIRenderInfo) -> int {
    let h = resolved_size(style, info).y as int;
    if sizing_is_set(style.top) {
        let offset = sizing_val(style.top, info.display_size);
        if style.position_setting is Parent {
            info.position.y + offset
        } else {
            offset
        }
    } else if sizing_is_set(style.bottom) {
        let offset = sizing_val(style.bottom, info.display_size);
        if style.position_setting is Parent {
            info.position.y + info.size.y - h - offset
        } else {
            info.display_size.y - h - offset
        }
    } else {
        info.position.y + tdiv(info.size.y - h, 2)
    }
}

/// An element's resolved position, saturated to the coordinate range.
pub open spec fn resolved_pos(style: Style, info: UIRenderInfo) -> Vec2 {
    Vec2 {
        x: clamp_fx(resolved_x_raw(style, info)) as i64,
        y: clamp_fx(resolved_y_raw(style, info)) as i64,
    }
}

/// Resolve one element's box against its parent's.
pub fn calculate_position_size(style: &Style, info: &UIRenderInfo) -> (r: (Vec2, Vec2))
    requires
        style_ok(*style),
        info_ok(*info),
    ensures
        r.0 == resolved_pos(*style, *info),
        r.1 == resolved_size(*style, *info),
        vec2_ok(r.0),
        vec2_ok(r.1),
{
    let size = style.min_size(&info.display_size);

    let x_raw: i64 = if style.left_set() {
        let offset = style.left.size(&info.display_size);
        match style.position_setting {
            PositionSetting::Parent => info.position.x + offset,
            PositionSetting::Absolute => offset,
        }
    } else if style.right_set() {
        let offset = style.right.size(&info.display_size);
        match style.position_setting {
            PositionSetting::Parent => info.position.x + info.size.x - size.x - offset,
            PositionSetting::Absolute => info.display_size.x - size.x - offset,
        }
    } else {
        info.position.x + tdiv_i64(info.size.x - size.x, 2)
    };

    let y_raw: i64 = if style.top_set() {
        let offset = style.top.size(&info.display_size);
        match style.position_setting {
            PositionSetting::Parent => info.position.y + offset,
            PositionSetting::Absolute => offset,
        }
    } else if style.bottom_set() {
        let offset = style.bottom.size(&info.display_size);
        match style.position_setting {
            PositionSetting::Parent => info.position.y + info.size.y - size.y - offset,
            PositionSetting::Absolute => info.display_size.y - size.y - offset,
        }
    } else {
        info.position.y + tdiv_i64(info.size.y - size.y, 2)
    };

    let position = Vec2 { x: clamp_i64(x_raw), y: clamp_i64(y_raw) };
    (position, size)
}

/// Size law: an element whose width and height resolve to nonnegative
/// lengths has a nonnegative resolved size. (A style is free to ask for a
/// negative length, say `Px(-5)`; the negative value then propagates to the
/// caller unchanged, so the law holds exactly for the styles that do not.)
pub proof fn lemma_resolved_size_nonnegative(style: Style, info: UIRenderInfo)
    requires
        style_ok(style),
        sizing_val(style.width, info.display_size) >= 0,
        sizing_val(style.height, info.display_size) >= 0,
    ensures
        resolved_size(style, info).x >= 0,
        resolved_size(style, info).y >= 0,
{
    crate::style::lemma_sizing_val_ok(style.width, info.display_size);
    crate::style::lemma_sizing_val_ok(style.height, info.display_size);
}

/// Absolute positioning law: an element in `Absolute` mode that is anchored
/// on both axes resolves independently of its parent's box - only the
/// display size enters. (An unanchored axis falls back to centering in the
/// parent, which reads the parent box even in `Absolute` mode.)
pub proof fn lemma_absolute_independent_of_parent(style: Style, a: UIRenderInfo, b: UIRenderInfo)
    requires
        style.position_setting == PositionSetting::Absolute,
        sizing_is_set(style.left) || sizing_is_set(style.right),
        sizing_is_set(style.top) || sizing_is_set(style.bottom),
        a.display_size == b.display_size,
    ensures
        resolved_pos(style, a) == resolved_pos(style, b),
        resolved_size(style, a) == resolved_size(style, b),
{
}

/// One planned GPU buffer write: the target buffer, the texture the element
/// draws with (`None` for the renderer's blank default), and the encoded
/// instance record. A frame's writes double as its draw list: they are
/// emitted in draw order.
#[derive(Clone, Copy, Debug, PartialEq, Eq)]
pub struct InstanceWrite {
    pub buffer: BufferHandle,
    pub texture: Option<TextureRef>,
    pub instance: UIInstance,
}

/// A text run positioned within a resolved box, ready for the text system:
/// inset from the left edge, clipped to the box size.
#[derive(Clone, Copy, Debug, PartialEq, Eq, Structural)]
pub struct TextArea {
    pub text: TextHandle,
    pub color: TextColor,
    pub left: i64,
    pub top: i64,
    pub bound_w: i64,
    pub bound_h: i64,
}

/// The texture an element binds while drawing, if it names one.
pub open spec fn texture_of(info: ElementInfo) -> Option<TextureRef> {
    match info {
        ElementInfo::Image(t) => Some(t),
        _ => None,
    }
}

/// The instance write one element produces at the given parent box and
/// layer.
pub open spec fn write_of(e: UIElement, info: UIRenderInfo, layer: i64) -> InstanceWrite {
    InstanceWrite {
        buffer: e.buffer,
        texture: texture_of(e.info),
        instance: instance_spec(
            e.style,
            resolved_pos(e.style, info),
            resolved_size(e.style, info),
            info.display_size,
            layer,
        ),
    }
}

/// The text areas one element contributes: one for a text element, none
/// otherwise.
pub open spec fn text_areas_of(e: UIElement, info: UIRenderInfo) -> Seq<TextArea> {
    match e.info {
        ElementInfo::Text(t, c) => {
            let pos = resolved_pos(e.style, info);
            let size = resolved_size(e.style, info);
            seq![
                TextArea {
                    text: t,
                    color: c,
                    left: clamp_fx(pos.x + TEXT_INSET as int) as i64,
                    top: pos.y,
                    bound_w: size.x,
                    bound_h: size.y,
                },
            ]
        },
        _ => Seq::empty(),
    }
}

/// The render info an element hands to its children: its own resolved box,
/// with the display dimensions carried through unchanged.
pub open spec fn child_render_info(e: UIElement, info: UIRenderInfo) -> UIRenderInfo {
    UIRenderInfo {
        position: resolved_pos(e.style, info),
        size: resolved_size(e.style, info),
        display_size: info.display_size,
    }
}

/// The depth layer of an element's children.
pub open spec fn next_layer(layer: i64) -> i64 {
    clamp_fx(layer - LAYER_STEP) as i64
}

/// All instance writes of one element's subtree, in draw order: the element
/// itself first, then each child's subtree in insertion order.
pub open spec fn tree_writes(e: UIElement, info: UIRenderInfo, layer: i64) -> Seq<InstanceWrite>
    decreases e, 0int,
{
    seq![write_of(e, info, layer)] + forest_writes(
        e.children@,
        child_render_info(e, info),
        next_layer(layer),
        0,
    )
}

/// All instance writes of the trees of `s` from index `i` on.
pub open spec fn forest_writes(s: Seq<UIElement>, info: UIRenderInfo, layer: i64, i: int)
    -> Seq<InstanceWrite>
    decreases s, s.len() - i,
{
    if 0 <= i < s.len() {
        tree_writes(s[i], info, layer) + forest_writes(s, info, layer, i + 1)
    } else {
        Seq::empty()
    }
}

/// All text areas of one element's subtree, in traversal order.
pub open spec fn tree_texts(e: UIElement, info: UIRenderInfo) -> Seq<TextArea>
    decreases e, 0int,
{
    text_areas_of(e, info) + forest_texts(e.children@, child_render_info(e, info), 0)
}

/// All text areas of the trees of `s` from index `i` on.
pub open spec fn forest_texts(s: Seq<UIElement>, info: UIRenderInfo, i: int) -> Seq<TextArea>
    decreases s, s.len() - i,
{
    if 0 <= i < s.len() {
        tree_texts(s[i], info) + forest_texts(s, info, i + 1)
    } else {
        Seq::empty()
    }
}

/// Walk a forest of elements top-down: append one instance write per
/// element in draw order and one text area per text element.
pub fn update_ui(
    info: &UIRenderInfo,
    elements: &Vec<UIElement>,
    text_areas: &mut Vec<TextArea>,
    writes: &mut Vec<InstanceWrite>,
    layer: i64,
)
    requires
        info_ok(*info),
        forest_ok(elements@),
        fx_ok(layer as int),
    ensures
        final(writes)@ == old(writes)@ + forest_writes(elements@, *info, layer, 0),
        final(text_areas)@ == old(text_areas)@ + forest_texts(elements@, *info, 0),
    decreases elements@,
{
    let mut i: usize = 0;
    while i < elements.len()
        invariant
            i <= elements.len(),
            info_ok(*info),
            forest_ok(elements@),
            fx_ok(layer as int),
            writes@ + forest_writes(elements@, *info, layer, i as int) == old(writes)@
                + forest_writes(elements@, *info, layer, 0),
            text_areas@ + forest_texts(elements@, *info, i as int) == old(text_areas)@
                + forest_texts(elements@, *info, 0),
        decreases elements@.len() - i,
    {
        let ghost s = elements@;
        let ghost writes_entry = writes@;
        let ghost texts_entry = text_areas@;
        let element = &elements[i];
        proof {
            assert(elem_ok(s[i as int]));
        }

        // resolve this element's box and encode its instance record
        let (position, size) = calculate_position_size(&element.style, info);
        let texture = match &element.info {
            ElementInfo::Image(t) => Some(*t),
            _ => None,
        };
        let inst = encode_instance(&element.style, position, size, info.display_size, layer);
        writes.push(InstanceWrite { buffer: element.buffer, texture, instance: inst });

        // a text element also yields a text area within its box
        match &element.info {
            ElementInfo::Text(t, c) => {
                let left = clamp_i64(position.x + TEXT_INSET);
                text_areas.push(
                    TextArea {
                        text: *t,
                        color: *c,
                        left,
                        top: position.y,
                        bound_w: size.x,
                        bound_h: size.y,
                    },
                );
            },
            _ => {},
        }

        // recurse into the children against this element's box
        let new_info = UIRenderInfo { position, size, display_size: info.display_size };
        let child_layer = clamp_i64(layer - LAYER_STEP);
        update_ui(&new_info, &element.children, text_areas, writes, child_layer);

        proof {
            let e = s[i as int];
            assert(new_info == child_render_info(e, *info));
            assert(child_layer == next_layer(layer));
            assert(writes@ =~= writes_entry + tree_writes(e, *info, layer));
            assert(text_areas@ =~= texts_entry + tree_texts(e, *info));
            assert(forest_writes(s, *info, layer, i as int) == tree_writes(e, *info, layer)
                + forest_writes(s, *info, layer, i + 1));
            assert(writes@ + forest_writes(s, *info, layer, i + 1) =~= old(writes)@
                + forest_writes(s, *info, layer, 0));
            assert(text_areas@ + forest_texts(s, *info, i + 1) =~= old(text_areas)@
                + forest_texts(s, *info, 0));
        }
        i += 1;
    }
    proof {
        assert(forest_writes(elements@, *info, layer, i as int) =~= Seq::<InstanceWrite>::empty());
        assert(forest_texts(elements@, *info, i as int) =~= Seq::<TextArea>::empty());
        assert(writes@ =~= writes@ + Seq::<InstanceWrite>::empty());
        assert(text_areas@ =~= text_areas@ + Seq::<TextArea>::empty());
    }
}

} // verus!
