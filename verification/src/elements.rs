//! The element tree: an ordered strict tree of styled elements, each with a
//! content variant and its own per-element GPU instance buffer.
//!
//! GPU-side objects never appear here directly; an element refers to them by
//! plain handles. `BufferHandle` names the element's instance buffer,
//! `TextureRef` a cached texture, and `TextHandle` a shaped text run produced
//! by the text system. The renderer owns the objects behind the handles.

use vstd::prelude::*;
use crate::style::{Style, style_ok, Vec2, vec2_ok, sizing_ok, min_size_spec};

verus! {

/// A handle naming one GPU buffer owned by an element or canvas.
#[derive(Clone, Copy, Debug, PartialEq, Eq, Structural)]
pub struct BufferHandle(pub u64);

/// A handle naming a texture in the renderer's texture cache.
#[derive(Clone, Copy, Debug, PartialEq, Eq, Structural)]
pub struct TextureRef(pub u64);

/// A handle naming a shaped text run held by the text system.
#[derive(Clone, Copy, Debug, PartialEq, Eq, Structural)]
pub struct TextHandle(pub u64);

/// A packed RGBA text color, one byte per channel.
#[derive(Clone, Copy, Debug, PartialEq, Eq, Structural)]
pub struct TextColor(pub u32);

/// The possible contents of a UI element.
#[derive(Clone, Copy, Debug, PartialEq, Eq, Structural)]
pub enum ElementInfo {
    Container,
    Image(TextureRef),
    Text(TextHandle, TextColor),
}

/// A UI element: a style, a content variant, the element's own instance
/// buffer, and its ordered children. Children draw after their parent, in
/// insertion order.
#[derive(Debug)]
pub struct UIElement {
    pub style: Style,
    pub info: ElementInfo,
    pub buffer: BufferHandle,
    pub children: Vec<UIElement>,
}

/// Every style scalar in the tree lies in the representable range.
pub open spec fn elem_ok(e: UIElement) -> bool
    decreases e,
{
    &&& style_ok(e.style)
    &&& forall|i: int| 0 <= i < e.children@.len() ==> elem_ok(#[trigger] e.children@[i])
}

/// `elem_ok` for every tree of a forest.
pub open spec fn forest_ok(s: Seq<UIElement>) -> bool {
    forall|i: int| 0 <= i < s.len() ==> elem_ok(#[trigger] s[i])
}

impl UIElement {
    /// The minimum size of the internal style at the given display size.
    pub fn min_size(&self, display_size: &Vec2) -> (r: Vec2)
        requires
            sizing_ok(self.style.width),
            sizing_ok(self.style.height),
        ensures
            r == min_size_spec(self.style, *display_size),
            vec2_ok(r),
    {
        self.style.min_size(display_size)
    }

    /// A new childless container element with the given style and instance
    /// buffer.
    pub fn container(style: Style, buffer: BufferHandle) -> (r: Self)
        ensures
            r.style == style,
            r.info == ElementInfo::Container,
            r.buffer == buffer,
            r.children@.len() == 0,
            style_ok(style) ==> elem_ok(r),
    {
        UIElement { style, info: ElementInfo::Container, buffer, children: Vec::new() }
    }

    /// A new childless image element showing the given texture.
    pub fn image(style: Style, texture: TextureRef, buffer: BufferHandle) -> (r: Self)
        ensures
            r.style == style,
            r.info == ElementInfo::Image(texture),
            r.buffer == buffer,
            r.children@.len() == 0,
            style_ok(style) ==> elem_ok(r),
    {
        UIElement { style, info: ElementInfo::Image(texture), buffer, children: Vec::new() }
    }

    /// A new childless text element showing the given shaped text run in the
    /// given color.
    pub fn text(style: Style, text: TextHandle, color: TextColor, buffer: BufferHandle) -> (r:
        Self)
        ensures
            r.style == style,
            r.info == ElementInfo::Text(text, color),
            r.buffer == buffer,
            r.children@.len() == 0,
            style_ok(style) ==> elem_ok(r),
    {
        UIElement { style, info: ElementInfo::Text(text, color), buffer, children: Vec::new() }
    }
}

} // verus!
