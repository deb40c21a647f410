//! The UI engine: the root of the element tree and the once-per-frame
//! update that turns it into buffer writes and text areas.

use vstd::prelude::*;
use crate::style::{Vec2, vec2_ok};
use crate::elements::{UIElement, forest_ok};
use crate::layout::{UIRenderInfo, InstanceWrite, TextArea, forest_writes, forest_texts, update_ui,
    LAYER_START};

verus! {

/// Everything one frame hands to the renderer: the per-element buffer
/// writes in draw order, and the positioned text runs for the text system.
#[derive(Clone, Debug, PartialEq, Eq)]
pub struct FrameOutput {
    pub writes: Vec<InstanceWrite>,
    pub text_areas: Vec<TextArea>,
}

/// The render info the root elements are resolved against: the whole
/// display, starting at the origin.
pub open spec fn root_info(display_size: Vec2) -> UIRenderInfo {
    UIRenderInfo {
        position: Vec2 { x: 0, y: 0 },
        size: display_size,
        display_size: display_size,
    }
}

/// The instance writes a whole frame produces, in draw order.
pub open spec fn frame_writes(elements: Seq<UIElement>, display_size: Vec2) -> Seq<InstanceWrite> {
    forest_writes(elements, root_info(display_size), LAYER_START, 0)
}

/// The text areas a whole frame produces, in traversal order.
pub open spec fn frame_texts(elements: Seq<UIElement>, display_size: Vec2) -> Seq<TextArea> {
    forest_texts(elements, root_info(display_size), 0)
}

/// The engine for rendering UI: the root elements of the tree, in draw
/// order.
#[derive(Debug)]
pub struct UIEngine {
    pub elements: Vec<UIElement>,
}

impl UIEngine {
    /// A new engine with no elements.
    pub fn new() -> (r: Self)
        ensures
            r.elements@.len() == 0,
    {
        UIEngine { elements: Vec::new() }
    }

    /// Run layout and instance encoding for the whole tree against the
    /// given display size. The output depends on the tree and the display
    /// size alone, so an unchanged tree yields identical records every
    /// frame.
    pub fn update(&self, display_size: Vec2) -> (r: FrameOutput)
        requires
            vec2_ok(display_size),
            display_size.x >= 1,
            display_size.y >= 1,
            forest_ok(self.elements@),
        ensures
            r.writes@ == frame_writes(self.elements@, display_size),
            r.text_areas@ == frame_texts(self.elements@, display_size),
    {
        let info = UIRenderInfo {
            position: Vec2 { x: 0, y: 0 },
            size: display_size,
            display_size: display_size,
        };
        let mut writes: Vec<InstanceWrite> = Vec::new();
        let mut text_areas: Vec<TextArea> = Vec::new();
        update_ui(&info, &self.elements, &mut text_areas, &mut writes, LAYER_START);
        proof {
            assert(writes@ =~= frame_writes(self.elements@, display_size));
            assert(text_areas@ =~= frame_texts(self.elements@, display_size));
        }
        FrameOutput { writes, text_areas }
    }
}

/// Idempotence law: resolving the same unchanged tree twice against the
/// same display size yields identical instance records and text areas -
/// frame output is a function of the tree and the display size alone.
pub proof fn lemma_update_idempotent(
    elements: Seq<UIElement>,
    display_size: Vec2,
    first: Seq<InstanceWrite>,
    second: Seq<InstanceWrite>,
)
    requires
        first == frame_writes(elements, display_size),
        second == frame_writes(elements, display_size),
    ensures
        first == second,
{
}

} // verus!
