//! The batched canvas: one GPU buffer shared by a whole subtree of
//! elements, rebuilt each frame.
//!
//! The canvas compares the current frame's instance count with the previous
//! frame's. When the counts are equal the renderer overwrites the buffer in
//! place; only when the count changes is the buffer discarded and a new one
//! of the exact required size created. In the steady state - consecutive
//! frames with the same element count - no reallocation ever happens.

use vstd::prelude::*;
use crate::elements::BufferHandle;

verus! {

/// How the renderer must bring the canvas buffer up to date this frame.
#[derive(Clone, Copy, Debug, PartialEq, Eq, Structural)]
pub enum BufferSyncAction {
    /// Overwrite the existing buffer from offset zero.
    WriteInPlace,
    /// Discard the buffer and create one sized for the new instance count.
    Reallocate,
}

/// A canvas aggregating a subtree into one shared instance buffer.
#[derive(Clone, Copy, Debug, PartialEq, Eq, Structural)]
pub struct UICanvas {
    /// The shared instance buffer.
    pub buffer: BufferHandle,
    /// The instance count the buffer was last sized for.
    pub last_count: usize,
}

/// The action a canvas in state `c` takes for a frame of `new_count`
/// instances: reuse exactly when the count is unchanged.
pub open spec fn sync_action(c: UICanvas, new_count: usize) -> BufferSyncAction {
    if new_count == c.last_count {
        BufferSyncAction::WriteInPlace
    } else {
        BufferSyncAction::Reallocate
    }
}

/// The canvas state after synchronizing a frame of `new_count` instances.
pub open spec fn sync_next(c: UICanvas, new_count: usize) -> UICanvas {
    UICanvas { buffer: c.buffer, last_count: new_count }
}

impl UICanvas {
    /// A new canvas over the given shared buffer, sized for no instances
    /// yet.
    pub fn new(buffer: BufferHandle) -> (r: Self)
        ensures
            r.buffer == buffer,
            r.last_count == 0,
    {
        UICanvas { buffer, last_count: 0 }
    }

    /// Record a frame of `new_count` instances and say whether the buffer
    /// can be overwritten in place or must be reallocated.
    pub fn sync(&mut self, new_count: usize) -> (r: BufferSyncAction)
        ensures
            r == sync_action(*old(self), new_count),
            *final(self) == sync_next(*old(self), new_count),
    {
        let action = if new_count == self.last_count {
            BufferSyncAction::WriteInPlace
        } else {
            BufferSyncAction::Reallocate
        };
        self.last_count = new_count;
        action
    }
}

/// Buffer reuse law: once a canvas has synchronized a frame of `n`
/// instances, a following frame of `n` instances never reallocates, and the
/// buffer handle never changes.
pub proof fn lemma_steady_count_reuses_buffer(c: UICanvas, n: usize)
    ensures
        sync_action(sync_next(c, n), n) == BufferSyncAction::WriteInPlace,
        sync_next(sync_next(c, n), n).buffer == c.buffer,
{
}

} // verus!
