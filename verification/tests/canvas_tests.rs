use forte_ui::canvas::{BufferSyncAction, UICanvas};
use forte_ui::elements::BufferHandle;

/// A stand-in for the GPU buffer API that counts allocations, as a renderer
/// driving a batched canvas would perform them.
struct CountingAllocator {
    creates: usize,
}

impl CountingAllocator {
    fn apply(&mut self, action: BufferSyncAction) {
        if action == BufferSyncAction::Reallocate {
            self.creates += 1;
        }
    }
}

#[test]
fn buffer_reuse_law() {
    // two consecutive frames with identical element counts never trigger a
    // reallocation: zero creates after the first frame
    let mut canvas = UICanvas::new(BufferHandle(1));
    let mut gpu = CountingAllocator { creates: 0 };
    gpu.apply(canvas.sync(12));
    let after_first = gpu.creates;
    for _ in 0..10 {
        gpu.apply(canvas.sync(12));
    }
    assert_eq!(after_first, 1);
    assert_eq!(gpu.creates, after_first);
}

#[test]
fn first_frame_reallocates() {
    let mut canvas = UICanvas::new(BufferHandle(1));
    assert_eq!(canvas.sync(3), BufferSyncAction::Reallocate);
    assert_eq!(canvas.last_count, 3);
}

#[test]
fn empty_first_frame_writes_in_place() {
    // a canvas starts sized for zero instances, so an empty frame reuses it
    let mut canvas = UICanvas::new(BufferHandle(1));
    assert_eq!(canvas.sync(0), BufferSyncAction::WriteInPlace);
}

#[test]
fn count_change_reallocates_then_settles() {
    let mut canvas = UICanvas::new(BufferHandle(8));
    assert_eq!(canvas.sync(4), BufferSyncAction::Reallocate);
    assert_eq!(canvas.sync(4), BufferSyncAction::WriteInPlace);
    assert_eq!(canvas.sync(5), BufferSyncAction::Reallocate);
    assert_eq!(canvas.sync(5), BufferSyncAction::WriteInPlace);
    assert_eq!(canvas.sync(4), BufferSyncAction::Reallocate);
    assert_eq!(canvas.buffer, BufferHandle(8));
}
