//! The frame synchronizer model.
//!
//! One frame tick runs acquire, record, submit, present.  The GPU and
//! the presentation engine answer asynchronously; the driver performs
//! those calls and reports their outcomes as a `TickEvents` value.  The
//! whole tick is specified by the pure transition function `tick`, and
//! the executable frame cycle (`context::GraphicsContext::end_frame`) is
//! proved to follow it exactly.

use vstd::prelude::*;
use crate::batch::DrawRecord;
use crate::swapchain::SwapchainStatus;
use crate::types::Color;

verus! {

/// Per-in-flight-frame synchronization state: in the real backend an
/// acquire semaphore, a render-complete semaphore, and a completion
/// fence.  The model tracks whether the fence is signaled, which is the
/// fact the reuse rule depends on.
#[derive(Debug, Clone, Copy, PartialEq, Eq, Structural)]
pub struct FrameSlot {
    /// Whether the slot's completion fence is signaled.  An unsignaled
    /// fence means the slot's submission is still in flight.
    pub fence_signaled: bool,
}

/// The pool of frame slots, reused round-robin.  A slot may not be
/// reused until its fence signals completion.
#[derive(Debug)]
pub struct FrameSync {
    /// One slot per swapchain image.
    pub slots: Vec<FrameSlot>,
    /// Index of the slot the next submission will use.
    pub current: usize,
}

impl FrameSync {
    /// The fence states of all slots, in order.
    pub open spec fn fences(self) -> Seq<bool> {
        self.slots@.map_values(|s: FrameSlot| s.fence_signaled)
    }

    /// One slot per swapchain image, and a valid cursor.
    pub open spec fn wf(self, image_count: usize) -> bool {
        &&& self.slots@.len() == image_count
        &&& self.current < image_count
    }

    /// A fresh pool of `count` slots, all signaled (nothing in flight).
    pub fn new(count: usize) -> (f: FrameSync)
        requires
            count >= 1,
        ensures
            f.wf(count),
            f.current == 0,
            f.fences() =~= Seq::new(count as nat, |i: int| true),
    {
        let mut slots: Vec<FrameSlot> = Vec::new();
        for i in 0..count
            invariant
                slots@.len() == i,
                forall|j: int| 0 <= j < i ==> (#[trigger] slots@[j]).fence_signaled,
        {
            slots.push(FrameSlot { fence_signaled: true });
        }
        let f = FrameSync { slots, current: 0 };
        proof {
            assert forall|i: int| 0 <= i < count implies f.fences()[i] == true by {
                assert(f.slots@[i].fence_signaled);
            }
        }
        f
    }

    /// Marks every fence signaled: the device has been waited idle, so
    /// no submission is in flight any more.  Resets the cursor, as the
    /// slots are replaced together with the swapchain images.
    pub fn reset_after_idle(&mut self)
        ensures
            final(self).slots@.len() == old(self).slots@.len(),
            final(self).current == 0,
            final(self).fences() =~= Seq::new(old(self).slots@.len(), |i: int| true),
    {
        let n = self.slots.len();
        for i in 0..n
            invariant
                self.slots@.len() == n,
                forall|j: int| 0 <= j < i ==> (#[trigger] self.slots@[j]).fence_signaled,
        {
            self.slots[i] = FrameSlot { fence_signaled: true };
        }
        self.current = 0;
        proof {
            assert forall|i: int| 0 <= i < n implies self.fences()[i] == true by {
                assert(self.slots@[i].fence_signaled);
            }
        }
    }

    /// Marks the current slot's fence unsignaled (its submission is now
    /// in flight) and advances the cursor round-robin.
    pub fn mark_in_flight(&mut self)
        requires
            old(self).current < old(self).slots@.len(),
        ensures
            final(self).slots@.len() == old(self).slots@.len(),
            final(self).fences() =~= old(self).fences().update(old(self).current as int, false),
            final(self).current == if old(self).current + 1 == old(self).slots@.len() {
                0usize
            } else {
                (old(self).current + 1) as usize
            },
    {
        let i = self.current;
        let n = self.slots.len();
        self.slots[i] = FrameSlot { fence_signaled: false };
        self.current = if i + 1 == n {
            0
        } else {
            i + 1
        };
        proof {
            assert forall|j: int| 0 <= j < self.slots@.len() implies self.fences()[j]
                == old(self).fences().update(i as int, false)[j] by {
                if j != i as int {
                    assert(self.slots@[j] == old(self).slots@[j]);
                }
            }
        }
    }

    /// Whether the current slot's fence is signaled.
    pub fn current_signaled(&self) -> (r: bool)
        requires
            self.current < self.slots@.len(),
        ensures
            r == self.fences()[self.current as int],
    {
        self.slots[self.current].fence_signaled
    }
}

/// What the driver's image-acquire call reported.
#[derive(Debug, Clone, Copy, PartialEq, Eq, Structural)]
pub enum AcquireOutcome {
    /// A presentable image, by index.
    Acquired(usize),
    /// The presentation engine considers the swapchain out of date.
    OutOfDate,
}

/// What the driver's present-request call reported.
#[derive(Debug, Clone, Copy, PartialEq, Eq, Structural)]
pub enum PresentOutcome {
    /// The image was queued for presentation.
    Completed,
    /// The presentation engine considers the swapchain out of date.
    OutOfDate,
}

/// Everything the external driver reports for one frame tick: the
/// surface's current pixel extent, the acquire outcome, whether a wait
/// on the frame slot's fence completed within the internal bound, and
/// the present outcome.
#[derive(Debug, Clone, Copy, PartialEq, Eq, Structural)]
pub struct TickEvents {
    /// The surface's current width, in pixels (0 when minimized).
    pub surface_width: u32,
    /// The surface's current height, in pixels (0 when minimized).
    pub surface_height: u32,
    /// Outcome of acquiring a presentable image.
    pub acquire: AcquireOutcome,
    /// Whether waiting on an unsignaled frame fence succeeded within the
    /// internal bound.  Ignored when the fence was already signaled.
    pub fence_wait_completed: bool,
    /// Outcome of requesting presentation.
    pub present: PresentOutcome,
}

/// The one primary command buffer built for a frame: a render pass that
/// clears the acquired framebuffer and replays the batch in insertion
/// order.
#[derive(Debug, Clone, PartialEq, Eq)]
pub struct CommandBuffer {
    /// The clear color of the render pass.
    pub clear_color: Color,
    /// Index of the framebuffer (swapchain image) targeted.
    pub framebuffer_index: usize,
    /// The draw records, in the order they were issued.
    pub records: Vec<DrawRecord>,
}

/// What a frame tick produced.
#[derive(Debug)]
pub enum FrameOutput {
    /// A command buffer was submitted.  `displayed` is false when the
    /// present request reported the swapchain out of date, in which case
    /// the frame is lost and the swapchain is recreated next tick.
    Submitted {
        /// The acquired swapchain image index.
        image_index: usize,
        /// The submitted primary command buffer.
        commands: CommandBuffer,
        /// Whether the image was actually queued for presentation.
        displayed: bool,
    },
    /// The tick was abandoned: the swapchain was stale (or its surface
    /// degenerate) and no image was rendered.  Not an error; the batch
    /// content is dropped and the next tick proceeds normally.
    Skipped,
}

/// The synchronization-related state of the renderer, as one plain
/// value: swapchain status and extent, fence states, and the slot
/// cursor.  The number of fences equals the swapchain image count.
#[verifier::ext_equal]
pub struct SyncView {
    /// Swapchain lifecycle state.
    pub status: SwapchainStatus,
    /// Swapchain width in pixels.
    pub width: u32,
    /// Swapchain height in pixels.
    pub height: u32,
    /// Fence state of each frame slot.
    pub fences: Seq<bool>,
    /// Index of the slot the next submission uses.
    pub current: int,
}

/// A well-formed synchronization state: at least two images, cursor in
/// range.
pub open spec fn sync_wf(v: SyncView) -> bool {
    &&& v.fences.len() >= 2
    &&& 0 <= v.current < v.fences.len()
}

/// What one frame tick decides.
pub enum TickDecision {
    /// A command buffer for the given image index was submitted.
    Submitted {
        /// The acquired image index.
        image_index: int,
        /// Whether presentation was actually queued.
        displayed: bool,
    },
    /// The frame was abandoned with no submission.
    Skipped,
    /// Waiting for a frame fence exceeded the internal bound: fatal.
    TimedOut,
}

/// The pure transition of one frame tick.
///
/// If the swapchain is stale, it is recreated first from the surface's
/// current extent; a degenerate extent leaves it in `StaleOnResize` to
/// retry next tick.  Recreation implies a device-idle wait, so every
/// fence comes back signaled and the slots are replaced.  Then the tick
/// acquires an image (going stale abandons the tick), confirms the
/// current slot's fence is signaled before reusing it (submitting marks
/// it unsignaled and advances the cursor), and requests presentation
/// (going stale there marks the swapchain for recreation without
/// treating the submission as an error).
pub open spec fn tick(v: SyncView, ev: TickEvents) -> (SyncView, TickDecision) {
    if v.status is StaleOnResize || v.status is StaleOnAcquire {
        if ev.surface_width == 0 || ev.surface_height == 0 {
            (
                SyncView {
                    status: SwapchainStatus::StaleOnResize,
                    width: v.width,
                    height: v.height,
                    fences: v.fences,
                    current: v.current,
                },
                TickDecision::Skipped,
            )
        } else {
            let recreated = SyncView {
                status: SwapchainStatus::Valid,
                width: ev.surface_width,
                height: ev.surface_height,
                fences: Seq::new(v.fences.len(), |i: int| true),
                current: 0,
            };
            tick_acquire(recreated, ev)
        }
    } else {
        tick_acquire(v, ev)
    }
}

/// The acquire, submit, and present stages of a tick, on a valid
/// swapchain.
pub open spec fn tick_acquire(v: SyncView, ev: TickEvents) -> (SyncView, TickDecision) {
    match ev.acquire {
        AcquireOutcome::OutOfDate => (
            SyncView {
                status: SwapchainStatus::StaleOnAcquire,
                width: v.width,
                height: v.height,
                fences: v.fences,
                current: v.current,
            },
            TickDecision::Skipped,
        ),
        AcquireOutcome::Acquired(idx) => {
            if !v.fences[v.current] && !ev.fence_wait_completed {
                (v, TickDecision::TimedOut)
            } else {
                let submitted = SyncView {
                    status: v.status,
                    width: v.width,
                    height: v.height,
                    fences: v.fences.update(v.current, false),
                    current: if v.current + 1 == v.fences.len() {
                        0
                    } else {
                        v.current + 1
                    },
                };
                match ev.present {
                    PresentOutcome::Completed => (
                        submitted,
                        TickDecision::Submitted { image_index: idx as int, displayed: true },
                    ),
                    PresentOutcome::OutOfDate => (
                        SyncView {
                            status: SwapchainStatus::StaleOnAcquire,
                            width: submitted.width,
                            height: submitted.height,
                            fences: submitted.fences,
                            current: submitted.current,
                        },
                        TickDecision::Submitted { image_index: idx as int, displayed: false },
                    ),
                }
            }
        },
    }
}

/// How many fences in the pool are unsignaled, that is, how many
/// submissions are in flight.
pub open spec fn unsignaled_count(fences: Seq<bool>) -> int
    decreases fences.len(),
{
    if fences.len() == 0 {
        0
    } else {
        (if fences[0] {
            0int
        } else {
            1int
        }) + unsignaled_count(fences.subrange(1, fences.len() as int))
    }
}

/// There can never be more unsignaled fences than slots.
pub proof fn lemma_unsignaled_le_len(fences: Seq<bool>)
    ensures
        0 <= unsignaled_count(fences) <= fences.len(),
    decreases fences.len(),
{
    if fences.len() > 0 {
        lemma_unsignaled_le_len(fences.subrange(1, fences.len() as int));
    }
}

/// One tick keeps the synchronization state well-formed and never
/// changes the number of slots.
pub proof fn lemma_tick_preserves_wf(v: SyncView, ev: TickEvents)
    requires
        sync_wf(v),
    ensures
        sync_wf(tick(v, ev).0),
        tick(v, ev).0.fences.len() == v.fences.len(),
{
}

/// A stale swapchain is recreated by the next tick whose surface
/// extent is usable: whatever else the driver reports, the swapchain
/// comes out of the tick with exactly the surface's extent, and when
/// neither the acquire nor the present goes stale again it comes out
/// valid.  In particular, a resize notification followed by one
/// successful frame cycle leaves a valid swapchain at the new size.
pub proof fn lemma_stale_swapchain_recreated(v: SyncView, ev: TickEvents)
    requires
        sync_wf(v),
        v.status is StaleOnResize || v.status is StaleOnAcquire,
        ev.surface_width > 0,
        ev.surface_height > 0,
    ensures
        tick(v, ev).0.width == ev.surface_width,
        tick(v, ev).0.height == ev.surface_height,
        ev.acquire !is OutOfDate && ev.present is Completed ==> tick(v, ev).0.status is Valid,
{
}

/// The synchronization state after a whole sequence of frame ticks.
pub open spec fn run_ticks(v: SyncView, evs: Seq<TickEvents>) -> SyncView
    decreases evs.len(),
{
    if evs.len() == 0 {
        v
    } else {
        run_ticks(tick(v, evs[0]).0, evs.subrange(1, evs.len() as int))
    }
}

/// For all frames: however many ticks run and whatever the driver
/// reports, the number of frame slots with an unsignaled fence never
/// exceeds the swapchain image count.
pub proof fn lemma_frames_in_flight_bounded(v: SyncView, evs: Seq<TickEvents>)
    requires
        sync_wf(v),
    ensures
        sync_wf(run_ticks(v, evs)),
        run_ticks(v, evs).fences.len() == v.fences.len(),
        unsignaled_count(run_ticks(v, evs).fences) <= v.fences.len(),
    decreases evs.len(),
{
    if evs.len() == 0 {
        lemma_unsignaled_le_len(v.fences);
    } else {
        lemma_tick_preserves_wf(v, evs[0]);
        lemma_frames_in_flight_bounded(tick(v, evs[0]).0, evs.subrange(1, evs.len() as int));
    }
}

} // verus!
