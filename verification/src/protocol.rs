//! The four scripts, run from end to end.
//!
//! Where the laws say what holds at every step, these theorems follow a
//! renderer through a whole construction, recreation, frame and teardown:
//! which commands it hands out, in which order, and where it ends.

use vstd::prelude::*;

use crate::command::Command;
use crate::model::{idle_ring, lemma_initial_wf, lemma_step_preserves_wf, Event, RendererState};
use crate::ownership::Owned;
use crate::script::{construct, recreate, teardown};
use crate::surface::{planned_swapchain, SurfaceCapabilities, SurfaceFormat};
use crate::vulkan::{NO_TIMEOUT, STAGE_COLOR_ATTACHMENT_OUTPUT};

verus! {

/// The state after `count` completions in a row.
pub open spec fn completions(s: RendererState, count: nat) -> RendererState
    decreases count,
{
    if count == 0 {
        s
    } else {
        completions(s, (count - 1) as nat).step(Event::Done)
    }
}

/// Number of commands in the construction script.
pub open spec fn construction_length() -> nat {
    (construct::LAST + 1) as nat
}

/// Each completion moves construction one position on, up to the end.
proof fn lemma_construction_progress(start: RendererState, k: nat)
    requires
        start.wf(),
        start.phase is Uninitialized,
        start.cursor == construct::CREATE_UNIFORM_BUFFERS,
        start.cursor + k <= construction_length(),
    ensures
        completions(start, k).wf(),
        completions(start, k).uniform_slots == start.uniform_slots,
        completions(start, k).image_count == start.image_count,
        start.cursor + k < construction_length() ==> completions(start, k).phase is Uninitialized
            && completions(start, k).cursor == start.cursor + k,
        start.cursor + k == construction_length() ==> completions(start, k).phase is Ready,
    decreases k,
{
    if k > 0 {
        lemma_construction_progress(start, (k - 1) as nat);
        lemma_step_preserves_wf(completions(start, (k - 1) as nat), Event::Done);
    }
}

/// Construction, from a new renderer to a ready one. Given a surface a
/// swapchain can be planned for and a swapchain with images, the renderer
/// goes through its whole script, one position with each completion. It
/// ends ready, with the swapchain marked stale so that the first frame
/// builds it afresh, a ring of one idle slot per image, and, live, the
/// memory of one uniform buffer per image and of the vertex buffer.
pub proof fn lemma_construction_protocol(
    width: u32,
    height: u32,
    formats: Seq<SurfaceFormat>,
    capabilities: SurfaceCapabilities,
    image_count: u32,
)
    requires
        planned_swapchain(formats, capabilities, width, height) is Ok,
        image_count > 0,
    ensures
        ({
            let new = RendererState::initial(width, height);
            let planned = new.step(Event::Surface { formats, capabilities });
            let sized = planned.step(Event::SwapchainCreated { image_count });
            let rest = (construction_length() - construct::CREATE_UNIFORM_BUFFERS) as nat;
            let ready = completions(sized, rest);
            &&& new.command() == Command::QuerySurface
            &&& planned.command() == (Command::CreateSwapchain {
                plan: planned_swapchain(formats, capabilities, width, height)->Ok_0,
            })
            &&& sized.command() == (Command::CreateUniformBuffers { count: image_count })
            &&& ready.phase is Ready
            &&& ready.dirty
            &&& ready.current_frame == 0
            &&& ready.image_count == image_count
            &&& ready.uniform_slots == image_count
            &&& ready.in_flight == idle_ring(image_count as nat)
            &&& ready.live_allocations() == image_count + 1
            &&& ready.owned == ready.owned_when_steady()
        }),
{
    let new = RendererState::initial(width, height);
    lemma_initial_wf(width, height);
    let planned = new.step(Event::Surface { formats, capabilities });
    lemma_step_preserves_wf(new, Event::Surface { formats, capabilities });
    let sized = planned.step(Event::SwapchainCreated { image_count });
    lemma_step_preserves_wf(planned, Event::SwapchainCreated { image_count });
    let rest = (construction_length() - construct::CREATE_UNIFORM_BUFFERS) as nat;
    lemma_construction_progress(sized, rest);
    let last = completions(sized, (rest - 1) as nat);
    lemma_construction_progress(sized, (rest - 1) as nat);
    assert(completions(sized, rest) == last.step(Event::Done));
}

/// Each completion moves recreation one position on, from the drain up to
/// the surface query and from the overlay's notice up to the end.
proof fn lemma_recreation_progress(start: RendererState, k: nat)
    requires
        start.wf(),
        start.phase is Recreating,
        start.cursor + k <= recreate::QUERY_SURFACE || (start.cursor >= recreate::NOTIFY_OVERLAY
            && start.cursor + k <= recreate::LAST + 1),
    ensures
        completions(start, k).wf(),
        completions(start, k).width == start.width,
        completions(start, k).height == start.height,
        completions(start, k).image_count == start.image_count,
        completions(start, k).uniform_slots == start.uniform_slots,
        completions(start, k).plan == start.plan,
        start.cursor + k <= recreate::LAST ==> completions(start, k).phase is Recreating
            && completions(start, k).cursor == start.cursor + k,
        start.cursor + k > recreate::LAST ==> completions(start, k).phase is Rendering,
    decreases k,
{
    if k > 0 {
        lemma_recreation_progress(start, (k - 1) as nat);
        lemma_step_preserves_wf(completions(start, (k - 1) as nat), Event::Done);
    }
}

/// Recreation, from the request that causes it to the frame it makes way
/// for. The device is drained and what hangs on the swapchain goes, the
/// swapchain last; the surface is asked again and the swapchain planned for
/// the size now wanted; the overlay is told, and render pass, framebuffers
/// and synchronisation objects are built again. Then the swapchain is
/// fresh, the ring has one idle slot per image, and the frame starts in
/// slot zero. What is sized at construction stays as it was.
pub proof fn lemma_recreation_protocol(
    s: RendererState,
    width: u32,
    height: u32,
    overlay_stale: bool,
    formats: Seq<SurfaceFormat>,
    capabilities: SurfaceCapabilities,
    image_count: u32,
)
    requires
        s.wf(),
        s.phase is Ready,
        width != 0,
        height != 0,
        s.dirty || width != s.width || height != s.height || overlay_stale,
        planned_swapchain(formats, capabilities, width, height) is Ok,
        image_count > 0,
    ensures
        ({
            let plan = planned_swapchain(formats, capabilities, width, height)->Ok_0;
            let draining = s.step(Event::Render { width, height, overlay_stale });
            let asking = completions(draining, recreate::QUERY_SURFACE as nat);
            let creating = asking.step(Event::Surface { formats, capabilities });
            let telling = creating.step(Event::SwapchainCreated { image_count });
            let rest = (recreate::LAST + 1 - recreate::NOTIFY_OVERLAY) as nat;
            let rendering = completions(telling, rest);
            &&& draining.command() == Command::WaitDeviceIdle
            &&& asking.command() == Command::QuerySurface
            &&& creating.command() == (Command::CreateSwapchain { plan })
            &&& telling.command() == (Command::NotifyOverlay {
                image_count,
                format: plan.format.format,
                width,
                height,
            })
            &&& rendering.command() == (Command::WaitFence { slot: 0, timeout: NO_TIMEOUT })
            &&& rendering.phase is Rendering
            &&& !rendering.dirty
            &&& rendering.width == width && rendering.height == height
            &&& rendering.plan == plan
            &&& rendering.image_count == image_count
            &&& rendering.in_flight == idle_ring(image_count as nat)
            &&& rendering.uniform_slots == s.uniform_slots
            &&& rendering.live_allocations() == s.live_allocations()
        }),
{
    let request = Event::Render { width, height, overlay_stale };
    let draining = s.step(request);
    lemma_step_preserves_wf(s, request);
    lemma_recreation_progress(draining, recreate::QUERY_SURFACE as nat);
    let asking = completions(draining, recreate::QUERY_SURFACE as nat);
    let creating = asking.step(Event::Surface { formats, capabilities });
    lemma_step_preserves_wf(asking, Event::Surface { formats, capabilities });
    let telling = creating.step(Event::SwapchainCreated { image_count });
    lemma_step_preserves_wf(creating, Event::SwapchainCreated { image_count });
    let rest = (recreate::LAST + 1 - recreate::NOTIFY_OVERLAY) as nat;
    lemma_recreation_progress(telling, rest);
    lemma_recreation_progress(telling, (rest - 1) as nat);
    let last = completions(telling, (rest - 1) as nat);
    assert(completions(telling, rest) == last.step(Event::Done));
}

/// Number of commands in the teardown script.
pub open spec fn teardown_length() -> nat {
    (teardown::LAST + 1) as nat
}

/// Each completion moves teardown one position on, up to the end.
proof fn lemma_teardown_progress(start: RendererState, k: nat)
    requires
        start.wf(),
        start.phase is Destroying,
        start.cursor == 0,
        k <= teardown_length(),
    ensures
        completions(start, k).wf(),
        k < teardown_length() ==> completions(start, k).phase is Destroying && completions(
            start,
            k,
        ).cursor == k,
        k == teardown_length() ==> completions(start, k).phase is Destroyed,
    decreases k,
{
    if k > 0 {
        lemma_teardown_progress(start, (k - 1) as nat);
        lemma_step_preserves_wf(completions(start, (k - 1) as nat), Event::Done);
    }
}

/// Teardown, from request to end. A ready renderer asked for teardown goes
/// through its whole script, one position with each completion: first the
/// device is drained; then go the synchronisation objects, the buffers with
/// their memory, the pipeline, what hangs on the swapchain, the descriptor
/// objects and the swapchain; the allocator is released last. Then the
/// renderer is destroyed, owns nothing, and has freed what it allocated.
pub proof fn lemma_teardown_protocol(s: RendererState)
    requires
        s.wf(),
        s.phase is Ready,
    ensures
        s.answer(Event::Destroy) == Command::WaitDeviceIdle,
        forall|k: nat|
            k < teardown_length() ==> {
                let t = #[trigger] completions(s.step(Event::Destroy), k);
                t.phase is Destroying && t.cursor == k
            },
        ({
            let t = completions(s.step(Event::Destroy), teardown_length());
            &&& t.phase is Destroyed
            &&& t.owned == Owned::nothing()
            &&& t.allocations_made == t.allocations_freed
        }),
{
    let start = s.step(Event::Destroy);
    lemma_step_preserves_wf(s, Event::Destroy);
    assert forall|k: nat| k < teardown_length() implies {
        let t = #[trigger] completions(start, k);
        t.phase is Destroying && t.cursor == k
    } by {
        lemma_teardown_progress(start, k);
    }
    lemma_teardown_progress(start, teardown_length());
}

/// One frame, from request to rest. A clean renderer asked for the size it
/// has waits for the slot's fence, resets it, acquires an image, reads the
/// clock, writes the uniforms, records the scene, lets the overlay record,
/// submits and presents, in this order; then it is ready again, one slot
/// further, with the slot it used in flight.
pub proof fn lemma_frame_protocol(s: RendererState, image_index: u32, suboptimal: bool, now: u64)
    requires
        s.wf(),
        s.phase is Ready,
        !s.dirty,
        s.width != 0,
        s.height != 0,
        s.current_frame < s.uniform_slots,
        image_index < s.image_count,
    ensures
        ({
            let slot = s.current_frame;
            let (width, height) = (s.width, s.height);
            let request = Event::Render { width, height, overlay_stale: false };
            let waiting = s.step(request);
            let resetting = waiting.step(Event::Done);
            let acquiring = resetting.step(Event::Done);
            let timing = acquiring.step(Event::Acquired { image_index, suboptimal });
            let writing = timing.step(Event::Clock { now });
            let recording = writing.step(Event::Done);
            let overlaying = recording.step(Event::Done);
            let finishing = overlaying.step(Event::Done);
            let submitting = finishing.step(Event::Done);
            let presenting = submitting.step(Event::Done);
            let rested = presenting.step(Event::Presented { suboptimal: false });
            &&& waiting.command() == (Command::WaitFence { slot, timeout: NO_TIMEOUT })
            &&& resetting.command() == (Command::ResetFence { slot })
            &&& acquiring.command() == (Command::AcquireImage { slot, timeout: NO_TIMEOUT })
            &&& timing.command() == Command::ReadClock
            &&& writing.command() == (Command::WriteUniforms {
                slot,
                rotation: writing.rotation,
                width,
                height,
            })
            &&& recording.command() == (Command::RecordScene {
                slot,
                image_index,
                width,
                height,
                extent: s.plan.extent,
            })
            &&& overlaying.command() == (Command::RecordOverlay { slot, image_index })
            &&& finishing.command() == (Command::FinishRecording { slot })
            &&& submitting.command() == (Command::Submit {
                slot,
                wait_stage: STAGE_COLOR_ATTACHMENT_OUTPUT,
            })
            &&& presenting.command() == (Command::Present { slot, image_index })
            &&& rested.command() == Command::Idle
            &&& rested.phase is Ready
            &&& !rested.dirty
            &&& rested.current_frame == (slot + 1) % (s.ring_depth() as int)
            &&& rested.in_flight == s.in_flight.update(slot as int, true)
            &&& rested.owned == s.owned
            &&& rested.live_allocations() == s.live_allocations()
        }),
{
    let request = Event::Render { width: s.width, height: s.height, overlay_stale: false };
    let waiting = s.step(request);
    lemma_step_preserves_wf(s, request);
    let resetting = waiting.step(Event::Done);
    lemma_step_preserves_wf(waiting, Event::Done);
    let acquiring = resetting.step(Event::Done);
    lemma_step_preserves_wf(resetting, Event::Done);
    let timing = acquiring.step(Event::Acquired { image_index, suboptimal });
    lemma_step_preserves_wf(acquiring, Event::Acquired { image_index, suboptimal });
    let writing = timing.step(Event::Clock { now });
    lemma_step_preserves_wf(timing, Event::Clock { now });
    let recording = writing.step(Event::Done);
    lemma_step_preserves_wf(writing, Event::Done);
    let overlaying = recording.step(Event::Done);
    lemma_step_preserves_wf(recording, Event::Done);
    let finishing = overlaying.step(Event::Done);
    lemma_step_preserves_wf(overlaying, Event::Done);
    let submitting = finishing.step(Event::Done);
    lemma_step_preserves_wf(finishing, Event::Done);
    let presenting = submitting.step(Event::Done);
    lemma_step_preserves_wf(submitting, Event::Done);
    let rested = presenting.step(Event::Presented { suboptimal: false });
    assert(rested.in_flight =~= s.in_flight.update(s.current_frame as int, true));
}

} // verus!
