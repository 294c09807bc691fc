//! What holds of every renderer, whatever the host and the device do.
//!
//! Each law is stated over the model and proved from its transitions.

use vstd::prelude::*;

use crate::command::{location_for, releases, submits_work, Command};
use crate::model::{lemma_initial_wf, lemma_step_preserves_wf, Event, Phase, RendererState};
use crate::ownership::Owned;
use crate::script::recreate;
use crate::surface::planned_swapchain;
use crate::vulkan::{
    ERROR_OUT_OF_DATE, FENCE_SIGNALED, NO_TIMEOUT, STAGE_COLOR_ATTACHMENT_OUTPUT, SUBOPTIMAL,
};

verus! {

/// The state after a whole sequence of events.
pub open spec fn run(s: RendererState, events: Seq<Event>) -> RendererState
    decreases events.len(),
{
    if events.len() == 0 {
        s
    } else {
        run(s, events.drop_last()).step(events.last())
    }
}

/// Whether `event` gives a renderer showing `width` by `height` a reason to
/// replace its swapchain: a request for another size or with a stale
/// overlay, or the device reporting the swapchain out of date or suboptimal.
pub open spec fn disturbs(event: Event, width: u32, height: u32) -> bool {
    match event {
        Event::Render { width: w, height: h, overlay_stale } => w != 0 && h != 0 && (w != width
            || h != height || overlay_stale),
        Event::AcquireFailed { code } => code == ERROR_OUT_OF_DATE,
        Event::Presented { suboptimal } => suboptimal,
        Event::PresentFailed { code } => code == ERROR_OUT_OF_DATE || code == SUBOPTIMAL,
        _ => false,
    }
}

/// Every state reached from a new renderer is well formed.
pub proof fn lemma_reachable_wf(width: u32, height: u32, events: Seq<Event>)
    ensures
        run(RendererState::initial(width, height), events).wf(),
    decreases events.len(),
{
    lemma_initial_wf(width, height);
    if events.len() > 0 {
        lemma_reachable_wf(width, height, events.drop_last());
        lemma_step_preserves_wf(
            run(RendererState::initial(width, height), events.drop_last()),
            events.last(),
        );
    }
}

/// One submission per slot at a time: a submission is only ever handed out
/// for the current slot, inside the ring, while nothing is in flight there;
/// and handing it out puts the slot in flight.
pub proof fn lemma_submit_into_idle_slot(s: RendererState, event: Event)
    requires
        s.wf(),
        s.answer(event) is Submit,
    ensures
        s.answer(event) == (Command::Submit {
            slot: s.current_frame,
            wait_stage: STAGE_COLOR_ATTACHMENT_OUTPUT,
        }),
        s.current_frame < s.ring_depth(),
        !s.in_flight[s.current_frame as int],
        s.step(event).in_flight[s.current_frame as int],
        event is Done && s.command() is FinishRecording,
{
}

/// Whatever the host and the device did since the renderer was new, no
/// submission is handed out for a slot that has one in flight.
pub proof fn lemma_submissions_never_overlap(
    width: u32,
    height: u32,
    events: Seq<Event>,
    event: Event,
)
    requires
        run(RendererState::initial(width, height), events).answer(event) is Submit,
    ensures
        ({
            let s = run(RendererState::initial(width, height), events);
            &&& s.answer(event) matches Command::Submit { slot, .. }
            &&& slot < s.ring_depth()
            &&& !s.in_flight[slot as int]
            &&& s.step(event).in_flight[slot as int]
        }),
{
    lemma_reachable_wf(width, height, events);
    lemma_submit_into_idle_slot(run(RendererState::initial(width, height), events), event);
}

/// A slot in flight stays in flight until the wait for its own fence, or
/// for the whole device, has come back.
pub proof fn lemma_in_flight_until_waited(s: RendererState, event: Event, slot: int)
    requires
        s.wf(),
        0 <= slot < s.ring_depth(),
        s.in_flight[slot],
        !(slot < s.step(event).ring_depth() && s.step(event).in_flight[slot]),
    ensures
        event is Done,
        s.command() == (Command::WaitFence { slot: slot as u32, timeout: NO_TIMEOUT })
            || s.command() == Command::WaitDeviceIdle,
{
    if s.accepts(event) {
        match s.phase {
            Phase::Recreating => {
                if s.cursor > 0 {
                    assert(s.work_outstanding());
                }
            },
            Phase::Destroying => {
                if s.cursor > 0 {
                    assert(s.work_outstanding());
                }
            },
            _ => {},
        }
    }
}

/// Between the wait for a slot's fence and the submission into that slot,
/// nothing is in flight in it.
pub proof fn lemma_frame_owns_its_slot(s: RendererState)
    requires
        s.wf(),
        s.phase is Rendering,
    ensures
        s.command() is ResetFence || s.command() is AcquireImage || s.command() is ReadClock
            || s.command() is WriteUniforms || s.command() is RecordScene
            || s.command() is RecordOverlay || s.command() is FinishRecording
            ==> !s.in_flight[s.current_frame as int],
        s.command() is Submit || s.command() is Present ==> s.in_flight[s.current_frame as int],
{
}

/// Every index a command names is in range: slots lie inside the ring,
/// and, once an image is acquired, inside the per-slot resources built at
/// construction; images lie inside the swapchain.
pub proof fn lemma_commands_in_range(s: RendererState)
    requires
        s.wf(),
    ensures
        match s.command() {
            Command::WaitFence { slot, .. }
            | Command::ResetFence { slot }
            | Command::AcquireImage { slot, .. } => slot < s.ring_depth(),
            Command::WriteUniforms { slot, .. } => slot < s.ring_depth() && slot < s.uniform_slots,
            Command::Submit { slot, .. } => slot < s.ring_depth() && slot < s.uniform_slots,
            Command::FinishRecording { slot } => slot < s.ring_depth() && slot < s.uniform_slots,
            Command::RecordScene { slot, image_index, .. }
            | Command::RecordOverlay { slot, image_index }
            | Command::Present { slot, image_index } => slot < s.ring_depth() && slot
                < s.uniform_slots && image_index < s.image_count,
            _ => true,
        },
{
}

/// The fixed terms of every command: waits have no time limit, fences are
/// created signaled, a submission waits for its image at colour output, and
/// memory lies where its purpose says.
pub proof fn lemma_commands_keep_their_terms(s: RendererState)
    ensures
        match s.command() {
            Command::WaitFence { timeout, .. } | Command::AcquireImage { timeout, .. } => timeout
                == NO_TIMEOUT,
            Command::CreateSyncObjects { fence_flags, .. } => fence_flags == FENCE_SIGNALED,
            Command::Submit { wait_stage, .. } => wait_stage == STAGE_COLOR_ATTACHMENT_OUTPUT,
            Command::AllocateMemory { purpose, location, .. } => location == location_for(purpose),
            _ => true,
        },
{
}

/// A request with a zero width or height changes nothing at all.
pub proof fn lemma_zero_size_is_noop(s: RendererState, width: u32, height: u32, overlay_stale: bool)
    requires
        width == 0 || height == 0,
    ensures
        s.step(Event::Render { width, height, overlay_stale }) == s,
        s.answer(Event::Render { width, height, overlay_stale }) == if s.phase is Ready {
            Command::Idle
        } else {
            Command::Rejected
        },
{
}

/// When recreation ends the swapchain is fresh, the ring has one idle slot
/// per image, the frame index is zero, and the frame starts.
pub proof fn lemma_recreation_result(s: RendererState)
    requires
        s.wf(),
        s.phase is Recreating,
        s.cursor == recreate::LAST,
    ensures
        ({
            let t = s.step(Event::Done);
            &&& t.phase is Rendering
            &&& !t.dirty
            &&& t.current_frame == 0
            &&& t.ring_depth() == s.image_count
            &&& !t.work_outstanding()
            &&& t.width == s.width && t.height == s.height
            &&& t.uniform_slots == s.uniform_slots
            &&& s.answer(Event::Done) == (Command::WaitFence { slot: 0, timeout: NO_TIMEOUT })
        }),
{
}

/// A clean renderer asked again for the size it has goes straight to the
/// frame.
pub proof fn lemma_same_size_starts_frame(s: RendererState)
    requires
        s.wf(),
        s.phase is Ready,
        !s.dirty,
        s.width != 0,
        s.height != 0,
    ensures
        ({
            let request = Event::Render { width: s.width, height: s.height, overlay_stale: false };
            &&& s.step(request) == (RendererState { phase: Phase::Rendering, ..s })
            &&& s.answer(request) == (Command::WaitFence {
                slot: s.current_frame,
                timeout: NO_TIMEOUT,
            })
        }),
{
}

/// Recreation starts only on a request, and only for a cause: the swapchain
/// is stale, the size is new, or the overlay is stale.
pub proof fn lemma_recreation_needs_a_cause(s: RendererState, event: Event)
    requires
        s.wf(),
        !(s.phase is Recreating),
        s.step(event).phase is Recreating,
    ensures
        s.phase is Ready,
        event matches Event::Render { width, height, overlay_stale } && width != 0 && height != 0
            && (s.dirty || width != s.width || height != s.height || overlay_stale),
        s.answer(event) == Command::WaitDeviceIdle,
{
}

/// The swapchain turns stale only when the device says so.
pub proof fn lemma_dirty_needs_a_signal(s: RendererState, event: Event)
    requires
        s.wf(),
        !s.dirty,
        s.step(event).dirty,
    ensures
        match event {
            Event::AcquireFailed { code } => code == ERROR_OUT_OF_DATE,
            Event::Presented { suboptimal } => suboptimal,
            Event::PresentFailed { code } => code == ERROR_OUT_OF_DATE || code == SUBOPTIMAL,
            _ => false,
        },
{
}

/// Undisturbed, a clean renderer never recreates: through any number of
/// requests for the size it has, and whatever else happens that is no
/// reason to recreate, the swapchain stays fresh, the size stays, and the
/// renderer never enters recreation.
pub proof fn lemma_no_recreation_undisturbed(s: RendererState, events: Seq<Event>)
    requires
        s.wf(),
        !s.dirty,
        !(s.phase is Recreating),
        forall|i: int| 0 <= i < events.len() ==> !disturbs(#[trigger] events[i], s.width, s.height),
    ensures
        run(s, events).wf(),
        !run(s, events).dirty,
        !(run(s, events).phase is Recreating),
        run(s, events).width == s.width,
        run(s, events).height == s.height,
    decreases events.len(),
{
    if events.len() > 0 {
        let before = run(s, events.drop_last());
        assert forall|i: int| 0 <= i < events.drop_last().len() implies !disturbs(
            #[trigger] events.drop_last()[i],
            s.width,
            s.height,
        ) by {
            assert(events.drop_last()[i] == events[i]);
        }
        lemma_no_recreation_undisturbed(s, events.drop_last());
        lemma_step_preserves_wf(before, events.last());
        assert(!disturbs(events[events.len() - 1], s.width, s.height));
    }
}

/// An image that cannot be acquired because the swapchain is out of date
/// ends the frame on the spot: the swapchain is stale, nothing was
/// submitted or presented, the frame index has not moved. The next request
/// of any size but zero then starts with recreation.
pub proof fn lemma_out_of_date_recovery(
    s: RendererState,
    width: u32,
    height: u32,
    overlay_stale: bool,
)
    requires
        s.wf(),
        s.command() is AcquireImage,
        width != 0,
        height != 0,
    ensures
        ({
            let failure = Event::AcquireFailed { code: ERROR_OUT_OF_DATE };
            let request = Event::Render { width, height, overlay_stale };
            let t = s.step(failure);
            &&& s.answer(failure) == Command::Idle
            &&& t.phase is Ready
            &&& t.dirty
            &&& t.current_frame == s.current_frame
            &&& t.in_flight == s.in_flight
            &&& !t.in_flight[t.current_frame as int]
            &&& t.step(request).phase is Recreating
            &&& t.answer(request) == Command::WaitDeviceIdle
        }),
{
}

/// The frame that follows a recreation starts only when the recreation
/// script has run to its end, one command after the other.
pub proof fn lemma_recreation_runs_in_full(s: RendererState, event: Event)
    requires
        s.wf(),
        s.phase is Recreating,
    ensures
        s.step(event).phase is Recreating ==> s.step(event).cursor == s.cursor || s.step(
            event,
        ).cursor == s.cursor + 1,
        s.step(event).phase is Rendering ==> s.cursor == recreate::LAST && event is Done,
        s.step(event).phase is Recreating || s.step(event).phase is Rendering || s.step(
            event,
        ).phase is Faulted,
{
}

/// The ledger counts what the host reports: an allocation when an
/// allocating command is done, a free when a freeing command is done, and
/// nothing else.
pub proof fn lemma_ledger_follows_commands(s: RendererState, event: Event)
    requires
        s.wf(),
    ensures
        s.step(event).allocations_made - s.allocations_made == match (event, s.command()) {
            (Event::Done, Command::AllocateMemory { count, .. }) => count as int,
            _ => 0,
        },
        s.step(event).allocations_freed - s.allocations_freed == match (event, s.command()) {
            (Event::Done, Command::FreeMemory { count, .. }) => count as int,
            _ => 0,
        },
{
}

/// Allocation balance. Never more is freed than was allocated. From the end
/// of construction to the start of teardown exactly the uniform memory and
/// the vertex memory are live. A destroyed renderer has freed every
/// allocation it made.
pub proof fn lemma_allocation_balance(s: RendererState)
    requires
        s.wf(),
    ensures
        s.allocations_freed <= s.allocations_made,
        s.phase is Ready || s.phase is Recreating || s.phase is Rendering
            ==> s.live_allocations() == s.uniform_slots + 1,
        s.phase is Destroyed ==> s.live_allocations() == 0,
{
}

/// Whatever the host and the device did, a renderer that ends up destroyed
/// has freed exactly what it allocated.
pub proof fn lemma_destroyed_is_balanced(width: u32, height: u32, events: Seq<Event>)
    requires
        run(RendererState::initial(width, height), events).phase is Destroyed,
    ensures
        run(RendererState::initial(width, height), events).allocations_made == run(
            RendererState::initial(width, height),
            events,
        ).allocations_freed,
{
    lemma_reachable_wf(width, height, events);
}

/// Nothing is destroyed, freed or released while work may be running on the
/// device: every such command is handed out only after a wait for the
/// device, or the queue, has come back and before anything new is
/// submitted.
pub proof fn lemma_release_needs_idle_device(s: RendererState, event: Event)
    requires
        s.wf(),
        releases(s.answer(event)),
    ensures
        !s.step(event).work_outstanding(),
{
    lemma_step_preserves_wf(s, event);
}

/// Work is outstanding only from a submission on.
pub proof fn lemma_work_starts_with_submission(s: RendererState, event: Event)
    requires
        s.wf(),
        !s.work_outstanding(),
        s.step(event).work_outstanding(),
    ensures
        submits_work(s.answer(event)),
{
    let t = s.step(event);
    lemma_step_preserves_wf(s, event);
    if s.accepts(event) {
        if exists|i: int| 0 <= i < t.in_flight.len() && #[trigger] t.in_flight[i] {
            let i = choose|i: int| 0 <= i < t.in_flight.len() && #[trigger] t.in_flight[i];
            if i < s.in_flight.len() {
                assert(!s.in_flight[i]);
            }
        }
    }
}

/// The allocator is given up last: when the command to release it is handed
/// out, no allocation is live and the device is idle; when it is done the
/// renderer is destroyed.
pub proof fn lemma_allocator_released_last(s: RendererState, event: Event)
    requires
        s.wf(),
        s.answer(event) is ReleaseAllocator,
    ensures
        s.step(event).live_allocations() == 0,
        !s.step(event).work_outstanding(),
        s.step(event).step(Event::Done).phase is Destroyed,
        s.step(event).answer(Event::Done) == Command::Idle,
{
    lemma_step_preserves_wf(s, event);
}

/// Teardown starts only from between frames, and begins by draining the
/// device.
pub proof fn lemma_teardown_starts_idle(s: RendererState, event: Event)
    requires
        s.wf(),
        !(s.phase is Destroying),
        s.step(event).phase is Destroying,
    ensures
        s.phase is Ready,
        event is Destroy,
        s.answer(event) == Command::WaitDeviceIdle,
{
}

/// The device can take every command it is handed: nothing is created
/// twice, nothing destroyed that is not there or that something still hangs
/// on, no slot or image used that does not exist.
pub proof fn lemma_commands_are_permitted(s: RendererState, event: Event)
    requires
        s.wf(),
        !(s.step(event).phase is Faulted),
    ensures
        s.step(event).owned.permits(s.answer(event)),
{
    lemma_step_preserves_wf(s, event);
}

/// What hangs on something else never outlives it: views have their
/// swapchain, framebuffers their views and their render pass, the pipeline
/// its layout, descriptor sets their pool, and memory the allocator.
pub proof fn lemma_dependencies_met(s: RendererState)
    requires
        s.wf(),
        !(s.phase is Faulted),
    ensures
        s.owned.dependencies_met(),
{
}

/// Between frames and during one, the renderer owns exactly one swapchain
/// and, for each of its images, one view and one framebuffer; one render
/// pass; one ring slot per image; and, per uniform slot, one buffer with its
/// memory and one descriptor set. Nothing of the upload is left.
pub proof fn lemma_steady_ownership(s: RendererState)
    requires
        s.wf(),
        s.phase is Ready || s.phase is Rendering,
    ensures
        s.owned == s.owned_when_steady(),
        s.owned.swapchain && s.owned.render_pass && s.owned.allocator,
        s.owned.image_views == s.image_count,
        s.owned.framebuffers == s.image_count,
        s.owned.sync_slots == s.image_count,
        s.owned.sync_slots == s.ring_depth(),
        s.owned.uniform_buffers == s.uniform_slots,
        s.owned.uniform_memory == s.uniform_slots,
        s.owned.descriptor_sets == s.uniform_slots,
        !s.owned.staging_buffer && !s.owned.staging_memory && !s.owned.copy_command_buffer,
{
}

/// Recreation replaces what hangs on the swapchain and nothing else: what
/// is owned per uniform slot, the pipeline and the vertex buffer are there
/// before, throughout and after.
pub proof fn lemma_recreation_keeps_the_rest(s: RendererState)
    requires
        s.wf(),
        s.phase is Recreating,
    ensures
        s.owned.uniform_buffers == s.uniform_slots,
        s.owned.uniform_memory == s.uniform_slots,
        s.owned.descriptor_set_layouts == s.uniform_slots,
        s.owned.descriptor_sets == s.uniform_slots,
        s.owned.descriptor_pool,
        s.owned.pipeline && s.owned.pipeline_layout,
        s.owned.vertex_buffer && s.owned.vertex_memory,
        s.owned.allocator,
{
}

/// A destroyed renderer owns nothing.
pub proof fn lemma_destroyed_owns_nothing(s: RendererState)
    requires
        s.wf(),
        s.phase is Destroyed,
    ensures
        s.owned == Owned::nothing(),
        s.ring_depth() == 0,
{
}

/// The ledger and the device agree: the allocations made and not freed are
/// the pieces of memory owned.
pub proof fn lemma_ledger_matches_memory(s: RendererState)
    requires
        s.wf(),
        !(s.phase is Faulted),
    ensures
        s.live_allocations() == s.owned.live_memory(),
{
}

/// The ring is as deep as there are synchronisation objects.
pub proof fn lemma_ring_matches_sync_objects(s: RendererState)
    requires
        s.wf(),
        !(s.phase is Faulted),
    ensures
        s.owned.sync_slots == s.ring_depth(),
{
}

/// A failed command stops the renderer on the spot: nothing is retried,
/// and what is owned and what is allocated stay as they were before it.
pub proof fn lemma_failure_stops_the_renderer(s: RendererState, event: Event)
    requires
        s.accepts(event),
        event is Failed || event is AllocatorFailed,
    ensures
        s.step(event).phase is Faulted,
        s.answer(event) is Abort,
        s.step(event).owned == s.owned,
        s.step(event).allocations_made == s.allocations_made,
        s.step(event).allocations_freed == s.allocations_freed,
        s.step(event).in_flight == s.in_flight,
{
}

/// The renderer stops only for cause: a command failed, the surface allows
/// no swapchain, the swapchain came without images, the frame's slot or
/// image does not exist, or presentation failed for another reason than a
/// stale swapchain. Running out of date is never such a cause.
pub proof fn lemma_fault_has_a_cause(s: RendererState, event: Event)
    requires
        s.wf(),
        !(s.phase is Faulted),
        s.step(event).phase is Faulted,
    ensures
        match event {
            Event::Failed { .. } | Event::AllocatorFailed => true,
            Event::Surface { formats, capabilities } => planned_swapchain(
                formats,
                capabilities,
                s.width,
                s.height,
            ) is Err,
            Event::SwapchainCreated { image_count } => image_count == 0,
            Event::Acquired { image_index, .. } => s.current_frame >= s.uniform_slots
                || image_index >= s.image_count,
            Event::PresentFailed { code } => code != ERROR_OUT_OF_DATE && code != SUBOPTIMAL,
            _ => false,
        },
{
}

/// A stopped or destroyed renderer stays as it is.
pub proof fn lemma_terminal_states(s: RendererState, event: Event)
    requires
        s.phase is Destroyed || s.phase is Faulted,
    ensures
        s.step(event) == s,
        s.answer(event) == Command::Rejected,
{
}

} // verus!
