//! The renderer as a state machine over plain values.
//!
//! A state is a phase, a position in that phase's script of commands, and
//! the few numbers the commands are made of. An event is a request from the
//! host or the host's answer to the outstanding command. [`RendererState::step`]
//! is the whole behaviour; [`RendererState::wf`] is what holds of every state
//! that can be reached.

use vstd::prelude::*;

use crate::command::{awaited, location_for, Command, FatalError, MemoryPurpose, Reply};
use crate::ownership::Owned;
use crate::rotation::{elapsed_between, rotation_after};
use crate::script::{construct, frame, recreate, teardown};
use crate::surface::{
    planned_swapchain, Extent, PlanError, SurfaceCapabilities, SurfaceFormat, SwapchainPlan,
};
use crate::vulkan::{
    ERROR_OUT_OF_DATE, FENCE_SIGNALED, NO_TIMEOUT, PRESENT_MODE_FIFO, STAGE_COLOR_ATTACHMENT_OUTPUT,
    SUBOPTIMAL,
};

verus! {

/// Where in its life a renderer is.
#[derive(Clone, Copy, Debug, PartialEq, Eq, Structural)]
pub enum Phase {
    /// Under construction: device objects are being created.
    Uninitialized,
    /// Between frames, waiting for a request.
    Ready,
    /// Replacing the swapchain and everything that hangs on it.
    Recreating,
    /// In the middle of a frame.
    Rendering,
    /// Being torn down.
    Destroying,
    /// Torn down; nothing is owned any more.
    Destroyed,
    /// Stopped by an error that cannot be recovered from.
    Faulted(FatalError),
}

/// What can happen to a renderer.
pub enum Event {
    /// The host asks for a frame of this size. `overlay_stale` says that the
    /// overlay needs the swapchain handed to it again.
    Render { width: u32, height: u32, overlay_stale: bool },
    /// The host asks for teardown.
    Destroy,
    /// The outstanding command was carried out.
    Done,
    /// The surface was queried.
    Surface { formats: Seq<SurfaceFormat>, capabilities: SurfaceCapabilities },
    /// The swapchain was created with this many images.
    SwapchainCreated { image_count: u32 },
    /// An image was acquired.
    Acquired { image_index: u32, suboptimal: bool },
    /// No image was acquired; `code` is Vulkan's result.
    AcquireFailed { code: i32 },
    /// The clock was read.
    Clock { now: u64 },
    /// The image was queued for presentation.
    Presented { suboptimal: bool },
    /// Presentation failed; `code` is Vulkan's result.
    PresentFailed { code: i32 },
    /// The device could not carry out the outstanding command; `code` is
    /// Vulkan's result.
    Failed { code: i32 },
    /// The allocator could not carry out the outstanding command.
    AllocatorFailed,
}

/// A ring of `depth` slots, none with work in flight.
pub open spec fn idle_ring(depth: nat) -> Seq<bool> {
    Seq::new(depth, |i: int| false)
}

/// The plan a renderer holds before it has made one.
pub open spec fn no_plan() -> SwapchainPlan {
    SwapchainPlan {
        format: SurfaceFormat { format: 0, color_space: 0 },
        extent: Extent { width: 0, height: 0 },
        image_count: 0,
        present_mode: PRESENT_MODE_FIFO,
        pre_transform: 0,
    }
}

/// A renderer, as far as its decisions go.
pub struct RendererState {
    pub phase: Phase,
    /// Position of the outstanding command in the phase's script.
    pub cursor: u8,
    /// The size last asked for.
    pub width: u32,
    pub height: u32,
    /// The plan of the current swapchain.
    pub plan: SwapchainPlan,
    /// Number of images of the current swapchain.
    pub image_count: u32,
    /// Number of uniform buffers, descriptor sets and command buffers, fixed
    /// at construction.
    pub uniform_slots: u32,
    /// The slot the next frame uses.
    pub current_frame: u32,
    /// The image acquired for the frame under way.
    pub acquired_image: u32,
    /// Whether the swapchain must be replaced before the next frame.
    pub dirty: bool,
    /// Per slot of the ring: whether a submission into it may still be
    /// running. Its length is the depth of the ring.
    pub in_flight: Seq<bool>,
    /// The clock at the first frame that got an image.
    pub start_time: Option<u64>,
    /// The rotation of the frame under way, in nanodegrees.
    pub rotation: u128,
    /// Memory allocations carried out so far.
    pub allocations_made: nat,
    /// Memory allocations freed so far.
    pub allocations_freed: nat,
    /// The device objects owned.
    pub owned: Owned,
}

impl RendererState {
    /// A renderer about to be constructed for a window of `width` by
    /// `height`.
    pub open spec fn initial(width: u32, height: u32) -> RendererState {
        RendererState {
            phase: Phase::Uninitialized,
            cursor: 0,
            width,
            height,
            plan: no_plan(),
            image_count: 0,
            uniform_slots: 0,
            current_frame: 0,
            acquired_image: 0,
            dirty: true,
            in_flight: Seq::empty(),
            start_time: None,
            rotation: 0,
            allocations_made: 0,
            allocations_freed: 0,
            owned: Owned::at_start(),
        }
    }

    /// Number of slots in the ring of frame resources.
    pub open spec fn ring_depth(self) -> nat {
        self.in_flight.len()
    }

    /// Allocations made and not yet freed.
    pub open spec fn live_allocations(self) -> int {
        self.allocations_made - self.allocations_freed
    }

    /// Whether work handed to the device may still be running: a frame in
    /// some slot, or the vertex upload.
    pub open spec fn work_outstanding(self) -> bool {
        ||| exists|i: int| 0 <= i < self.in_flight.len() && #[trigger] self.in_flight[i]
        ||| self.phase is Uninitialized && (self.cursor == construct::SUBMIT_COPY || self.cursor
            == construct::WAIT_QUEUE_IDLE)
    }

    /// The command that allocates the memory behind the buffers of
    /// `purpose`.
    pub open spec fn allocation(purpose: MemoryPurpose, count: u32) -> Command {
        Command::AllocateMemory { purpose, location: location_for(purpose), count }
    }

    /// Construction, in order. Everything per slot is sized to the number of
    /// swapchain images. The vertices reach the device through a staging
    /// buffer that is given back once the queue has drained. Fences start
    /// signaled, so that the first wait for each comes back.
    pub open spec fn construction_script(self) -> Command {
        let slots = self.uniform_slots;
        let format = self.plan.format.format;
        match self.cursor {
            construct::QUERY_SURFACE => Command::QuerySurface,
            construct::CREATE_SWAPCHAIN => Command::CreateSwapchain { plan: self.plan },
            construct::CREATE_UNIFORM_BUFFERS => Command::CreateUniformBuffers { count: slots },
            construct::ALLOCATE_UNIFORM_MEMORY => Self::allocation(MemoryPurpose::Uniform, slots),
            construct::BIND_UNIFORM_MEMORY => Command::BindMemory {
                purpose: MemoryPurpose::Uniform,
            },
            construct::CREATE_DESCRIPTOR_POOL => Command::CreateDescriptorPool { count: slots },
            construct::CREATE_DESCRIPTOR_SET_LAYOUTS => Command::CreateDescriptorSetLayouts {
                count: slots,
            },
            construct::CREATE_DESCRIPTOR_SETS => Command::CreateDescriptorSets { count: slots },
            construct::CREATE_RENDER_PASS => Command::CreateRenderPass { format },
            construct::CREATE_FRAMEBUFFERS => Command::CreateFramebuffers {
                count: self.image_count,
                format,
                extent: self.plan.extent,
            },
            construct::CREATE_PIPELINE => Command::CreatePipeline,
            construct::CREATE_STAGING_BUFFER => Command::CreateStagingBuffer,
            construct::ALLOCATE_STAGING_MEMORY => Self::allocation(MemoryPurpose::Staging, 1),
            construct::BIND_STAGING_MEMORY => Command::BindMemory {
                purpose: MemoryPurpose::Staging,
            },
            construct::FILL_STAGING_BUFFER => Command::FillStagingBuffer,
            construct::CREATE_VERTEX_BUFFER => Command::CreateVertexBuffer,
            construct::ALLOCATE_VERTEX_MEMORY => Self::allocation(MemoryPurpose::Vertex, 1),
            construct::BIND_VERTEX_MEMORY => Command::BindMemory { purpose: MemoryPurpose::Vertex },
            construct::SUBMIT_COPY => Command::SubmitCopy,
            construct::WAIT_QUEUE_IDLE => Command::WaitQueueIdle,
            construct::FREE_COPY_COMMAND_BUFFER => Command::FreeCopyCommandBuffer,
            construct::FREE_STAGING_MEMORY => Command::FreeMemory {
                purpose: MemoryPurpose::Staging,
                count: 1,
            },
            construct::DESTROY_STAGING_BUFFER => Command::DestroyStagingBuffer,
            construct::CREATE_COMMAND_BUFFERS => Command::CreateCommandBuffers { count: slots },
            _ => Command::CreateSyncObjects {
                count: self.image_count,
                fence_flags: FENCE_SIGNALED,
            },
        }
    }

    /// Recreation, in order: drain the device, drop what hangs on the old
    /// swapchain and the swapchain itself, build the new one and its
    /// dependents. Uniform buffers, descriptor sets, command buffers and the
    /// pipeline stay.
    pub open spec fn recreation_script(self) -> Command {
        let format = self.plan.format.format;
        match self.cursor {
            recreate::WAIT_DEVICE_IDLE => Command::WaitDeviceIdle,
            recreate::DESTROY_SYNC_OBJECTS => Command::DestroySyncObjects,
            recreate::DESTROY_FRAMEBUFFERS => Command::DestroyFramebuffers,
            recreate::DESTROY_IMAGE_VIEWS => Command::DestroyImageViews,
            recreate::DESTROY_RENDER_PASS => Command::DestroyRenderPass,
            recreate::DESTROY_SWAPCHAIN => Command::DestroySwapchain,
            recreate::QUERY_SURFACE => Command::QuerySurface,
            recreate::CREATE_SWAPCHAIN => Command::CreateSwapchain { plan: self.plan },
            recreate::NOTIFY_OVERLAY => Command::NotifyOverlay {
                image_count: self.image_count,
                format,
                width: self.width,
                height: self.height,
            },
            recreate::CREATE_RENDER_PASS => Command::CreateRenderPass { format },
            recreate::CREATE_FRAMEBUFFERS => Command::CreateFramebuffers {
                count: self.image_count,
                format,
                extent: self.plan.extent,
            },
            _ => Command::CreateSyncObjects {
                count: self.image_count,
                fence_flags: FENCE_SIGNALED,
            },
        }
    }

    /// One frame, in order. The waits have no time limit. The overlay
    /// records after the scene, into the same command buffer. The
    /// submission waits for the image at colour output, where the image is
    /// first written.
    pub open spec fn frame_script(self) -> Command {
        let slot = self.current_frame;
        let image_index = self.acquired_image;
        match self.cursor {
            frame::WAIT_FENCE => Command::WaitFence { slot, timeout: NO_TIMEOUT },
            frame::RESET_FENCE => Command::ResetFence { slot },
            frame::ACQUIRE_IMAGE => Command::AcquireImage { slot, timeout: NO_TIMEOUT },
            frame::READ_CLOCK => Command::ReadClock,
            frame::WRITE_UNIFORMS => Command::WriteUniforms {
                slot,
                rotation: self.rotation,
                width: self.width,
                height: self.height,
            },
            frame::RECORD_SCENE => Command::RecordScene {
                slot,
                image_index,
                width: self.width,
                height: self.height,
                extent: self.plan.extent,
            },
            frame::RECORD_OVERLAY => Command::RecordOverlay { slot, image_index },
            frame::FINISH_RECORDING => Command::FinishRecording { slot },
            frame::SUBMIT => Command::Submit { slot, wait_stage: STAGE_COLOR_ATTACHMENT_OUTPUT },
            _ => Command::Present { slot, image_index },
        }
    }

    /// Teardown, in order: drain the device; then synchronisation objects,
    /// buffers with their memory, the pipeline, what hangs on the swapchain,
    /// the descriptor objects, the swapchain; the allocator last.
    pub open spec fn teardown_script(self) -> Command {
        match self.cursor {
            teardown::WAIT_DEVICE_IDLE => Command::WaitDeviceIdle,
            teardown::DESTROY_SYNC_OBJECTS => Command::DestroySyncObjects,
            teardown::DESTROY_VERTEX_BUFFER => Command::DestroyVertexBuffer,
            teardown::FREE_VERTEX_MEMORY => Command::FreeMemory {
                purpose: MemoryPurpose::Vertex,
                count: 1,
            },
            teardown::DESTROY_UNIFORM_BUFFERS => Command::DestroyUniformBuffers,
            teardown::FREE_UNIFORM_MEMORY => Command::FreeMemory {
                purpose: MemoryPurpose::Uniform,
                count: self.uniform_slots,
            },
            teardown::DESTROY_PIPELINE => Command::DestroyPipeline,
            teardown::DESTROY_PIPELINE_LAYOUT => Command::DestroyPipelineLayout,
            teardown::DESTROY_FRAMEBUFFERS => Command::DestroyFramebuffers,
            teardown::DESTROY_IMAGE_VIEWS => Command::DestroyImageViews,
            teardown::DESTROY_RENDER_PASS => Command::DestroyRenderPass,
            teardown::DESTROY_DESCRIPTOR_SET_LAYOUTS => Command::DestroyDescriptorSetLayouts,
            teardown::DESTROY_DESCRIPTOR_POOL => Command::DestroyDescriptorPool,
            teardown::DESTROY_SWAPCHAIN => Command::DestroySwapchain,
            _ => Command::ReleaseAllocator,
        }
    }

    /// The outstanding command: what the host is to do next.
    pub open spec fn command(self) -> Command {
        match self.phase {
            Phase::Uninitialized => self.construction_script(),
            Phase::Ready => Command::Idle,
            Phase::Recreating => self.recreation_script(),
            Phase::Rendering => self.frame_script(),
            Phase::Destroying => self.teardown_script(),
            Phase::Destroyed => Command::Idle,
            Phase::Faulted(error) => Command::Abort(error),
        }
    }

    /// Whether `event` is one the renderer can take now: a request while it
    /// is ready, or the kind of answer the outstanding command waits for.
    pub open spec fn accepts(self, event: Event) -> bool {
        match event {
            Event::Render { .. } | Event::Destroy => self.phase is Ready,
            Event::Done => awaited(self.command()) == Reply::Completion,
            Event::Surface { .. } => awaited(self.command()) == Reply::Surface,
            Event::SwapchainCreated { .. } => awaited(self.command()) == Reply::Swapchain,
            Event::Acquired { .. } | Event::AcquireFailed { .. } => awaited(self.command())
                == Reply::Acquisition,
            Event::Clock { .. } => awaited(self.command()) == Reply::Clock,
            Event::Presented { .. } | Event::PresentFailed { .. } => awaited(self.command())
                == Reply::Presentation,
            Event::Failed { .. } => self.command().uses_device(),
            Event::AllocatorFailed => self.command().uses_allocator(),
        }
    }

    /// Whether `event` says that the outstanding command was carried out,
    /// rather than that it failed or that the host wants something.
    pub open spec fn completes(event: Event) -> bool {
        match event {
            Event::Render { .. } | Event::Destroy => false,
            Event::Failed { .. } | Event::AllocatorFailed => false,
            Event::AcquireFailed { .. } | Event::PresentFailed { .. } => false,
            _ => true,
        }
    }

    /// This state, stopped by `error`.
    pub open spec fn faulted(self, error: FatalError) -> RendererState {
        RendererState { phase: Phase::Faulted(error), cursor: 0, ..self }
    }

    /// This state, one position further in its script.
    pub open spec fn advanced(self) -> RendererState {
        RendererState { cursor: (self.cursor + 1) as u8, ..self }
    }

    /// This state, with nothing in flight in any slot.
    pub open spec fn drained(self) -> RendererState {
        RendererState { in_flight: idle_ring(self.in_flight.len()), ..self }
    }

    /// This state, between frames, with the frame index moved on.
    pub open spec fn frame_over(self, dirty: bool, advance: bool) -> RendererState {
        RendererState {
            phase: Phase::Ready,
            cursor: 0,
            dirty,
            current_frame: if advance {
                ((self.current_frame + 1) % (self.in_flight.len() as int)) as u32
            } else {
                self.current_frame
            },
            ..self
        }
    }

    /// A request for a frame. A zero size changes nothing. A stale
    /// swapchain, a new size or a stale overlay starts recreation; otherwise
    /// the frame starts.
    pub open spec fn on_render(
        self,
        width: u32,
        height: u32,
        overlay_stale: bool,
    ) -> RendererState {
        if width == 0 || height == 0 {
            self
        } else if self.dirty || width != self.width || height != self.height || overlay_stale {
            RendererState { phase: Phase::Recreating, cursor: 0, width, height, ..self }
        } else {
            RendererState { phase: Phase::Rendering, cursor: 0, ..self }
        }
    }

    /// A request for teardown.
    pub open spec fn on_destroy(self) -> RendererState {
        RendererState { phase: Phase::Destroying, cursor: 0, ..self }
    }

    /// A construction command was carried out.
    pub open spec fn construction_done(self) -> RendererState {
        if self.cursor == construct::ALLOCATE_UNIFORM_MEMORY {
            RendererState {
                allocations_made: self.allocations_made + self.uniform_slots as nat,
                ..self
            }.advanced()
        } else if self.cursor == construct::ALLOCATE_STAGING_MEMORY || self.cursor
            == construct::ALLOCATE_VERTEX_MEMORY {
            RendererState { allocations_made: self.allocations_made + 1, ..self }.advanced()
        } else if self.cursor == construct::FREE_STAGING_MEMORY {
            RendererState { allocations_freed: self.allocations_freed + 1, ..self }.advanced()
        } else if self.cursor >= construct::LAST {
            RendererState {
                phase: Phase::Ready,
                cursor: 0,
                in_flight: idle_ring(self.image_count as nat),
                current_frame: 0,
                dirty: true,
                ..self
            }
        } else {
            self.advanced()
        }
    }

    /// A recreation command was carried out. Once the device is idle nothing
    /// is in flight; with the synchronisation objects the ring goes; once
    /// the new ones exist the ring has one slot per image, the frame index
    /// is back at zero, the swapchain is fresh, and the frame that asked for
    /// all this starts.
    pub open spec fn recreation_done(self) -> RendererState {
        if self.cursor == recreate::WAIT_DEVICE_IDLE {
            self.drained().advanced()
        } else if self.cursor == recreate::DESTROY_SYNC_OBJECTS {
            RendererState { in_flight: Seq::empty(), ..self }.advanced()
        } else if self.cursor >= recreate::LAST {
            RendererState {
                phase: Phase::Rendering,
                cursor: 0,
                in_flight: idle_ring(self.image_count as nat),
                current_frame: 0,
                dirty: false,
                ..self
            }
        } else {
            self.advanced()
        }
    }

    /// A frame command was carried out. The fence wait shows that the slot's
    /// earlier submission is over; handing out the submission puts the slot
    /// in flight again.
    pub open spec fn frame_done(self) -> RendererState {
        let slot = self.current_frame as int;
        if self.cursor == frame::WAIT_FENCE {
            RendererState { in_flight: self.in_flight.update(slot, false), ..self }.advanced()
        } else if self.cursor == frame::FINISH_RECORDING {
            RendererState { in_flight: self.in_flight.update(slot, true), ..self }.advanced()
        } else {
            self.advanced()
        }
    }

    /// A teardown command was carried out.
    pub open spec fn teardown_done(self) -> RendererState {
        if self.cursor == teardown::WAIT_DEVICE_IDLE {
            self.drained().advanced()
        } else if self.cursor == teardown::DESTROY_SYNC_OBJECTS {
            RendererState { in_flight: Seq::empty(), ..self }.advanced()
        } else if self.cursor == teardown::FREE_VERTEX_MEMORY {
            RendererState { allocations_freed: self.allocations_freed + 1, ..self }.advanced()
        } else if self.cursor == teardown::FREE_UNIFORM_MEMORY {
            RendererState {
                allocations_freed: self.allocations_freed + self.uniform_slots as nat,
                ..self
            }.advanced()
        } else if self.cursor >= teardown::LAST {
            RendererState { phase: Phase::Destroyed, cursor: 0, ..self }
        } else {
            self.advanced()
        }
    }

    /// The outstanding command was carried out.
    pub open spec fn on_done(self) -> RendererState {
        match self.phase {
            Phase::Uninitialized => self.construction_done(),
            Phase::Recreating => self.recreation_done(),
            Phase::Rendering => self.frame_done(),
            Phase::Destroying => self.teardown_done(),
            _ => self,
        }
    }

    /// The surface was queried: plan the swapchain for the size last asked
    /// for, or stop if none can be planned.
    pub open spec fn on_surface(
        self,
        formats: Seq<SurfaceFormat>,
        capabilities: SurfaceCapabilities,
    ) -> RendererState {
        match planned_swapchain(formats, capabilities, self.width, self.height) {
            Ok(plan) => RendererState { plan, ..self }.advanced(),
            Err(PlanError::NoSurfaceFormat) => self.faulted(FatalError::NoSurfaceFormat),
            Err(PlanError::ImageCountOverflow) => self.faulted(FatalError::ImageCountOverflow),
        }
    }

    /// The swapchain was created. At construction its image count also fixes
    /// the number of uniform slots.
    pub open spec fn on_swapchain_created(self, image_count: u32) -> RendererState {
        if image_count == 0 {
            self.faulted(FatalError::NoSwapchainImages)
        } else if self.phase is Uninitialized {
            RendererState { image_count, uniform_slots: image_count, ..self }.advanced()
        } else {
            RendererState { image_count, ..self }.advanced()
        }
    }

    /// An image was acquired: the frame goes on, if the slot has its
    /// per-slot resources and the image is one of the swapchain's.
    pub open spec fn on_acquired(self, image_index: u32) -> RendererState {
        if self.current_frame >= self.uniform_slots {
            self.faulted(FatalError::SlotOutOfRange { slot: self.current_frame })
        } else if image_index >= self.image_count {
            self.faulted(FatalError::ImageOutOfRange { image_index })
        } else {
            RendererState { acquired_image: image_index, ..self }.advanced()
        }
    }

    /// No image was acquired: the frame is dropped, nothing is submitted or
    /// presented and the frame index stays. Out-of-date marks the swapchain
    /// stale, and the recreation that follows brings fresh fences. After any
    /// other failure the next frame uses the same slot again, whose fence
    /// this frame has reset.
    pub open spec fn on_acquire_failed(self, code: i32) -> RendererState {
        self.frame_over(self.dirty || code == ERROR_OUT_OF_DATE, false)
    }

    /// The clock was read: the first reading starts the rotation.
    pub open spec fn on_clock(self, now: u64) -> RendererState {
        let start = match self.start_time {
            Some(start) => start,
            None => now,
        };
        RendererState {
            start_time: Some(start),
            rotation: rotation_after(elapsed_between(start, now)) as u128,
            ..self
        }.advanced()
    }

    /// The image was queued for presentation: the frame is over.
    pub open spec fn on_presented(self, suboptimal: bool) -> RendererState {
        self.frame_over(suboptimal, true)
    }

    /// Presentation failed. Out-of-date and suboptimal end the frame and
    /// mark the swapchain stale; anything else stops the renderer.
    pub open spec fn on_present_failed(self, code: i32) -> RendererState {
        if code == ERROR_OUT_OF_DATE || code == SUBOPTIMAL {
            self.frame_over(true, true)
        } else {
            self.faulted(FatalError::PresentFailed { code })
        }
    }

    /// The state after `event`, but for what is owned.
    pub open spec fn reaction(self, event: Event) -> RendererState {
        match event {
            Event::Render { width, height, overlay_stale } => self.on_render(
                width,
                height,
                overlay_stale,
            ),
            Event::Destroy => self.on_destroy(),
            Event::Done => self.on_done(),
            Event::Surface { formats, capabilities } => self.on_surface(formats, capabilities),
            Event::SwapchainCreated { image_count } => self.on_swapchain_created(image_count),
            Event::Acquired { image_index, suboptimal } => self.on_acquired(image_index),
            Event::AcquireFailed { code } => self.on_acquire_failed(code),
            Event::Clock { now } => self.on_clock(now),
            Event::Presented { suboptimal } => self.on_presented(suboptimal),
            Event::PresentFailed { code } => self.on_present_failed(code),
            Event::Failed { code } => self.faulted(FatalError::DeviceCallFailed { code }),
            Event::AllocatorFailed => self.faulted(FatalError::AllocatorFailed),
        }
    }

    /// The state after `event`. An event that is not accepted changes
    /// nothing. When the event says that the outstanding command was
    /// carried out, what is owned changes as that command says.
    pub open spec fn step(self, event: Event) -> RendererState {
        if !self.accepts(event) {
            self
        } else if Self::completes(event) {
            RendererState { owned: self.owned.after(self.command()), ..self.reaction(event) }
        } else {
            self.reaction(event)
        }
    }

    /// What the host is told after `event`: the next command, or that the
    /// event was not accepted.
    pub open spec fn answer(self, event: Event) -> Command {
        if self.accepts(event) {
            self.step(event).command()
        } else {
            Command::Rejected
        }
    }

    /// The ledger of a renderer that has been constructed and not yet torn
    /// down: one allocation per uniform slot, the vertex buffer's, and the
    /// staging buffer's, which alone has been freed.
    pub open spec fn ledger_settled(self) -> bool {
        &&& self.allocations_made == self.uniform_slots + 2
        &&& self.allocations_freed == 1
    }

    /// What a constructed renderer owns between frames and during one:
    /// the swapchain with a view and a framebuffer per image, the render
    /// pass, the ring, everything per uniform slot, the pipeline, and the
    /// vertex buffer.
    pub open spec fn owned_when_steady(self) -> Owned {
        Owned {
            allocator: true,
            swapchain: true,
            image_views: self.image_count,
            framebuffers: self.image_count,
            render_pass: true,
            sync_slots: self.in_flight.len() as u32,
            uniform_buffers: self.uniform_slots,
            uniform_memory: self.uniform_slots,
            descriptor_pool: true,
            descriptor_set_layouts: self.uniform_slots,
            descriptor_sets: self.uniform_slots,
            pipeline: true,
            pipeline_layout: true,
            staging_buffer: false,
            staging_memory: false,
            vertex_buffer: true,
            vertex_memory: true,
            copy_command_buffer: false,
        }
    }

    /// What is owned at each position of construction: each thing from the
    /// position after the one that creates it, and what the upload needs
    /// only until the position that gives it back.
    pub open spec fn owned_when_uninitialized(self) -> Owned {
        let c = self.cursor;
        let slots = self.uniform_slots;
        let images = self.image_count;
        Owned {
            allocator: true,
            swapchain: c > construct::CREATE_SWAPCHAIN,
            image_views: if c > construct::CREATE_FRAMEBUFFERS {
                images
            } else {
                0
            },
            framebuffers: if c > construct::CREATE_FRAMEBUFFERS {
                images
            } else {
                0
            },
            render_pass: c > construct::CREATE_RENDER_PASS,
            sync_slots: 0,
            uniform_buffers: if c > construct::CREATE_UNIFORM_BUFFERS {
                slots
            } else {
                0
            },
            uniform_memory: if c > construct::ALLOCATE_UNIFORM_MEMORY {
                slots
            } else {
                0
            },
            descriptor_pool: c > construct::CREATE_DESCRIPTOR_POOL,
            descriptor_set_layouts: if c > construct::CREATE_DESCRIPTOR_SET_LAYOUTS {
                slots
            } else {
                0
            },
            descriptor_sets: if c > construct::CREATE_DESCRIPTOR_SETS {
                slots
            } else {
                0
            },
            pipeline: c > construct::CREATE_PIPELINE,
            pipeline_layout: c > construct::CREATE_PIPELINE,
            staging_buffer: construct::CREATE_STAGING_BUFFER < c
                <= construct::DESTROY_STAGING_BUFFER,
            staging_memory: construct::ALLOCATE_STAGING_MEMORY < c
                <= construct::FREE_STAGING_MEMORY,
            vertex_buffer: c > construct::CREATE_VERTEX_BUFFER,
            vertex_memory: c > construct::ALLOCATE_VERTEX_MEMORY,
            copy_command_buffer: construct::SUBMIT_COPY < c <= construct::FREE_COPY_COMMAND_BUFFER,
        }
    }

    /// What is owned at each position of recreation: all that does not hang
    /// on the swapchain throughout, the rest until destroyed and again once
    /// created.
    pub open spec fn owned_when_recreating(self) -> Owned {
        let c = self.cursor;
        let images = self.image_count;
        Owned {
            framebuffers: if recreate::DESTROY_FRAMEBUFFERS < c <= recreate::CREATE_FRAMEBUFFERS {
                0
            } else {
                images
            },
            image_views: if recreate::DESTROY_IMAGE_VIEWS < c <= recreate::CREATE_FRAMEBUFFERS {
                0
            } else {
                images
            },
            render_pass: !(recreate::DESTROY_RENDER_PASS < c <= recreate::CREATE_RENDER_PASS),
            swapchain: !(recreate::DESTROY_SWAPCHAIN < c <= recreate::CREATE_SWAPCHAIN),
            ..self.owned_when_steady()
        }
    }

    /// What is still owned at each position of teardown: each thing up to
    /// the position that destroys it.
    pub open spec fn owned_when_destroying(self) -> Owned {
        let c = self.cursor;
        let slots = self.uniform_slots;
        let images = self.image_count;
        Owned {
            allocator: true,
            swapchain: c <= teardown::DESTROY_SWAPCHAIN,
            image_views: if c <= teardown::DESTROY_IMAGE_VIEWS {
                images
            } else {
                0
            },
            framebuffers: if c <= teardown::DESTROY_FRAMEBUFFERS {
                images
            } else {
                0
            },
            render_pass: c <= teardown::DESTROY_RENDER_PASS,
            sync_slots: self.in_flight.len() as u32,
            uniform_buffers: if c <= teardown::DESTROY_UNIFORM_BUFFERS {
                slots
            } else {
                0
            },
            uniform_memory: if c <= teardown::FREE_UNIFORM_MEMORY {
                slots
            } else {
                0
            },
            descriptor_pool: c <= teardown::DESTROY_DESCRIPTOR_POOL,
            descriptor_set_layouts: if c <= teardown::DESTROY_DESCRIPTOR_SET_LAYOUTS {
                slots
            } else {
                0
            },
            descriptor_sets: if c <= teardown::DESTROY_DESCRIPTOR_POOL {
                slots
            } else {
                0
            },
            pipeline: c <= teardown::DESTROY_PIPELINE,
            pipeline_layout: c <= teardown::DESTROY_PIPELINE_LAYOUT,
            staging_buffer: false,
            staging_memory: false,
            vertex_buffer: c <= teardown::DESTROY_VERTEX_BUFFER,
            vertex_memory: c <= teardown::FREE_VERTEX_MEMORY,
            copy_command_buffer: false,
        }
    }

    /// What is owned in this phase at this position.
    pub open spec fn expected_owned(self) -> Owned {
        match self.phase {
            Phase::Uninitialized => self.owned_when_uninitialized(),
            Phase::Ready => self.owned_when_steady(),
            Phase::Recreating => self.owned_when_recreating(),
            Phase::Rendering => self.owned_when_steady(),
            Phase::Destroying => self.owned_when_destroying(),
            Phase::Destroyed => Owned::nothing(),
            Phase::Faulted(_) => self.owned,
        }
    }

    /// What holds during construction: there is no ring yet, nothing has
    /// been rendered, and the ledger shows the allocations made so far.
    pub open spec fn wf_uninitialized(self) -> bool {
        let c = self.cursor;
        &&& c <= construct::LAST
        &&& self.in_flight.len() == 0
        &&& self.current_frame == 0
        &&& self.dirty
        &&& self.start_time is None
        &&& c > construct::CREATE_SWAPCHAIN ==> self.image_count > 0 && self.uniform_slots
            == self.image_count
        &&& self.allocations_made == (if c > construct::ALLOCATE_UNIFORM_MEMORY {
            self.uniform_slots as int
        } else {
            0
        }) + (if c > construct::ALLOCATE_STAGING_MEMORY {
            1int
        } else {
            0
        }) + (if c > construct::ALLOCATE_VERTEX_MEMORY {
            1int
        } else {
            0
        })
        &&& self.allocations_freed == (if c > construct::FREE_STAGING_MEMORY {
            1int
        } else {
            0
        })
    }

    /// What holds of a constructed renderer's ring: one slot per image, and
    /// the frame index inside.
    pub open spec fn wf_ring(self) -> bool {
        &&& 0 < self.in_flight.len() <= u32::MAX
        &&& self.image_count == self.in_flight.len()
        &&& self.current_frame < self.in_flight.len()
    }

    /// What holds during recreation: once the device is idle nothing is
    /// outstanding, and once the synchronisation objects are gone there is
    /// no ring.
    pub open spec fn wf_recreating(self) -> bool {
        let c = self.cursor;
        &&& c <= recreate::LAST
        &&& self.uniform_slots > 0
        &&& self.ledger_settled()
        &&& self.width > 0 && self.height > 0
        &&& self.image_count > 0
        &&& c <= recreate::DESTROY_SYNC_OBJECTS ==> self.wf_ring()
        &&& c > recreate::WAIT_DEVICE_IDLE ==> !self.work_outstanding()
        &&& c > recreate::DESTROY_SYNC_OBJECTS ==> self.in_flight.len() == 0
    }

    /// What holds during a frame: the swapchain is fresh; from the wait for
    /// the slot's fence to the submission nothing is in flight in the slot,
    /// and from the submission on something is; once an image is acquired
    /// the slot and the image exist; once the clock is read the rotation
    /// has begun.
    pub open spec fn wf_rendering(self) -> bool {
        let c = self.cursor;
        let slot = self.current_frame as int;
        &&& c <= frame::LAST
        &&& self.uniform_slots > 0
        &&& self.wf_ring()
        &&& self.ledger_settled()
        &&& self.width > 0 && self.height > 0
        &&& !self.dirty
        &&& frame::WAIT_FENCE < c <= frame::FINISH_RECORDING ==> !self.in_flight[slot]
        &&& c > frame::FINISH_RECORDING ==> self.in_flight[slot]
        &&& c > frame::ACQUIRE_IMAGE ==> self.current_frame < self.uniform_slots
            && self.acquired_image < self.image_count
        &&& c > frame::READ_CLOCK ==> self.start_time is Some
    }

    /// What holds during teardown: the ledger shows what has been freed so
    /// far; once the device is idle nothing is outstanding, and once the
    /// synchronisation objects are gone there is no ring.
    pub open spec fn wf_destroying(self) -> bool {
        let c = self.cursor;
        &&& c <= teardown::LAST
        &&& self.uniform_slots > 0
        &&& self.image_count > 0
        &&& self.allocations_made == self.uniform_slots + 2
        &&& self.allocations_freed == 1 + (if c > teardown::FREE_VERTEX_MEMORY {
            1int
        } else {
            0
        }) + (if c > teardown::FREE_UNIFORM_MEMORY {
            self.uniform_slots as int
        } else {
            0
        })
        &&& c <= teardown::DESTROY_SYNC_OBJECTS ==> self.in_flight.len() > 0
        &&& c > teardown::WAIT_DEVICE_IDLE ==> !self.work_outstanding()
        &&& c > teardown::DESTROY_SYNC_OBJECTS ==> self.in_flight.len() == 0
    }

    /// What holds of every state a renderer can be in.
    pub open spec fn wf(self) -> bool {
        &&& self.in_flight.len() <= u32::MAX
        &&& self.allocations_freed <= self.allocations_made <= self.uniform_slots + 2
        &&& self.rotation <= 45 * u64::MAX
        &&& self.owned == self.expected_owned()
        &&& match self.phase {
            Phase::Uninitialized => self.wf_uninitialized(),
            Phase::Ready => {
                &&& self.cursor == 0
                &&& self.uniform_slots > 0
                &&& self.wf_ring()
                &&& self.ledger_settled()
            },
            Phase::Recreating => self.wf_recreating(),
            Phase::Rendering => self.wf_rendering(),
            Phase::Destroying => self.wf_destroying(),
            Phase::Destroyed => {
                &&& self.cursor == 0
                &&& self.allocations_made == self.allocations_freed
                &&& self.in_flight.len() == 0
            },
            Phase::Faulted(_) => self.cursor == 0,
        }
    }
}

/// A new renderer is well formed.
pub proof fn lemma_initial_wf(width: u32, height: u32)
    ensures
        RendererState::initial(width, height).wf(),
        RendererState::initial(width, height).command() == Command::QuerySurface,
{
}

/// No event leads out of the well-formed states.
pub proof fn lemma_step_preserves_wf(s: RendererState, event: Event)
    requires
        s.wf(),
    ensures
        s.step(event).wf(),
{
}

} // verus!
