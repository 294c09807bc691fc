//! The renderer the host drives.
//!
//! A [`Renderer`] owns no device object. It tells the host what to do next
//! and takes the host's answer; the host owns the handles and makes the
//! calls. Each method here is one event of the model, and its contract is
//! the model's transition.

use vstd::prelude::*;

use crate::command::{memory_location, reply_kind, Command, FatalError, MemoryPurpose, Reply};
use crate::model::{
    idle_ring, lemma_initial_wf, lemma_step_preserves_wf, Event, Phase, RendererState,
};
use crate::ownership::Owned;
use crate::rotation::{elapsed_between, rotation_after, rotation_nanodegrees};
use crate::script::{construct, frame, recreate, teardown};
use crate::surface::{
    plan_swapchain, planned_swapchain, Extent, PlanError, SurfaceCapabilities, SurfaceFormat,
    SwapchainPlan,
};
use crate::vulkan::{
    fence_signaled, present_mode_fifo, result_error_out_of_date, result_suboptimal,
    stage_color_attachment_output, ERROR_OUT_OF_DATE, NO_TIMEOUT, SUBOPTIMAL,
};

verus! {

/// The state of one window's renderer.
#[derive(Clone, Debug, PartialEq, Eq)]
pub struct Renderer {
    phase: Phase,
    cursor: u8,
    width: u32,
    height: u32,
    plan: SwapchainPlan,
    image_count: u32,
    uniform_slots: u32,
    current_frame: u32,
    acquired_image: u32,
    dirty: bool,
    in_flight: Vec<bool>,
    start_time: Option<u64>,
    rotation: u128,
    allocations_made: u64,
    allocations_freed: u64,
    owned: Owned,
}

impl View for Renderer {
    type V = RendererState;

    closed spec fn view(&self) -> RendererState {
        RendererState {
            phase: self.phase,
            cursor: self.cursor,
            width: self.width,
            height: self.height,
            plan: self.plan,
            image_count: self.image_count,
            uniform_slots: self.uniform_slots,
            current_frame: self.current_frame,
            acquired_image: self.acquired_image,
            dirty: self.dirty,
            in_flight: self.in_flight@,
            start_time: self.start_time,
            rotation: self.rotation,
            allocations_made: self.allocations_made as nat,
            allocations_freed: self.allocations_freed as nat,
            owned: self.owned,
        }
    }
}

/// A ring of `depth` slots with nothing in flight.
fn idle_slots(depth: usize) -> (ring: Vec<bool>)
    ensures
        ring@ == idle_ring(depth as nat),
{
    let mut ring: Vec<bool> = Vec::new();
    let mut i: usize = 0;
    while i < depth
        invariant
            i <= depth,
            ring@.len() == i,
            forall|j: int| 0 <= j < i ==> !#[trigger] ring@[j],
        decreases depth - i,
    {
        ring.push(false);
        i += 1;
    }
    assert(ring@ =~= idle_ring(depth as nat));
    ring
}

impl Renderer {
    /// What holds of every renderer: a new one has it and every method
    /// keeps it.
    pub open spec fn wf(&self) -> bool {
        self@.wf()
    }

    /// A renderer about to be constructed for a window of `width` by
    /// `height`. Its first command is to query the surface.
    pub fn new(width: u32, height: u32) -> (renderer: Renderer)
        ensures
            renderer@ == RendererState::initial(width, height),
            renderer.wf(),
    {
        proof {
            lemma_initial_wf(width, height);
        }
        Renderer {
            phase: Phase::Uninitialized,
            cursor: 0,
            width,
            height,
            plan: SwapchainPlan {
                format: SurfaceFormat { format: 0, color_space: 0 },
                extent: Extent { width: 0, height: 0 },
                image_count: 0,
                present_mode: present_mode_fifo(),
                pre_transform: 0,
            },
            image_count: 0,
            uniform_slots: 0,
            current_frame: 0,
            acquired_image: 0,
            dirty: true,
            in_flight: Vec::new(),
            start_time: None,
            rotation: 0,
            allocations_made: 0,
            allocations_freed: 0,
            owned: Owned::initial(),
        }
    }

    /// Where in its life the renderer is.
    pub fn phase(&self) -> (phase: Phase)
        ensures
            phase == self@.phase,
    {
        self.phase
    }

    /// The size last asked for.
    pub fn size(&self) -> (size: Extent)
        ensures
            size == (Extent { width: self@.width, height: self@.height }),
    {
        Extent { width: self.width, height: self.height }
    }

    /// The plan of the current swapchain.
    pub fn plan(&self) -> (plan: SwapchainPlan)
        ensures
            plan == self@.plan,
    {
        self.plan
    }

    /// Number of images of the current swapchain.
    pub fn image_count(&self) -> (count: u32)
        ensures
            count == self@.image_count,
    {
        self.image_count
    }

    /// Number of uniform buffers, descriptor sets and command buffers.
    pub fn uniform_slots(&self) -> (count: u32)
        ensures
            count == self@.uniform_slots,
    {
        self.uniform_slots
    }

    /// Number of slots in the ring of frame resources.
    pub fn ring_depth(&self) -> (depth: usize)
        ensures
            depth == self@.ring_depth(),
    {
        self.in_flight.len()
    }

    /// The slot the next frame uses.
    pub fn current_frame(&self) -> (slot: u32)
        ensures
            slot == self@.current_frame,
    {
        self.current_frame
    }

    /// Whether the swapchain must be replaced before the next frame.
    pub fn is_dirty(&self) -> (dirty: bool)
        ensures
            dirty == self@.dirty,
    {
        self.dirty
    }

    /// Whether a submission into `slot` may still be running. A slot outside
    /// the ring has none.
    pub fn is_in_flight(&self, slot: u32) -> (busy: bool)
        ensures
            busy == (slot < self@.in_flight.len() && self@.in_flight[slot as int]),
    {
        let at = slot as usize;
        at < self.in_flight.len() && self.in_flight[at]
    }

    /// The clock at the first frame that got an image.
    pub fn start_time(&self) -> (start: Option<u64>)
        ensures
            start == self@.start_time,
    {
        self.start_time
    }

    /// The device objects owned.
    pub fn owned(&self) -> (owned: Owned)
        ensures
            owned == self@.owned,
    {
        self.owned
    }

    /// Memory allocations carried out so far.
    pub fn allocations_made(&self) -> (count: u64)
        ensures
            count == self@.allocations_made,
    {
        self.allocations_made
    }

    /// Memory allocations freed so far.
    pub fn allocations_freed(&self) -> (count: u64)
        ensures
            count == self@.allocations_freed,
    {
        self.allocations_freed
    }

    /// Allocations made and not yet freed.
    pub fn live_allocations(&self) -> (count: u64)
        requires
            self.wf(),
        ensures
            count == self@.live_allocations(),
    {
        self.allocations_made - self.allocations_freed
    }

    fn any_in_flight(&self) -> (any: bool)
        ensures
            any == exists|i: int| 0 <= i < self@.in_flight.len() && #[trigger] self@.in_flight[i],
    {
        let mut i: usize = 0;
        while i < self.in_flight.len()
            invariant
                i <= self.in_flight@.len(),
                forall|j: int| 0 <= j < i ==> !#[trigger] self.in_flight@[j],
            decreases self.in_flight@.len() - i,
        {
            if self.in_flight[i] {
                assert(self@.in_flight[i as int]);
                return true;
            }
            i += 1;
        }
        false
    }

    /// Whether work handed to the device may still be running.
    pub fn work_outstanding(&self) -> (busy: bool)
        ensures
            busy == self@.work_outstanding(),
    {
        let uploading = match self.phase {
            Phase::Uninitialized => {
                self.cursor == construct::SUBMIT_COPY || self.cursor == construct::WAIT_QUEUE_IDLE
            },
            _ => false,
        };
        uploading || self.any_in_flight()
    }

    fn ledger_settled(&self) -> (settled: bool)
        ensures
            settled == self@.ledger_settled(),
    {
        self.allocations_made == self.uniform_slots as u64 + 2 && self.allocations_freed == 1
    }

    fn ring_in_order(&self) -> (ok: bool)
        ensures
            ok == self@.wf_ring(),
    {
        let depth = self.in_flight.len();
        0 < depth
            && depth <= u32::MAX as usize
            && self.image_count as usize == depth
            && (self.current_frame as usize) < depth
    }

    fn uninitialized_in_order(&self) -> (ok: bool)
        ensures
            ok == self@.wf_uninitialized(),
    {
        let c = self.cursor;
        let mut made: u64 = 0;
        if c > construct::ALLOCATE_UNIFORM_MEMORY {
            made = made + self.uniform_slots as u64;
        }
        if c > construct::ALLOCATE_STAGING_MEMORY {
            made = made + 1;
        }
        if c > construct::ALLOCATE_VERTEX_MEMORY {
            made = made + 1;
        }
        let freed: u64 = if c > construct::FREE_STAGING_MEMORY {
            1
        } else {
            0
        };
        let sized = c <= construct::CREATE_SWAPCHAIN || (self.image_count > 0
            && self.uniform_slots == self.image_count);
        c <= construct::LAST
            && self.in_flight.len() == 0
            && self.current_frame == 0
            && self.dirty
            && self.start_time.is_none()
            && sized
            && self.allocations_made == made
            && self.allocations_freed == freed
    }

    fn recreating_in_order(&self) -> (ok: bool)
        ensures
            ok == self@.wf_recreating(),
    {
        let c = self.cursor;
        let ring = if c <= recreate::DESTROY_SYNC_OBJECTS {
            self.ring_in_order()
        } else {
            self.in_flight.len() == 0
        };
        let idle = c == recreate::WAIT_DEVICE_IDLE || !self.work_outstanding();
        c <= recreate::LAST
            && self.uniform_slots > 0
            && self.ledger_settled()
            && self.width > 0
            && self.height > 0
            && self.image_count > 0
            && ring
            && idle
    }

    fn rendering_in_order(&self) -> (ok: bool)
        ensures
            ok == self@.wf_rendering(),
    {
        let c = self.cursor;
        if !(c <= frame::LAST && self.uniform_slots > 0 && self.ring_in_order()) {
            return false;
        }
        let busy = self.in_flight[self.current_frame as usize];
        let slot = if c <= frame::WAIT_FENCE {
            true
        } else if c <= frame::FINISH_RECORDING {
            !busy
        } else {
            busy
        };
        let acquired = c <= frame::ACQUIRE_IMAGE || (self.current_frame < self.uniform_slots
            && self.acquired_image < self.image_count);
        let started = c <= frame::READ_CLOCK || self.start_time.is_some();
        self.ledger_settled()
            && self.width > 0
            && self.height > 0
            && !self.dirty
            && slot
            && acquired
            && started
    }

    fn destroying_in_order(&self) -> (ok: bool)
        ensures
            ok == self@.wf_destroying(),
    {
        let c = self.cursor;
        let slots = self.uniform_slots as u64;
        let mut freed: u64 = 1;
        if c > teardown::FREE_VERTEX_MEMORY {
            freed = freed + 1;
        }
        if c > teardown::FREE_UNIFORM_MEMORY {
            freed = freed + slots;
        }
        let ring = if c <= teardown::DESTROY_SYNC_OBJECTS {
            self.in_flight.len() > 0
        } else {
            self.in_flight.len() == 0
        };
        let idle = c == teardown::WAIT_DEVICE_IDLE || !self.work_outstanding();
        c <= teardown::LAST
            && self.uniform_slots > 0
            && self.image_count > 0
            && self.allocations_made == slots + 2
            && self.allocations_freed == freed
            && ring
            && idle
    }

    fn steady_owned(&self) -> (owned: Owned)
        requires
            self@.in_flight.len() <= u32::MAX,
        ensures
            owned == self@.owned_when_steady(),
    {
        Owned {
            allocator: true,
            swapchain: true,
            image_views: self.image_count,
            framebuffers: self.image_count,
            render_pass: true,
            sync_slots: self.in_flight.len() as u32,
            uniform_buffers: self.uniform_slots,
            uniform_memory: self.uniform_slots,
            descriptor_pool: true,
            descriptor_set_layouts: self.uniform_slots,
            descriptor_sets: self.uniform_slots,
            pipeline: true,
            pipeline_layout: true,
            staging_buffer: false,
            staging_memory: false,
            vertex_buffer: true,
            vertex_memory: true,
            copy_command_buffer: false,
        }
    }

    fn uninitialized_owned(&self) -> (owned: Owned)
        ensures
            owned == self@.owned_when_uninitialized(),
    {
        let c = self.cursor;
        let slots = self.uniform_slots;
        let images = self.image_count;
        Owned {
            allocator: true,
            swapchain: c > construct::CREATE_SWAPCHAIN,
            image_views: if c > construct::CREATE_FRAMEBUFFERS {
                images
            } else {
                0
            },
            framebuffers: if c > construct::CREATE_FRAMEBUFFERS {
                images
            } else {
                0
            },
            render_pass: c > construct::CREATE_RENDER_PASS,
            sync_slots: 0,
            uniform_buffers: if c > construct::CREATE_UNIFORM_BUFFERS {
                slots
            } else {
                0
            },
            uniform_memory: if c > construct::ALLOCATE_UNIFORM_MEMORY {
                slots
            } else {
                0
            },
            descriptor_pool: c > construct::CREATE_DESCRIPTOR_POOL,
            descriptor_set_layouts: if c > construct::CREATE_DESCRIPTOR_SET_LAYOUTS {
                slots
            } else {
                0
            },
            descriptor_sets: if c > construct::CREATE_DESCRIPTOR_SETS {
                slots
            } else {
                0
            },
            pipeline: c > construct::CREATE_PIPELINE,
            pipeline_layout: c > construct::CREATE_PIPELINE,
            staging_buffer: construct::CREATE_STAGING_BUFFER < c && c
                <= construct::DESTROY_STAGING_BUFFER,
            staging_memory: construct::ALLOCATE_STAGING_MEMORY < c && c
                <= construct::FREE_STAGING_MEMORY,
            vertex_buffer: c > construct::CREATE_VERTEX_BUFFER,
            vertex_memory: c > construct::ALLOCATE_VERTEX_MEMORY,
            copy_command_buffer: construct::SUBMIT_COPY < c && c
                <= construct::FREE_COPY_COMMAND_BUFFER,
        }
    }

    fn recreating_owned(&self) -> (owned: Owned)
        requires
            self@.in_flight.len() <= u32::MAX,
        ensures
            owned == self@.owned_when_recreating(),
    {
        let c = self.cursor;
        let images = self.image_count;
        let no_framebuffers = recreate::DESTROY_FRAMEBUFFERS < c && c
            <= recreate::CREATE_FRAMEBUFFERS;
        let no_image_views = recreate::DESTROY_IMAGE_VIEWS < c && c
            <= recreate::CREATE_FRAMEBUFFERS;
        let no_render_pass = recreate::DESTROY_RENDER_PASS < c && c
            <= recreate::CREATE_RENDER_PASS;
        let no_swapchain = recreate::DESTROY_SWAPCHAIN < c && c <= recreate::CREATE_SWAPCHAIN;
        Owned {
            framebuffers: if no_framebuffers {
                0
            } else {
                images
            },
            image_views: if no_image_views {
                0
            } else {
                images
            },
            render_pass: !no_render_pass,
            swapchain: !no_swapchain,
            ..self.steady_owned()
        }
    }

    fn destroying_owned(&self) -> (owned: Owned)
        requires
            self@.in_flight.len() <= u32::MAX,
        ensures
            owned == self@.owned_when_destroying(),
    {
        let c = self.cursor;
        let slots = self.uniform_slots;
        let images = self.image_count;
        Owned {
            allocator: true,
            swapchain: c <= teardown::DESTROY_SWAPCHAIN,
            image_views: if c <= teardown::DESTROY_IMAGE_VIEWS {
                images
            } else {
                0
            },
            framebuffers: if c <= teardown::DESTROY_FRAMEBUFFERS {
                images
            } else {
                0
            },
            render_pass: c <= teardown::DESTROY_RENDER_PASS,
            sync_slots: self.in_flight.len() as u32,
            uniform_buffers: if c <= teardown::DESTROY_UNIFORM_BUFFERS {
                slots
            } else {
                0
            },
            uniform_memory: if c <= teardown::FREE_UNIFORM_MEMORY {
                slots
            } else {
                0
            },
            descriptor_pool: c <= teardown::DESTROY_DESCRIPTOR_POOL,
            descriptor_set_layouts: if c <= teardown::DESTROY_DESCRIPTOR_SET_LAYOUTS {
                slots
            } else {
                0
            },
            descriptor_sets: if c <= teardown::DESTROY_DESCRIPTOR_POOL {
                slots
            } else {
                0
            },
            pipeline: c <= teardown::DESTROY_PIPELINE,
            pipeline_layout: c <= teardown::DESTROY_PIPELINE_LAYOUT,
            staging_buffer: false,
            staging_memory: false,
            vertex_buffer: c <= teardown::DESTROY_VERTEX_BUFFER,
            vertex_memory: c <= teardown::FREE_VERTEX_MEMORY,
            copy_command_buffer: false,
        }
    }

    fn owned_in_order(&self) -> (ok: bool)
        requires
            self@.in_flight.len() <= u32::MAX,
        ensures
            ok == (self@.owned == self@.expected_owned()),
    {
        match self.phase {
            Phase::Uninitialized => self.owned == self.uninitialized_owned(),
            Phase::Ready => self.owned == self.steady_owned(),
            Phase::Recreating => self.owned == self.recreating_owned(),
            Phase::Rendering => self.owned == self.steady_owned(),
            Phase::Destroying => self.owned == self.destroying_owned(),
            Phase::Destroyed => self.owned.is_empty(),
            Phase::Faulted(_) => true,
        }
    }

    /// Checks what holds of every renderer. The answer is always yes; a
    /// host that wants to be sure of its own bookkeeping can ask.
    pub fn well_formed(&self) -> (ok: bool)
        ensures
            ok == self.wf(),
    {
        let bounded = self.in_flight.len() <= u32::MAX as usize
            && self.allocations_freed <= self.allocations_made
            && self.allocations_made <= self.uniform_slots as u64 + 2
            && self.rotation <= 45 * (u64::MAX as u128);
        if !bounded {
            return false;
        }
        if !self.owned_in_order() {
            return false;
        }
        match self.phase {
            Phase::Uninitialized => self.uninitialized_in_order(),
            Phase::Ready => {
                self.cursor == 0
                    && self.uniform_slots > 0
                    && self.ring_in_order()
                    && self.ledger_settled()
            },
            Phase::Recreating => self.recreating_in_order(),
            Phase::Rendering => self.rendering_in_order(),
            Phase::Destroying => self.destroying_in_order(),
            Phase::Destroyed => {
                self.cursor == 0
                    && self.allocations_made == self.allocations_freed
                    && self.in_flight.len() == 0
            },
            Phase::Faulted(_) => self.cursor == 0,
        }
    }

    fn allocation(purpose: MemoryPurpose, count: u32) -> (command: Command)
        ensures
            command == RendererState::allocation(purpose, count),
    {
        Command::AllocateMemory { purpose, location: memory_location(purpose), count }
    }

    fn construction_command(&self) -> (command: Command)
        ensures
            command == self@.construction_script(),
    {
        let slots = self.uniform_slots;
        let format = self.plan.format.format;
        match self.cursor {
            construct::QUERY_SURFACE => Command::QuerySurface,
            construct::CREATE_SWAPCHAIN => Command::CreateSwapchain { plan: self.plan },
            construct::CREATE_UNIFORM_BUFFERS => Command::CreateUniformBuffers { count: slots },
            construct::ALLOCATE_UNIFORM_MEMORY => Self::allocation(MemoryPurpose::Uniform, slots),
            construct::BIND_UNIFORM_MEMORY => Command::BindMemory {
                purpose: MemoryPurpose::Uniform,
            },
            construct::CREATE_DESCRIPTOR_POOL => Command::CreateDescriptorPool { count: slots },
            construct::CREATE_DESCRIPTOR_SET_LAYOUTS => Command::CreateDescriptorSetLayouts {
                count: slots,
            },
            construct::CREATE_DESCRIPTOR_SETS => Command::CreateDescriptorSets { count: slots },
            construct::CREATE_RENDER_PASS => Command::CreateRenderPass { format },
            construct::CREATE_FRAMEBUFFERS => Command::CreateFramebuffers {
                count: self.image_count,
                format,
                extent: self.plan.extent,
            },
            construct::CREATE_PIPELINE => Command::CreatePipeline,
            construct::CREATE_STAGING_BUFFER => Command::CreateStagingBuffer,
            construct::ALLOCATE_STAGING_MEMORY => Self::allocation(MemoryPurpose::Staging, 1),
            construct::BIND_STAGING_MEMORY => Command::BindMemory {
                purpose: MemoryPurpose::Staging,
            },
            construct::FILL_STAGING_BUFFER => Command::FillStagingBuffer,
            construct::CREATE_VERTEX_BUFFER => Command::CreateVertexBuffer,
            construct::ALLOCATE_VERTEX_MEMORY => Self::allocation(MemoryPurpose::Vertex, 1),
            construct::BIND_VERTEX_MEMORY => Command::BindMemory { purpose: MemoryPurpose::Vertex },
            construct::SUBMIT_COPY => Command::SubmitCopy,
            construct::WAIT_QUEUE_IDLE => Command::WaitQueueIdle,
            construct::FREE_COPY_COMMAND_BUFFER => Command::FreeCopyCommandBuffer,
            construct::FREE_STAGING_MEMORY => Command::FreeMemory {
                purpose: MemoryPurpose::Staging,
                count: 1,
            },
            construct::DESTROY_STAGING_BUFFER => Command::DestroyStagingBuffer,
            construct::CREATE_COMMAND_BUFFERS => Command::CreateCommandBuffers { count: slots },
            _ => Command::CreateSyncObjects {
                count: self.image_count,
                fence_flags: fence_signaled(),
            },
        }
    }

    fn recreation_command(&self) -> (command: Command)
        ensures
            command == self@.recreation_script(),
    {
        let format = self.plan.format.format;
        match self.cursor {
            recreate::WAIT_DEVICE_IDLE => Command::WaitDeviceIdle,
            recreate::DESTROY_SYNC_OBJECTS => Command::DestroySyncObjects,
            recreate::DESTROY_FRAMEBUFFERS => Command::DestroyFramebuffers,
            recreate::DESTROY_IMAGE_VIEWS => Command::DestroyImageViews,
            recreate::DESTROY_RENDER_PASS => Command::DestroyRenderPass,
            recreate::DESTROY_SWAPCHAIN => Command::DestroySwapchain,
            recreate::QUERY_SURFACE => Command::QuerySurface,
            recreate::CREATE_SWAPCHAIN => Command::CreateSwapchain { plan: self.plan },
            recreate::NOTIFY_OVERLAY => Command::NotifyOverlay {
                image_count: self.image_count,
                format,
                width: self.width,
                height: self.height,
            },
            recreate::CREATE_RENDER_PASS => Command::CreateRenderPass { format },
            recreate::CREATE_FRAMEBUFFERS => Command::CreateFramebuffers {
                count: self.image_count,
                format,
                extent: self.plan.extent,
            },
            _ => Command::CreateSyncObjects {
                count: self.image_count,
                fence_flags: fence_signaled(),
            },
        }
    }

    fn frame_command(&self) -> (command: Command)
        ensures
            command == self@.frame_script(),
    {
        let slot = self.current_frame;
        let image_index = self.acquired_image;
        match self.cursor {
            frame::WAIT_FENCE => Command::WaitFence { slot, timeout: NO_TIMEOUT },
            frame::RESET_FENCE => Command::ResetFence { slot },
            frame::ACQUIRE_IMAGE => Command::AcquireImage { slot, timeout: NO_TIMEOUT },
            frame::READ_CLOCK => Command::ReadClock,
            frame::WRITE_UNIFORMS => Command::WriteUniforms {
                slot,
                rotation: self.rotation,
                width: self.width,
                height: self.height,
            },
            frame::RECORD_SCENE => Command::RecordScene {
                slot,
                image_index,
                width: self.width,
                height: self.height,
                extent: self.plan.extent,
            },
            frame::RECORD_OVERLAY => Command::RecordOverlay { slot, image_index },
            frame::FINISH_RECORDING => Command::FinishRecording { slot },
            frame::SUBMIT => Command::Submit { slot, wait_stage: stage_color_attachment_output() },
            _ => Command::Present { slot, image_index },
        }
    }

    fn teardown_command(&self) -> (command: Command)
        ensures
            command == self@.teardown_script(),
    {
        match self.cursor {
            teardown::WAIT_DEVICE_IDLE => Command::WaitDeviceIdle,
            teardown::DESTROY_SYNC_OBJECTS => Command::DestroySyncObjects,
            teardown::DESTROY_VERTEX_BUFFER => Command::DestroyVertexBuffer,
            teardown::FREE_VERTEX_MEMORY => Command::FreeMemory {
                purpose: MemoryPurpose::Vertex,
                count: 1,
            },
            teardown::DESTROY_UNIFORM_BUFFERS => Command::DestroyUniformBuffers,
            teardown::FREE_UNIFORM_MEMORY => Command::FreeMemory {
                purpose: MemoryPurpose::Uniform,
                count: self.uniform_slots,
            },
            teardown::DESTROY_PIPELINE => Command::DestroyPipeline,
            teardown::DESTROY_PIPELINE_LAYOUT => Command::DestroyPipelineLayout,
            teardown::DESTROY_FRAMEBUFFERS => Command::DestroyFramebuffers,
            teardown::DESTROY_IMAGE_VIEWS => Command::DestroyImageViews,
            teardown::DESTROY_RENDER_PASS => Command::DestroyRenderPass,
            teardown::DESTROY_DESCRIPTOR_SET_LAYOUTS => Command::DestroyDescriptorSetLayouts,
            teardown::DESTROY_DESCRIPTOR_POOL => Command::DestroyDescriptorPool,
            teardown::DESTROY_SWAPCHAIN => Command::DestroySwapchain,
            _ => Command::ReleaseAllocator,
        }
    }

    /// The outstanding command: what the host is to do next.
    pub fn command(&self) -> (command: Command)
        ensures
            command == self@.command(),
    {
        match self.phase {
            Phase::Uninitialized => self.construction_command(),
            Phase::Ready => Command::Idle,
            Phase::Recreating => self.recreation_command(),
            Phase::Rendering => self.frame_command(),
            Phase::Destroying => self.teardown_command(),
            Phase::Destroyed => Command::Idle,
            Phase::Faulted(error) => Command::Abort(error),
        }
    }

    fn fault(&mut self, error: FatalError)
        ensures
            final(self)@ == old(self)@.faulted(error),
    {
        self.phase = Phase::Faulted(error);
        self.cursor = 0;
    }

    fn advance(&mut self)
        requires
            old(self).cursor < u8::MAX,
        ensures
            final(self)@ == old(self)@.advanced(),
    {
        self.cursor = self.cursor + 1;
    }

    fn drain(&mut self)
        ensures
            final(self)@ == old(self)@.drained(),
    {
        self.in_flight = idle_slots(self.in_flight.len());
    }

    fn finish_frame(&mut self, dirty: bool, advance: bool)
        requires
            old(self).in_flight@.len() > 0,
            old(self).in_flight@.len() <= u32::MAX,
        ensures
            final(self)@ == old(self)@.frame_over(dirty, advance),
    {
        self.phase = Phase::Ready;
        self.cursor = 0;
        self.dirty = dirty;
        if advance {
            let depth = self.in_flight.len() as u64;
            self.current_frame = ((self.current_frame as u64 + 1) % depth) as u32;
        }
    }

    /// Asks for a frame of `width` by `height`. `overlay_stale` says that
    /// the overlay needs the swapchain handed to it again.
    ///
    /// A zero size does nothing. A stale swapchain, a new size or a stale
    /// overlay starts recreation; otherwise the frame starts with the wait
    /// for the slot's fence. While the renderer is not ready the request is
    /// rejected.
    pub fn render(&mut self, width: u32, height: u32, overlay_stale: bool) -> (command: Command)
        requires
            old(self).wf(),
        ensures
            final(self).wf(),
            final(self)@ == old(self)@.step(Event::Render { width, height, overlay_stale }),
            command == old(self)@.answer(Event::Render { width, height, overlay_stale }),
            width == 0 || height == 0 ==> final(self)@ == old(self)@,
            !(old(self)@.phase is Ready) ==> final(self)@ == old(self)@ && command
                == Command::Rejected,
            old(self)@.phase is Ready && width != 0 && height != 0 ==> {
                let before = old(self)@;
                let stale = before.dirty || width != before.width || height != before.height
                    || overlay_stale;
                &&& final(self)@.width == width && final(self)@.height == height
                &&& final(self)@.phase == if stale {
                    Phase::Recreating
                } else {
                    Phase::Rendering
                }
                &&& command == if stale {
                    Command::WaitDeviceIdle
                } else {
                    (Command::WaitFence { slot: before.current_frame, timeout: NO_TIMEOUT })
                }
            },
    {
        proof {
            lemma_step_preserves_wf(self@, Event::Render { width, height, overlay_stale });
        }
        match self.phase {
            Phase::Ready => {},
            _ => {
                return Command::Rejected;
            },
        }
        if width == 0 || height == 0 {
            return Command::Idle;
        }
        if self.dirty || width != self.width || height != self.height || overlay_stale {
            self.phase = Phase::Recreating;
            self.cursor = 0;
            self.width = width;
            self.height = height;
        } else {
            self.phase = Phase::Rendering;
            self.cursor = 0;
        }
        self.command()
    }

    /// Asks for teardown. While the renderer is not ready the request is
    /// rejected.
    pub fn destroy(&mut self) -> (command: Command)
        requires
            old(self).wf(),
        ensures
            final(self).wf(),
            final(self)@ == old(self)@.step(Event::Destroy),
            command == old(self)@.answer(Event::Destroy),
            command == if old(self)@.phase is Ready {
                Command::WaitDeviceIdle
            } else {
                Command::Rejected
            },
            final(self)@.phase == if old(self)@.phase is Ready {
                Phase::Destroying
            } else {
                old(self)@.phase
            },
    {
        proof {
            lemma_step_preserves_wf(self@, Event::Destroy);
        }
        match self.phase {
            Phase::Ready => {},
            _ => {
                return Command::Rejected;
            },
        }
        self.phase = Phase::Destroying;
        self.cursor = 0;
        self.command()
    }

    fn construction_completed(&mut self)
        requires
            old(self).wf(),
            old(self)@.phase is Uninitialized,
        ensures
            final(self)@ == old(self)@.construction_done(),
    {
        if self.cursor == construct::ALLOCATE_UNIFORM_MEMORY {
            self.allocations_made = self.allocations_made + self.uniform_slots as u64;
            self.advance();
        } else if self.cursor == construct::ALLOCATE_STAGING_MEMORY || self.cursor
            == construct::ALLOCATE_VERTEX_MEMORY {
            self.allocations_made = self.allocations_made + 1;
            self.advance();
        } else if self.cursor == construct::FREE_STAGING_MEMORY {
            self.allocations_freed = self.allocations_freed + 1;
            self.advance();
        } else if self.cursor >= construct::LAST {
            self.phase = Phase::Ready;
            self.cursor = 0;
            self.in_flight = idle_slots(self.image_count as usize);
            self.current_frame = 0;
            self.dirty = true;
        } else {
            self.advance();
        }
    }

    fn recreation_completed(&mut self)
        requires
            old(self).wf(),
            old(self)@.phase is Recreating,
        ensures
            final(self)@ == old(self)@.recreation_done(),
    {
        if self.cursor == recreate::WAIT_DEVICE_IDLE {
            self.drain();
            self.advance();
        } else if self.cursor == recreate::DESTROY_SYNC_OBJECTS {
            self.in_flight = Vec::new();
            self.advance();
        } else if self.cursor >= recreate::LAST {
            self.phase = Phase::Rendering;
            self.cursor = 0;
            self.in_flight = idle_slots(self.image_count as usize);
            self.current_frame = 0;
            self.dirty = false;
        } else {
            self.advance();
        }
    }

    fn frame_completed(&mut self)
        requires
            old(self).wf(),
            old(self)@.phase is Rendering,
        ensures
            final(self)@ == old(self)@.frame_done(),
    {
        let slot = self.current_frame as usize;
        if self.cursor == frame::WAIT_FENCE {
            self.in_flight.set(slot, false);
            self.advance();
        } else if self.cursor == frame::FINISH_RECORDING {
            self.in_flight.set(slot, true);
            self.advance();
        } else {
            self.advance();
        }
    }

    fn teardown_completed(&mut self)
        requires
            old(self).wf(),
            old(self)@.phase is Destroying,
        ensures
            final(self)@ == old(self)@.teardown_done(),
    {
        if self.cursor == teardown::WAIT_DEVICE_IDLE {
            self.drain();
            self.advance();
        } else if self.cursor == teardown::DESTROY_SYNC_OBJECTS {
            self.in_flight = Vec::new();
            self.advance();
        } else if self.cursor == teardown::FREE_VERTEX_MEMORY {
            self.allocations_freed = self.allocations_freed + 1;
            self.advance();
        } else if self.cursor == teardown::FREE_UNIFORM_MEMORY {
            self.allocations_freed = self.allocations_freed + self.uniform_slots as u64;
            self.advance();
        } else if self.cursor >= teardown::LAST {
            self.phase = Phase::Destroyed;
            self.cursor = 0;
        } else {
            self.advance();
        }
    }

    /// Reports that the outstanding command was carried out, and answers
    /// with the next one. Rejected unless the outstanding command waits for
    /// a plain completion.
    pub fn completed(&mut self) -> (command: Command)
        requires
            old(self).wf(),
        ensures
            final(self).wf(),
            final(self)@ == old(self)@.step(Event::Done),
            command == old(self)@.answer(Event::Done),
            command matches Command::Submit { slot, .. } ==> slot == old(self)@.current_frame
                && !old(self)@.in_flight[slot as int] && final(self)@.in_flight[slot as int],
            crate::command::releases(command) ==> !final(self)@.work_outstanding(),
            final(self)@.phase is Destroyed ==> {
                &&& final(self)@.allocations_made == final(self)@.allocations_freed
                &&& final(self)@.owned == Owned::nothing()
            },
            !(final(self)@.phase is Faulted) ==> final(self)@.owned.permits(command),
    {
        proof {
            lemma_step_preserves_wf(self@, Event::Done);
        }
        let outstanding = self.command();
        match reply_kind(&outstanding) {
            Reply::Completion => {},
            _ => {
                return Command::Rejected;
            },
        }
        match self.phase {
            Phase::Uninitialized => self.construction_completed(),
            Phase::Recreating => self.recreation_completed(),
            Phase::Rendering => self.frame_completed(),
            Phase::Destroying => self.teardown_completed(),
            _ => {},
        }
        self.owned = self.owned.record(&outstanding);
        self.command()
    }

    /// Reports the surface's formats and capabilities. The swapchain is
    /// planned for the size last asked for; if none can be planned the
    /// renderer stops. Rejected unless the surface query is outstanding.
    pub fn surface_queried(
        &mut self,
        formats: &Vec<SurfaceFormat>,
        capabilities: &SurfaceCapabilities,
    ) -> (command: Command)
        requires
            old(self).wf(),
        ensures
            final(self).wf(),
            final(self)@ == old(self)@.step(
                Event::Surface { formats: formats@, capabilities: *capabilities },
            ),
            command == old(self)@.answer(
                Event::Surface { formats: formats@, capabilities: *capabilities },
            ),
            old(self)@.command() is QuerySurface ==> match planned_swapchain(
                formats@,
                *capabilities,
                old(self)@.width,
                old(self)@.height,
            ) {
                Ok(plan) => command == (Command::CreateSwapchain { plan }) && final(self)@.plan
                    == plan,
                Err(PlanError::NoSurfaceFormat) => command == Command::Abort(
                    FatalError::NoSurfaceFormat,
                ),
                Err(PlanError::ImageCountOverflow) => command == Command::Abort(
                    FatalError::ImageCountOverflow,
                ),
            },
    {
        proof {
            lemma_step_preserves_wf(
                self@,
                Event::Surface { formats: formats@, capabilities: *capabilities },
            );
        }
        let outstanding = self.command();
        match reply_kind(&outstanding) {
            Reply::Surface => {},
            _ => {
                return Command::Rejected;
            },
        }
        match plan_swapchain(formats, capabilities, self.width, self.height) {
            Ok(plan) => {
                self.plan = plan;
                self.advance();
            },
            Err(PlanError::NoSurfaceFormat) => {
                self.fault(FatalError::NoSurfaceFormat);
            },
            Err(PlanError::ImageCountOverflow) => {
                self.fault(FatalError::ImageCountOverflow);
            },
        }
        self.owned = self.owned.record(&outstanding);
        self.command()
    }

    /// Reports that the swapchain was created with `image_count` images. A
    /// swapchain without images stops the renderer. Rejected unless the
    /// swapchain's creation is outstanding.
    pub fn swapchain_created(&mut self, image_count: u32) -> (command: Command)
        requires
            old(self).wf(),
        ensures
            final(self).wf(),
            final(self)@ == old(self)@.step(Event::SwapchainCreated { image_count }),
            command == old(self)@.answer(Event::SwapchainCreated { image_count }),
            old(self)@.command() is CreateSwapchain ==> if image_count == 0 {
                command == Command::Abort(FatalError::NoSwapchainImages)
            } else {
                &&& final(self)@.image_count == image_count
                &&& final(self)@.uniform_slots == if old(self)@.phase is Uninitialized {
                    image_count
                } else {
                    old(self)@.uniform_slots
                }
            },
    {
        proof {
            lemma_step_preserves_wf(self@, Event::SwapchainCreated { image_count });
        }
        let outstanding = self.command();
        match reply_kind(&outstanding) {
            Reply::Swapchain => {},
            _ => {
                return Command::Rejected;
            },
        }
        if image_count == 0 {
            self.fault(FatalError::NoSwapchainImages);
        } else {
            match self.phase {
                Phase::Uninitialized => {
                    self.uniform_slots = image_count;
                },
                _ => {},
            }
            self.image_count = image_count;
            self.advance();
        }
        self.owned = self.owned.record(&outstanding);
        self.command()
    }

    /// Reports that image `image_index` was acquired. Whether the swapchain
    /// was reported suboptimal at this point does not matter. Rejected
    /// unless the acquisition is outstanding.
    pub fn image_acquired(&mut self, image_index: u32, suboptimal: bool) -> (command: Command)
        requires
            old(self).wf(),
        ensures
            final(self).wf(),
            final(self)@ == old(self)@.step(Event::Acquired { image_index, suboptimal }),
            command == old(self)@.answer(Event::Acquired { image_index, suboptimal }),
            old(self)@.command() is AcquireImage ==> {
                let slot = old(self)@.current_frame;
                &&& command == if slot >= old(self)@.uniform_slots {
                    Command::Abort(FatalError::SlotOutOfRange { slot })
                } else if image_index >= old(self)@.image_count {
                    Command::Abort(FatalError::ImageOutOfRange { image_index })
                } else {
                    Command::ReadClock
                }
                &&& !(command is Submit) && !(command is Present)
            },
    {
        proof {
            lemma_step_preserves_wf(self@, Event::Acquired { image_index, suboptimal });
        }
        let outstanding = self.command();
        match reply_kind(&outstanding) {
            Reply::Acquisition => {},
            _ => {
                return Command::Rejected;
            },
        }
        if self.current_frame >= self.uniform_slots {
            let slot = self.current_frame;
            self.fault(FatalError::SlotOutOfRange { slot });
        } else if image_index >= self.image_count {
            self.fault(FatalError::ImageOutOfRange { image_index });
        } else {
            self.acquired_image = image_index;
            self.advance();
        }
        self.owned = self.owned.record(&outstanding);
        self.command()
    }

    /// Reports that no image was acquired, with Vulkan's result `code`. The
    /// frame is dropped; out-of-date marks the swapchain stale. Rejected
    /// unless the acquisition is outstanding.
    pub fn acquire_failed(&mut self, code: i32) -> (command: Command)
        requires
            old(self).wf(),
        ensures
            final(self).wf(),
            final(self)@ == old(self)@.step(Event::AcquireFailed { code }),
            command == old(self)@.answer(Event::AcquireFailed { code }),
            old(self)@.command() is AcquireImage ==> {
                &&& command == Command::Idle
                &&& final(self)@.phase is Ready
                &&& final(self)@.dirty == (code == ERROR_OUT_OF_DATE)
                &&& final(self)@.current_frame == old(self)@.current_frame
                &&& final(self)@.in_flight == old(self)@.in_flight
            },
            !(old(self)@.command() is AcquireImage) ==> final(self)@ == old(self)@ && command
                == Command::Rejected,
    {
        proof {
            lemma_step_preserves_wf(self@, Event::AcquireFailed { code });
        }
        let outstanding = self.command();
        match reply_kind(&outstanding) {
            Reply::Acquisition => {},
            _ => {
                return Command::Rejected;
            },
        }
        let dirty = self.dirty || code == result_error_out_of_date();
        self.finish_frame(dirty, false);
        self.command()
    }

    /// Reports a reading of the monotonic clock, in nanoseconds. The first
    /// reading starts the rotation. Rejected unless the reading is
    /// outstanding.
    pub fn clock_read(&mut self, now: u64) -> (command: Command)
        requires
            old(self).wf(),
        ensures
            final(self).wf(),
            final(self)@ == old(self)@.step(Event::Clock { now }),
            command == old(self)@.answer(Event::Clock { now }),
            old(self)@.command() is ReadClock ==> {
                let start = match old(self)@.start_time {
                    Some(start) => start,
                    None => now,
                };
                &&& final(self)@.start_time == Some(start)
                &&& command matches Command::WriteUniforms { slot, rotation, width, height }
                &&& slot == old(self)@.current_frame
                &&& rotation == rotation_after(elapsed_between(start, now))
                &&& width == old(self)@.width && height == old(self)@.height
            },
    {
        proof {
            lemma_step_preserves_wf(self@, Event::Clock { now });
        }
        let outstanding = self.command();
        match reply_kind(&outstanding) {
            Reply::Clock => {},
            _ => {
                return Command::Rejected;
            },
        }
        let start = match self.start_time {
            Some(start) => start,
            None => now,
        };
        self.start_time = Some(start);
        self.rotation = rotation_nanodegrees(start, now);
        self.advance();
        self.owned = self.owned.record(&outstanding);
        self.command()
    }

    /// Reports that the image was queued for presentation. A suboptimal
    /// swapchain is marked stale. Rejected unless presentation is
    /// outstanding.
    pub fn presented(&mut self, suboptimal: bool) -> (command: Command)
        requires
            old(self).wf(),
        ensures
            final(self).wf(),
            final(self)@ == old(self)@.step(Event::Presented { suboptimal }),
            command == old(self)@.answer(Event::Presented { suboptimal }),
            old(self)@.command() is Present ==> {
                &&& command == Command::Idle
                &&& final(self)@.phase is Ready
                &&& final(self)@.dirty == suboptimal
                &&& final(self)@.current_frame == (old(self)@.current_frame + 1)
                    % (old(self)@.ring_depth() as int)
            },
    {
        proof {
            lemma_step_preserves_wf(self@, Event::Presented { suboptimal });
        }
        let outstanding = self.command();
        match reply_kind(&outstanding) {
            Reply::Presentation => {},
            _ => {
                return Command::Rejected;
            },
        }
        self.finish_frame(suboptimal, true);
        self.owned = self.owned.record(&outstanding);
        self.command()
    }

    /// Reports that presentation failed, with Vulkan's result `code`.
    /// Out-of-date and suboptimal end the frame and mark the swapchain
    /// stale; any other code stops the renderer. Rejected unless
    /// presentation is outstanding.
    pub fn present_failed(&mut self, code: i32) -> (command: Command)
        requires
            old(self).wf(),
        ensures
            final(self).wf(),
            final(self)@ == old(self)@.step(Event::PresentFailed { code }),
            command == old(self)@.answer(Event::PresentFailed { code }),
            old(self)@.command() is Present ==> if code == ERROR_OUT_OF_DATE || code == SUBOPTIMAL {
                &&& command == Command::Idle
                &&& final(self)@.phase is Ready
                &&& final(self)@.dirty
                &&& final(self)@.current_frame == (old(self)@.current_frame + 1)
                    % (old(self)@.ring_depth() as int)
            } else {
                &&& command == Command::Abort(FatalError::PresentFailed { code })
                &&& final(self)@.phase == Phase::Faulted(FatalError::PresentFailed { code })
            },
    {
        proof {
            lemma_step_preserves_wf(self@, Event::PresentFailed { code });
        }
        let outstanding = self.command();
        match reply_kind(&outstanding) {
            Reply::Presentation => {},
            _ => {
                return Command::Rejected;
            },
        }
        if code == result_error_out_of_date() || code == result_suboptimal() {
            self.finish_frame(true, true);
        } else {
            self.fault(FatalError::PresentFailed { code });
        }
        self.command()
    }

    /// Reports that the device could not carry out the outstanding command,
    /// with Vulkan's result `code`. The renderer stops; what it owns stays
    /// as it was before the command. Rejected while the renderer waits for
    /// a request, for an acquisition, a presentation or a clock reading.
    pub fn failed(&mut self, code: i32) -> (command: Command)
        requires
            old(self).wf(),
        ensures
            final(self).wf(),
            final(self)@ == old(self)@.step(Event::Failed { code }),
            command == old(self)@.answer(Event::Failed { code }),
            command == if old(self)@.command().uses_device() {
                Command::Abort(FatalError::DeviceCallFailed { code })
            } else {
                Command::Rejected
            },
            final(self)@.owned == old(self)@.owned,
    {
        proof {
            lemma_step_preserves_wf(self@, Event::Failed { code });
        }
        let outstanding = self.command();
        match reply_kind(&outstanding) {
            Reply::Completion | Reply::Surface | Reply::Swapchain => {},
            _ => {
                return Command::Rejected;
            },
        }
        self.fault(FatalError::DeviceCallFailed { code });
        self.command()
    }

    /// Reports that the allocator could not carry out the outstanding
    /// command. The renderer stops; nothing is retried. Rejected unless
    /// memory is being allocated or freed.
    pub fn allocator_failed(&mut self) -> (command: Command)
        requires
            old(self).wf(),
        ensures
            final(self).wf(),
            final(self)@ == old(self)@.step(Event::AllocatorFailed),
            command == old(self)@.answer(Event::AllocatorFailed),
            command == if old(self)@.command().uses_allocator() {
                Command::Abort(FatalError::AllocatorFailed)
            } else {
                Command::Rejected
            },
            final(self)@.owned == old(self)@.owned,
            final(self)@.allocations_made == old(self)@.allocations_made,
            final(self)@.allocations_freed == old(self)@.allocations_freed,
    {
        proof {
            lemma_step_preserves_wf(self@, Event::AllocatorFailed);
        }
        match self.command() {
            Command::AllocateMemory { .. } | Command::FreeMemory { .. } => {},
            _ => {
                return Command::Rejected;
            },
        }
        self.fault(FatalError::AllocatorFailed);
        self.command()
    }
}

} // verus!
