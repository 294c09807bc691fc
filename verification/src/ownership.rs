//! What a renderer owns on the device, and what each command does to it.
//!
//! The device has rules of its own: nothing is created twice, nothing is
//! destroyed that does not exist, and nothing goes while something that
//! hangs on it is still there. [`Owned::permits`] writes these rules down
//! for every command; [`Owned::after`] says what is owned once a command
//! has been carried out.
//!
//! Command buffers are not listed: they are drawn from the host's pool and
//! go with it.

use vstd::prelude::*;

use crate::command::{Command, MemoryPurpose};

verus! {

/// The device objects a renderer owns: whether it has each single object,
/// and how many of each kind that comes per image or per slot.
#[derive(Clone, Copy, Debug, PartialEq, Eq, Structural)]
pub struct Owned {
    /// The shared allocator.
    pub allocator: bool,
    pub swapchain: bool,
    /// One view per swapchain image.
    pub image_views: u32,
    /// One framebuffer per image view.
    pub framebuffers: u32,
    pub render_pass: bool,
    /// Slots of the ring: per slot one fence and two semaphores.
    pub sync_slots: u32,
    pub uniform_buffers: u32,
    /// Allocations, one behind each uniform buffer.
    pub uniform_memory: u32,
    pub descriptor_pool: bool,
    pub descriptor_set_layouts: u32,
    /// Sets allocated from the pool; they go when the pool goes.
    pub descriptor_sets: u32,
    pub pipeline: bool,
    pub pipeline_layout: bool,
    pub staging_buffer: bool,
    pub staging_memory: bool,
    pub vertex_buffer: bool,
    pub vertex_memory: bool,
    /// The one-shot command buffer of the vertex upload.
    pub copy_command_buffer: bool,
}

impl Owned {
    /// Nothing at all.
    pub open spec fn nothing() -> Owned {
        Owned {
            allocator: false,
            swapchain: false,
            image_views: 0,
            framebuffers: 0,
            render_pass: false,
            sync_slots: 0,
            uniform_buffers: 0,
            uniform_memory: 0,
            descriptor_pool: false,
            descriptor_set_layouts: 0,
            descriptor_sets: 0,
            pipeline: false,
            pipeline_layout: false,
            staging_buffer: false,
            staging_memory: false,
            vertex_buffer: false,
            vertex_memory: false,
            copy_command_buffer: false,
        }
    }

    /// What a renderer starts with: the allocator it was given.
    pub open spec fn at_start() -> Owned {
        Owned { allocator: true, ..Owned::nothing() }
    }

    /// Number of live memory allocations.
    pub open spec fn live_memory(self) -> int {
        self.uniform_memory + (if self.staging_memory {
            1int
        } else {
            0
        }) + (if self.vertex_memory {
            1int
        } else {
            0
        })
    }

    /// Whether what hangs on something else has that something: views have
    /// their swapchain, framebuffers their views and render pass, the
    /// pipeline its layout, descriptor sets their pool, memory its
    /// allocator.
    pub open spec fn dependencies_met(self) -> bool {
        &&& self.image_views > 0 ==> self.swapchain
        &&& self.framebuffers > 0 ==> self.image_views == self.framebuffers && self.render_pass
        &&& self.pipeline ==> self.pipeline_layout
        &&& self.descriptor_sets > 0 ==> self.descriptor_pool
        &&& self.live_memory() > 0 ==> self.allocator
    }

    /// What is owned once `command` has been carried out.
    pub open spec fn after(self, command: Command) -> Owned {
        match command {
            Command::CreateSwapchain { .. } => Owned { swapchain: true, ..self },
            Command::CreateUniformBuffers { count } => Owned { uniform_buffers: count, ..self },
            Command::AllocateMemory { purpose, count, .. } => match purpose {
                MemoryPurpose::Uniform => Owned { uniform_memory: count, ..self },
                MemoryPurpose::Staging => Owned { staging_memory: true, ..self },
                MemoryPurpose::Vertex => Owned { vertex_memory: true, ..self },
            },
            Command::FreeMemory { purpose, .. } => match purpose {
                MemoryPurpose::Uniform => Owned { uniform_memory: 0, ..self },
                MemoryPurpose::Staging => Owned { staging_memory: false, ..self },
                MemoryPurpose::Vertex => Owned { vertex_memory: false, ..self },
            },
            Command::CreateDescriptorPool { .. } => Owned { descriptor_pool: true, ..self },
            Command::CreateDescriptorSetLayouts { count } => Owned {
                descriptor_set_layouts: count,
                ..self
            },
            Command::CreateDescriptorSets { count } => Owned { descriptor_sets: count, ..self },
            Command::CreateRenderPass { .. } => Owned { render_pass: true, ..self },
            Command::CreateFramebuffers { count, .. } => Owned {
                image_views: count,
                framebuffers: count,
                ..self
            },
            Command::CreatePipeline => Owned { pipeline: true, pipeline_layout: true, ..self },
            Command::CreateStagingBuffer => Owned { staging_buffer: true, ..self },
            Command::CreateVertexBuffer => Owned { vertex_buffer: true, ..self },
            Command::SubmitCopy => Owned { copy_command_buffer: true, ..self },
            Command::FreeCopyCommandBuffer => Owned { copy_command_buffer: false, ..self },
            Command::DestroyStagingBuffer => Owned { staging_buffer: false, ..self },
            Command::CreateSyncObjects { count, .. } => Owned { sync_slots: count, ..self },
            Command::DestroySyncObjects => Owned { sync_slots: 0, ..self },
            Command::DestroyFramebuffers => Owned { framebuffers: 0, ..self },
            Command::DestroyImageViews => Owned { image_views: 0, ..self },
            Command::DestroyRenderPass => Owned { render_pass: false, ..self },
            Command::DestroySwapchain => Owned { swapchain: false, ..self },
            Command::DestroyVertexBuffer => Owned { vertex_buffer: false, ..self },
            Command::DestroyUniformBuffers => Owned { uniform_buffers: 0, ..self },
            Command::DestroyPipeline => Owned { pipeline: false, ..self },
            Command::DestroyPipelineLayout => Owned { pipeline_layout: false, ..self },
            Command::DestroyDescriptorSetLayouts => Owned { descriptor_set_layouts: 0, ..self },
            Command::DestroyDescriptorPool => Owned {
                descriptor_pool: false,
                descriptor_sets: 0,
                ..self
            },
            Command::ReleaseAllocator => Owned { allocator: false, ..self },
            _ => self,
        }
    }

    /// Whether the device can take `command` given what is owned.
    ///
    /// To create, the thing must not be there yet and what it is made from
    /// must be. To destroy, the thing must be there and nothing that hangs
    /// on it. To use, the slot and the image must exist.
    pub open spec fn permits(self, command: Command) -> bool {
        match command {
            Command::Idle | Command::Rejected | Command::Abort(_) => true,
            Command::QuerySurface | Command::ReadClock => true,
            Command::WaitQueueIdle | Command::WaitDeviceIdle => true,
            Command::CreateSwapchain { .. } => !self.swapchain && self.image_views == 0,
            Command::NotifyOverlay { .. } => self.swapchain,
            Command::CreateUniformBuffers { count } => self.uniform_buffers == 0 && count > 0,
            Command::AllocateMemory { purpose, count, .. } => self.allocator && match purpose {
                MemoryPurpose::Uniform => self.uniform_memory == 0 && self.uniform_buffers == count,
                MemoryPurpose::Staging => !self.staging_memory && self.staging_buffer && count == 1,
                MemoryPurpose::Vertex => !self.vertex_memory && self.vertex_buffer && count == 1,
            },
            Command::BindMemory { purpose } => match purpose {
                MemoryPurpose::Uniform => self.uniform_buffers > 0 && self.uniform_memory
                    == self.uniform_buffers,
                MemoryPurpose::Staging => self.staging_buffer && self.staging_memory,
                MemoryPurpose::Vertex => self.vertex_buffer && self.vertex_memory,
            },
            Command::FreeMemory { purpose, count } => self.allocator && match purpose {
                MemoryPurpose::Uniform => self.uniform_memory == count && count > 0,
                MemoryPurpose::Staging => self.staging_memory && count == 1,
                MemoryPurpose::Vertex => self.vertex_memory && count == 1,
            },
            Command::CreateDescriptorPool { .. } => !self.descriptor_pool && self.descriptor_sets
                == 0,
            Command::CreateDescriptorSetLayouts { count } => self.descriptor_set_layouts == 0
                && count > 0,
            Command::CreateDescriptorSets { count } => self.descriptor_sets == 0
                && self.descriptor_pool && self.descriptor_set_layouts == count
                && self.uniform_buffers == count,
            Command::CreateRenderPass { .. } => !self.render_pass && self.framebuffers == 0,
            Command::CreateFramebuffers { count, .. } => self.image_views == 0 && self.framebuffers
                == 0 && self.swapchain && self.render_pass && count > 0,
            Command::CreatePipeline => !self.pipeline && !self.pipeline_layout && self.render_pass
                && self.descriptor_set_layouts > 0,
            Command::CreateStagingBuffer => !self.staging_buffer,
            Command::FillStagingBuffer => self.staging_buffer && self.staging_memory,
            Command::CreateVertexBuffer => !self.vertex_buffer,
            Command::SubmitCopy => !self.copy_command_buffer && self.staging_buffer
                && self.staging_memory && self.vertex_buffer && self.vertex_memory,
            Command::FreeCopyCommandBuffer => self.copy_command_buffer,
            Command::DestroyStagingBuffer => self.staging_buffer && !self.copy_command_buffer,
            Command::CreateCommandBuffers { count } => count > 0,
            Command::CreateSyncObjects { count, .. } => self.sync_slots == 0 && count > 0,
            Command::DestroySyncObjects => self.sync_slots > 0,
            Command::DestroyFramebuffers => self.framebuffers > 0,
            Command::DestroyImageViews => self.image_views > 0 && self.framebuffers == 0,
            Command::DestroyRenderPass => self.render_pass && self.framebuffers == 0,
            Command::DestroySwapchain => self.swapchain && self.image_views == 0,
            Command::DestroyVertexBuffer => self.vertex_buffer,
            Command::DestroyUniformBuffers => self.uniform_buffers > 0,
            Command::DestroyPipeline => self.pipeline,
            Command::DestroyPipelineLayout => self.pipeline_layout && !self.pipeline,
            Command::DestroyDescriptorSetLayouts => self.descriptor_set_layouts > 0
                && !self.pipeline_layout,
            Command::DestroyDescriptorPool => self.descriptor_pool,
            Command::ReleaseAllocator => self.allocator && self.live_memory() == 0,
            Command::WaitFence { slot, .. } | Command::ResetFence { slot } => slot
                < self.sync_slots,
            Command::AcquireImage { slot, .. } => slot < self.sync_slots && self.swapchain,
            Command::WriteUniforms { slot, .. } => slot < self.uniform_buffers && slot
                < self.uniform_memory,
            Command::RecordScene { slot, image_index, .. } => {
                &&& slot < self.descriptor_sets
                &&& image_index < self.framebuffers
                &&& self.render_pass
                &&& self.pipeline
                &&& self.vertex_buffer
                &&& self.vertex_memory
            },
            Command::RecordOverlay { slot, image_index } => slot < self.sync_slots && image_index
                < self.image_views,
            Command::FinishRecording { slot } => slot < self.sync_slots,
            Command::Submit { slot, .. } => slot < self.sync_slots,
            Command::Present { slot, image_index } => slot < self.sync_slots && self.swapchain
                && image_index < self.image_views,
        }
    }

    /// The allocator alone.
    pub fn initial() -> (owned: Owned)
        ensures
            owned == Owned::at_start(),
    {
        Owned {
            allocator: true,
            swapchain: false,
            image_views: 0,
            framebuffers: 0,
            render_pass: false,
            sync_slots: 0,
            uniform_buffers: 0,
            uniform_memory: 0,
            descriptor_pool: false,
            descriptor_set_layouts: 0,
            descriptor_sets: 0,
            pipeline: false,
            pipeline_layout: false,
            staging_buffer: false,
            staging_memory: false,
            vertex_buffer: false,
            vertex_memory: false,
            copy_command_buffer: false,
        }
    }

    /// Counts the live memory allocations.
    pub fn count_live_memory(&self) -> (count: u64)
        ensures
            count == self.live_memory(),
    {
        self.uniform_memory as u64 + (if self.staging_memory {
            1
        } else {
            0
        }) + (if self.vertex_memory {
            1
        } else {
            0
        })
    }

    /// Whether nothing is owned.
    pub fn is_empty(&self) -> (empty: bool)
        ensures
            empty == (*self == Owned::nothing()),
    {
        !self.allocator
            && !self.swapchain
            && self.image_views == 0
            && self.framebuffers == 0
            && !self.render_pass
            && self.sync_slots == 0
            && self.uniform_buffers == 0
            && self.uniform_memory == 0
            && !self.descriptor_pool
            && self.descriptor_set_layouts == 0
            && self.descriptor_sets == 0
            && !self.pipeline
            && !self.pipeline_layout
            && !self.staging_buffer
            && !self.staging_memory
            && !self.vertex_buffer
            && !self.vertex_memory
            && !self.copy_command_buffer
    }

    /// Records that `command` has been carried out.
    pub fn record(self, command: &Command) -> (owned: Owned)
        ensures
            owned == self.after(*command),
    {
        match *command {
            Command::CreateSwapchain { .. } => Owned { swapchain: true, ..self },
            Command::CreateUniformBuffers { count } => Owned { uniform_buffers: count, ..self },
            Command::AllocateMemory { purpose, count, .. } => match purpose {
                MemoryPurpose::Uniform => Owned { uniform_memory: count, ..self },
                MemoryPurpose::Staging => Owned { staging_memory: true, ..self },
                MemoryPurpose::Vertex => Owned { vertex_memory: true, ..self },
            },
            Command::FreeMemory { purpose, .. } => match purpose {
                MemoryPurpose::Uniform => Owned { uniform_memory: 0, ..self },
                MemoryPurpose::Staging => Owned { staging_memory: false, ..self },
                MemoryPurpose::Vertex => Owned { vertex_memory: false, ..self },
            },
            Command::CreateDescriptorPool { .. } => Owned { descriptor_pool: true, ..self },
            Command::CreateDescriptorSetLayouts { count } => Owned {
                descriptor_set_layouts: count,
                ..self
            },
            Command::CreateDescriptorSets { count } => Owned { descriptor_sets: count, ..self },
            Command::CreateRenderPass { .. } => Owned { render_pass: true, ..self },
            Command::CreateFramebuffers { count, .. } => Owned {
                image_views: count,
                framebuffers: count,
                ..self
            },
            Command::CreatePipeline => Owned { pipeline: true, pipeline_layout: true, ..self },
            Command::CreateStagingBuffer => Owned { staging_buffer: true, ..self },
            Command::CreateVertexBuffer => Owned { vertex_buffer: true, ..self },
            Command::SubmitCopy => Owned { copy_command_buffer: true, ..self },
            Command::FreeCopyCommandBuffer => Owned { copy_command_buffer: false, ..self },
            Command::DestroyStagingBuffer => Owned { staging_buffer: false, ..self },
            Command::CreateSyncObjects { count, .. } => Owned { sync_slots: count, ..self },
            Command::DestroySyncObjects => Owned { sync_slots: 0, ..self },
            Command::DestroyFramebuffers => Owned { framebuffers: 0, ..self },
            Command::DestroyImageViews => Owned { image_views: 0, ..self },
            Command::DestroyRenderPass => Owned { render_pass: false, ..self },
            Command::DestroySwapchain => Owned { swapchain: false, ..self },
            Command::DestroyVertexBuffer => Owned { vertex_buffer: false, ..self },
            Command::DestroyUniformBuffers => Owned { uniform_buffers: 0, ..self },
            Command::DestroyPipeline => Owned { pipeline: false, ..self },
            Command::DestroyPipelineLayout => Owned { pipeline_layout: false, ..self },
            Command::DestroyDescriptorSetLayouts => Owned { descriptor_set_layouts: 0, ..self },
            Command::DestroyDescriptorPool => Owned {
                descriptor_pool: false,
                descriptor_sets: 0,
                ..self
            },
            Command::ReleaseAllocator => Owned { allocator: false, ..self },
            _ => self,
        }
    }

    /// Checks whether the device can take `command` given what is owned.
    pub fn allows(&self, command: &Command) -> (ok: bool)
        ensures
            ok == self.permits(*command),
    {
        match *command {
            Command::Idle | Command::Rejected | Command::Abort(_) => true,
            Command::QuerySurface | Command::ReadClock => true,
            Command::WaitQueueIdle | Command::WaitDeviceIdle => true,
            Command::CreateSwapchain { .. } => !self.swapchain && self.image_views == 0,
            Command::NotifyOverlay { .. } => self.swapchain,
            Command::CreateUniformBuffers { count } => self.uniform_buffers == 0 && count > 0,
            Command::AllocateMemory { purpose, count, .. } => self.allocator && match purpose {
                MemoryPurpose::Uniform => self.uniform_memory == 0 && self.uniform_buffers == count,
                MemoryPurpose::Staging => !self.staging_memory && self.staging_buffer && count == 1,
                MemoryPurpose::Vertex => !self.vertex_memory && self.vertex_buffer && count == 1,
            },
            Command::BindMemory { purpose } => match purpose {
                MemoryPurpose::Uniform => self.uniform_buffers > 0 && self.uniform_memory
                    == self.uniform_buffers,
                MemoryPurpose::Staging => self.staging_buffer && self.staging_memory,
                MemoryPurpose::Vertex => self.vertex_buffer && self.vertex_memory,
            },
            Command::FreeMemory { purpose, count } => self.allocator && match purpose {
                MemoryPurpose::Uniform => self.uniform_memory == count && count > 0,
                MemoryPurpose::Staging => self.staging_memory && count == 1,
                MemoryPurpose::Vertex => self.vertex_memory && count == 1,
            },
            Command::CreateDescriptorPool { .. } => !self.descriptor_pool && self.descriptor_sets
                == 0,
            Command::CreateDescriptorSetLayouts { count } => self.descriptor_set_layouts == 0
                && count > 0,
            Command::CreateDescriptorSets { count } => self.descriptor_sets == 0
                && self.descriptor_pool && self.descriptor_set_layouts == count
                && self.uniform_buffers == count,
            Command::CreateRenderPass { .. } => !self.render_pass && self.framebuffers == 0,
            Command::CreateFramebuffers { count, .. } => self.image_views == 0 && self.framebuffers
                == 0 && self.swapchain && self.render_pass && count > 0,
            Command::CreatePipeline => !self.pipeline && !self.pipeline_layout && self.render_pass
                && self.descriptor_set_layouts > 0,
            Command::CreateStagingBuffer => !self.staging_buffer,
            Command::FillStagingBuffer => self.staging_buffer && self.staging_memory,
            Command::CreateVertexBuffer => !self.vertex_buffer,
            Command::SubmitCopy => !self.copy_command_buffer && self.staging_buffer
                && self.staging_memory && self.vertex_buffer && self.vertex_memory,
            Command::FreeCopyCommandBuffer => self.copy_command_buffer,
            Command::DestroyStagingBuffer => self.staging_buffer && !self.copy_command_buffer,
            Command::CreateCommandBuffers { count } => count > 0,
            Command::CreateSyncObjects { count, .. } => self.sync_slots == 0 && count > 0,
            Command::DestroySyncObjects => self.sync_slots > 0,
            Command::DestroyFramebuffers => self.framebuffers > 0,
            Command::DestroyImageViews => self.image_views > 0 && self.framebuffers == 0,
            Command::DestroyRenderPass => self.render_pass && self.framebuffers == 0,
            Command::DestroySwapchain => self.swapchain && self.image_views == 0,
            Command::DestroyVertexBuffer => self.vertex_buffer,
            Command::DestroyUniformBuffers => self.uniform_buffers > 0,
            Command::DestroyPipeline => self.pipeline,
            Command::DestroyPipelineLayout => self.pipeline_layout && !self.pipeline,
            Command::DestroyDescriptorSetLayouts => self.descriptor_set_layouts > 0
                && !self.pipeline_layout,
            Command::DestroyDescriptorPool => self.descriptor_pool,
            Command::ReleaseAllocator => self.allocator && self.count_live_memory() == 0,
            Command::WaitFence { slot, .. } | Command::ResetFence { slot } => slot
                < self.sync_slots,
            Command::AcquireImage { slot, .. } => slot < self.sync_slots && self.swapchain,
            Command::WriteUniforms { slot, .. } => slot < self.uniform_buffers && slot
                < self.uniform_memory,
            Command::RecordScene { slot, image_index, .. } => slot < self.descriptor_sets
                && image_index < self.framebuffers && self.render_pass && self.pipeline
                && self.vertex_buffer && self.vertex_memory,
            Command::RecordOverlay { slot, image_index } => slot < self.sync_slots && image_index
                < self.image_views,
            Command::FinishRecording { slot } => slot < self.sync_slots,
            Command::Submit { slot, .. } => slot < self.sync_slots,
            Command::Present { slot, image_index } => slot < self.sync_slots && self.swapchain
                && image_index < self.image_views,
        }
    }
}

} // verus!
