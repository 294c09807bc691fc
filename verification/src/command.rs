//! The vocabulary between the renderer and its host: what the renderer asks
//! the host to do on the device, and what kind of answer it waits for.

use vstd::prelude::*;

use crate::surface::{Extent, SwapchainPlan};

verus! {

/// What a piece of device memory backs.
#[derive(Clone, Copy, Debug, PartialEq, Eq, Structural)]
pub enum MemoryPurpose {
    /// The per-slot uniform buffers, written by the host every frame.
    Uniform,
    /// The temporary buffer the vertices are uploaded through.
    Staging,
    /// The vertex buffer the device draws from.
    Vertex,
}

/// Where a piece of device memory lives.
#[derive(Clone, Copy, Debug, PartialEq, Eq, Structural)]
pub enum MemoryLocation {
    /// Visible to the host and kept mapped, readable by the device.
    HostVisible,
    /// Local to the device.
    DeviceLocal,
}

/// Why the renderer cannot go on.
#[derive(Clone, Copy, Debug, PartialEq, Eq, Structural)]
pub enum FatalError {
    /// The surface lists no format.
    NoSurfaceFormat,
    /// The number of images to ask for does not fit its type.
    ImageCountOverflow,
    /// The swapchain came back without images.
    NoSwapchainImages,
    /// The frame slot has no uniform buffer, command buffer or descriptor
    /// set: the ring grew past what was built once at construction.
    SlotOutOfRange { slot: u32 },
    /// The acquired image is not one of the swapchain's.
    ImageOutOfRange { image_index: u32 },
    /// Presentation failed with a code that is neither out-of-date nor
    /// suboptimal.
    PresentFailed { code: i32 },
    /// The device could not carry out a command; `code` is Vulkan's result.
    DeviceCallFailed { code: i32 },
    /// The allocator could not allocate or free.
    AllocatorFailed,
}

/// One thing for the host to do on the device. Unless said otherwise the
/// host answers with a plain completion.
#[derive(Clone, Copy, Debug, PartialEq, Eq, Structural)]
pub enum Command {
    /// Nothing to do until the next request.
    Idle,
    /// The answer did not fit the command that is outstanding; nothing
    /// changed.
    Rejected,
    /// The renderer has failed for good.
    Abort(FatalError),
    /// Query the surface's formats and capabilities; answered with them.
    QuerySurface,
    /// Create the swapchain and fetch its images; answered with their number.
    CreateSwapchain { plan: SwapchainPlan },
    /// Tell the overlay about the new images.
    NotifyOverlay { image_count: u32, format: i32, width: u32, height: u32 },
    CreateUniformBuffers { count: u32 },
    /// Allocate `count` pieces of memory, each for one buffer of `purpose`.
    AllocateMemory { purpose: MemoryPurpose, location: MemoryLocation, count: u32 },
    /// Bind each buffer of `purpose` to its memory.
    BindMemory { purpose: MemoryPurpose },
    /// Free `count` pieces of memory, all that back buffers of `purpose`.
    FreeMemory { purpose: MemoryPurpose, count: u32 },
    CreateDescriptorPool { count: u32 },
    CreateDescriptorSetLayouts { count: u32 },
    /// Allocate one descriptor set per uniform buffer and point it there.
    CreateDescriptorSets { count: u32 },
    CreateRenderPass { format: i32 },
    /// Create one image view and one framebuffer per swapchain image.
    CreateFramebuffers { count: u32, format: i32, extent: Extent },
    /// Build the pipeline and its layout from the two shader stages.
    CreatePipeline,
    CreateStagingBuffer,
    /// Copy the vertices into the staging buffer's mapped memory.
    FillStagingBuffer,
    CreateVertexBuffer,
    /// Record the staging-to-vertex copy into a one-shot command buffer and
    /// submit it.
    SubmitCopy,
    /// Wait until the queue has finished everything submitted to it.
    WaitQueueIdle,
    FreeCopyCommandBuffer,
    DestroyStagingBuffer,
    CreateCommandBuffers { count: u32 },
    /// Create, per slot, one fence with `fence_flags` and two semaphores.
    CreateSyncObjects { count: u32, fence_flags: u32 },
    /// Wait until the device has finished all work.
    WaitDeviceIdle,
    DestroySyncObjects,
    DestroyFramebuffers,
    DestroyImageViews,
    DestroyRenderPass,
    DestroySwapchain,
    DestroyVertexBuffer,
    DestroyUniformBuffers,
    DestroyPipeline,
    DestroyPipelineLayout,
    DestroyDescriptorSetLayouts,
    DestroyDescriptorPool,
    /// Give up the shared allocator.
    ReleaseAllocator,
    /// Wait for the slot's fence, at most `timeout` nanoseconds.
    WaitFence { slot: u32, timeout: u64 },
    ResetFence { slot: u32 },
    /// Acquire the next image within `timeout` nanoseconds, signalling the
    /// slot's image-available semaphore; answered with the image's index or
    /// the failure's code.
    AcquireImage { slot: u32, timeout: u64 },
    /// Read the monotonic clock; answered with its nanoseconds.
    ReadClock,
    /// Write the frame's uniform data into the slot's mapped buffer. The
    /// rotation is in nanodegrees.
    WriteUniforms { slot: u32, rotation: u128, width: u32, height: u32 },
    /// Begin the slot's command buffer and record the scene into the
    /// image's framebuffer: one render pass, from clear to draw.
    RecordScene { slot: u32, image_index: u32, width: u32, height: u32, extent: Extent },
    /// Let the overlay record its commands for the image into the slot's
    /// command buffer.
    RecordOverlay { slot: u32, image_index: u32 },
    /// End the slot's command buffer.
    FinishRecording { slot: u32 },
    /// Submit the slot's command buffer: wait for image-available at the
    /// stages `wait_stage`, signal render-finished and the slot's fence.
    Submit { slot: u32, wait_stage: u32 },
    /// Present the image once render-finished is signaled; answered with
    /// whether the swapchain is suboptimal, or the failure's code.
    Present { slot: u32, image_index: u32 },
}

/// The kind of answer a command waits for.
#[derive(Clone, Copy, Debug, PartialEq, Eq, Structural)]
pub enum Reply {
    /// No answer: the renderer waits for a request, or has stopped.
    Nothing,
    /// A plain completion.
    Completion,
    /// The surface's formats and capabilities.
    Surface,
    /// The number of swapchain images.
    Swapchain,
    /// The outcome of acquiring an image.
    Acquisition,
    /// A reading of the clock.
    Clock,
    /// The outcome of presenting.
    Presentation,
}

/// Where memory for `purpose` is allocated: what the host writes is
/// host-visible, what only the device reads is device-local.
pub open spec fn location_for(purpose: MemoryPurpose) -> MemoryLocation {
    match purpose {
        MemoryPurpose::Uniform => MemoryLocation::HostVisible,
        MemoryPurpose::Staging => MemoryLocation::HostVisible,
        MemoryPurpose::Vertex => MemoryLocation::DeviceLocal,
    }
}

/// The kind of answer `command` waits for.
pub open spec fn awaited(command: Command) -> Reply {
    match command {
        Command::Idle | Command::Rejected | Command::Abort(_) => Reply::Nothing,
        Command::QuerySurface => Reply::Surface,
        Command::CreateSwapchain { .. } => Reply::Swapchain,
        Command::AcquireImage { .. } => Reply::Acquisition,
        Command::ReadClock => Reply::Clock,
        Command::Present { .. } => Reply::Presentation,
        _ => Reply::Completion,
    }
}

impl Command {
    /// Whether carrying out this command calls the device, other than to
    /// acquire or to present, whose failures are told apart.
    pub open spec fn uses_device(self) -> bool {
        match awaited(self) {
            Reply::Completion | Reply::Surface | Reply::Swapchain => true,
            _ => false,
        }
    }

    /// Whether carrying out this command calls the allocator.
    pub open spec fn uses_allocator(self) -> bool {
        self is AllocateMemory || self is FreeMemory
    }
}

/// Whether carrying out `command` hands work to the device that may still
/// be running when the command returns.
pub open spec fn submits_work(command: Command) -> bool {
    command is Submit || command is SubmitCopy
}

/// Whether carrying out `command` takes something away that work on the
/// device may be using: an object destroyed, memory freed, the allocator
/// released.
pub open spec fn releases(command: Command) -> bool {
    match command {
        Command::FreeMemory { .. }
        | Command::FreeCopyCommandBuffer
        | Command::DestroyStagingBuffer
        | Command::DestroySyncObjects
        | Command::DestroyFramebuffers
        | Command::DestroyImageViews
        | Command::DestroyRenderPass
        | Command::DestroySwapchain
        | Command::DestroyVertexBuffer
        | Command::DestroyUniformBuffers
        | Command::DestroyPipeline
        | Command::DestroyPipelineLayout
        | Command::DestroyDescriptorSetLayouts
        | Command::DestroyDescriptorPool
        | Command::ReleaseAllocator => true,
        _ => false,
    }
}

/// Chooses the memory location for `purpose`.
pub fn memory_location(purpose: MemoryPurpose) -> (location: MemoryLocation)
    ensures
        location == location_for(purpose),
{
    match purpose {
        MemoryPurpose::Uniform => MemoryLocation::HostVisible,
        MemoryPurpose::Staging => MemoryLocation::HostVisible,
        MemoryPurpose::Vertex => MemoryLocation::DeviceLocal,
    }
}

/// Tells which kind of answer `command` waits for.
pub fn reply_kind(command: &Command) -> (kind: Reply)
    ensures
        kind == awaited(*command),
{
    match command {
        Command::Idle | Command::Rejected | Command::Abort(_) => Reply::Nothing,
        Command::QuerySurface => Reply::Surface,
        Command::CreateSwapchain { .. } => Reply::Swapchain,
        Command::AcquireImage { .. } => Reply::Acquisition,
        Command::ReadClock => Reply::Clock,
        Command::Present { .. } => Reply::Presentation,
        _ => Reply::Completion,
    }
}

} // verus!
