use std::collections::VecDeque;

use ash::vk;
use egui_ash::command::{Command, FatalError, MemoryLocation, MemoryPurpose};
use egui_ash::model::Phase;
use egui_ash::ownership::Owned;
use egui_ash::renderer::Renderer;
use egui_ash::surface::{Extent, SurfaceCapabilities, SurfaceFormat, SwapchainPlan};

const SECOND: u64 = 1_000_000_000;

fn wait_fence(slot: u32) -> Command {
    Command::WaitFence {
        slot,
        timeout: u64::MAX,
    }
}

fn acquire_image(slot: u32) -> Command {
    Command::AcquireImage {
        slot,
        timeout: u64::MAX,
    }
}

fn submit(slot: u32) -> Command {
    Command::Submit {
        slot,
        wait_stage: vk::PipelineStageFlags::COLOR_ATTACHMENT_OUTPUT.as_raw(),
    }
}

fn create_sync_objects(count: u32) -> Command {
    Command::CreateSyncObjects {
        count,
        fence_flags: vk::FenceCreateFlags::SIGNALED.as_raw(),
    }
}

fn out_of_date() -> i32 {
    vk::Result::ERROR_OUT_OF_DATE_KHR.as_raw()
}

fn bgra8() -> SurfaceFormat {
    SurfaceFormat {
        format: vk::Format::B8G8R8A8_UNORM.as_raw(),
        color_space: vk::ColorSpaceKHR::SRGB_NONLINEAR.as_raw(),
    }
}

/// A device that does nothing but keep count, and checks on the way that
/// the renderer never asks for what a real device could not take.
struct Device {
    formats: Vec<SurfaceFormat>,
    capabilities: SurfaceCapabilities,
    /// How many images the next swapchain comes with.
    images: u32,
    /// Outcomes of the next acquisitions; when empty, images come in turn.
    acquisitions: VecDeque<Result<u32, i32>>,
    /// Outcomes of the next presentations; when empty, all is well.
    presentations: VecDeque<Result<bool, i32>>,
    clock: u64,
    /// What each reading adds to the clock.
    tick: u64,
    next_image: u32,
    log: Vec<Command>,
    /// Per fence: whether work submitted with it has not been waited for.
    busy: Vec<bool>,
    /// Per fence: whether it is signaled.
    signaled: Vec<bool>,
    copy_running: bool,
    allocated: u64,
    freed: u64,
    allocator_released: bool,
    /// What exists on the device.
    objects: Owned,
}

impl Device {
    fn new(images: u32) -> Device {
        Device {
            formats: vec![
                SurfaceFormat {
                    format: vk::Format::R16G16_UNORM.as_raw(),
                    color_space: 0,
                },
                bgra8(),
            ],
            capabilities: SurfaceCapabilities {
                min_image_count: 2,
                max_image_count: 0,
                current_extent: Extent {
                    width: u32::MAX,
                    height: u32::MAX,
                },
                min_image_extent: Extent {
                    width: 1,
                    height: 1,
                },
                max_image_extent: Extent {
                    width: 4096,
                    height: 4096,
                },
                current_transform: 1,
            },
            images,
            acquisitions: VecDeque::new(),
            presentations: VecDeque::new(),
            clock: 10 * SECOND,
            tick: SECOND,
            next_image: 0,
            log: Vec::new(),
            busy: Vec::new(),
            signaled: Vec::new(),
            copy_running: false,
            allocated: 0,
            freed: 0,
            allocator_released: false,
            objects: Owned::initial(),
        }
    }

    fn is_idle(&self) -> bool {
        !self.copy_running && self.busy.iter().all(|b| !b)
    }

    /// Carries out `first` and whatever follows until the renderer rests.
    fn run(&mut self, renderer: &mut Renderer, first: Command) -> Command {
        let mut command = first;
        loop {
            assert!(renderer.well_formed());
            assert_eq!(command, renderer.command());
            match command {
                Command::Idle | Command::Rejected | Command::Abort(_) => return command,
                _ => {}
            }
            assert!(
                self.objects.allows(&command),
                "{command:?} with {:?}",
                self.objects
            );
            assert!(renderer.work_outstanding() || self.is_idle());
            self.log.push(command);
            let next = self.perform(renderer, command);
            self.objects = self.objects.record(&command);
            assert_eq!(renderer.owned(), self.objects);
            assert_eq!(
                renderer.allocations_made() - renderer.allocations_freed(),
                self.objects.count_live_memory()
            );
            command = next;
        }
    }

    fn perform(&mut self, renderer: &mut Renderer, command: Command) -> Command {
        assert!(!self.allocator_released);
        match command {
            Command::QuerySurface => {
                return renderer.surface_queried(&self.formats, &self.capabilities)
            }
            Command::CreateSwapchain { .. } => return renderer.swapchain_created(self.images),
            Command::AcquireImage { slot, .. } => {
                assert!(!self.signaled[slot as usize]);
                let outcome = self.acquisitions.pop_front().unwrap_or_else(|| {
                    let image = self.next_image;
                    self.next_image = (self.next_image + 1) % self.images;
                    Ok(image)
                });
                return match outcome {
                    Ok(image) => renderer.image_acquired(image, false),
                    Err(code) => renderer.acquire_failed(code),
                };
            }
            Command::ReadClock => {
                let now = self.clock;
                self.clock += self.tick;
                return renderer.clock_read(now);
            }
            Command::Present { slot, .. } => {
                assert!(self.busy[slot as usize]);
                return match self.presentations.pop_front().unwrap_or(Ok(false)) {
                    Ok(suboptimal) => renderer.presented(suboptimal),
                    Err(code) => renderer.present_failed(code),
                };
            }
            Command::AllocateMemory { count, .. } => self.allocated += u64::from(count),
            Command::FreeMemory { count, .. } => {
                assert!(self.is_idle());
                self.freed += u64::from(count);
                assert!(self.freed <= self.allocated);
            }
            Command::SubmitCopy => self.copy_running = true,
            Command::WaitQueueIdle => self.copy_running = false,
            Command::WaitDeviceIdle => {
                self.copy_running = false;
                for slot in 0..self.busy.len() {
                    if self.busy[slot] {
                        self.busy[slot] = false;
                        self.signaled[slot] = true;
                    }
                }
            }
            Command::CreateSyncObjects { count, .. } => {
                assert!(self.busy.is_empty());
                self.busy = vec![false; count as usize];
                self.signaled = vec![true; count as usize];
            }
            Command::DestroySyncObjects => {
                assert!(self.is_idle());
                self.busy.clear();
                self.signaled.clear();
            }
            Command::WaitFence { slot, .. } => {
                // A fence that is neither signaled nor on its way would
                // block for ever.
                let slot = slot as usize;
                assert!(self.signaled[slot] || self.busy[slot]);
                self.busy[slot] = false;
                self.signaled[slot] = true;
            }
            Command::ResetFence { slot } => {
                assert!(!self.busy[slot as usize]);
                self.signaled[slot as usize] = false;
            }
            Command::Submit { slot, .. } => {
                let slot = slot as usize;
                assert!(!self.busy[slot], "slot {slot} is still in flight");
                assert!(!self.signaled[slot]);
                self.busy[slot] = true;
            }
            Command::ReleaseAllocator => {
                assert!(self.is_idle());
                assert_eq!(self.allocated, self.freed);
                self.allocator_released = true;
            }
            Command::FreeCopyCommandBuffer
            | Command::DestroyStagingBuffer
            | Command::DestroyFramebuffers
            | Command::DestroyImageViews
            | Command::DestroyRenderPass
            | Command::DestroySwapchain
            | Command::DestroyVertexBuffer
            | Command::DestroyUniformBuffers
            | Command::DestroyPipeline
            | Command::DestroyPipelineLayout
            | Command::DestroyDescriptorSetLayouts
            | Command::DestroyDescriptorPool => assert!(self.is_idle()),
            _ => {}
        }
        renderer.completed()
    }

    fn take_log(&mut self) -> Vec<Command> {
        std::mem::take(&mut self.log)
    }
}

fn plan(width: u32, height: u32) -> SwapchainPlan {
    SwapchainPlan {
        format: bgra8(),
        extent: Extent { width, height },
        image_count: 3,
        present_mode: vk::PresentModeKHR::FIFO.as_raw(),
        pre_transform: 1,
    }
}

fn constructed(images: u32, width: u32, height: u32) -> (Renderer, Device) {
    let mut device = Device::new(images);
    let mut renderer = Renderer::new(width, height);
    let first = renderer.command();
    assert_eq!(device.run(&mut renderer, first), Command::Idle);
    assert_eq!(renderer.phase(), Phase::Ready);
    device.take_log();
    (renderer, device)
}

fn frame(renderer: &mut Renderer, device: &mut Device, width: u32, height: u32) -> Command {
    let first = renderer.render(width, height, false);
    device.run(renderer, first)
}

fn recreation(images: u32, width: u32, height: u32) -> Vec<Command> {
    vec![
        Command::WaitDeviceIdle,
        Command::DestroySyncObjects,
        Command::DestroyFramebuffers,
        Command::DestroyImageViews,
        Command::DestroyRenderPass,
        Command::DestroySwapchain,
        Command::QuerySurface,
        Command::CreateSwapchain {
            plan: plan(width, height),
        },
        Command::NotifyOverlay {
            image_count: images,
            format: bgra8().format,
            width,
            height,
        },
        Command::CreateRenderPass {
            format: bgra8().format,
        },
        Command::CreateFramebuffers {
            count: images,
            format: bgra8().format,
            extent: Extent { width, height },
        },
        create_sync_objects(images),
    ]
}

fn frame_commands(slot: u32, image: u32, rotation: u128, width: u32, height: u32) -> Vec<Command> {
    vec![
        wait_fence(slot),
        Command::ResetFence { slot },
        acquire_image(slot),
        Command::ReadClock,
        Command::WriteUniforms {
            slot,
            rotation,
            width,
            height,
        },
        Command::RecordScene {
            slot,
            image_index: image,
            width,
            height,
            extent: Extent { width, height },
        },
        Command::RecordOverlay {
            slot,
            image_index: image,
        },
        Command::FinishRecording { slot },
        submit(slot),
        Command::Present {
            slot,
            image_index: image,
        },
    ]
}

#[test]
fn a_new_renderer_is_uninitialized_and_queries_the_surface() {
    let renderer = Renderer::new(800, 600);
    assert_eq!(renderer.phase(), Phase::Uninitialized);
    assert_eq!(renderer.command(), Command::QuerySurface);
    assert_eq!(
        renderer.size(),
        Extent {
            width: 800,
            height: 600
        }
    );
    assert!(renderer.is_dirty());
    assert_eq!(renderer.ring_depth(), 0);
    assert_eq!(renderer.allocations_made(), 0);
    assert_eq!(renderer.allocations_freed(), 0);
    assert_eq!(renderer.start_time(), None);
    assert_eq!(
        renderer.plan().present_mode,
        vk::PresentModeKHR::FIFO.as_raw()
    );
    assert!(renderer.well_formed());
}

#[test]
fn construction_follows_its_script() {
    let mut device = Device::new(3);
    let mut renderer = Renderer::new(800, 600);
    let first = renderer.command();
    assert_eq!(device.run(&mut renderer, first), Command::Idle);
    assert_eq!(
        device.take_log(),
        vec![
            Command::QuerySurface,
            Command::CreateSwapchain {
                plan: plan(800, 600)
            },
            Command::CreateUniformBuffers { count: 3 },
            Command::AllocateMemory {
                purpose: MemoryPurpose::Uniform,
                location: MemoryLocation::HostVisible,
                count: 3
            },
            Command::BindMemory {
                purpose: MemoryPurpose::Uniform
            },
            Command::CreateDescriptorPool { count: 3 },
            Command::CreateDescriptorSetLayouts { count: 3 },
            Command::CreateDescriptorSets { count: 3 },
            Command::CreateRenderPass {
                format: bgra8().format
            },
            Command::CreateFramebuffers {
                count: 3,
                format: bgra8().format,
                extent: Extent {
                    width: 800,
                    height: 600
                }
            },
            Command::CreatePipeline,
            Command::CreateStagingBuffer,
            Command::AllocateMemory {
                purpose: MemoryPurpose::Staging,
                location: MemoryLocation::HostVisible,
                count: 1
            },
            Command::BindMemory {
                purpose: MemoryPurpose::Staging
            },
            Command::FillStagingBuffer,
            Command::CreateVertexBuffer,
            Command::AllocateMemory {
                purpose: MemoryPurpose::Vertex,
                location: MemoryLocation::DeviceLocal,
                count: 1
            },
            Command::BindMemory {
                purpose: MemoryPurpose::Vertex
            },
            Command::SubmitCopy,
            Command::WaitQueueIdle,
            Command::FreeCopyCommandBuffer,
            Command::FreeMemory {
                purpose: MemoryPurpose::Staging,
                count: 1
            },
            Command::DestroyStagingBuffer,
            Command::CreateCommandBuffers { count: 3 },
            create_sync_objects(3),
        ]
    );
    assert_eq!(renderer.phase(), Phase::Ready);
    assert!(renderer.is_dirty());
    assert_eq!(renderer.image_count(), 3);
    assert_eq!(renderer.uniform_slots(), 3);
    assert_eq!(renderer.ring_depth(), 3);
    assert_eq!(renderer.current_frame(), 0);
    assert_eq!(renderer.plan(), plan(800, 600));
    assert_eq!(renderer.allocations_made(), 5);
    assert_eq!(renderer.allocations_freed(), 1);
    assert_eq!(renderer.live_allocations(), 4);
}

#[test]
fn the_device_may_hand_out_more_images_than_planned() {
    let (renderer, _) = constructed(5, 800, 600);
    assert_eq!(renderer.plan().image_count, 3);
    assert_eq!(renderer.image_count(), 5);
    assert_eq!(renderer.uniform_slots(), 5);
    assert_eq!(renderer.ring_depth(), 5);
    assert_eq!(renderer.live_allocations(), 6);
}

#[test]
fn the_first_frame_recreates_the_swapchain() {
    let (mut renderer, mut device) = constructed(3, 800, 600);
    assert_eq!(frame(&mut renderer, &mut device, 800, 600), Command::Idle);
    let mut expected = recreation(3, 800, 600);
    expected.extend(frame_commands(0, 0, 0, 800, 600));
    assert_eq!(device.take_log(), expected);
    assert_eq!(renderer.phase(), Phase::Ready);
    assert!(!renderer.is_dirty());
    assert_eq!(renderer.current_frame(), 1);
    assert!(renderer.is_in_flight(0));
    assert!(!renderer.is_in_flight(1));
    assert!(!renderer.is_in_flight(2));
    assert!(!renderer.is_in_flight(3));
}

#[test]
fn recreation_leaves_the_per_slot_buffers_alone() {
    let (mut renderer, mut device) = constructed(3, 800, 600);
    frame(&mut renderer, &mut device, 800, 600);
    frame(&mut renderer, &mut device, 1024, 768);
    for command in device.take_log() {
        assert!(!matches!(
            command,
            Command::CreateUniformBuffers { .. }
                | Command::AllocateMemory { .. }
                | Command::FreeMemory { .. }
                | Command::BindMemory { .. }
                | Command::CreateDescriptorPool { .. }
                | Command::CreateDescriptorSetLayouts { .. }
                | Command::CreateDescriptorSets { .. }
                | Command::CreateCommandBuffers { .. }
                | Command::CreatePipeline
                | Command::DestroyUniformBuffers
                | Command::DestroyPipeline
        ));
    }
    assert_eq!(renderer.uniform_slots(), 3);
    assert_eq!(renderer.live_allocations(), 4);
}

#[test]
fn same_size_renders_without_further_recreation() {
    let (mut renderer, mut device) = constructed(3, 800, 600);
    frame(&mut renderer, &mut device, 800, 600);
    device.take_log();
    for n in 1..=20u32 {
        assert_eq!(frame(&mut renderer, &mut device, 800, 600), Command::Idle);
        assert!(!renderer.is_dirty());
        let log = device.take_log();
        assert_eq!(log.len(), 10);
        assert_eq!(log[0], wait_fence(n % 3));
        assert!(!log.contains(&Command::WaitDeviceIdle));
        assert!(!log.contains(&Command::QuerySurface));
    }
}

#[test]
fn a_new_size_recreates_once() {
    let (mut renderer, mut device) = constructed(3, 800, 600);
    frame(&mut renderer, &mut device, 800, 600);
    frame(&mut renderer, &mut device, 800, 600);
    device.take_log();
    frame(&mut renderer, &mut device, 1024, 768);
    let log = device.take_log();
    assert_eq!(log[..12], recreation(3, 1024, 768)[..]);
    assert_eq!(log[12], wait_fence(0));
    assert_eq!(
        renderer.size(),
        Extent {
            width: 1024,
            height: 768
        }
    );
    frame(&mut renderer, &mut device, 1024, 768);
    let log = device.take_log();
    assert_eq!(log[0], wait_fence(1));
    assert_eq!(log.len(), 10);
}

#[test]
fn a_change_of_height_alone_recreates() {
    let (mut renderer, mut device) = constructed(2, 800, 600);
    frame(&mut renderer, &mut device, 800, 600);
    device.take_log();
    assert_eq!(renderer.render(800, 601, false), Command::WaitDeviceIdle);
    assert_eq!(renderer.phase(), Phase::Recreating);
}

#[test]
fn a_stale_overlay_recreates() {
    let (mut renderer, mut device) = constructed(3, 800, 600);
    frame(&mut renderer, &mut device, 800, 600);
    device.take_log();
    let first = renderer.render(800, 600, true);
    assert_eq!(first, Command::WaitDeviceIdle);
    device.run(&mut renderer, first);
    let log = device.take_log();
    assert_eq!(
        log[8],
        Command::NotifyOverlay {
            image_count: 3,
            format: bgra8().format,
            width: 800,
            height: 600
        }
    );
    assert_eq!(renderer.current_frame(), 1);
}

#[test]
fn a_zero_width_changes_nothing() {
    let (mut renderer, mut device) = constructed(3, 800, 600);
    frame(&mut renderer, &mut device, 800, 600);
    frame(&mut renderer, &mut device, 800, 600);
    assert_eq!(renderer.render(0, 600, false), Command::Idle);
    assert_eq!(renderer.render(0, 0, true), Command::Idle);
    assert_eq!(renderer.render(0, 1234, true), Command::Idle);
    assert_eq!(renderer.phase(), Phase::Ready);
    assert_eq!(renderer.command(), Command::Idle);
    assert_eq!(renderer.current_frame(), 2);
    assert!(!renderer.is_dirty());
    assert_eq!(
        renderer.size(),
        Extent {
            width: 800,
            height: 600
        }
    );
    assert!(renderer.is_in_flight(0));
    assert!(renderer.is_in_flight(1));
    assert!(!renderer.is_in_flight(2));
    device.take_log();
    frame(&mut renderer, &mut device, 800, 600);
    assert_eq!(device.take_log()[0], wait_fence(2));
}

#[test]
fn a_zero_height_changes_nothing() {
    let (mut renderer, _) = constructed(3, 800, 600);
    assert_eq!(renderer.render(800, 0, false), Command::Idle);
    assert_eq!(renderer.render(17, 0, true), Command::Idle);
    assert_eq!(renderer.phase(), Phase::Ready);
    assert!(renderer.is_dirty());
    assert_eq!(renderer.current_frame(), 0);
    assert_eq!(
        renderer.size(),
        Extent {
            width: 800,
            height: 600
        }
    );
    assert_eq!(renderer.plan(), plan(800, 600));
}

#[test]
fn an_out_of_date_acquisition_drops_the_frame_and_forces_recreation() {
    let (mut renderer, mut device) = constructed(3, 800, 600);
    frame(&mut renderer, &mut device, 800, 600);
    device.take_log();
    device.acquisitions.push_back(Err(out_of_date()));
    assert_eq!(frame(&mut renderer, &mut device, 800, 600), Command::Idle);
    assert_eq!(
        device.take_log(),
        vec![
            wait_fence(1),
            Command::ResetFence { slot: 1 },
            acquire_image(1),
        ]
    );
    assert!(renderer.is_dirty());
    assert_eq!(renderer.phase(), Phase::Ready);
    assert_eq!(renderer.current_frame(), 1);
    assert!(!renderer.is_in_flight(1));

    assert_eq!(frame(&mut renderer, &mut device, 800, 600), Command::Idle);
    let log = device.take_log();
    assert_eq!(log[..12], recreation(3, 800, 600)[..]);
    assert_eq!(log[12], wait_fence(0));
    assert_eq!(log.len(), 22);
    assert!(!renderer.is_dirty());
    assert_eq!(renderer.current_frame(), 1);
}

#[test]
fn another_acquisition_failure_drops_the_frame_quietly() {
    let (mut renderer, mut device) = constructed(3, 800, 600);
    frame(&mut renderer, &mut device, 800, 600);
    device.take_log();
    let first = renderer.render(800, 600, false);
    assert_eq!(first, wait_fence(1));
    assert_eq!(renderer.completed(), Command::ResetFence { slot: 1 });
    assert_eq!(renderer.completed(), acquire_image(1));
    assert_eq!(
        renderer.acquire_failed(vk::Result::ERROR_DEVICE_LOST.as_raw()),
        Command::Idle
    );
    assert!(!renderer.is_dirty());
    assert_eq!(renderer.phase(), Phase::Ready);
    assert_eq!(renderer.current_frame(), 1);
    assert!(!renderer.is_in_flight(1));
    assert_eq!(
        renderer.render(800, 600, false),
        wait_fence(1)
    );
}

#[test]
fn not_ready_and_timeout_count_as_failures_too() {
    for code in [
        vk::Result::NOT_READY.as_raw(),
        vk::Result::TIMEOUT.as_raw(),
        vk::Result::ERROR_SURFACE_LOST_KHR.as_raw(),
        vk::Result::SUBOPTIMAL_KHR.as_raw(),
        0,
        i32::MIN,
        i32::MAX,
    ] {
        let (mut renderer, mut device) = constructed(2, 800, 600);
        device.acquisitions.push_back(Err(code));
        assert_eq!(frame(&mut renderer, &mut device, 800, 600), Command::Idle);
        assert!(!renderer.is_dirty());
        assert_eq!(renderer.current_frame(), 0);
    }
}

#[test]
fn a_suboptimal_presentation_marks_the_swapchain_stale() {
    let (mut renderer, mut device) = constructed(3, 800, 600);
    device.presentations.push_back(Ok(true));
    assert_eq!(frame(&mut renderer, &mut device, 800, 600), Command::Idle);
    assert!(renderer.is_dirty());
    assert_eq!(renderer.current_frame(), 1);
    assert!(renderer.is_in_flight(0));
    device.take_log();
    frame(&mut renderer, &mut device, 800, 600);
    assert_eq!(device.take_log()[0], Command::WaitDeviceIdle);
    assert!(!renderer.is_dirty());
}

#[test]
fn an_out_of_date_presentation_marks_the_swapchain_stale() {
    for code in [out_of_date(), vk::Result::SUBOPTIMAL_KHR.as_raw()] {
        let (mut renderer, mut device) = constructed(3, 800, 600);
        device.presentations.push_back(Err(code));
        assert_eq!(frame(&mut renderer, &mut device, 800, 600), Command::Idle);
        assert!(renderer.is_dirty());
        assert_eq!(renderer.phase(), Phase::Ready);
        assert_eq!(renderer.current_frame(), 1);
        assert_eq!(renderer.render(800, 600, false), Command::WaitDeviceIdle);
    }
}

#[test]
fn any_other_presentation_failure_is_fatal() {
    for code in [
        vk::Result::ERROR_DEVICE_LOST.as_raw(),
        vk::Result::ERROR_SURFACE_LOST_KHR.as_raw(),
        vk::Result::ERROR_OUT_OF_HOST_MEMORY.as_raw(),
        0,
        1,
    ] {
        let (mut renderer, mut device) = constructed(3, 800, 600);
        device.presentations.push_back(Err(code));
        let error = FatalError::PresentFailed { code };
        assert_eq!(
            frame(&mut renderer, &mut device, 800, 600),
            Command::Abort(error)
        );
        assert_eq!(renderer.phase(), Phase::Faulted(error));
        assert_eq!(renderer.command(), Command::Abort(error));
        assert_eq!(renderer.render(800, 600, false), Command::Rejected);
        assert_eq!(renderer.completed(), Command::Rejected);
        assert_eq!(renderer.destroy(), Command::Rejected);
        assert_eq!(renderer.phase(), Phase::Faulted(error));
    }
}

#[test]
fn slots_are_used_in_turn_and_never_twice_at_once() {
    for images in 1..=5u32 {
        let (mut renderer, mut device) = constructed(images, 640, 480);
        for n in 0..40u32 {
            assert_eq!(renderer.current_frame(), n % images);
            assert_eq!(frame(&mut renderer, &mut device, 640, 480), Command::Idle);
            for slot in 0..images {
                assert_eq!(renderer.is_in_flight(slot), device.busy[slot as usize]);
            }
        }
        let submissions = device
            .take_log()
            .into_iter()
            .filter(|c| matches!(c, Command::Submit { .. }))
            .count();
        assert_eq!(submissions, 40);
    }
}

#[test]
fn every_submission_follows_a_wait_on_its_own_fence() {
    let (mut renderer, mut device) = constructed(3, 640, 480);
    device.acquisitions.extend([
        Ok(0),
        Err(out_of_date()),
        Ok(1),
        Err(out_of_date()),
        Ok(2),
        Ok(0),
        Ok(1),
    ]);
    device.presentations.extend([Ok(false), Ok(true), Ok(false)]);
    for _ in 0..12 {
        frame(&mut renderer, &mut device, 640, 480);
    }
    let log = device.take_log();
    let mut waited = [false; 3];
    for command in log {
        match command {
            Command::WaitFence { slot, .. } => waited[slot as usize] = true,
            Command::Submit { slot, .. } => {
                assert!(waited[slot as usize]);
                waited[slot as usize] = false;
            }
            Command::CreateSyncObjects { .. } => waited = [false; 3],
            _ => {}
        }
    }
}

#[test]
fn a_lone_slot_is_waited_for_every_frame() {
    let (mut renderer, mut device) = constructed(1, 640, 480);
    for _ in 0..5 {
        frame(&mut renderer, &mut device, 640, 480);
        assert_eq!(renderer.current_frame(), 0);
        assert!(renderer.is_in_flight(0));
    }
}

#[test]
fn the_rotation_follows_the_clock_not_the_frames() {
    let (mut renderer, mut device) = constructed(3, 800, 600);
    device.clock = 7 * SECOND + 5;
    device.tick = 0;
    let mut rotations = Vec::new();
    let times = [
        7 * SECOND + 5,
        7 * SECOND + 5,
        8 * SECOND + 5,
        8 * SECOND + 6,
        108 * SECOND + 5,
    ];
    for now in times {
        device.clock = now;
        frame(&mut renderer, &mut device, 800, 600);
        for command in device.take_log() {
            if let Command::WriteUniforms {
                rotation,
                width,
                height,
                ..
            } = command
            {
                assert_eq!((width, height), (800, 600));
                rotations.push(rotation);
            }
        }
    }
    assert_eq!(renderer.start_time(), Some(7 * SECOND + 5));
    assert_eq!(
        rotations,
        vec![0, 0, 45_000_000_000, 45_000_000_045, 4_545_000_000_000]
    );
}

#[test]
fn the_rotation_starts_at_the_first_acquired_image() {
    let (mut renderer, mut device) = constructed(2, 800, 600);
    device.acquisitions.push_back(Err(out_of_date()));
    frame(&mut renderer, &mut device, 800, 600);
    assert_eq!(renderer.start_time(), None);
    assert_eq!(device.clock, 10 * SECOND);
    frame(&mut renderer, &mut device, 800, 600);
    assert_eq!(renderer.start_time(), Some(10 * SECOND));
    frame(&mut renderer, &mut device, 800, 600);
    assert_eq!(renderer.start_time(), Some(10 * SECOND));
}

#[test]
fn the_frame_records_into_the_acquired_image() {
    let (mut renderer, mut device) = constructed(3, 800, 600);
    device.acquisitions.extend([Ok(2), Ok(2), Ok(0)]);
    device.tick = 0;
    frame(&mut renderer, &mut device, 800, 600);
    assert_eq!(device.take_log()[12..], frame_commands(0, 2, 0, 800, 600)[..]);
    frame(&mut renderer, &mut device, 800, 600);
    assert_eq!(device.take_log(), frame_commands(1, 2, 0, 800, 600));
    frame(&mut renderer, &mut device, 800, 600);
    assert_eq!(device.take_log(), frame_commands(2, 0, 0, 800, 600));
}

#[test]
fn the_scissor_follows_the_swapchain_and_the_viewport_the_request() {
    let (mut renderer, mut device) = constructed(3, 800, 600);
    device.capabilities.current_extent = Extent {
        width: 1600,
        height: 1200,
    };
    frame(&mut renderer, &mut device, 800, 600);
    let log = device.take_log();
    assert_eq!(
        log[17],
        Command::RecordScene {
            slot: 0,
            image_index: 0,
            width: 800,
            height: 600,
            extent: Extent {
                width: 1600,
                height: 1200
            }
        }
    );
}

#[test]
fn an_image_outside_the_swapchain_is_fatal() {
    let (mut renderer, mut device) = constructed(3, 800, 600);
    device.acquisitions.push_back(Ok(3));
    let error = FatalError::ImageOutOfRange { image_index: 3 };
    assert_eq!(
        frame(&mut renderer, &mut device, 800, 600),
        Command::Abort(error)
    );
    assert_eq!(renderer.phase(), Phase::Faulted(error));
    assert!(!device
        .take_log()
        .iter()
        .any(|c| matches!(c, Command::Submit { .. } | Command::Present { .. })));
}

#[test]
fn a_ring_grown_past_the_uniform_slots_is_fatal_when_reached() {
    let (mut renderer, mut device) = constructed(2, 800, 600);
    device.images = 3;
    assert_eq!(frame(&mut renderer, &mut device, 800, 600), Command::Idle);
    assert_eq!(renderer.ring_depth(), 3);
    assert_eq!(renderer.image_count(), 3);
    assert_eq!(renderer.uniform_slots(), 2);
    assert_eq!(frame(&mut renderer, &mut device, 800, 600), Command::Idle);
    assert_eq!(renderer.current_frame(), 2);
    device.take_log();
    let error = FatalError::SlotOutOfRange { slot: 2 };
    assert_eq!(
        frame(&mut renderer, &mut device, 800, 600),
        Command::Abort(error)
    );
    assert_eq!(
        device.take_log(),
        vec![
            wait_fence(2),
            Command::ResetFence { slot: 2 },
            acquire_image(2),
        ]
    );
    assert_eq!(renderer.phase(), Phase::Faulted(error));
}

#[test]
fn a_shrunken_ring_keeps_rendering() {
    let (mut renderer, mut device) = constructed(4, 800, 600);
    device.images = 2;
    for n in 0..10u32 {
        assert_eq!(renderer.current_frame(), n % if n == 0 { 4 } else { 2 });
        assert_eq!(frame(&mut renderer, &mut device, 800, 600), Command::Idle);
    }
    assert_eq!(renderer.ring_depth(), 2);
    assert_eq!(renderer.uniform_slots(), 4);
    assert_eq!(renderer.live_allocations(), 5);
}

#[test]
fn a_surface_without_formats_is_fatal() {
    let mut device = Device::new(3);
    device.formats.clear();
    let mut renderer = Renderer::new(800, 600);
    let first = renderer.command();
    let error = FatalError::NoSurfaceFormat;
    assert_eq!(device.run(&mut renderer, first), Command::Abort(error));
    assert_eq!(device.take_log(), vec![Command::QuerySurface]);
    assert_eq!(renderer.phase(), Phase::Faulted(error));
}

#[test]
fn a_surface_may_lose_its_formats_later() {
    let (mut renderer, mut device) = constructed(3, 800, 600);
    device.formats.clear();
    let error = FatalError::NoSurfaceFormat;
    assert_eq!(
        frame(&mut renderer, &mut device, 800, 600),
        Command::Abort(error)
    );
    assert_eq!(device.take_log().len(), 7);
    assert_eq!(renderer.phase(), Phase::Faulted(error));
}

#[test]
fn an_image_count_that_overflows_is_fatal() {
    let mut device = Device::new(3);
    device.capabilities.min_image_count = u32::MAX;
    device.capabilities.max_image_count = 0;
    let mut renderer = Renderer::new(800, 600);
    let first = renderer.command();
    let error = FatalError::ImageCountOverflow;
    assert_eq!(device.run(&mut renderer, first), Command::Abort(error));
    assert_eq!(renderer.phase(), Phase::Faulted(error));
}

#[test]
fn a_swapchain_without_images_is_fatal() {
    let mut device = Device::new(0);
    let mut renderer = Renderer::new(800, 600);
    let first = renderer.command();
    let error = FatalError::NoSwapchainImages;
    assert_eq!(device.run(&mut renderer, first), Command::Abort(error));
    assert_eq!(device.take_log().len(), 2);
    assert_eq!(renderer.phase(), Phase::Faulted(error));
}

#[test]
fn allocations_and_frees_balance_over_a_whole_life() {
    for (images, frames) in [(1u32, 0u32), (2, 1), (3, 7), (4, 50)] {
        let mut device = Device::new(images);
        let mut renderer = Renderer::new(800, 600);
        let first = renderer.command();
        device.run(&mut renderer, first);
        for n in 0..frames {
            let width = if n % 5 == 4 { 1024 } else { 800 };
            frame(&mut renderer, &mut device, width, 600);
            assert_eq!(renderer.live_allocations(), u64::from(images) + 1);
        }
        let first = renderer.destroy();
        assert_eq!(device.run(&mut renderer, first), Command::Idle);
        assert_eq!(renderer.phase(), Phase::Destroyed);
        assert_eq!(device.allocated, u64::from(images) + 2);
        assert_eq!(device.freed, device.allocated);
        assert_eq!(renderer.allocations_made(), device.allocated);
        assert_eq!(renderer.allocations_freed(), device.freed);
        assert_eq!(renderer.live_allocations(), 0);
        assert!(device.allocator_released);
    }
}

#[test]
fn teardown_follows_its_script() {
    let (mut renderer, mut device) = constructed(3, 800, 600);
    frame(&mut renderer, &mut device, 800, 600);
    frame(&mut renderer, &mut device, 800, 600);
    device.take_log();
    let first = renderer.destroy();
    assert_eq!(first, Command::WaitDeviceIdle);
    assert_eq!(renderer.phase(), Phase::Destroying);
    assert_eq!(device.run(&mut renderer, first), Command::Idle);
    assert_eq!(
        device.take_log(),
        vec![
            Command::WaitDeviceIdle,
            Command::DestroySyncObjects,
            Command::DestroyVertexBuffer,
            Command::FreeMemory {
                purpose: MemoryPurpose::Vertex,
                count: 1
            },
            Command::DestroyUniformBuffers,
            Command::FreeMemory {
                purpose: MemoryPurpose::Uniform,
                count: 3
            },
            Command::DestroyPipeline,
            Command::DestroyPipelineLayout,
            Command::DestroyFramebuffers,
            Command::DestroyImageViews,
            Command::DestroyRenderPass,
            Command::DestroyDescriptorSetLayouts,
            Command::DestroyDescriptorPool,
            Command::DestroySwapchain,
            Command::ReleaseAllocator,
        ]
    );
    assert_eq!(renderer.phase(), Phase::Destroyed);
    assert!(!renderer.is_in_flight(0));
    assert!(!renderer.is_in_flight(1));
}

#[test]
fn a_renderer_can_be_destroyed_before_its_first_frame() {
    let (mut renderer, mut device) = constructed(2, 800, 600);
    let first = renderer.destroy();
    assert_eq!(device.run(&mut renderer, first), Command::Idle);
    assert_eq!(renderer.phase(), Phase::Destroyed);
    assert_eq!(device.take_log().len(), 15);
    assert_eq!(renderer.live_allocations(), 0);
}

#[test]
fn a_destroyed_renderer_takes_nothing() {
    let (mut renderer, mut device) = constructed(2, 800, 600);
    let first = renderer.destroy();
    device.run(&mut renderer, first);
    assert_eq!(renderer.command(), Command::Idle);
    assert_eq!(renderer.render(800, 600, false), Command::Rejected);
    assert_eq!(renderer.destroy(), Command::Rejected);
    assert_eq!(renderer.completed(), Command::Rejected);
    assert_eq!(renderer.swapchain_created(2), Command::Rejected);
    assert_eq!(renderer.clock_read(1), Command::Rejected);
    assert_eq!(renderer.phase(), Phase::Destroyed);
}

#[test]
fn requests_are_rejected_while_busy() {
    let mut renderer = Renderer::new(800, 600);
    assert_eq!(renderer.render(800, 600, false), Command::Rejected);
    assert_eq!(renderer.render(0, 0, false), Command::Rejected);
    assert_eq!(renderer.destroy(), Command::Rejected);
    assert_eq!(renderer.phase(), Phase::Uninitialized);
    assert_eq!(renderer.command(), Command::QuerySurface);

    let (mut renderer, _) = constructed(2, 800, 600);
    assert_eq!(renderer.render(800, 600, false), Command::WaitDeviceIdle);
    assert_eq!(renderer.render(800, 600, false), Command::Rejected);
    assert_eq!(renderer.destroy(), Command::Rejected);
    assert_eq!(renderer.phase(), Phase::Recreating);
    assert_eq!(renderer.command(), Command::WaitDeviceIdle);
}

#[test]
fn answers_of_the_wrong_kind_are_rejected() {
    let mut device = Device::new(2);
    let mut renderer = Renderer::new(800, 600);
    assert_eq!(renderer.completed(), Command::Rejected);
    assert_eq!(renderer.swapchain_created(2), Command::Rejected);
    assert_eq!(renderer.image_acquired(0, false), Command::Rejected);
    assert_eq!(renderer.acquire_failed(out_of_date()), Command::Rejected);
    assert_eq!(renderer.clock_read(5), Command::Rejected);
    assert_eq!(renderer.presented(true), Command::Rejected);
    assert_eq!(renderer.present_failed(-4), Command::Rejected);
    assert_eq!(renderer.command(), Command::QuerySurface);
    assert!(matches!(
        renderer.surface_queried(&device.formats, &device.capabilities),
        Command::CreateSwapchain { .. }
    ));
    assert_eq!(
        renderer.surface_queried(&device.formats, &device.capabilities),
        Command::Rejected
    );
    assert_eq!(renderer.completed(), Command::Rejected);
    let first = renderer.command();
    device.run(&mut renderer, first);

    assert_eq!(renderer.completed(), Command::Rejected);
    assert_eq!(renderer.presented(false), Command::Rejected);
    assert_eq!(renderer.phase(), Phase::Ready);
    assert!(renderer.is_dirty());
    assert_eq!(renderer.start_time(), None);
}

#[test]
fn the_swapchain_is_planned_for_the_requested_size() {
    let mut device = Device::new(3);
    device.capabilities.max_image_extent = Extent {
        width: 1000,
        height: 500,
    };
    device.capabilities.min_image_count = 4;
    device.capabilities.max_image_count = 4;
    device.capabilities.current_transform = 8;
    device.formats = vec![SurfaceFormat {
        format: vk::Format::R8G8B8A8_UNORM.as_raw(),
        color_space: 7,
    }];
    let mut renderer = Renderer::new(1920, 300);
    assert_eq!(
        renderer.surface_queried(&device.formats, &device.capabilities),
        Command::CreateSwapchain {
            plan: SwapchainPlan {
                format: SurfaceFormat {
                    format: 37,
                    color_space: 7
                },
                extent: Extent {
                    width: 1000,
                    height: 300
                },
                image_count: 4,
                present_mode: 2,
                pre_transform: 8,
            }
        }
    );
}

#[test]
fn a_constructed_renderer_owns_one_of_everything_per_image_and_slot() {
    let (renderer, _) = constructed(3, 800, 600);
    assert_eq!(
        renderer.owned(),
        Owned {
            allocator: true,
            swapchain: true,
            image_views: 3,
            framebuffers: 3,
            render_pass: true,
            sync_slots: 3,
            uniform_buffers: 3,
            uniform_memory: 3,
            descriptor_pool: true,
            descriptor_set_layouts: 3,
            descriptor_sets: 3,
            pipeline: true,
            pipeline_layout: true,
            staging_buffer: false,
            staging_memory: false,
            vertex_buffer: true,
            vertex_memory: true,
            copy_command_buffer: false,
        }
    );
}

#[test]
fn recreation_replaces_only_what_hangs_on_the_swapchain() {
    let (mut renderer, mut device) = constructed(2, 800, 600);
    let before = renderer.owned();
    device.images = 4;
    frame(&mut renderer, &mut device, 800, 600);
    assert_eq!(
        renderer.owned(),
        Owned {
            image_views: 4,
            framebuffers: 4,
            sync_slots: 4,
            ..before
        }
    );
}

#[test]
fn a_destroyed_renderer_owns_nothing() {
    let (mut renderer, mut device) = constructed(3, 800, 600);
    frame(&mut renderer, &mut device, 800, 600);
    let first = renderer.destroy();
    device.run(&mut renderer, first);
    assert!(renderer.owned().is_empty());
    assert_eq!(renderer.ring_depth(), 0);
    assert!(!renderer.work_outstanding());
    assert!(renderer.well_formed());
}

#[test]
fn the_ring_goes_with_the_synchronisation_objects() {
    let (mut renderer, mut device) = constructed(3, 800, 600);
    frame(&mut renderer, &mut device, 800, 600);
    assert_eq!(renderer.render(640, 480, false), Command::WaitDeviceIdle);
    assert!(renderer.work_outstanding());
    assert_eq!(renderer.completed(), Command::DestroySyncObjects);
    assert!(!renderer.work_outstanding());
    assert_eq!(renderer.ring_depth(), 3);
    assert_eq!(renderer.completed(), Command::DestroyFramebuffers);
    assert_eq!(renderer.ring_depth(), 0);
    assert_eq!(renderer.owned().sync_slots, 0);
    assert!(renderer.well_formed());
}

#[test]
fn work_is_outstanding_from_submission_to_wait() {
    let mut device = Device::new(2);
    let mut renderer = Renderer::new(800, 600);
    renderer.surface_queried(&device.formats, &device.capabilities);
    let mut command = renderer.swapchain_created(2);
    while command != Command::SubmitCopy {
        assert!(!renderer.work_outstanding());
        command = renderer.completed();
    }
    assert!(renderer.work_outstanding());
    assert_eq!(renderer.completed(), Command::WaitQueueIdle);
    assert!(renderer.work_outstanding());
    assert_eq!(renderer.completed(), Command::FreeCopyCommandBuffer);
    assert!(!renderer.work_outstanding());
    device.take_log();
}

#[test]
fn a_zero_size_leaves_the_whole_state_as_it_was() {
    let (mut renderer, mut device) = constructed(3, 800, 600);
    let before = renderer.clone();
    assert_eq!(renderer.render(0, 600, false), Command::Idle);
    assert_eq!(renderer.render(800, 0, true), Command::Idle);
    assert_eq!(renderer, before);
    frame(&mut renderer, &mut device, 800, 600);
    frame(&mut renderer, &mut device, 800, 600);
    let before = renderer.clone();
    assert_eq!(renderer.render(0, 0, false), Command::Idle);
    assert_eq!(renderer.render(0, 1, true), Command::Idle);
    assert_eq!(renderer, before);
    assert!(device.take_log().iter().all(|c| *c != Command::Idle));
}

#[test]
fn a_rejected_event_leaves_the_whole_state_as_it_was() {
    let (mut renderer, _) = constructed(2, 800, 600);
    assert_eq!(renderer.render(800, 600, false), Command::WaitDeviceIdle);
    let before = renderer.clone();
    assert_eq!(renderer.render(1024, 768, true), Command::Rejected);
    assert_eq!(renderer.destroy(), Command::Rejected);
    assert_eq!(renderer.swapchain_created(7), Command::Rejected);
    assert_eq!(renderer.image_acquired(0, true), Command::Rejected);
    assert_eq!(renderer.acquire_failed(out_of_date()), Command::Rejected);
    assert_eq!(renderer.clock_read(99), Command::Rejected);
    assert_eq!(renderer.presented(true), Command::Rejected);
    assert_eq!(renderer.present_failed(out_of_date()), Command::Rejected);
    assert_eq!(
        renderer.surface_queried(&Vec::new(), &Device::new(2).capabilities),
        Command::Rejected
    );
    assert_eq!(renderer, before);
}

/// A small generator of arbitrary numbers, the same on every run.
struct Dice(u64);

impl Dice {
    fn roll(&mut self, sides: u64) -> u64 {
        self.0 = self
            .0
            .wrapping_mul(6364136223846793005)
            .wrapping_add(1442695040888963407);
        (self.0 >> 33) % sides
    }
}

#[test]
fn no_sequence_of_events_breaks_the_renderer() {
    let codes = [
        out_of_date(),
        vk::Result::SUBOPTIMAL_KHR.as_raw(),
        vk::Result::ERROR_DEVICE_LOST.as_raw(),
        vk::Result::TIMEOUT.as_raw(),
    ];
    let sizes = [0u32, 1, 640, 800];
    for seed in 0..200u64 {
        let mut dice = Dice(seed);
        let mut device = Device::new(1 + dice.roll(4) as u32);
        let mut renderer = Renderer::new(800, 600);
        let mut objects = Owned::initial();
        for _ in 0..400 {
            let outstanding = renderer.command();
            let before = renderer.clone();
            // Mostly what the renderer waits for, now and then anything.
            let choice = if dice.roll(4) > 0 {
                match outstanding {
                    Command::Idle => 7 + dice.roll(2),
                    Command::QuerySurface => 1,
                    Command::CreateSwapchain { .. } => 2,
                    Command::AcquireImage { .. } => 3 + dice.roll(8) / 7,
                    Command::ReadClock => 5,
                    Command::Present { .. } => 6 + 4 * (dice.roll(8) / 7),
                    _ => 0,
                }
            } else {
                dice.roll(13)
            };
            // Teardown ends the run, so it is rarely let through.
            let spared = choice == 8 && dice.roll(30) > 0;
            let answer = match choice {
                0 => renderer.completed(),
                1 => {
                    if dice.roll(50) == 0 {
                        device.formats.clear();
                    }
                    renderer.surface_queried(&device.formats, &device.capabilities)
                }
                2 => renderer.swapchain_created(dice.roll(5) as u32),
                3 => renderer.image_acquired(dice.roll(5) as u32, dice.roll(2) == 0),
                4 => renderer.acquire_failed(codes[dice.roll(4) as usize]),
                5 => renderer.clock_read(dice.roll(1 << 40)),
                6 => renderer.presented(dice.roll(4) == 0),
                7 => renderer.render(
                    sizes[dice.roll(4) as usize],
                    sizes[dice.roll(4) as usize],
                    dice.roll(8) == 0,
                ),
                8 if spared => Command::Rejected,
                8 => renderer.destroy(),
                9 => renderer.render(800, 600, false),
                10 => renderer.present_failed(codes[dice.roll(4) as usize]),
                11 if dice.roll(10) > 0 => Command::Rejected,
                11 => renderer.failed(codes[dice.roll(4) as usize]),
                _ if dice.roll(10) > 0 => Command::Rejected,
                _ => renderer.allocator_failed(),
            };
            assert!(renderer.well_formed(), "seed {seed}: {renderer:?}");
            if answer == Command::Rejected {
                assert_eq!(renderer, before);
                continue;
            }
            assert_eq!(answer, renderer.command());
            if choice <= 9 && choice != 4 {
                objects = objects.record(&outstanding);
            }
            assert_eq!(renderer.owned(), objects);
            if !matches!(renderer.phase(), Phase::Faulted(_)) {
                assert!(objects.allows(&answer), "seed {seed}: {answer:?}");
                assert_eq!(
                    renderer.live_allocations(),
                    objects.count_live_memory()
                );
            }
            if let Command::Submit { slot, .. } = answer {
                assert!(!before.is_in_flight(slot));
                assert!(renderer.is_in_flight(slot));
            }
            if matches!(renderer.phase(), Phase::Destroyed) {
                assert!(objects.is_empty());
                assert_eq!(renderer.allocations_made(), renderer.allocations_freed());
            }
        }
    }
}

#[test]
fn a_failed_device_call_is_fatal() {
    let code = vk::Result::ERROR_OUT_OF_DEVICE_MEMORY.as_raw();
    let error = FatalError::DeviceCallFailed { code };

    let mut renderer = Renderer::new(800, 600);
    assert_eq!(renderer.failed(code), Command::Abort(error));
    assert_eq!(renderer.phase(), Phase::Faulted(error));
    assert!(renderer.well_formed());

    let device = Device::new(3);
    let mut renderer = Renderer::new(800, 600);
    renderer.surface_queried(&device.formats, &device.capabilities);
    let before = renderer.owned();
    assert_eq!(renderer.failed(code), Command::Abort(error));
    assert_eq!(renderer.owned(), before);
    assert!(!renderer.owned().swapchain);

    let (mut renderer, _) = constructed(3, 800, 600);
    assert_eq!(renderer.render(800, 600, false), Command::WaitDeviceIdle);
    let before = renderer.clone();
    assert_eq!(renderer.failed(code), Command::Abort(error));
    assert_eq!(renderer.owned(), before.owned());
    assert_eq!(renderer.live_allocations(), before.live_allocations());
    assert_eq!(renderer.completed(), Command::Rejected);
    assert_eq!(renderer.failed(code), Command::Rejected);
    assert_eq!(renderer.phase(), Phase::Faulted(error));
}

#[test]
fn a_failure_is_rejected_where_nothing_can_fail() {
    let (mut renderer, mut device) = constructed(3, 800, 600);
    assert_eq!(renderer.failed(-1), Command::Rejected);
    assert_eq!(renderer.allocator_failed(), Command::Rejected);
    frame(&mut renderer, &mut device, 800, 600);
    assert_eq!(renderer.render(800, 600, false), wait_fence(1));
    renderer.completed();
    assert_eq!(renderer.completed(), acquire_image(1));
    assert_eq!(renderer.failed(-1), Command::Rejected);
    assert_eq!(renderer.image_acquired(0, false), Command::ReadClock);
    assert_eq!(renderer.failed(-1), Command::Rejected);
    assert!(matches!(
        renderer.clock_read(1),
        Command::WriteUniforms { .. }
    ));
    assert!(matches!(renderer.completed(), Command::RecordScene { .. }));
    assert!(matches!(
        renderer.completed(),
        Command::RecordOverlay { .. }
    ));
    assert_eq!(renderer.completed(), Command::FinishRecording { slot: 1 });
    assert_eq!(renderer.completed(), submit(1));
    assert!(matches!(renderer.completed(), Command::Present { .. }));
    assert_eq!(renderer.failed(-1), Command::Rejected);
    assert_eq!(renderer.presented(false), Command::Idle);
}

#[test]
fn a_failed_allocation_is_fatal_and_counts_for_nothing() {
    let device = Device::new(2);
    let mut renderer = Renderer::new(800, 600);
    renderer.surface_queried(&device.formats, &device.capabilities);
    assert_eq!(renderer.allocator_failed(), Command::Rejected);
    renderer.swapchain_created(2);
    assert_eq!(renderer.allocator_failed(), Command::Rejected);
    assert!(matches!(
        renderer.completed(),
        Command::AllocateMemory { count: 2, .. }
    ));
    let error = FatalError::AllocatorFailed;
    assert_eq!(renderer.allocator_failed(), Command::Abort(error));
    assert_eq!(renderer.phase(), Phase::Faulted(error));
    assert_eq!(renderer.allocations_made(), 0);
    assert_eq!(renderer.owned().uniform_memory, 0);
    assert_eq!(renderer.owned().uniform_buffers, 2);
    assert_eq!(renderer.allocator_failed(), Command::Rejected);
}

#[test]
fn a_failed_free_is_fatal() {
    let (mut renderer, _) = constructed(2, 800, 600);
    let mut command = renderer.destroy();
    while !matches!(command, Command::FreeMemory { .. }) {
        assert_eq!(renderer.allocator_failed(), Command::Rejected);
        command = renderer.completed();
    }
    assert_eq!(
        renderer.allocator_failed(),
        Command::Abort(FatalError::AllocatorFailed)
    );
    assert_eq!(renderer.allocations_freed(), 1);
    assert!(renderer.owned().vertex_memory);
}
