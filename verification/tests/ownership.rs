use egui_ash::command::{Command, MemoryLocation, MemoryPurpose};
use egui_ash::ownership::Owned;
use egui_ash::surface::Extent;

fn steady(images: u32, slots: u32) -> Owned {
    Owned {
        allocator: true,
        swapchain: true,
        image_views: images,
        framebuffers: images,
        render_pass: true,
        sync_slots: images,
        uniform_buffers: slots,
        uniform_memory: slots,
        descriptor_pool: true,
        descriptor_set_layouts: slots,
        descriptor_sets: slots,
        pipeline: true,
        pipeline_layout: true,
        staging_buffer: false,
        staging_memory: false,
        vertex_buffer: true,
        vertex_memory: true,
        copy_command_buffer: false,
    }
}

#[test]
fn a_renderer_starts_with_the_allocator_alone() {
    let owned = Owned::initial();
    assert!(owned.allocator);
    assert!(!owned.is_empty());
    assert!(Owned {
        allocator: false,
        ..owned
    }
    .is_empty());
    assert_eq!(owned.count_live_memory(), 0);
}

#[test]
fn live_memory_counts_every_allocation() {
    assert_eq!(steady(3, 3).count_live_memory(), 4);
    assert_eq!(steady(2, 5).count_live_memory(), 6);
    let uploading = Owned {
        staging_memory: true,
        ..steady(3, 3)
    };
    assert_eq!(uploading.count_live_memory(), 5);
    let largest = Owned {
        staging_memory: true,
        ..steady(1, u32::MAX)
    };
    assert_eq!(largest.count_live_memory(), u64::from(u32::MAX) + 2);
}

#[test]
fn nothing_is_created_twice() {
    let owned = steady(3, 3);
    let creations = [
        Command::CreateUniformBuffers { count: 3 },
        Command::CreateDescriptorPool { count: 3 },
        Command::CreateDescriptorSetLayouts { count: 3 },
        Command::CreateDescriptorSets { count: 3 },
        Command::CreateRenderPass { format: 44 },
        Command::CreateFramebuffers {
            count: 3,
            format: 44,
            extent: Extent {
                width: 1,
                height: 1,
            },
        },
        Command::CreatePipeline,
        Command::CreateVertexBuffer,
        Command::CreateSyncObjects {
            count: 3,
            fence_flags: 1,
        },
        Command::AllocateMemory {
            purpose: MemoryPurpose::Uniform,
            location: MemoryLocation::HostVisible,
            count: 3,
        },
        Command::AllocateMemory {
            purpose: MemoryPurpose::Vertex,
            location: MemoryLocation::DeviceLocal,
            count: 1,
        },
    ];
    for command in creations {
        assert!(!owned.allows(&command), "{command:?}");
    }
}

#[test]
fn nothing_is_destroyed_that_is_not_there() {
    let owned = Owned::initial();
    let destructions = [
        Command::DestroySyncObjects,
        Command::DestroyFramebuffers,
        Command::DestroyImageViews,
        Command::DestroyRenderPass,
        Command::DestroySwapchain,
        Command::DestroyVertexBuffer,
        Command::DestroyUniformBuffers,
        Command::DestroyPipeline,
        Command::DestroyPipelineLayout,
        Command::DestroyDescriptorSetLayouts,
        Command::DestroyDescriptorPool,
        Command::DestroyStagingBuffer,
        Command::FreeCopyCommandBuffer,
        Command::FreeMemory {
            purpose: MemoryPurpose::Vertex,
            count: 1,
        },
        Command::FreeMemory {
            purpose: MemoryPurpose::Staging,
            count: 1,
        },
        Command::FreeMemory {
            purpose: MemoryPurpose::Uniform,
            count: 3,
        },
    ];
    for command in destructions {
        assert!(!owned.allows(&command), "{command:?}");
    }
}

#[test]
fn what_others_hang_on_stays_until_they_are_gone() {
    let owned = steady(3, 3);
    assert!(!owned.allows(&Command::DestroySwapchain));
    assert!(!owned.allows(&Command::DestroyImageViews));
    assert!(!owned.allows(&Command::DestroyRenderPass));
    assert!(!owned.allows(&Command::DestroyPipelineLayout));
    assert!(!owned.allows(&Command::DestroyDescriptorSetLayouts));
    assert!(!owned.allows(&Command::ReleaseAllocator));
    assert!(owned.allows(&Command::DestroyFramebuffers));

    let owned = owned.record(&Command::DestroyFramebuffers);
    assert!(owned.allows(&Command::DestroyImageViews));
    assert!(owned.allows(&Command::DestroyRenderPass));
    assert!(!owned.allows(&Command::DestroySwapchain));
    let owned = owned.record(&Command::DestroyImageViews);
    assert!(owned.allows(&Command::DestroySwapchain));

    let owned = owned.record(&Command::DestroyPipeline);
    assert!(owned.allows(&Command::DestroyPipelineLayout));
    let owned = owned.record(&Command::DestroyPipelineLayout);
    assert!(owned.allows(&Command::DestroyDescriptorSetLayouts));
}

#[test]
fn the_allocator_goes_only_when_no_memory_is_live() {
    let mut owned = steady(3, 2);
    assert!(!owned.allows(&Command::ReleaseAllocator));
    owned = owned.record(&Command::FreeMemory {
        purpose: MemoryPurpose::Vertex,
        count: 1,
    });
    assert!(!owned.allows(&Command::ReleaseAllocator));
    owned = owned.record(&Command::FreeMemory {
        purpose: MemoryPurpose::Uniform,
        count: 2,
    });
    assert_eq!(owned.count_live_memory(), 0);
    assert!(owned.allows(&Command::ReleaseAllocator));
    owned = owned.record(&Command::ReleaseAllocator);
    assert!(!owned.allocator);
    assert!(!owned.allows(&Command::ReleaseAllocator));
    assert!(!owned.allows(&Command::AllocateMemory {
        purpose: MemoryPurpose::Staging,
        location: MemoryLocation::HostVisible,
        count: 1
    }));
}

#[test]
fn memory_is_freed_all_at_once() {
    let owned = steady(3, 3);
    assert!(owned.allows(&Command::FreeMemory {
        purpose: MemoryPurpose::Uniform,
        count: 3
    }));
    assert!(!owned.allows(&Command::FreeMemory {
        purpose: MemoryPurpose::Uniform,
        count: 2
    }));
    assert!(!owned.allows(&Command::FreeMemory {
        purpose: MemoryPurpose::Vertex,
        count: 2
    }));
}

#[test]
fn frames_need_their_slot_and_image() {
    let owned = steady(3, 2);
    assert!(owned.allows(&Command::WaitFence {
            slot: 2,
            timeout: u64::MAX,
        }));
    assert!(!owned.allows(&Command::WaitFence {
            slot: 3,
            timeout: u64::MAX,
        }));
    assert!(owned.allows(&Command::ResetFence { slot: 0 }));
    assert!(owned.allows(&Command::AcquireImage {
            slot: 2,
            timeout: u64::MAX,
        }));
    assert!(owned.allows(&Command::Submit {
            slot: 2,
            wait_stage: 0x400,
        }));
    assert!(!owned.allows(&Command::Submit {
            slot: 3,
            wait_stage: 0x400,
        }));
    assert!(owned.allows(&Command::WriteUniforms {
        slot: 1,
        rotation: 0,
        width: 1,
        height: 1
    }));
    assert!(!owned.allows(&Command::WriteUniforms {
        slot: 2,
        rotation: 0,
        width: 1,
        height: 1
    }));
    let extent = Extent {
        width: 1,
        height: 1,
    };
    assert!(owned.allows(&Command::RecordScene {
        slot: 1,
        image_index: 2,
        width: 1,
        height: 1,
        extent
    }));
    assert!(!owned.allows(&Command::RecordScene {
        slot: 1,
        image_index: 3,
        width: 1,
        height: 1,
        extent
    }));
    assert!(!owned.allows(&Command::RecordScene {
        slot: 2,
        image_index: 0,
        width: 1,
        height: 1,
        extent
    }));
    assert!(owned.allows(&Command::RecordOverlay {
        slot: 2,
        image_index: 2
    }));
    assert!(!owned.allows(&Command::RecordOverlay {
        slot: 0,
        image_index: 3
    }));
    assert!(owned.allows(&Command::FinishRecording { slot: 2 }));
    assert!(!owned.allows(&Command::FinishRecording { slot: 3 }));
    assert!(owned.allows(&Command::Present {
        slot: 0,
        image_index: 2
    }));
    assert!(!owned.allows(&Command::Present {
        slot: 0,
        image_index: 3
    }));
}

#[test]
fn the_pool_takes_its_sets_along() {
    let owned = steady(3, 3)
        .record(&Command::DestroyPipeline)
        .record(&Command::DestroyPipelineLayout)
        .record(&Command::DestroyDescriptorSetLayouts)
        .record(&Command::DestroyDescriptorPool);
    assert!(!owned.descriptor_pool);
    assert_eq!(owned.descriptor_sets, 0);
    assert_eq!(owned.descriptor_set_layouts, 0);
}

#[test]
fn waiting_and_asking_change_nothing() {
    let owned = steady(3, 3);
    for command in [
        Command::Idle,
        Command::Rejected,
        Command::QuerySurface,
        Command::ReadClock,
        Command::WaitDeviceIdle,
        Command::WaitQueueIdle,
        Command::WaitFence {
            slot: 0,
            timeout: u64::MAX,
        },
        Command::ResetFence { slot: 0 },
        Command::AcquireImage {
            slot: 0,
            timeout: u64::MAX,
        },
        Command::Submit {
            slot: 0,
            wait_stage: 0x400,
        },
        Command::Present {
            slot: 0,
            image_index: 0,
        },
        Command::FillStagingBuffer,
        Command::CreateCommandBuffers { count: 3 },
        Command::BindMemory {
            purpose: MemoryPurpose::Uniform,
        },
    ] {
        assert_eq!(owned.record(&command), owned);
    }
}
