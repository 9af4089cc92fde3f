//! Capture-pipeline behaviour: the submission schedule and its fence
//! throttling, the recorded command sequence, teardown order, and the
//! controller lifecycle end to end.

use screen_capture::context::ForeignDeviceContext;
use screen_capture::controller::{
    EventConfig, VkRenderingInterceptor, NO_RENDER_BUFFER, QUEUE_ACCESS_ALLOW,
    RENDER_PASS_ENSURE_OUTSIDE,
};
use screen_capture::plugin::{
    lifecycle_action, GraphicsDeviceSlot, LifecycleAction, GFX_DEVICE_EVENT_INITIALIZE,
    GFX_DEVICE_EVENT_SHUTDOWN, RENDERER_VULKAN, SCREEN_CAPTURE_EVENT_ID,
};
use screen_capture::recorder::{
    record_capture, CaptureCommandState, CaptureSource, RESOURCE_ACCESS_PIPELINE_BARRIER,
};
use screen_capture::sync::{PresentInfo, RenderControl, SubmitInfo, SyncAction};
use screen_capture::target::{plan_swapchain, DestroyAction, ExtRenderTarget, SurfaceProbe};
use screen_capture::vk::{
    Extent2D, SurfaceCapabilities, SurfaceFormat, ACCESS_MEMORY_READ, ACCESS_TRANSFER_READ,
    ACCESS_TRANSFER_WRITE, COMMAND_POOL_RESET_RELEASE_RESOURCES, COMPOSITE_ALPHA_OPAQUE,
    FILTER_LINEAR, FORMAT_R8G8B8A8_SRGB, IMAGE_ASPECT_COLOR, IMAGE_LAYOUT_PRESENT_SRC,
    IMAGE_LAYOUT_TRANSFER_DST_OPTIMAL, IMAGE_LAYOUT_TRANSFER_SRC_OPTIMAL,
    PIPELINE_STAGE_BOTTOM_OF_PIPE, PIPELINE_STAGE_TOP_OF_PIPE, PIPELINE_STAGE_TRANSFER,
    PRESENT_MODE_FIFO, QUEUE_FAMILY_IGNORED,
};

const SEM_IMAGE_READY: u64 = 0x101;
const SEM_PRESENT: u64 = 0x102;
const FENCE: u64 = 0x103;
const WINDOW: u64 = 0x201;
const SURFACE: u64 = 0x202;
const SWAPCHAIN: u64 = 0x203;
const CMD_POOL: u64 = 0x301;
const CMD_BUF: u64 = 0x302;

fn make_context() -> ForeignDeviceContext {
    ForeignDeviceContext {
        instance: 0x401,
        physical_device: 0x402,
        device: 0x403,
        graphics_queue: 0x404,
        queue_family_index: 0,
    }
}

fn make_target() -> ExtRenderTarget {
    let probe = SurfaceProbe {
        presentation_supported: true,
        surface_supported: true,
        formats: vec![SurfaceFormat { format: FORMAT_R8G8B8A8_SRGB, color_space: 0 }],
        present_modes: vec![PRESENT_MODE_FIFO],
        capabilities: SurfaceCapabilities {
            min_image_count: 2,
            max_image_count: 3,
            current_extent: Extent2D { width: 1280, height: 720 },
            supported_composite_alpha: COMPOSITE_ALPHA_OPAQUE,
        },
        window_client_extent: Extent2D { width: 1280, height: 720 },
    };
    let config = plan_swapchain(&probe).expect("planning must succeed");
    let ctx = make_context();
    ExtRenderTarget::new(
        WINDOW,
        ctx.device,
        ctx.graphics_queue,
        SURFACE,
        SWAPCHAIN,
        config,
        vec![0x501, 0x502],
        RenderControl::new(SEM_IMAGE_READY, SEM_PRESENT, FENCE),
    )
}

fn make_interceptor() -> VkRenderingInterceptor {
    VkRenderingInterceptor::new(
        make_context(),
        make_target(),
        CaptureCommandState { cmd_pool: CMD_POOL, cbuf: CMD_BUF },
    )
}

#[test]
fn first_submission_does_not_wait() {
    let mut rc = RenderControl::new(SEM_IMAGE_READY, SEM_PRESENT, FENCE);
    assert!(!rc.has_last_render_issued);
    let plan = rc.submit_command(CMD_BUF, SWAPCHAIN, 0);
    assert_eq!(
        plan,
        vec![
            SyncAction::Submit(SubmitInfo {
                wait_semaphore: SEM_IMAGE_READY,
                wait_stage: PIPELINE_STAGE_TRANSFER,
                command_buffer: CMD_BUF,
                signal_semaphore: SEM_PRESENT,
                fence: FENCE,
            }),
            SyncAction::Present(PresentInfo {
                wait_semaphore: SEM_PRESENT,
                swapchain: SWAPCHAIN,
                image_index: 0,
            }),
        ]
    );
    assert!(rc.has_last_render_issued);
}

#[test]
fn second_submission_waits_and_resets_the_fence() {
    let mut rc = RenderControl::new(SEM_IMAGE_READY, SEM_PRESENT, FENCE);
    let _ = rc.submit_command(CMD_BUF, SWAPCHAIN, 0);
    // The first submission's fence has not been waited on: the second call
    // must block on it and reset it before anything is reused.
    let plan = rc.submit_command(CMD_BUF, SWAPCHAIN, 1);
    assert_eq!(plan.len(), 4);
    assert_eq!(plan[0], SyncAction::WaitFence(FENCE));
    assert_eq!(plan[1], SyncAction::ResetFence(FENCE));
    assert!(matches!(plan[2], SyncAction::Submit(_)));
    assert_eq!(
        plan[3],
        SyncAction::Present(PresentInfo {
            wait_semaphore: SEM_PRESENT,
            swapchain: SWAPCHAIN,
            image_index: 1,
        })
    );
    assert!(rc.has_last_render_issued);
}

#[test]
fn recording_is_barrier_blit_barrier() {
    let source = CaptureSource {
        image: 0x601,
        layout: IMAGE_LAYOUT_TRANSFER_SRC_OPTIMAL,
        extent: Extent2D { width: 1920, height: 1080 },
    };
    let cmd = CaptureCommandState { cmd_pool: CMD_POOL, cbuf: CMD_BUF };
    let r = record_capture(&source, 0x501, Extent2D { width: 1280, height: 720 }, &cmd);

    assert_eq!(r.reset_pool, CMD_POOL);
    assert_eq!(r.reset_flags, COMMAND_POOL_RESET_RELEASE_RESOURCES);
    assert_eq!(r.command_buffer, CMD_BUF);

    assert_eq!(r.enter_barrier.image, 0x501);
    assert_eq!(r.enter_barrier.old_layout, IMAGE_LAYOUT_PRESENT_SRC);
    assert_eq!(r.enter_barrier.new_layout, IMAGE_LAYOUT_TRANSFER_DST_OPTIMAL);
    assert_eq!(r.enter_barrier.src_access_mask, ACCESS_MEMORY_READ);
    assert_eq!(r.enter_barrier.dst_access_mask, ACCESS_TRANSFER_WRITE);
    assert_eq!(r.enter_barrier.src_stage, PIPELINE_STAGE_BOTTOM_OF_PIPE);
    assert_eq!(r.enter_barrier.dst_stage, PIPELINE_STAGE_TRANSFER);
    assert_eq!(r.enter_barrier.src_queue_family, QUEUE_FAMILY_IGNORED);
    assert_eq!(r.enter_barrier.dst_queue_family, QUEUE_FAMILY_IGNORED);

    // The blit reads the full host-reported extent and writes the full
    // target extent: this is where rescaling happens.
    assert_eq!(r.blit.src_image, 0x601);
    assert_eq!(r.blit.src_layout, IMAGE_LAYOUT_TRANSFER_SRC_OPTIMAL);
    assert_eq!(r.blit.src_extent, Extent2D { width: 1920, height: 1080 });
    assert_eq!(r.blit.dst_image, 0x501);
    assert_eq!(r.blit.dst_layout, IMAGE_LAYOUT_TRANSFER_DST_OPTIMAL);
    assert_eq!(r.blit.dst_extent, Extent2D { width: 1280, height: 720 });
    assert_eq!(r.blit.filter, FILTER_LINEAR);

    assert_eq!(r.exit_barrier.image, 0x501);
    assert_eq!(r.exit_barrier.old_layout, IMAGE_LAYOUT_TRANSFER_DST_OPTIMAL);
    assert_eq!(r.exit_barrier.new_layout, IMAGE_LAYOUT_PRESENT_SRC);
    assert_eq!(r.exit_barrier.src_access_mask, ACCESS_TRANSFER_WRITE);
    assert_eq!(r.exit_barrier.dst_access_mask, ACCESS_MEMORY_READ);
    assert_eq!(r.exit_barrier.src_stage, PIPELINE_STAGE_TRANSFER);
    assert_eq!(r.exit_barrier.dst_stage, PIPELINE_STAGE_TOP_OF_PIPE);
}

#[test]
fn teardown_destroys_swapchain_before_surface() {
    let target = make_target();
    let plan = target.teardown_plan();
    assert_eq!(
        plan,
        vec![
            DestroyAction::DestroySwapchain(SWAPCHAIN),
            DestroyAction::DestroySurface(SURFACE),
        ]
    );
}

#[test]
fn capture_event_is_configured_outside_render_pass() {
    assert_eq!(
        VkRenderingInterceptor::event_config(),
        EventConfig {
            flags: 0,
            render_pass_precondition: RENDER_PASS_ENSURE_OUTSIDE,
            graphics_queue_access: QUEUE_ACCESS_ALLOW,
        }
    );
}

#[test]
fn lifecycle_actions_follow_backend_and_event() {
    assert_eq!(
        lifecycle_action(GFX_DEVICE_EVENT_INITIALIZE, RENDERER_VULKAN),
        LifecycleAction::InitializeController
    );
    assert_eq!(
        lifecycle_action(GFX_DEVICE_EVENT_INITIALIZE, RENDERER_VULKAN + 1),
        LifecycleAction::Ignore
    );
    assert_eq!(
        lifecycle_action(GFX_DEVICE_EVENT_SHUTDOWN, RENDERER_VULKAN),
        LifecycleAction::TearDownController
    );
    assert_eq!(lifecycle_action(7, RENDERER_VULKAN), LifecycleAction::Ignore);
}

#[test]
fn capture_end_to_end_presents_the_acquired_back_buffer() {
    let mut slot = GraphicsDeviceSlot::new();
    assert!(slot.device.is_none());

    // Device-initialize with the Vulkan backend: the controller is built
    // and installed.
    assert_eq!(
        lifecycle_action(GFX_DEVICE_EVENT_INITIALIZE, RENDERER_VULKAN),
        LifecycleAction::InitializeController
    );
    slot.install(make_interceptor());
    let installed = slot.device.as_ref().expect("controller present");
    assert_eq!(installed.current_rb, NO_RENDER_BUFFER);
    assert!(!installed.ert.rc.has_last_render_issued);

    // The host registers its render buffer H.
    let h: u64 = 0x777;
    slot.set_render_buffer(h);

    // The capture event fires: the access request asks for H in
    // transfer-source layout for a transfer-stage read, via a pipeline
    // barrier performed by the host.
    let req = slot.capture_request(SCREEN_CAPTURE_EVENT_ID).expect("capture wanted");
    assert_eq!(req.render_buffer, h);
    assert_eq!(req.layout, IMAGE_LAYOUT_TRANSFER_SRC_OPTIMAL);
    assert_eq!(req.pipeline_stage, PIPELINE_STAGE_TRANSFER);
    assert_eq!(req.access_mask, ACCESS_TRANSFER_READ);
    assert_eq!(req.access_mode, RESOURCE_ACCESS_PIPELINE_BARRIER);
    assert_eq!(req.aspect_mask, IMAGE_ASPECT_COLOR);
    assert_eq!(req.mip_level, 0);
    assert_eq!(req.array_layer, 0);

    // The host supplies the image behind H; back buffer K was acquired.
    let source = CaptureSource {
        image: 0x601,
        layout: IMAGE_LAYOUT_TRANSFER_SRC_OPTIMAL,
        extent: Extent2D { width: 1920, height: 1080 },
    };
    let k: u32 = 1;
    let plan = slot
        .handle_capture(SCREEN_CAPTURE_EVENT_ID, Some(source), k)
        .expect("a frame plan is produced");

    // Barrier -> blit -> barrier into back buffer K, then a submission that
    // presents exactly index K.
    assert_eq!(plan.bb_index, k);
    assert_eq!(plan.commands.blit.src_image, 0x601);
    assert_eq!(plan.commands.blit.dst_image, 0x502);
    assert_eq!(plan.commands.enter_barrier.image, 0x502);
    assert_eq!(plan.commands.exit_barrier.image, 0x502);
    assert_eq!(
        plan.schedule.last(),
        Some(&SyncAction::Present(PresentInfo {
            wait_semaphore: SEM_PRESENT,
            swapchain: SWAPCHAIN,
            image_index: k,
        }))
    );

    // The in-flight fence went from not-issued to issued.
    let after = slot.device.as_ref().expect("controller still present");
    assert!(after.ert.rc.has_last_render_issued);
}

#[test]
fn non_vulkan_backend_leaves_the_plugin_inert() {
    let mut slot = GraphicsDeviceSlot::new();

    // Device-initialize with a different backend: no controller is built.
    assert_eq!(
        lifecycle_action(GFX_DEVICE_EVENT_INITIALIZE, 4),
        LifecycleAction::Ignore
    );
    assert!(slot.device.is_none());

    // Later source registrations and capture events are no-ops.
    slot.set_render_buffer(0x777);
    assert!(slot.device.is_none());
    assert_eq!(slot.capture_request(SCREEN_CAPTURE_EVENT_ID), None);
    assert!(slot.handle_capture(SCREEN_CAPTURE_EVENT_ID, None, 0).is_none());
    assert!(slot.device.is_none());

    // Shutdown on the empty slot is a no-op too.
    assert!(slot.shutdown().is_none());
    assert!(slot.device.is_none());
}

#[test]
fn unavailable_source_skips_the_frame_unchanged() {
    let mut slot = GraphicsDeviceSlot::new();
    slot.install(make_interceptor());
    slot.set_render_buffer(0x777);

    // The host could not supply the source image: no plan, and the
    // controller state is exactly as before the call.
    let plan = slot.handle_capture(SCREEN_CAPTURE_EVENT_ID, None, 0);
    assert!(plan.is_none());
    let d = slot.device.as_ref().expect("controller still present");
    assert_eq!(d.current_rb, 0x777);
    assert!(!d.ert.rc.has_last_render_issued);
    assert_eq!(d.ert.bb_images, vec![0x501, 0x502]);
}

#[test]
fn other_event_identifiers_are_ignored() {
    let mut slot = GraphicsDeviceSlot::new();
    slot.install(make_interceptor());
    assert_eq!(slot.capture_request(SCREEN_CAPTURE_EVENT_ID + 1), None);
    let source = CaptureSource {
        image: 0x601,
        layout: IMAGE_LAYOUT_TRANSFER_SRC_OPTIMAL,
        extent: Extent2D { width: 16, height: 16 },
    };
    assert!(slot.handle_capture(SCREEN_CAPTURE_EVENT_ID + 1, Some(source), 0).is_none());
    let d = slot.device.as_ref().expect("controller still present");
    assert!(!d.ert.rc.has_last_render_issued);
}

#[test]
fn shutdown_is_idempotent() {
    let mut slot = GraphicsDeviceSlot::new();
    slot.install(make_interceptor());

    let removed = slot.shutdown();
    let target = removed.expect("the controller is handed back").ert;
    // The shell destroys in dependency order: swapchain, then surface.
    assert_eq!(
        target.teardown_plan(),
        vec![
            DestroyAction::DestroySwapchain(SWAPCHAIN),
            DestroyAction::DestroySurface(SURFACE),
        ]
    );
    assert!(slot.device.is_none());

    // Tearing down again: nothing to remove, nothing changes, no panic.
    assert!(slot.shutdown().is_none());
    assert!(slot.device.is_none());
}
