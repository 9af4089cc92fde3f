//! The interceptor controller: one device session's aggregated state.
//!
//! The controller wires the foreign device context, the presentation
//! target, the capture command state and the currently registered source
//! render buffer together, and handles the host's capture events.  A
//! capture crosses two synchronization domains: the host is asked (through
//! a fixed access request) to hand its color buffer over in transfer-source
//! layout, and whatever the host answered is passed back in here, so every
//! outcome of that foreign call is handled by verified code.  A frame the
//! host cannot supply a source for is skipped without any state change:
//! capture must never take the host's render loop down.

use vstd::prelude::*;

use crate::context::ForeignDeviceContext;
use crate::recorder::record_capture;
use crate::recorder::spec_access_request;
use crate::recorder::spec_record_capture;
use crate::recorder::AccessRequest;
use crate::recorder::CaptureCommandState;
use crate::recorder::CaptureCommands;
use crate::recorder::CaptureSource;
use crate::recorder::RESOURCE_ACCESS_PIPELINE_BARRIER;
use crate::sync::spec_submit_schedule;
use crate::sync::spec_submit_state;
use crate::sync::SyncAction;
use crate::target::ExtRenderTarget;
use crate::target::ExtRenderTargetV;
use crate::vk::ACCESS_TRANSFER_READ;
use crate::vk::IMAGE_ASPECT_COLOR;
use crate::vk::IMAGE_LAYOUT_TRANSFER_SRC_OPTIMAL;
use crate::vk::PIPELINE_STAGE_TRANSFER;

verus! {

/// Render-pass precondition asked of the host for the capture event: the
/// copy and present commands must run outside any render pass.
pub const RENDER_PASS_ENSURE_OUTSIDE: i32 = 2;

/// Queue-access mode asked of the host for the capture event: the plugin
/// presents on the graphics queue, so it needs access to it.
pub const QUEUE_ACCESS_ALLOW: u32 = 1;

/// The render-buffer handle value standing for "none registered yet"; the
/// host never hands out a null buffer.
pub const NO_RENDER_BUFFER: u64 = 0;

/// How the host is asked to schedule the capture event.
#[derive(Clone, Copy, Debug, PartialEq, Eq, Structural)]
pub struct EventConfig {
    pub flags: u32,
    pub render_pass_precondition: i32,
    pub graphics_queue_access: u32,
}

/// Everything one capture event asks the shell to execute: which back
/// buffer it targets, the recorded command sequence, and the ordered
/// submit-and-present schedule.
#[derive(Debug)]
pub struct FramePlan {
    pub bb_index: u32,
    pub commands: CaptureCommands,
    pub schedule: Vec<SyncAction>,
}

/// The per-device-session state: the borrowed context, the owned
/// presentation target, the capture command handles, and the render buffer
/// the host registered most recently.
#[derive(Debug)]
pub struct VkRenderingInterceptor {
    pub instance: ForeignDeviceContext,
    pub ert: ExtRenderTarget,
    pub current_rb: u64,
    pub cmd: CaptureCommandState,
}

/// Mathematical image of a [`VkRenderingInterceptor`].
pub struct VkRenderingInterceptorV {
    pub instance: ForeignDeviceContext,
    pub ert: ExtRenderTargetV,
    pub current_rb: u64,
    pub cmd: CaptureCommandState,
}

impl View for VkRenderingInterceptor {
    type V = VkRenderingInterceptorV;

    open spec fn view(&self) -> VkRenderingInterceptorV {
        VkRenderingInterceptorV {
            instance: self.instance,
            ert: self.ert@,
            current_rb: self.current_rb,
            cmd: self.cmd,
        }
    }
}

/// The commands a capture of `source` into back buffer `bb_index` records.
pub open spec fn spec_frame_commands(
    d: VkRenderingInterceptorV,
    source: CaptureSource,
    bb_index: int,
) -> CaptureCommands {
    spec_record_capture(source, d.ert.bb_images[bb_index], d.ert.config.extent, d.cmd)
}

/// The submit-and-present schedule of a capture into back buffer
/// `bb_index`.
pub open spec fn spec_frame_schedule(d: VkRenderingInterceptorV, bb_index: u32) -> Seq<SyncAction> {
    spec_submit_schedule(d.ert.rc, d.cmd.cbuf, d.ert.swapchain, bb_index)
}

/// The controller after a capture: only the synchronization state moved.
pub open spec fn spec_capture_state(d: VkRenderingInterceptorV) -> VkRenderingInterceptorV {
    VkRenderingInterceptorV {
        ert: ExtRenderTargetV { rc: spec_submit_state(d.ert.rc), ..d.ert },
        ..d
    }
}

impl VkRenderingInterceptor {
    /// Wires a fresh device session together; no render buffer is
    /// registered yet.
    pub fn new(
        instance: ForeignDeviceContext,
        ert: ExtRenderTarget,
        cmd: CaptureCommandState,
    ) -> (r: VkRenderingInterceptor)
        ensures
            r@ == (VkRenderingInterceptorV {
                instance,
                ert: ert@,
                current_rb: NO_RENDER_BUFFER,
                cmd,
            }),
    {
        VkRenderingInterceptor { instance, ert, current_rb: NO_RENDER_BUFFER, cmd }
    }

    /// How the capture event must be configured with the host: outside any
    /// render pass, with graphics-queue access, and no further flags.
    pub fn event_config() -> (r: EventConfig)
        ensures
            r == (EventConfig {
                flags: 0,
                render_pass_precondition: RENDER_PASS_ENSURE_OUTSIDE,
                graphics_queue_access: QUEUE_ACCESS_ALLOW,
            }),
    {
        EventConfig {
            flags: 0,
            render_pass_precondition: RENDER_PASS_ENSURE_OUTSIDE,
            graphics_queue_access: QUEUE_ACCESS_ALLOW,
        }
    }

    /// Registers the render buffer the next capture will read.
    pub fn set_render_buffer(&mut self, rb: u64)
        ensures
            final(self)@ == (VkRenderingInterceptorV { current_rb: rb, ..old(self)@ }),
    {
        self.current_rb = rb;
    }

    /// The access request for the current render buffer, handed to the host
    /// at the start of every capture event.
    pub fn access_request(&self) -> (r: AccessRequest)
        ensures
            r == spec_access_request(self.current_rb),
    {
        AccessRequest {
            render_buffer: self.current_rb,
            aspect_mask: IMAGE_ASPECT_COLOR,
            mip_level: 0,
            array_layer: 0,
            layout: IMAGE_LAYOUT_TRANSFER_SRC_OPTIMAL,
            pipeline_stage: PIPELINE_STAGE_TRANSFER,
            access_mask: ACCESS_TRANSFER_READ,
            access_mode: RESOURCE_ACCESS_PIPELINE_BARRIER,
        }
    }

    /// Handles one capture event, given what the host answered to the
    /// access request and which back buffer was acquired.  When the host
    /// could not supply the source this frame, the frame is skipped and the
    /// controller is left exactly as it was; otherwise the full frame plan
    /// is produced and the fence becomes outstanding.
    pub fn handle_event(&mut self, source: Option<CaptureSource>, bb_index: u32) -> (r: Option<
        FramePlan,
    >)
        requires
            source is Some ==> (bb_index as int) < old(self).ert.bb_images@.len(),
        ensures
            source is None ==> r is None && final(self)@ == old(self)@,
            source matches Some(src) ==> ({
                &&& r matches Some(p)
                &&& p.bb_index == bb_index
                &&& p.commands == spec_frame_commands(old(self)@, src, bb_index as int)
                &&& p.schedule@ == spec_frame_schedule(old(self)@, bb_index)
                &&& final(self)@ == spec_capture_state(old(self)@)
            }),
    {
        match source {
            None => None,
            Some(src) => {
                let dst_image = self.ert.bb_images[bb_index as usize];
                let commands = record_capture(&src, dst_image, self.ert.config.extent, &self.cmd);
                let schedule = self.ert.submit_command(self.cmd.cbuf, bb_index);
                Some(FramePlan { bb_index, commands, schedule })
            },
        }
    }
}

} // verus!
