//! Capture command recording: the per-frame transfer into the back buffer.
//!
//! Each capture event records the same short command sequence into one
//! reused primary command buffer: transition the chosen back buffer from
//! present-source to transfer-destination layout, blit the host's color
//! buffer into it with linear filtering (source and target extents are
//! independent; the blit rescales), and transition it back for presentation.
//! The sequence is computed here as a plain value with every field pinned;
//! the unverified shell replays it through the GPU's recording entry points.

use vstd::prelude::*;

use crate::vk::Extent2D;
use crate::vk::ACCESS_MEMORY_READ;
use crate::vk::ACCESS_TRANSFER_READ;
use crate::vk::ACCESS_TRANSFER_WRITE;
use crate::vk::COMMAND_POOL_RESET_RELEASE_RESOURCES;
use crate::vk::FILTER_LINEAR;
use crate::vk::IMAGE_ASPECT_COLOR;
use crate::vk::IMAGE_LAYOUT_PRESENT_SRC;
use crate::vk::IMAGE_LAYOUT_TRANSFER_DST_OPTIMAL;
use crate::vk::IMAGE_LAYOUT_TRANSFER_SRC_OPTIMAL;
use crate::vk::PIPELINE_STAGE_BOTTOM_OF_PIPE;
use crate::vk::PIPELINE_STAGE_TOP_OF_PIPE;
use crate::vk::PIPELINE_STAGE_TRANSFER;
use crate::vk::QUEUE_FAMILY_IGNORED;

verus! {

/// How the host is asked to hand over its color buffer this frame.  The
/// host owns that image's synchronization domain, so the plugin requests
/// the layout transition from the host instead of recording one itself.
pub const RESOURCE_ACCESS_PIPELINE_BARRIER: u32 = 1;

/// The request handed to the host for access to the current render buffer:
/// the color aspect of mip level zero, transitioned to transfer-source
/// layout for a transfer-stage read, under a pipeline-barrier access mode.
#[derive(Clone, Copy, Debug, PartialEq, Eq, Structural)]
pub struct AccessRequest {
    /// The host's opaque render-buffer handle, as last registered.
    pub render_buffer: u64,
    pub aspect_mask: u32,
    pub mip_level: u32,
    pub array_layer: u32,
    pub layout: u32,
    pub pipeline_stage: u32,
    pub access_mask: u32,
    pub access_mode: u32,
}

/// The request is a fixed function of the registered render buffer.
pub open spec fn spec_access_request(render_buffer: u64) -> AccessRequest {
    AccessRequest {
        render_buffer,
        aspect_mask: IMAGE_ASPECT_COLOR,
        mip_level: 0,
        array_layer: 0,
        layout: IMAGE_LAYOUT_TRANSFER_SRC_OPTIMAL,
        pipeline_stage: PIPELINE_STAGE_TRANSFER,
        access_mask: ACCESS_TRANSFER_READ,
        access_mode: RESOURCE_ACCESS_PIPELINE_BARRIER,
    }
}

/// What the host supplied for one capture event: its image handle, the
/// layout the image is actually in, and its extent.  Borrowed for this call
/// only; the plugin never owns or frees it.
#[derive(Clone, Copy, Debug, PartialEq, Eq, Structural)]
pub struct CaptureSource {
    pub image: u64,
    pub layout: u32,
    pub extent: Extent2D,
}

/// One image-layout transition over the full color subresource of one
/// image, transferring no queue-family ownership.
#[derive(Clone, Copy, Debug, PartialEq, Eq, Structural)]
pub struct ImageBarrier {
    pub image: u64,
    pub old_layout: u32,
    pub new_layout: u32,
    pub src_access_mask: u32,
    pub dst_access_mask: u32,
    pub src_queue_family: u32,
    pub dst_queue_family: u32,
    pub src_stage: u32,
    pub dst_stage: u32,
}

/// One full-extent blit from the source image into the back buffer.
#[derive(Clone, Copy, Debug, PartialEq, Eq, Structural)]
pub struct BlitCommand {
    pub src_image: u64,
    pub src_layout: u32,
    pub src_extent: Extent2D,
    pub dst_image: u64,
    pub dst_layout: u32,
    pub dst_extent: Extent2D,
    pub filter: u32,
}

/// The command pool and the one primary command buffer dedicated to
/// capture; the handles persist, the recorded content is replaced every
/// frame.
#[derive(Clone, Copy, Debug, PartialEq, Eq, Structural)]
pub struct CaptureCommandState {
    pub cmd_pool: u64,
    pub cbuf: u64,
}

/// Everything one capture event records, in order: reset the pool releasing
/// prior resources, begin the command buffer, the barrier into
/// transfer-destination layout, the blit, the barrier back to
/// present-source layout, end the command buffer.
#[derive(Clone, Copy, Debug, PartialEq, Eq, Structural)]
pub struct CaptureCommands {
    pub reset_pool: u64,
    pub reset_flags: u32,
    pub command_buffer: u64,
    pub enter_barrier: ImageBarrier,
    pub blit: BlitCommand,
    pub exit_barrier: ImageBarrier,
}

/// The transition of the back buffer from presentation to transfer
/// destination: prior presentation reads (bottom of pipe) are ordered
/// before transfer writes.
pub open spec fn spec_enter_barrier(dst_image: u64) -> ImageBarrier {
    ImageBarrier {
        image: dst_image,
        old_layout: IMAGE_LAYOUT_PRESENT_SRC,
        new_layout: IMAGE_LAYOUT_TRANSFER_DST_OPTIMAL,
        src_access_mask: ACCESS_MEMORY_READ,
        dst_access_mask: ACCESS_TRANSFER_WRITE,
        src_queue_family: QUEUE_FAMILY_IGNORED,
        dst_queue_family: QUEUE_FAMILY_IGNORED,
        src_stage: PIPELINE_STAGE_BOTTOM_OF_PIPE,
        dst_stage: PIPELINE_STAGE_TRANSFER,
    }
}

/// The transition back to presentation: the transfer write is ordered
/// before any later read (top of pipe of the next frame's work).
pub open spec fn spec_exit_barrier(dst_image: u64) -> ImageBarrier {
    ImageBarrier {
        image: dst_image,
        old_layout: IMAGE_LAYOUT_TRANSFER_DST_OPTIMAL,
        new_layout: IMAGE_LAYOUT_PRESENT_SRC,
        src_access_mask: ACCESS_TRANSFER_WRITE,
        dst_access_mask: ACCESS_MEMORY_READ,
        src_queue_family: QUEUE_FAMILY_IGNORED,
        dst_queue_family: QUEUE_FAMILY_IGNORED,
        src_stage: PIPELINE_STAGE_TRANSFER,
        dst_stage: PIPELINE_STAGE_TOP_OF_PIPE,
    }
}

/// The blit covers the full host-reported source extent and the full
/// configured target extent, with linear filtering so the two may differ.
pub open spec fn spec_blit(source: CaptureSource, dst_image: u64, dst_extent: Extent2D) -> BlitCommand {
    BlitCommand {
        src_image: source.image,
        src_layout: source.layout,
        src_extent: source.extent,
        dst_image,
        dst_layout: IMAGE_LAYOUT_TRANSFER_DST_OPTIMAL,
        dst_extent,
        filter: FILTER_LINEAR,
    }
}

/// The whole recording of one capture event as a function of the source,
/// the chosen back buffer and the recorder's handles.
pub open spec fn spec_record_capture(
    source: CaptureSource,
    dst_image: u64,
    dst_extent: Extent2D,
    cmd: CaptureCommandState,
) -> CaptureCommands {
    CaptureCommands {
        reset_pool: cmd.cmd_pool,
        reset_flags: COMMAND_POOL_RESET_RELEASE_RESOURCES,
        command_buffer: cmd.cbuf,
        enter_barrier: spec_enter_barrier(dst_image),
        blit: spec_blit(source, dst_image, dst_extent),
        exit_barrier: spec_exit_barrier(dst_image),
    }
}

/// Records one capture: pool reset, begin, barrier to transfer destination,
/// rescaling blit, barrier back to present source, end.
pub fn record_capture(
    source: &CaptureSource,
    dst_image: u64,
    dst_extent: Extent2D,
    cmd: &CaptureCommandState,
) -> (r: CaptureCommands)
    ensures
        r == spec_record_capture(*source, dst_image, dst_extent, *cmd),
{
    CaptureCommands {
        reset_pool: cmd.cmd_pool,
        reset_flags: COMMAND_POOL_RESET_RELEASE_RESOURCES,
        command_buffer: cmd.cbuf,
        enter_barrier: ImageBarrier {
            image: dst_image,
            old_layout: IMAGE_LAYOUT_PRESENT_SRC,
            new_layout: IMAGE_LAYOUT_TRANSFER_DST_OPTIMAL,
            src_access_mask: ACCESS_MEMORY_READ,
            dst_access_mask: ACCESS_TRANSFER_WRITE,
            src_queue_family: QUEUE_FAMILY_IGNORED,
            dst_queue_family: QUEUE_FAMILY_IGNORED,
            src_stage: PIPELINE_STAGE_BOTTOM_OF_PIPE,
            dst_stage: PIPELINE_STAGE_TRANSFER,
        },
        blit: BlitCommand {
            src_image: source.image,
            src_layout: source.layout,
            src_extent: source.extent,
            dst_image,
            dst_layout: IMAGE_LAYOUT_TRANSFER_DST_OPTIMAL,
            dst_extent,
            filter: FILTER_LINEAR,
        },
        exit_barrier: ImageBarrier {
            image: dst_image,
            old_layout: IMAGE_LAYOUT_TRANSFER_DST_OPTIMAL,
            new_layout: IMAGE_LAYOUT_PRESENT_SRC,
            src_access_mask: ACCESS_TRANSFER_WRITE,
            dst_access_mask: ACCESS_MEMORY_READ,
            src_queue_family: QUEUE_FAMILY_IGNORED,
            dst_queue_family: QUEUE_FAMILY_IGNORED,
            src_stage: PIPELINE_STAGE_TRANSFER,
            dst_stage: PIPELINE_STAGE_TOP_OF_PIPE,
        },
    }
}

/// The two barriers of every recording undo each other: the layouts, access
/// masks and stages of the exit barrier are the enter barrier's reversed,
/// so the back buffer always returns to the presentation layout it started
/// in, write-visible to later reads.
pub proof fn lemma_barriers_restore_layout(dst_image: u64)
    ensures
        spec_exit_barrier(dst_image).old_layout == spec_enter_barrier(dst_image).new_layout,
        spec_exit_barrier(dst_image).new_layout == spec_enter_barrier(dst_image).old_layout,
        spec_exit_barrier(dst_image).src_access_mask == spec_enter_barrier(
            dst_image,
        ).dst_access_mask,
        spec_exit_barrier(dst_image).dst_access_mask == spec_enter_barrier(
            dst_image,
        ).src_access_mask,
{
}

} // verus!
