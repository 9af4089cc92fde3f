//! Per-frame synchronization: the submit-and-present schedule.
//!
//! One image-acquired semaphore, one render-complete semaphore and one
//! in-flight fence are created once and reused every frame.  The schedule is
//! single-buffered on purpose: before a new submission may reuse the command
//! buffer, the previous submission's fence is waited on and reset, so at
//! most one capture is ever outstanding on the GPU.  [`RenderControl`]
//! computes each call's ordered action list as a plain value; the unverified
//! shell performs the queue operations in exactly that order.

use vstd::prelude::*;

use crate::vk::PIPELINE_STAGE_TRANSFER;

verus! {

/// One queue submission: wait for the acquired image at the transfer stage,
/// run the command buffer, signal render completion and the in-flight fence.
#[derive(Clone, Copy, Debug, PartialEq, Eq, Structural)]
pub struct SubmitInfo {
    pub wait_semaphore: u64,
    pub wait_stage: u32,
    pub command_buffer: u64,
    pub signal_semaphore: u64,
    pub fence: u64,
}

/// One presentation: show the given back buffer once rendering completes.
#[derive(Clone, Copy, Debug, PartialEq, Eq, Structural)]
pub struct PresentInfo {
    pub wait_semaphore: u64,
    pub swapchain: u64,
    pub image_index: u32,
}

/// One step of a submission schedule, to be performed in list order.
#[derive(Clone, Copy, Debug, PartialEq, Eq, Structural)]
pub enum SyncAction {
    /// Block until the fence signals.
    WaitFence(u64),
    /// Reset the fence to unsignaled.
    ResetFence(u64),
    /// Submit to the graphics queue.
    Submit(SubmitInfo),
    /// Present on the graphics queue.
    Present(PresentInfo),
}

/// The synchronization primitives of one presentation target, plus the flag
/// recording whether a submission's fence is still outstanding.
#[derive(Clone, Copy, Debug, PartialEq, Eq, Structural)]
pub struct RenderControl {
    /// Semaphore signaled when the next back buffer is acquired.
    pub image_ready_order: u64,
    /// Semaphore signaled when the capture commands finish.
    pub present_order: u64,
    /// Fence signaled when the submission completes.
    pub last_render: u64,
    /// Whether a previous submission signed up to signal the fence and the
    /// fence has not been waited on since.
    pub has_last_render_issued: bool,
}

/// The state after a submission: the primitives are unchanged and the fence
/// is recorded as outstanding.
pub open spec fn spec_submit_state(rc: RenderControl) -> RenderControl {
    RenderControl { has_last_render_issued: true, ..rc }
}

/// The submission half of a schedule.
pub open spec fn spec_submit_info(rc: RenderControl, command: u64) -> SubmitInfo {
    SubmitInfo {
        wait_semaphore: rc.image_ready_order,
        wait_stage: PIPELINE_STAGE_TRANSFER,
        command_buffer: command,
        signal_semaphore: rc.present_order,
        fence: rc.last_render,
    }
}

/// The presentation half of a schedule.
pub open spec fn spec_present_info(rc: RenderControl, sw: u64, bb_index: u32) -> PresentInfo {
    PresentInfo { wait_semaphore: rc.present_order, swapchain: sw, image_index: bb_index }
}

/// The whole schedule of one `submit_command` call: wait on and reset the
/// outstanding fence first if there is one, then submit, then present.
pub open spec fn spec_submit_schedule(rc: RenderControl, command: u64, sw: u64, bb_index: u32) -> Seq<
    SyncAction,
> {
    let tail = seq![
        SyncAction::Submit(spec_submit_info(rc, command)),
        SyncAction::Present(spec_present_info(rc, sw, bb_index)),
    ];
    if rc.has_last_render_issued {
        seq![
            SyncAction::WaitFence(rc.last_render),
            SyncAction::ResetFence(rc.last_render),
        ] + tail
    } else {
        tail
    }
}

impl RenderControl {
    /// Wraps the three primitives the shell created for this target; no
    /// submission is outstanding yet.
    pub fn new(image_ready_order: u64, present_order: u64, last_render: u64) -> (rc: RenderControl)
        ensures
            rc == (RenderControl {
                image_ready_order,
                present_order,
                last_render,
                has_last_render_issued: false,
            }),
    {
        RenderControl { image_ready_order, present_order, last_render, has_last_render_issued: false }
    }

    /// Schedules one capture submission followed by presentation of back
    /// buffer `bb_index` of swapchain `sw`.  If the previous submission's
    /// fence is still outstanding, the schedule first blocks on it and
    /// resets it, so the command buffer is never re-recorded while the GPU
    /// may still be reading it.
    pub fn submit_command(&mut self, command: u64, sw: u64, bb_index: u32) -> (plan: Vec<SyncAction>)
        ensures
            plan@ == spec_submit_schedule(*old(self), command, sw, bb_index),
            *final(self) == spec_submit_state(*old(self)),
    {
        let mut plan: Vec<SyncAction> = Vec::new();
        if self.has_last_render_issued {
            plan.push(SyncAction::WaitFence(self.last_render));
            plan.push(SyncAction::ResetFence(self.last_render));
            self.has_last_render_issued = false;
        }
        plan.push(
            SyncAction::Submit(
                SubmitInfo {
                    wait_semaphore: self.image_ready_order,
                    wait_stage: PIPELINE_STAGE_TRANSFER,
                    command_buffer: command,
                    signal_semaphore: self.present_order,
                    fence: self.last_render,
                },
            ),
        );
        self.has_last_render_issued = true;
        plan.push(
            SyncAction::Present(
                PresentInfo {
                    wait_semaphore: self.present_order,
                    swapchain: sw,
                    image_index: bb_index,
                },
            ),
        );
        assert(plan@ =~= spec_submit_schedule(*old(self), command, sw, bb_index));
        plan
    }
}

/// Fence discipline: every schedule that waits on the fence resets it in the
/// very next step and submits it again afterwards, so the fence is never
/// waited on twice without an intervening reset and submit; and a call that
/// follows an earlier submission always blocks on that submission's fence
/// before reusing anything.
pub proof fn lemma_fence_discipline(
    rc: RenderControl,
    c1: u64,
    sw1: u64,
    i1: u32,
    c2: u64,
    sw2: u64,
    i2: u32,
)
    ensures
        ({
            let first = spec_submit_schedule(rc, c1, sw1, i1);
            let after = spec_submit_state(rc);
            let second = spec_submit_schedule(after, c2, sw2, i2);
            &&& second[0] == SyncAction::WaitFence(after.last_render)
            &&& second[1] == SyncAction::ResetFence(after.last_render)
            &&& second[2] == SyncAction::Submit(spec_submit_info(after, c2))
            &&& forall|k: int|
                0 <= k < first.len() && #[trigger] first[k] == SyncAction::WaitFence(
                    rc.last_render,
                ) ==> first[k + 1] == SyncAction::ResetFence(rc.last_render)
        }),
{
}

} // verus!
