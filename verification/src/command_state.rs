//! The life of a command buffer: it is begun, recorded, finished, submitted
//! and reset, in that order, and a render pass is open only while recording.
use vstd::prelude::*;
use crate::vk_values as vk;
use crate::descriptor::{
    VkBindingManager, VkBoundResource, DIRTY_PER_DRAW, DIRTY_PER_MATERIAL, DIRTY_PER_FRAME, DIRTY_BINDLESS_TEXTURES,
};

verus! {

/// Where a command buffer is in its life.
#[derive(Clone, Copy, PartialEq, Eq, Structural, Debug)]
pub enum VkCommandBufferState {
    Ready,
    Recording,
    Finished,
    Submitted,
}

/// The state of a command buffer, the frame it records for, and whether a
/// render pass is open in it.
#[derive(Clone, Copy, PartialEq, Eq, Structural, Debug)]
pub struct CommandBufferLifecycle {
    pub state: VkCommandBufferState,
    pub frame: u64,
    pub in_render_pass: bool,
}

/// The usage flags a command buffer is begun with: it is submitted once, and a
/// secondary one continues the render pass of its primary.
pub open spec fn begin_usage_flags(secondary: bool) -> u32 {
    if secondary {
        vk::COMMAND_BUFFER_USAGE_ONE_TIME_SUBMIT | vk::COMMAND_BUFFER_USAGE_RENDER_PASS_CONTINUE
    } else {
        vk::COMMAND_BUFFER_USAGE_ONE_TIME_SUBMIT
    }
}

pub open spec fn after_begin(c: CommandBufferLifecycle, frame: u64) -> CommandBufferLifecycle {
    CommandBufferLifecycle { state: VkCommandBufferState::Recording, frame, ..c }
}

pub open spec fn after_finish(c: CommandBufferLifecycle) -> CommandBufferLifecycle {
    CommandBufferLifecycle { state: VkCommandBufferState::Finished, in_render_pass: false, ..c }
}

pub open spec fn after_submit(c: CommandBufferLifecycle) -> CommandBufferLifecycle {
    CommandBufferLifecycle { state: VkCommandBufferState::Submitted, ..c }
}

pub open spec fn after_reset(c: CommandBufferLifecycle) -> CommandBufferLifecycle {
    CommandBufferLifecycle { state: VkCommandBufferState::Ready, ..c }
}

impl CommandBufferLifecycle {
    /// A new command buffer, ready to be begun.
    pub fn new() -> (r: Self)
        ensures
            r == (CommandBufferLifecycle { state: VkCommandBufferState::Ready, frame: 0, in_render_pass: false }),
    {
        CommandBufferLifecycle { state: VkCommandBufferState::Ready, frame: 0, in_render_pass: false }
    }

    /// Begins recording for `frame`; returns the usage flags to begin with.
    pub fn begin(&mut self, frame: u64, secondary: bool) -> (flags: u32)
        requires
            old(self).state == VkCommandBufferState::Ready,
        ensures
            *final(self) == after_begin(*old(self), frame),
            flags == begin_usage_flags(secondary),
    {
        self.state = VkCommandBufferState::Recording;
        self.frame = frame;
        if secondary {
            vk::COMMAND_BUFFER_USAGE_ONE_TIME_SUBMIT | vk::COMMAND_BUFFER_USAGE_RENDER_PASS_CONTINUE
        } else {
            vk::COMMAND_BUFFER_USAGE_ONE_TIME_SUBMIT
        }
    }

    /// Opens a render pass.
    pub fn begin_render_pass(&mut self)
        requires
            old(self).state == VkCommandBufferState::Recording,
        ensures
            *final(self) == (CommandBufferLifecycle { in_render_pass: true, ..*old(self) }),
    {
        self.in_render_pass = true;
    }

    /// Closes the open render pass.
    pub fn end_render_pass(&mut self)
        requires
            old(self).state == VkCommandBufferState::Recording,
            old(self).in_render_pass,
        ensures
            *final(self) == (CommandBufferLifecycle { in_render_pass: false, ..*old(self) }),
    {
        self.in_render_pass = false;
    }

    /// Ends recording; a render pass still open is closed first, which the
    /// result says.
    pub fn finish(&mut self) -> (closed_render_pass: bool)
        requires
            old(self).state == VkCommandBufferState::Recording,
        ensures
            *final(self) == after_finish(*old(self)),
            closed_render_pass == old(self).in_render_pass,
    {
        let closed = self.in_render_pass;
        if closed {
            self.end_render_pass();
        }
        self.state = VkCommandBufferState::Finished;
        closed
    }

    /// Hands the finished command buffer to a queue.
    pub fn mark_submitted(&mut self)
        requires
            old(self).state == VkCommandBufferState::Finished,
        ensures
            *final(self) == after_submit(*old(self)),
    {
        self.state = VkCommandBufferState::Submitted;
    }

    /// Makes the command buffer ready to be begun again.
    pub fn reset(&mut self)
        ensures
            *final(self) == after_reset(*old(self)),
    {
        self.state = VkCommandBufferState::Ready;
    }

    /// A command buffer dropped while the queue may still run it must wait
    /// for the device to be idle.
    pub fn must_wait_before_drop(&self) -> (r: bool)
        ensures
            r == (self.state == VkCommandBufferState::Submitted),
    {
        self.state == VkCommandBufferState::Submitted
    }
}

/// A command buffer: its life and the descriptor sets bound while it records.
pub struct VkCommandBuffer {
    pub lifecycle: CommandBufferLifecycle,
    pub descriptor_manager: VkBindingManager,
}

/// Every descriptor set, the bindless texture set too.
pub open spec fn all_sets_dirty(dirty: u32) -> u32 {
    dirty | DIRTY_PER_DRAW | DIRTY_PER_MATERIAL | DIRTY_PER_FRAME | DIRTY_BINDLESS_TEXTURES
}

impl VkCommandBuffer {
    pub open spec fn wf(&self) -> bool {
        self.descriptor_manager.wf()
    }

    /// A new command buffer, ready to be begun, with nothing bound.
    pub fn new() -> (r: Self)
        ensures
            r.wf(),
            r.lifecycle == (CommandBufferLifecycle { state: VkCommandBufferState::Ready, frame: 0, in_render_pass: false }),
            r.descriptor_manager.dirty == 0,
            r.descriptor_manager.transient_cache.len() == 0,
            r.descriptor_manager.permanent_cache.len() == 0,
    {
        VkCommandBuffer { lifecycle: CommandBufferLifecycle::new(), descriptor_manager: VkBindingManager::new() }
    }

    /// Begins recording for `frame`: every descriptor set must be bound anew;
    /// returns the usage flags to begin with.
    pub fn begin(&mut self, frame: u64, secondary: bool) -> (flags: u32)
        requires
            old(self).wf(),
            old(self).lifecycle.state == VkCommandBufferState::Ready,
        ensures
            final(self).wf(),
            final(self).lifecycle == after_begin(old(self).lifecycle, frame),
            final(self).descriptor_manager.dirty == all_sets_dirty(old(self).descriptor_manager.dirty),
            final(self).descriptor_manager.bindings@ == old(self).descriptor_manager.bindings@,
            final(self).descriptor_manager.transient_cache@ == old(self).descriptor_manager.transient_cache@,
            final(self).descriptor_manager.permanent_cache@ == old(self).descriptor_manager.permanent_cache@,
            final(self).descriptor_manager.last_cleanup_frame == old(self).descriptor_manager.last_cleanup_frame,
            flags == begin_usage_flags(secondary),
    {
        self.descriptor_manager.mark_all_dirty();
        self.lifecycle.begin(frame, secondary)
    }

    /// Ends recording, closing a render pass left open, which the result says.
    pub fn finish(&mut self) -> (closed_render_pass: bool)
        requires
            old(self).lifecycle.state == VkCommandBufferState::Recording,
        ensures
            final(self).lifecycle == after_finish(old(self).lifecycle),
            final(self).descriptor_manager == old(self).descriptor_manager,
            closed_render_pass == old(self).lifecycle.in_render_pass,
    {
        self.lifecycle.finish()
    }

    /// Hands the finished command buffer to a queue.
    pub fn mark_submitted(&mut self)
        requires
            old(self).lifecycle.state == VkCommandBufferState::Finished,
        ensures
            final(self).lifecycle == after_submit(old(self).lifecycle),
            final(self).descriptor_manager == old(self).descriptor_manager,
    {
        self.lifecycle.mark_submitted();
    }

    /// Makes the command buffer ready to be begun again, with nothing bound and
    /// no transient descriptor set left.
    pub fn reset(&mut self)
        requires
            old(self).wf(),
        ensures
            final(self).wf(),
            final(self).lifecycle == after_reset(old(self).lifecycle),
            final(self).descriptor_manager.dirty == 0,
            forall|i: int| 0 <= i < final(self).descriptor_manager.bindings.len()
                ==> final(self).descriptor_manager.bindings@[i] == VkBoundResource::Unbound,
            final(self).descriptor_manager.transient_cache.len() == 0,
            final(self).descriptor_manager.permanent_model() == old(self).descriptor_manager.permanent_model(),
            final(self).descriptor_manager.last_cleanup_frame == old(self).descriptor_manager.last_cleanup_frame,
    {
        self.descriptor_manager.reset();
        self.lifecycle.reset();
    }
}

/// After a command buffer is begun, the per-draw, per-material, per-frame and
/// bindless texture sets are all dirty, whatever was dirty before.
pub proof fn law_begin_marks_every_set_dirty(dirty: u32)
    ensures
        all_sets_dirty(dirty) & (DIRTY_PER_DRAW | DIRTY_PER_MATERIAL | DIRTY_PER_FRAME | DIRTY_BINDLESS_TEXTURES)
            == (DIRTY_PER_DRAW | DIRTY_PER_MATERIAL | DIRTY_PER_FRAME | DIRTY_BINDLESS_TEXTURES),
{
    assert((dirty | 1u32 | 2u32 | 4u32 | 16u32) & (1u32 | 2u32 | 4u32 | 16u32) == (1u32 | 2u32 | 4u32 | 16u32)) by (bit_vector);
}

/// A command buffer that is begun, recorded (with or without a render pass
/// left open), finished, submitted and reset is ready again for another
/// frame, with no render pass open.
pub proof fn law_lifecycle_returns_to_ready(c: CommandBufferLifecycle, frame: u64, open_render_pass: bool)
    requires
        c.state == VkCommandBufferState::Ready,
    ensures
        ({
            let recorded = after_begin(c, frame);
            let recorded = if open_render_pass {
                CommandBufferLifecycle { in_render_pass: true, ..recorded }
            } else {
                recorded
            };
            after_reset(after_submit(after_finish(recorded))) == (CommandBufferLifecycle {
                state: VkCommandBufferState::Ready,
                frame,
                in_render_pass: false,
            })
        }),
{
}

} // verus!
