//! Frames in flight: how many the device may prepare ahead, which per-thread
//! frame context a frame uses, and what a frame keeps alive until it is done.
use vstd::prelude::*;

verus! {

/// A frame handed to the queue: its number and the fence it signals.
#[derive(Clone, Copy, PartialEq, Eq, Structural, Debug)]
pub struct VkFrame {
    pub counter: u64,
    pub fence: u64,
}

/// The frames in flight of a device, oldest first.
#[derive(Clone, Debug)]
pub struct VkThreadContextManager {
    pub max_prepared_frames: u32,
    pub frame_counter: u64,
    pub prepared_frames: Vec<VkFrame>,
}

/// The frame counter and the frames in flight after a frame that signals
/// `fence` ends: the frame keeps the old number, the counter moves on.
pub open spec fn ended_frame(counter: u64, frames: Seq<VkFrame>, fence: u64) -> (u64, Seq<VkFrame>) {
    ((counter + 1) as u64, frames.push(VkFrame { counter, fence }))
}

/// The frame counter and the frames in flight after frames that signal
/// `fences`, in order, end.
pub open spec fn ended_frames(counter: u64, frames: Seq<VkFrame>, fences: Seq<u64>) -> (u64, Seq<VkFrame>)
    decreases fences.len(),
{
    if fences.len() == 0 {
        (counter, frames)
    } else {
        let (c, f) = ended_frames(counter, frames, fences.drop_last());
        ended_frame(c, f, fences.last())
    }
}

impl VkThreadContextManager {
    pub fn new(max_prepared_frames: u32) -> (r: Self)
        ensures
            r.max_prepared_frames == max_prepared_frames,
            r.frame_counter == 0,
            r.prepared_frames@.len() == 0,
    {
        VkThreadContextManager { max_prepared_frames, frame_counter: 0, prepared_frames: Vec::new() }
    }

    /// Starts a frame: with as many frames in flight as may be, the oldest must
    /// finish first; its fence is returned to be waited for and reset.
    pub fn begin_frame(&mut self) -> (r: Option<u64>)
        ensures
            final(self).max_prepared_frames == old(self).max_prepared_frames,
            final(self).frame_counter == old(self).frame_counter,
            if old(self).prepared_frames.len() >= old(self).max_prepared_frames && old(self).prepared_frames.len() > 0 {
                &&& r == Some(old(self).prepared_frames@[0].fence)
                &&& final(self).prepared_frames@ == old(self).prepared_frames@.drop_first()
            } else {
                &&& r is None
                &&& final(self).prepared_frames@ == old(self).prepared_frames@
            },
    {
        if self.prepared_frames.len() >= self.max_prepared_frames as usize && self.prepared_frames.len() > 0 {
            let frame = self.prepared_frames.remove(0);
            assert(self.prepared_frames@ =~= old(self).prepared_frames@.drop_first());
            Some(frame.fence)
        } else {
            None
        }
    }

    /// Ends a frame: it is in flight until `fence` signals, and the next frame
    /// has the next number.
    pub fn end_frame(&mut self, fence: u64)
        requires
            old(self).frame_counter < u64::MAX,
        ensures
            final(self).max_prepared_frames == old(self).max_prepared_frames,
            final(self).frame_counter == old(self).frame_counter + 1,
            final(self).prepared_frames@ == old(self).prepared_frames@.push(
                VkFrame { counter: old(self).frame_counter, fence },
            ),
            (final(self).frame_counter, final(self).prepared_frames@)
                == ended_frame(old(self).frame_counter, old(self).prepared_frames@, fence),
    {
        let counter = self.frame_counter;
        self.frame_counter = self.frame_counter + 1;
        self.prepared_frames.push(VkFrame { counter, fence });
    }

    pub fn get_frame_counter(&self) -> (r: u64)
        ensures
            r == self.frame_counter,
    {
        self.frame_counter
    }
}

/// Law: with at least one frame allowed, a frame that begins and ends keeps the
/// frames in flight within the limit.
pub proof fn law_frames_in_flight_bounded(before: Seq<VkFrame>, max_prepared_frames: u32, frame: VkFrame)
    requires
        max_prepared_frames >= 1,
        before.len() <= max_prepared_frames,
    ensures
        ({
            let after_begin = if before.len() >= max_prepared_frames && before.len() > 0 {
                before.drop_first()
            } else {
                before
            };
            after_begin.push(frame).len() <= max_prepared_frames
        }),
{
}

/// Law: after `n` frames end on a fresh manager, the frame counter is `n` and
/// the frames in flight are numbered 0 to `n - 1`, each with its fence.
pub proof fn law_ended_frames_are_numbered(fences: Seq<u64>)
    requires
        fences.len() <= u64::MAX,
    ensures
        ended_frames(0, Seq::empty(), fences).0 == fences.len(),
        ended_frames(0, Seq::empty(), fences).1.len() == fences.len(),
        forall|i: int| 0 <= i < fences.len() ==> #[trigger] ended_frames(0, Seq::empty(), fences).1[i]
            == (VkFrame { counter: i as u64, fence: fences[i] }),
    decreases fences.len(),
{
    if fences.len() > 0 {
        let rest = fences.drop_last();
        law_ended_frames_are_numbered(rest);
        let (c, f) = ended_frames(0, Seq::empty(), rest);
        assert forall|i: int| 0 <= i < fences.len() implies #[trigger] ended_frames(0, Seq::empty(), fences).1[i]
            == (VkFrame { counter: i as u64, fence: fences[i] }) by {
            if i < rest.len() {
                assert(f[i] == (VkFrame { counter: i as u64, fence: rest[i] }));
                assert(rest[i] == fences[i]);
            }
        }
    }
}

/// The frame contexts of one thread, used in turn frame after frame.
#[derive(Clone, Copy, PartialEq, Eq, Structural, Debug)]
pub struct VkThreadContext {
    pub frame_counter: u64,
    pub frame_count: usize,
}

impl VkThreadContext {
    pub fn new(max_prepared_frames: u32) -> (r: Self)
        ensures
            r == (VkThreadContext { frame_counter: 0, frame_count: max_prepared_frames as usize }),
    {
        VkThreadContext { frame_counter: 0, frame_count: max_prepared_frames as usize }
    }

    /// Moves the thread on to frame `frame`. Where that frame is new and its
    /// frame context has been used before, that context is returned to be
    /// reset.
    pub fn mark_used(&mut self, frame: u64) -> (r: Option<usize>)
        requires
            old(self).frame_count > 0,
            frame >= old(self).frame_counter,
        ensures
            final(self).frame_counter == frame,
            final(self).frame_count == old(self).frame_count,
            r == if frame > old(self).frame_counter && frame >= old(self).frame_count {
                Some((frame as int % old(self).frame_count as int) as usize)
            } else {
                None
            },
    {
        let reset = if frame > self.frame_counter && frame >= self.frame_count as u64 {
            Some((frame % (self.frame_count as u64)) as usize)
        } else {
            None
        };
        self.frame_counter = frame;
        reset
    }

    /// The frame context of the current frame.
    pub fn get_frame_context(&self) -> (r: usize)
        requires
            self.frame_count > 0,
        ensures
            r == self.frame_counter as int % self.frame_count as int,
            r < self.frame_count,
    {
        (self.frame_counter % (self.frame_count as u64)) as usize
    }
}

/// What a frame keeps alive until it is done, by handle.
#[derive(Clone, Debug)]
pub struct VkLifetimeTrackers {
    pub semaphores: Vec<u64>,
    pub fences: Vec<u64>,
    pub buffers: Vec<u64>,
    pub textures: Vec<u64>,
    pub texture_views: Vec<u64>,
    pub render_passes: Vec<u64>,
    pub frame_buffers: Vec<u64>,
}

impl VkLifetimeTrackers {
    pub open spec fn is_empty(&self) -> bool {
        &&& self.semaphores@.len() == 0
        &&& self.fences@.len() == 0
        &&& self.buffers@.len() == 0
        &&& self.textures@.len() == 0
        &&& self.texture_views@.len() == 0
        &&& self.render_passes@.len() == 0
        &&& self.frame_buffers@.len() == 0
    }

    pub fn new() -> (r: Self)
        ensures
            r.is_empty(),
    {
        VkLifetimeTrackers {
            semaphores: Vec::new(),
            fences: Vec::new(),
            buffers: Vec::new(),
            textures: Vec::new(),
            texture_views: Vec::new(),
            render_passes: Vec::new(),
            frame_buffers: Vec::new(),
        }
    }

    /// The frame is done: nothing needs to be kept any more.
    pub fn reset(&mut self)
        ensures
            final(self).is_empty(),
    {
        self.semaphores.clear();
        self.fences.clear();
        self.buffers.clear();
        self.textures.clear();
        self.texture_views.clear();
        self.render_passes.clear();
        self.frame_buffers.clear();
    }

    pub fn track_semaphore(&mut self, semaphore: u64)
        ensures
            final(self).semaphores@ == old(self).semaphores@.push(semaphore),
            final(self).fences@ == old(self).fences@,
            final(self).buffers@ == old(self).buffers@,
            final(self).textures@ == old(self).textures@,
            final(self).texture_views@ == old(self).texture_views@,
            final(self).render_passes@ == old(self).render_passes@,
            final(self).frame_buffers@ == old(self).frame_buffers@,
    {
        self.semaphores.push(semaphore);
    }

    pub fn track_fence(&mut self, fence: u64)
        ensures
            final(self).fences@ == old(self).fences@.push(fence),
            final(self).semaphores@ == old(self).semaphores@,
            final(self).buffers@ == old(self).buffers@,
            final(self).textures@ == old(self).textures@,
            final(self).texture_views@ == old(self).texture_views@,
            final(self).render_passes@ == old(self).render_passes@,
            final(self).frame_buffers@ == old(self).frame_buffers@,
    {
        self.fences.push(fence);
    }

    pub fn track_buffer(&mut self, buffer: u64)
        ensures
            final(self).buffers@ == old(self).buffers@.push(buffer),
            final(self).semaphores@ == old(self).semaphores@,
            final(self).fences@ == old(self).fences@,
            final(self).textures@ == old(self).textures@,
            final(self).texture_views@ == old(self).texture_views@,
            final(self).render_passes@ == old(self).render_passes@,
            final(self).frame_buffers@ == old(self).frame_buffers@,
    {
        self.buffers.push(buffer);
    }

    pub fn track_texture(&mut self, texture: u64)
        ensures
            final(self).textures@ == old(self).textures@.push(texture),
            final(self).semaphores@ == old(self).semaphores@,
            final(self).fences@ == old(self).fences@,
            final(self).buffers@ == old(self).buffers@,
            final(self).texture_views@ == old(self).texture_views@,
            final(self).render_passes@ == old(self).render_passes@,
            final(self).frame_buffers@ == old(self).frame_buffers@,
    {
        self.textures.push(texture);
    }

    pub fn track_texture_view(&mut self, texture_view: u64)
        ensures
            final(self).texture_views@ == old(self).texture_views@.push(texture_view),
            final(self).semaphores@ == old(self).semaphores@,
            final(self).fences@ == old(self).fences@,
            final(self).buffers@ == old(self).buffers@,
            final(self).textures@ == old(self).textures@,
            final(self).render_passes@ == old(self).render_passes@,
            final(self).frame_buffers@ == old(self).frame_buffers@,
    {
        self.texture_views.push(texture_view);
    }

    pub fn track_render_pass(&mut self, render_pass: u64)
        ensures
            final(self).render_passes@ == old(self).render_passes@.push(render_pass),
            final(self).semaphores@ == old(self).semaphores@,
            final(self).fences@ == old(self).fences@,
            final(self).buffers@ == old(self).buffers@,
            final(self).textures@ == old(self).textures@,
            final(self).texture_views@ == old(self).texture_views@,
            final(self).frame_buffers@ == old(self).frame_buffers@,
    {
        self.render_passes.push(render_pass);
    }

    pub fn track_frame_buffer(&mut self, frame_buffer: u64)
        ensures
            final(self).frame_buffers@ == old(self).frame_buffers@.push(frame_buffer),
            final(self).semaphores@ == old(self).semaphores@,
            final(self).fences@ == old(self).fences@,
            final(self).buffers@ == old(self).buffers@,
            final(self).textures@ == old(self).textures@,
            final(self).texture_views@ == old(self).texture_views@,
            final(self).render_passes@ == old(self).render_passes@,
    {
        self.frame_buffers.push(frame_buffer);
    }
}

} // verus!
