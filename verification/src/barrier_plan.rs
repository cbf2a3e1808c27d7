//! Planning of a pipeline barrier command from the engine's barriers.
//!
//! Texture and buffer barriers each become one Vulkan barrier, in order. Global
//! barriers are merged into at most two memory barriers: one for everything but
//! acceleration structures, and one that makes acceleration structure writes
//! visible to ray tracing and builds.
use vstd::prelude::*;
use crate::gpu::{QueueType, TextureLayout};
use crate::graph_info::Format;
use crate::queue::{QueueFamilies, queue_family_of, queue_family_index};
use crate::vk_values as vk;
use crate::vk_convert::{
    vk_barrier_stages, vk_barrier_access, vk_image_layout, vk_aspect_mask, barrier_sync_to_stage,
    barrier_access_to_access, texture_layout_to_image_layout, aspect_mask_from_format,
};

verus! {

/// A handover of a resource from the queue family of one queue to another's.
#[derive(Clone, Copy, PartialEq, Eq, Structural, Debug)]
pub struct QueueOwnershipTransfer {
    pub from: QueueType,
    pub to: QueueType,
}

/// The mip levels and array layers of a texture that a barrier covers.
#[derive(Clone, Copy, PartialEq, Eq, Structural, Debug)]
pub struct BarrierTextureRange {
    pub base_mip_level: u32,
    pub mip_level_length: u32,
    pub base_array_layer: u32,
    pub array_layer_length: u32,
}

/// A barrier of the engine. Textures and buffers are named by their handles;
/// of a texture the barrier needs its format, of a buffer its size.
#[derive(Clone, Copy, PartialEq, Eq, Structural, Debug)]
pub enum Barrier {
    TextureBarrier {
        old_sync: u32,
        new_sync: u32,
        old_layout: TextureLayout,
        new_layout: TextureLayout,
        old_access: u32,
        new_access: u32,
        texture: u64,
        format: Format,
        range: BarrierTextureRange,
        queue_ownership: Option<QueueOwnershipTransfer>,
    },
    BufferBarrier {
        old_sync: u32,
        new_sync: u32,
        old_access: u32,
        new_access: u32,
        buffer: u64,
        buffer_size: u64,
        offset: u64,
        length: u64,
        queue_ownership: Option<QueueOwnershipTransfer>,
    },
    GlobalBarrier { old_sync: u32, new_sync: u32, old_access: u32, new_access: u32 },
}

/// What the device supports, and its queue families.
#[derive(Clone, Copy, Debug)]
pub struct BarrierDevice {
    pub supported_pipeline_stages: u64,
    pub supported_access_flags: u64,
    pub queues: QueueFamilies,
}

#[derive(Clone, Copy, PartialEq, Eq, Structural, Debug)]
pub struct ImageBarrierPlan {
    pub src_stage_mask: u64,
    pub dst_stage_mask: u64,
    pub src_access_mask: u64,
    pub dst_access_mask: u64,
    pub old_layout: i32,
    pub new_layout: i32,
    pub src_queue_family_index: u32,
    pub dst_queue_family_index: u32,
    pub image: u64,
    pub aspect_mask: u32,
    pub base_mip_level: u32,
    pub level_count: u32,
    pub base_array_layer: u32,
    pub layer_count: u32,
}

#[derive(Clone, Copy, PartialEq, Eq, Structural, Debug)]
pub struct BufferBarrierPlan {
    pub src_stage_mask: u64,
    pub dst_stage_mask: u64,
    pub src_access_mask: u64,
    pub dst_access_mask: u64,
    pub src_queue_family_index: u32,
    pub dst_queue_family_index: u32,
    pub buffer: u64,
    pub offset: u64,
    pub size: u64,
}

#[derive(Clone, Copy, PartialEq, Eq, Structural, Debug)]
pub struct MemoryBarrierPlan {
    pub src_stage_mask: u64,
    pub dst_stage_mask: u64,
    pub src_access_mask: u64,
    pub dst_access_mask: u64,
}

/// The pipeline barrier command to record.
#[derive(Clone, Debug)]
pub struct BarrierPlan {
    pub image_barriers: Vec<ImageBarrierPlan>,
    pub buffer_barriers: Vec<BufferBarrierPlan>,
    /// Everything but acceleration structure work.
    pub general_barrier: MemoryBarrierPlan,
    /// Acceleration structure writes made visible to ray tracing and builds.
    pub acceleration_barrier: MemoryBarrierPlan,
    /// How many of the two memory barriers the command passes.
    pub memory_barrier_count: u32,
}

/// The barriers collected so far.
pub struct PlanState {
    pub images: Seq<ImageBarrierPlan>,
    pub buffers: Seq<BufferBarrierPlan>,
    pub general: MemoryBarrierPlan,
    pub acceleration: MemoryBarrierPlan,
}

pub open spec fn empty_memory_barrier() -> MemoryBarrierPlan {
    MemoryBarrierPlan { src_stage_mask: 0, dst_stage_mask: 0, src_access_mask: 0, dst_access_mask: 0 }
}

/// The source and destination queue families of a barrier: both ignored unless
/// the ownership moves between two queues that the device has.
pub open spec fn ownership_families(families: QueueFamilies, ownership: Option<QueueOwnershipTransfer>) -> (u32, u32) {
    match ownership {
        None => (vk::QUEUE_FAMILY_IGNORED, vk::QUEUE_FAMILY_IGNORED),
        Some(t) => {
            let src = queue_family_of(families, t.from);
            let dst = queue_family_of(families, t.to);
            if src == vk::QUEUE_FAMILY_IGNORED || dst == vk::QUEUE_FAMILY_IGNORED {
                (vk::QUEUE_FAMILY_IGNORED, vk::QUEUE_FAMILY_IGNORED)
            } else {
                (src, dst)
            }
        },
    }
}

/// The stages of `sync` that the device supports.
pub open spec fn device_stages(device: BarrierDevice, sync: u32) -> u64 {
    vk_barrier_stages(sync) & device.supported_pipeline_stages
}

/// The access flags of `access` that the device supports.
pub open spec fn device_access(device: BarrierDevice, access: u32) -> u64 {
    vk_barrier_access(access) & device.supported_access_flags
}

pub open spec fn as_build_or_copy() -> u64 {
    vk::PIPELINE_STAGE2_ACCELERATION_STRUCTURE_BUILD_KHR | vk::PIPELINE_STAGE2_ACCELERATION_STRUCTURE_COPY_KHR
}

pub open spec fn as_read_or_write() -> u64 {
    vk::ACCESS2_ACCELERATION_STRUCTURE_READ_KHR | vk::ACCESS2_ACCELERATION_STRUCTURE_WRITE_KHR
}

pub open spec fn rt_or_as_stages() -> u64 {
    vk::PIPELINE_STAGE2_RAY_TRACING_SHADER_KHR | vk::PIPELINE_STAGE2_ACCELERATION_STRUCTURE_BUILD_KHR
        | vk::PIPELINE_STAGE2_ACCELERATION_STRUCTURE_COPY_KHR
}

/// The general memory barrier with a global barrier merged in: everything
/// but acceleration structure work.
pub open spec fn merge_general(m: MemoryBarrierPlan, src: u64, dst: u64, src_access: u64, dst_access: u64) -> MemoryBarrierPlan {
    MemoryBarrierPlan {
        dst_stage_mask: m.dst_stage_mask | (dst & !as_build_or_copy()),
        src_stage_mask: m.src_stage_mask | (src & !as_build_or_copy()),
        src_access_mask: m.src_access_mask | (src_access & !vk::ACCESS2_ACCELERATION_STRUCTURE_WRITE_KHR),
        dst_access_mask: m.dst_access_mask | (dst_access & !as_read_or_write()),
    }
}

/// The acceleration structure barrier with a global barrier merged in: it
/// collects the acceleration structure accesses to wait for; once there are
/// any, its stages and source access are those of the latest global barrier.
pub open spec fn merge_acceleration(m: MemoryBarrierPlan, src: u64, dst: u64, src_access: u64, dst_access: u64) -> MemoryBarrierPlan {
    let dst_access_mask = m.dst_access_mask | (dst_access & as_read_or_write());
    if dst_access_mask != 0 {
        MemoryBarrierPlan {
            src_stage_mask: src & as_build_or_copy(),
            src_access_mask: src_access & vk::ACCESS2_ACCELERATION_STRUCTURE_WRITE_KHR,
            dst_stage_mask: dst & rt_or_as_stages(),
            dst_access_mask,
        }
    } else {
        MemoryBarrierPlan { dst_access_mask, ..m }
    }
}

pub open spec fn image_barrier_of(device: BarrierDevice, b: Barrier) -> ImageBarrierPlan
    recommends
        b is TextureBarrier,
{
    match b {
        Barrier::TextureBarrier {
            old_sync,
            new_sync,
            old_layout,
            new_layout,
            old_access,
            new_access,
            texture,
            format,
            range,
            queue_ownership,
        } => {
            let (src_family, dst_family) = ownership_families(device.queues, queue_ownership);
            ImageBarrierPlan {
                src_stage_mask: device_stages(device, old_sync),
                dst_stage_mask: device_stages(device, new_sync),
                src_access_mask: device_access(device, old_access),
                dst_access_mask: device_access(device, new_access),
                old_layout: vk_image_layout(old_layout),
                new_layout: vk_image_layout(new_layout),
                src_queue_family_index: src_family,
                dst_queue_family_index: dst_family,
                image: texture,
                aspect_mask: vk_aspect_mask(format),
                base_mip_level: range.base_mip_level,
                level_count: range.mip_level_length,
                base_array_layer: range.base_array_layer,
                layer_count: range.array_layer_length,
            }
        },
        _ => arbitrary(),
    }
}

/// The buffer barrier of an engine barrier: it covers `length` bytes from
/// `offset`, cut at the end of the buffer.
pub open spec fn buffer_barrier_of(device: BarrierDevice, b: Barrier) -> BufferBarrierPlan
    recommends
        b is BufferBarrier,
{
    match b {
        Barrier::BufferBarrier {
            old_sync,
            new_sync,
            old_access,
            new_access,
            buffer,
            buffer_size,
            offset,
            length,
            queue_ownership,
        } => {
            let (src_family, dst_family) = ownership_families(device.queues, queue_ownership);
            let rest = (buffer_size - offset) as u64;
            BufferBarrierPlan {
                src_stage_mask: device_stages(device, old_sync),
                dst_stage_mask: device_stages(device, new_sync),
                src_access_mask: device_access(device, old_access),
                dst_access_mask: device_access(device, new_access),
                src_queue_family_index: src_family,
                dst_queue_family_index: dst_family,
                buffer,
                offset,
                size: if rest < length { rest } else { length },
            }
        },
        _ => arbitrary(),
    }
}

/// The collected barriers after one more engine barrier.
pub open spec fn plan_step(device: BarrierDevice, s: PlanState, b: Barrier) -> PlanState {
    match b {
        Barrier::TextureBarrier { .. } => PlanState { images: s.images.push(image_barrier_of(device, b)), ..s },
        Barrier::BufferBarrier { .. } => PlanState { buffers: s.buffers.push(buffer_barrier_of(device, b)), ..s },
        Barrier::GlobalBarrier { old_sync, new_sync, old_access, new_access } => {
            let src = device_stages(device, old_sync);
            let dst = device_stages(device, new_sync);
            let src_access = device_access(device, old_access);
            let dst_access = device_access(device, new_access);
            PlanState {
                general: merge_general(s.general, src, dst, src_access, dst_access),
                acceleration: merge_acceleration(s.acceleration, src, dst, src_access, dst_access),
                ..s
            }
        },
    }
}

/// Law: each texture barrier adds exactly one image barrier, on its texture,
/// covering exactly its subresources: the mip levels from `base_mip_level` on,
/// `mip_level_length` of them, and the array layers from `base_array_layer`
/// on, `array_layer_length` of them. No other barrier adds an image barrier.
pub proof fn law_image_barrier_covers_its_range(device: BarrierDevice, s: PlanState, b: Barrier)
    ensures
        match b {
            Barrier::TextureBarrier { texture, range, .. } => {
                let images = plan_step(device, s, b).images;
                &&& images.len() == s.images.len() + 1
                &&& images.take(s.images.len() as int) == s.images
                &&& images.last().image == texture
                &&& images.last().base_mip_level == range.base_mip_level
                &&& images.last().level_count == range.mip_level_length
                &&& images.last().base_array_layer == range.base_array_layer
                &&& images.last().layer_count == range.array_layer_length
            },
            _ => plan_step(device, s, b).images == s.images,
        },
{
    if b is TextureBarrier {
        assert(plan_step(device, s, b).images.take(s.images.len() as int) =~= s.images);
    }
}

/// Law: each buffer barrier adds exactly one buffer barrier on its buffer,
/// starting at its offset and covering its length, cut at the end of the
/// buffer: as much of the asked range as lies in the buffer. No other barrier
/// adds a buffer barrier.
pub proof fn law_buffer_barrier_covers_its_range(device: BarrierDevice, s: PlanState, b: Barrier)
    requires
        barrier_valid(b),
    ensures
        match b {
            Barrier::BufferBarrier { buffer, buffer_size, offset, length, .. } => {
                let buffers = plan_step(device, s, b).buffers;
                let last = buffers.last();
                &&& buffers.len() == s.buffers.len() + 1
                &&& buffers.take(s.buffers.len() as int) == s.buffers
                &&& last.buffer == buffer
                &&& last.offset == offset
                &&& last.size <= length
                &&& last.offset + last.size <= buffer_size
                &&& (last.size == length || last.offset + last.size == buffer_size)
            },
            _ => plan_step(device, s, b).buffers == s.buffers,
        },
{
    if b is BufferBarrier {
        assert(plan_step(device, s, b).buffers.take(s.buffers.len() as int) =~= s.buffers);
    }
}

/// The barriers collected from the first `n` engine barriers.
pub open spec fn plan_prefix(device: BarrierDevice, bs: Seq<Barrier>, n: int) -> PlanState
    decreases n,
{
    if n <= 0 {
        PlanState {
            images: Seq::empty(),
            buffers: Seq::empty(),
            general: empty_memory_barrier(),
            acceleration: empty_memory_barrier(),
        }
    } else {
        plan_step(device, plan_prefix(device, bs, n - 1), bs[n - 1])
    }
}

/// A memory barrier waits for or blocks some stage.
pub open spec fn has_stages(m: MemoryBarrierPlan) -> bool {
    m.src_stage_mask != 0 || m.dst_stage_mask != 0
}

/// The collected barriers need a command.
pub open spec fn has_pending(s: PlanState) -> bool {
    s.images.len() > 0 || s.buffers.len() > 0 || has_stages(s.general) || has_stages(s.acceleration)
}

/// How many memory barriers the command passes: none without stages, the
/// general one alone where the acceleration structure barrier has none.
pub open spec fn memory_count(s: PlanState) -> u32 {
    if !has_stages(s.general) && !has_stages(s.acceleration) {
        0
    } else if !has_stages(s.acceleration) {
        1
    } else {
        2
    }
}

/// A buffer barrier starts within its buffer.
pub open spec fn barrier_valid(b: Barrier) -> bool {
    match b {
        Barrier::BufferBarrier { buffer_size, offset, .. } => offset <= buffer_size,
        _ => true,
    }
}

/// `plan` is the command for the collected barriers `s`.
pub open spec fn plan_matches(plan: BarrierPlan, s: PlanState) -> bool {
    &&& plan.image_barriers@ == s.images
    &&& plan.buffer_barriers@ == s.buffers
    &&& plan.general_barrier == s.general
    &&& plan.acceleration_barrier == s.acceleration
    &&& plan.memory_barrier_count == memory_count(s)
}

fn ownership_families_exec(families: &QueueFamilies, ownership: Option<QueueOwnershipTransfer>) -> (r: (u32, u32))
    ensures
        r == ownership_families(*families, ownership),
{
    match ownership {
        None => (vk::QUEUE_FAMILY_IGNORED, vk::QUEUE_FAMILY_IGNORED),
        Some(t) => {
            let src = queue_family_index(families, t.from);
            let dst = queue_family_index(families, t.to);
            if src == vk::QUEUE_FAMILY_IGNORED || dst == vk::QUEUE_FAMILY_IGNORED {
                (vk::QUEUE_FAMILY_IGNORED, vk::QUEUE_FAMILY_IGNORED)
            } else {
                (src, dst)
            }
        },
    }
}

fn plan_step_exec(device: &BarrierDevice, s: &mut (Vec<ImageBarrierPlan>, Vec<BufferBarrierPlan>, MemoryBarrierPlan, MemoryBarrierPlan), b: Barrier)
    requires
        barrier_valid(b),
    ensures
        ({
            let before = PlanState { images: old(s).0@, buffers: old(s).1@, general: old(s).2, acceleration: old(s).3 };
            let after = plan_step(*device, before, b);
            &&& final(s).0@ == after.images
            &&& final(s).1@ == after.buffers
            &&& final(s).2 == after.general
            &&& final(s).3 == after.acceleration
        }),
{
    match b {
        Barrier::TextureBarrier {
            old_sync,
            new_sync,
            old_layout,
            new_layout,
            old_access,
            new_access,
            texture,
            format,
            range,
            queue_ownership,
        } => {
            let (src_family, dst_family) = ownership_families_exec(&device.queues, queue_ownership);
            let p = ImageBarrierPlan {
                src_stage_mask: barrier_sync_to_stage(old_sync) & device.supported_pipeline_stages,
                dst_stage_mask: barrier_sync_to_stage(new_sync) & device.supported_pipeline_stages,
                src_access_mask: barrier_access_to_access(old_access) & device.supported_access_flags,
                dst_access_mask: barrier_access_to_access(new_access) & device.supported_access_flags,
                old_layout: texture_layout_to_image_layout(old_layout),
                new_layout: texture_layout_to_image_layout(new_layout),
                src_queue_family_index: src_family,
                dst_queue_family_index: dst_family,
                image: texture,
                aspect_mask: aspect_mask_from_format(format),
                base_mip_level: range.base_mip_level,
                level_count: range.mip_level_length,
                base_array_layer: range.base_array_layer,
                layer_count: range.array_layer_length,
            };
            s.0.push(p);
        },
        Barrier::BufferBarrier {
            old_sync,
            new_sync,
            old_access,
            new_access,
            buffer,
            buffer_size,
            offset,
            length,
            queue_ownership,
        } => {
            let (src_family, dst_family) = ownership_families_exec(&device.queues, queue_ownership);
            let rest = buffer_size - offset;
            let p = BufferBarrierPlan {
                src_stage_mask: barrier_sync_to_stage(old_sync) & device.supported_pipeline_stages,
                dst_stage_mask: barrier_sync_to_stage(new_sync) & device.supported_pipeline_stages,
                src_access_mask: barrier_access_to_access(old_access) & device.supported_access_flags,
                dst_access_mask: barrier_access_to_access(new_access) & device.supported_access_flags,
                src_queue_family_index: src_family,
                dst_queue_family_index: dst_family,
                buffer,
                offset,
                size: if rest < length { rest } else { length },
            };
            s.1.push(p);
        },
        Barrier::GlobalBarrier { old_sync, new_sync, old_access, new_access } => {
            let src = barrier_sync_to_stage(old_sync) & device.supported_pipeline_stages;
            let dst = barrier_sync_to_stage(new_sync) & device.supported_pipeline_stages;
            let src_access = barrier_access_to_access(old_access) & device.supported_access_flags;
            let dst_access = barrier_access_to_access(new_access) & device.supported_access_flags;
            let as_stages = vk::PIPELINE_STAGE2_ACCELERATION_STRUCTURE_BUILD_KHR
                | vk::PIPELINE_STAGE2_ACCELERATION_STRUCTURE_COPY_KHR;
            let as_access = vk::ACCESS2_ACCELERATION_STRUCTURE_READ_KHR
                | vk::ACCESS2_ACCELERATION_STRUCTURE_WRITE_KHR;
            s.2.dst_stage_mask = s.2.dst_stage_mask | (dst & !as_stages);
            s.2.src_stage_mask = s.2.src_stage_mask | (src & !as_stages);
            s.2.src_access_mask = s.2.src_access_mask
                | (src_access & !vk::ACCESS2_ACCELERATION_STRUCTURE_WRITE_KHR);
            s.2.dst_access_mask = s.2.dst_access_mask | (dst_access & !as_access);
            s.3.dst_access_mask = s.3.dst_access_mask | (dst_access & as_access);
            if s.3.dst_access_mask != 0 {
                s.3.src_stage_mask = src & as_stages;
                s.3.src_access_mask = src_access & vk::ACCESS2_ACCELERATION_STRUCTURE_WRITE_KHR;
                s.3.dst_stage_mask = dst & (vk::PIPELINE_STAGE2_RAY_TRACING_SHADER_KHR
                    | vk::PIPELINE_STAGE2_ACCELERATION_STRUCTURE_BUILD_KHR
                    | vk::PIPELINE_STAGE2_ACCELERATION_STRUCTURE_COPY_KHR);
            }
        },
    }
}

/// Plans the pipeline barrier command for `barriers`: one image barrier per
/// texture barrier and one buffer barrier per buffer barrier, in order, and the
/// global barriers merged into two memory barriers. `None` where the command
/// would do nothing.
pub fn plan_barriers(device: &BarrierDevice, barriers: &Vec<Barrier>) -> (r: Option<BarrierPlan>)
    requires
        forall|i: int| 0 <= i < barriers.len() ==> barrier_valid(#[trigger] barriers@[i]),
    ensures
        ({
            let s = plan_prefix(*device, barriers@, barriers.len() as int);
            match r {
                None => !has_pending(s),
                Some(plan) => has_pending(s) && plan_matches(plan, s),
            }
        }),
{
    let mut s = (
        Vec::new(),
        Vec::new(),
        MemoryBarrierPlan { src_stage_mask: 0, dst_stage_mask: 0, src_access_mask: 0, dst_access_mask: 0 },
        MemoryBarrierPlan { src_stage_mask: 0, dst_stage_mask: 0, src_access_mask: 0, dst_access_mask: 0 },
    );
    let mut i: usize = 0;
    while i < barriers.len()
        invariant
            i <= barriers.len(),
            forall|j: int| 0 <= j < barriers.len() ==> barrier_valid(#[trigger] barriers@[j]),
            ({
                let p = plan_prefix(*device, barriers@, i as int);
                &&& s.0@ == p.images
                &&& s.1@ == p.buffers
                &&& s.2 == p.general
                &&& s.3 == p.acceleration
            }),
        decreases barriers.len() - i,
    {
        plan_step_exec(device, &mut s, barriers[i]);
        i = i + 1;
    }
    let (images, buffers, general, acceleration) = s;
    let general_stages = general.src_stage_mask != 0 || general.dst_stage_mask != 0;
    let acceleration_stages = acceleration.src_stage_mask != 0 || acceleration.dst_stage_mask != 0;
    if images.len() == 0 && buffers.len() == 0 && !general_stages && !acceleration_stages {
        return None;
    }
    let memory_barrier_count: u32 = if !general_stages && !acceleration_stages {
        0
    } else if !acceleration_stages {
        1
    } else {
        2
    };
    Some(BarrierPlan {
        image_barriers: images,
        buffer_barriers: buffers,
        general_barrier: general,
        acceleration_barrier: acceleration,
        memory_barrier_count,
    })
}


/// `mask` holds no bit outside `supported`.
pub open spec fn within(mask: u64, supported: u64) -> bool {
    mask & !supported == 0
}

pub open spec fn memory_barrier_supported(device: BarrierDevice, m: MemoryBarrierPlan) -> bool {
    &&& within(m.src_stage_mask, device.supported_pipeline_stages)
    &&& within(m.dst_stage_mask, device.supported_pipeline_stages)
    &&& within(m.src_access_mask, device.supported_access_flags)
    &&& within(m.dst_access_mask, device.supported_access_flags)
}

/// Every barrier collected in `s` waits for and blocks only stages and accesses
/// that the device supports.
pub open spec fn plan_supported(device: BarrierDevice, s: PlanState) -> bool {
    &&& forall|i: int| 0 <= i < s.images.len() ==> {
        let b = #[trigger] s.images[i];
        &&& within(b.src_stage_mask, device.supported_pipeline_stages)
        &&& within(b.dst_stage_mask, device.supported_pipeline_stages)
        &&& within(b.src_access_mask, device.supported_access_flags)
        &&& within(b.dst_access_mask, device.supported_access_flags)
    }
    &&& forall|i: int| 0 <= i < s.buffers.len() ==> {
        let b = #[trigger] s.buffers[i];
        &&& within(b.src_stage_mask, device.supported_pipeline_stages)
        &&& within(b.dst_stage_mask, device.supported_pipeline_stages)
        &&& within(b.src_access_mask, device.supported_access_flags)
        &&& within(b.dst_access_mask, device.supported_access_flags)
    }
    &&& memory_barrier_supported(device, s.general)
    &&& memory_barrier_supported(device, s.acceleration)
}

proof fn lemma_masks_within(a: u64, b: u64, m: u64, s: u64)
    ensures
        within(a & s, s),
        within((a & s) & m, s),
        within(a, s) && within(b, s) ==> within(a | b, s),
        within(0, s),
{
    assert((a & s) & !s == 0) by (bit_vector);
    assert(((a & s) & m) & !s == 0) by (bit_vector);
    assert((a & !s == 0 && b & !s == 0) ==> (a | b) & !s == 0) by (bit_vector);
    assert(0u64 & !s == 0) by (bit_vector);
}

proof fn lemma_step_supported(device: BarrierDevice, st: PlanState, b: Barrier)
    requires
        plan_supported(device, st),
    ensures
        plan_supported(device, plan_step(device, st, b)),
{
    let ps = device.supported_pipeline_stages;
    let pa = device.supported_access_flags;
    match b {
        Barrier::TextureBarrier { old_sync, new_sync, old_access, new_access, .. } => {
            lemma_masks_within(vk_barrier_stages(old_sync), 0, 0, ps);
            lemma_masks_within(vk_barrier_stages(new_sync), 0, 0, ps);
            lemma_masks_within(vk_barrier_access(old_access), 0, 0, pa);
            lemma_masks_within(vk_barrier_access(new_access), 0, 0, pa);
            let next = plan_step(device, st, b);
            assert forall|i: int| 0 <= i < next.images.len() implies {
                let x = #[trigger] next.images[i];
                &&& within(x.src_stage_mask, ps)
                &&& within(x.dst_stage_mask, ps)
                &&& within(x.src_access_mask, pa)
                &&& within(x.dst_access_mask, pa)
            } by {
                if i < st.images.len() {
                    assert(next.images[i] == st.images[i]);
                }
            }
        },
        Barrier::BufferBarrier { old_sync, new_sync, old_access, new_access, .. } => {
            lemma_masks_within(vk_barrier_stages(old_sync), 0, 0, ps);
            lemma_masks_within(vk_barrier_stages(new_sync), 0, 0, ps);
            lemma_masks_within(vk_barrier_access(old_access), 0, 0, pa);
            lemma_masks_within(vk_barrier_access(new_access), 0, 0, pa);
            let next = plan_step(device, st, b);
            assert forall|i: int| 0 <= i < next.buffers.len() implies {
                let x = #[trigger] next.buffers[i];
                &&& within(x.src_stage_mask, ps)
                &&& within(x.dst_stage_mask, ps)
                &&& within(x.src_access_mask, pa)
                &&& within(x.dst_access_mask, pa)
            } by {
                if i < st.buffers.len() {
                    assert(next.buffers[i] == st.buffers[i]);
                }
            }
        },
        Barrier::GlobalBarrier { old_sync, new_sync, old_access, new_access } => {
            let src = vk_barrier_stages(old_sync);
            let dst = vk_barrier_stages(new_sync);
            let sa = vk_barrier_access(old_access);
            let da = vk_barrier_access(new_access);
            let g = st.general;
            let a = st.acceleration;
            lemma_masks_within(src, 0, !as_build_or_copy(), ps);
            lemma_masks_within(dst, 0, !as_build_or_copy(), ps);
            lemma_masks_within(sa, 0, !vk::ACCESS2_ACCELERATION_STRUCTURE_WRITE_KHR, pa);
            lemma_masks_within(da, 0, !as_read_or_write(), pa);
            lemma_masks_within(src, 0, as_build_or_copy(), ps);
            lemma_masks_within(dst, 0, rt_or_as_stages(), ps);
            lemma_masks_within(sa, 0, vk::ACCESS2_ACCELERATION_STRUCTURE_WRITE_KHR, pa);
            lemma_masks_within(da, 0, as_read_or_write(), pa);
            lemma_masks_within(g.dst_stage_mask, (dst & ps) & !as_build_or_copy(), 0, ps);
            lemma_masks_within(g.src_stage_mask, (src & ps) & !as_build_or_copy(), 0, ps);
            lemma_masks_within(
                g.src_access_mask,
                (sa & pa) & !vk::ACCESS2_ACCELERATION_STRUCTURE_WRITE_KHR,
                0,
                pa,
            );
            lemma_masks_within(g.dst_access_mask, (da & pa) & !as_read_or_write(), 0, pa);
            lemma_masks_within(a.dst_access_mask, (da & pa) & as_read_or_write(), 0, pa);
        },
    }
}

/// Law: every barrier that a planned command records waits for and blocks only
/// pipeline stages and accesses that the device supports.
pub proof fn law_plan_uses_supported_stages(device: BarrierDevice, barriers: Seq<Barrier>, n: int)
    requires
        0 <= n <= barriers.len(),
    ensures
        plan_supported(device, plan_prefix(device, barriers, n)),
    decreases n,
{
    if n <= 0 {
        lemma_masks_within(0, 0, 0, device.supported_pipeline_stages);
        lemma_masks_within(0, 0, 0, device.supported_access_flags);
    } else {
        law_plan_uses_supported_stages(device, barriers, n - 1);
        lemma_step_supported(device, plan_prefix(device, barriers, n - 1), barriers[n - 1]);
    }
}

/// Law: a barrier either hands its resource over between two queue families or
/// keeps it with its family; it never names only one side.
pub proof fn law_ownership_both_or_neither(families: QueueFamilies, ownership: Option<QueueOwnershipTransfer>)
    ensures
        ({
            let (src, dst) = ownership_families(families, ownership);
            (src == vk::QUEUE_FAMILY_IGNORED) == (dst == vk::QUEUE_FAMILY_IGNORED)
        }),
{
}

} // verus!
