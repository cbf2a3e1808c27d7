//! The descriptor set layouts and push constant ranges of a pipeline, merged
//! from what its shaders declare.
use vstd::prelude::*;
use crate::gpu::ShaderType;
use crate::descriptor::{
    VkDescriptorSetEntryInfo, VkConstantRange, VkDescriptorSetLayout, BINDINGS_PER_SET, DescriptorPoolSetup,
    DescriptorWrite, DescriptorPayload,
};
use crate::vk_convert::{vk_shader_stage, shader_type_to_vk};
use crate::vk_values as vk;

verus! {

/// The number of descriptor sets a pipeline layout has.
pub const TOTAL_SET_COUNT: usize = 5usize;

/// The set that holds the bindless textures.
pub const BINDLESS_TEXTURE_SET_INDEX: usize = 3usize;

/// The number of textures in the bindless texture set.
pub const BINDLESS_TEXTURE_COUNT: u32 = 500_000u32;

/// The number of push constant ranges a pipeline layout has.
pub const PUSH_CONSTANT_RANGE_COUNT: usize = 3usize;

/// The push constants a shader declares.
#[derive(Clone, Copy, PartialEq, Eq, Structural, Debug)]
pub struct PushConstantRange {
    pub offset: u32,
    pub size: u32,
}

/// What a shader declares of its resources.
#[derive(Clone, Debug)]
pub struct ShaderLayoutInfo {
    pub shader_type: ShaderType,
    /// The bindings of each descriptor set the shader uses.
    pub descriptor_set_bindings: Vec<Vec<VkDescriptorSetEntryInfo>>,
    pub push_constants_range: Option<PushConstantRange>,
    pub uses_bindless_texture_set: bool,
}

/// How many buffers with dynamic offsets a descriptor set may have.
#[derive(Clone, Copy, PartialEq, Eq, Structural, Debug)]
pub struct DescriptorLimits {
    pub max_descriptor_set_storage_buffers_dynamic: u32,
    pub max_descriptor_set_uniform_buffers_dynamic: u32,
}

/// The layout of a pipeline as its shaders are added to it.
#[derive(Clone, Debug)]
pub struct DescriptorSetLayoutSetupContext {
    pub descriptor_set_layouts: Vec<Vec<VkDescriptorSetEntryInfo>>,
    pub descriptor_set_layout_flags: Vec<u32>,
    pub dynamic_storage_buffers: Vec<u32>,
    pub dynamic_uniform_buffers: Vec<u32>,
    pub push_constants_ranges: Vec<Option<VkConstantRange>>,
    pub uses_bindless_texture_set: bool,
    pub shader_stages: u32,
}

/// A descriptor set being merged: its bindings, and how many storage and
/// uniform buffers with dynamic offsets it has.
pub struct SetState {
    pub bindings: Seq<VkDescriptorSetEntryInfo>,
    pub dynamic_storage: u32,
    pub dynamic_uniform: u32,
}

/// The position of the first binding of `set` at binding index `index`, from
/// position `j` on.
pub open spec fn find_binding_from(set: Seq<VkDescriptorSetEntryInfo>, index: u32, j: int) -> Option<int>
    decreases set.len() - j,
{
    if j < 0 || j >= set.len() {
        None
    } else if set[j].index == index {
        Some(j)
    } else {
        find_binding_from(set, index, j + 1)
    }
}

/// Two shaders may declare the same binding: of the same type (a buffer that
/// was made dynamic matches its plain type), read only, with the same count.
pub open spec fn bindings_agree(existing: VkDescriptorSetEntryInfo, b: VkDescriptorSetEntryInfo) -> bool {
    &&& if existing.descriptor_type == vk::DESCRIPTOR_TYPE_STORAGE_BUFFER_DYNAMIC {
        b.descriptor_type == vk::DESCRIPTOR_TYPE_STORAGE_BUFFER
    } else if existing.descriptor_type == vk::DESCRIPTOR_TYPE_UNIFORM_BUFFER_DYNAMIC {
        b.descriptor_type == vk::DESCRIPTOR_TYPE_UNIFORM_BUFFER
    } else {
        existing.descriptor_type == b.descriptor_type
    }
    &&& !existing.writable
    &&& !b.writable
    &&& existing.count == b.count
}

/// A set with one more binding of a shader. A binding the set has already
/// gains the shader's stages and flags. A new storage or uniform buffer is
/// given a dynamic offset while the set stays below the device's limit for
/// those. `None` where two shaders disagree on a binding.
pub open spec fn add_binding(st: SetState, b: VkDescriptorSetEntryInfo, limits: DescriptorLimits) -> Option<SetState> {
    match find_binding_from(st.bindings, b.index, 0) {
        Some(j) => {
            let e = st.bindings[j];
            if bindings_agree(e, b) {
                Some(
                    SetState {
                        bindings: st.bindings.update(
                            j,
                            VkDescriptorSetEntryInfo {
                                shader_stage: e.shader_stage | b.shader_stage,
                                flags: e.flags | b.flags,
                                ..e
                            },
                        ),
                        ..st
                    },
                )
            } else {
                None
            }
        },
        None => {
            let storage = b.descriptor_type == vk::DESCRIPTOR_TYPE_STORAGE_BUFFER && st.dynamic_storage + b.count
                < limits.max_descriptor_set_storage_buffers_dynamic;
            let b1 = if storage {
                VkDescriptorSetEntryInfo { descriptor_type: vk::DESCRIPTOR_TYPE_STORAGE_BUFFER_DYNAMIC, ..b }
            } else {
                b
            };
            let ds = if storage { (st.dynamic_storage + b.count) as u32 } else { st.dynamic_storage };
            let uniform = b1.descriptor_type == vk::DESCRIPTOR_TYPE_UNIFORM_BUFFER && st.dynamic_uniform + b1.count
                < limits.max_descriptor_set_uniform_buffers_dynamic;
            let b2 = if uniform {
                VkDescriptorSetEntryInfo { descriptor_type: vk::DESCRIPTOR_TYPE_UNIFORM_BUFFER_DYNAMIC, ..b1 }
            } else {
                b1
            };
            let du = if uniform { (st.dynamic_uniform + b1.count) as u32 } else { st.dynamic_uniform };
            Some(SetState { bindings: st.bindings.push(b2), dynamic_storage: ds, dynamic_uniform: du })
        },
    }
}

/// A set with the first `n` bindings of a shader added, one after the other.
pub open spec fn add_bindings_upto(st: SetState, bs: Seq<VkDescriptorSetEntryInfo>, n: int, limits: DescriptorLimits) -> Option<SetState>
    decreases n,
{
    if n <= 0 {
        Some(st)
    } else {
        match add_bindings_upto(st, bs, n - 1, limits) {
            Some(s) => add_binding(s, bs[n - 1], limits),
            None => None,
        }
    }
}

/// The push constant range slot of a shader stage: vertex and fragment shaders
/// of a graphics pipeline, the shaders of a ray tracing pipeline, and a
/// compute shader on its own.
pub open spec fn push_constant_slot(shader_type: ShaderType) -> Option<int> {
    match shader_type {
        ShaderType::VertexShader => Some(0),
        ShaderType::FragmentShader => Some(1),
        ShaderType::ComputeShader => Some(0),
        ShaderType::RayGen => Some(0),
        ShaderType::RayClosestHit => Some(1),
        ShaderType::RayMiss => Some(2),
        _ => None,
    }
}

pub fn push_constant_range_index(shader_type: ShaderType) -> (r: Option<usize>)
    ensures
        match r {
            Some(i) => push_constant_slot(shader_type) == Some(i as int) && i < PUSH_CONSTANT_RANGE_COUNT,
            None => push_constant_slot(shader_type) is None,
        },
{
    match shader_type {
        ShaderType::VertexShader => Some(0),
        ShaderType::FragmentShader => Some(1),
        ShaderType::ComputeShader => Some(0),
        ShaderType::RayGen => Some(0),
        ShaderType::RayClosestHit => Some(1),
        ShaderType::RayMiss => Some(2),
        _ => None,
    }
}

impl DescriptorSetLayoutSetupContext {
    pub open spec fn wf(&self) -> bool {
        &&& self.descriptor_set_layouts.len() == TOTAL_SET_COUNT
        &&& self.descriptor_set_layout_flags.len() == TOTAL_SET_COUNT
        &&& self.dynamic_storage_buffers.len() == TOTAL_SET_COUNT
        &&& self.dynamic_uniform_buffers.len() == TOTAL_SET_COUNT
        &&& self.push_constants_ranges.len() == PUSH_CONSTANT_RANGE_COUNT
    }

    /// The state of set `i` as bindings are merged into it.
    pub open spec fn set_state(&self, i: int) -> SetState {
        SetState {
            bindings: self.descriptor_set_layouts@[i]@,
            dynamic_storage: self.dynamic_storage_buffers@[i],
            dynamic_uniform: self.dynamic_uniform_buffers@[i],
        }
    }

    /// An empty layout.
    pub fn new() -> (r: Self)
        ensures
            r.wf(),
            forall|i: int| 0 <= i < TOTAL_SET_COUNT ==> {
                &&& (#[trigger] r.descriptor_set_layouts@[i])@.len() == 0
                &&& r.descriptor_set_layout_flags@[i] == 0
                &&& r.dynamic_storage_buffers@[i] == 0
                &&& r.dynamic_uniform_buffers@[i] == 0
            },
            forall|i: int| 0 <= i < PUSH_CONSTANT_RANGE_COUNT ==> (#[trigger] r.push_constants_ranges@[i]) is None,
            !r.uses_bindless_texture_set,
            r.shader_stages == 0,
    {
        let mut descriptor_set_layouts: Vec<Vec<VkDescriptorSetEntryInfo>> = Vec::new();
        let mut descriptor_set_layout_flags: Vec<u32> = Vec::new();
        let mut dynamic_storage_buffers: Vec<u32> = Vec::new();
        let mut dynamic_uniform_buffers: Vec<u32> = Vec::new();
        let mut i: usize = 0;
        while i < TOTAL_SET_COUNT
            invariant
                i <= TOTAL_SET_COUNT,
                descriptor_set_layouts.len() == i,
                descriptor_set_layout_flags.len() == i,
                dynamic_storage_buffers.len() == i,
                dynamic_uniform_buffers.len() == i,
                forall|j: int| 0 <= j < i ==> {
                    &&& (#[trigger] descriptor_set_layouts@[j])@.len() == 0
                    &&& descriptor_set_layout_flags@[j] == 0
                    &&& dynamic_storage_buffers@[j] == 0
                    &&& dynamic_uniform_buffers@[j] == 0
                },
            decreases TOTAL_SET_COUNT - i,
        {
            descriptor_set_layouts.push(Vec::new());
            descriptor_set_layout_flags.push(0);
            dynamic_storage_buffers.push(0);
            dynamic_uniform_buffers.push(0);
            i = i + 1;
        }
        let mut push_constants_ranges: Vec<Option<VkConstantRange>> = Vec::new();
        push_constants_ranges.push(None);
        push_constants_ranges.push(None);
        push_constants_ranges.push(None);
        DescriptorSetLayoutSetupContext {
            descriptor_set_layouts,
            descriptor_set_layout_flags,
            dynamic_storage_buffers,
            dynamic_uniform_buffers,
            push_constants_ranges,
            uses_bindless_texture_set: false,
            shader_stages: 0,
        }
    }
}

fn add_binding_exec(set: &mut Vec<VkDescriptorSetEntryInfo>, ds: &mut u32, du: &mut u32, b: VkDescriptorSetEntryInfo, limits: DescriptorLimits)
    requires
        add_binding(SetState { bindings: old(set)@, dynamic_storage: *old(ds), dynamic_uniform: *old(du) }, b, limits) is Some,
    ensures
        add_binding(SetState { bindings: old(set)@, dynamic_storage: *old(ds), dynamic_uniform: *old(du) }, b, limits)
            == Some(SetState { bindings: final(set)@, dynamic_storage: *final(ds), dynamic_uniform: *final(du) }),
{
    let ghost st = SetState { bindings: set@, dynamic_storage: *ds, dynamic_uniform: *du };
    let mut j: usize = 0;
    while j < set.len()
        invariant
            j <= set.len(),
            set@ == st.bindings,
            st.bindings == old(set)@,
            st.dynamic_storage == *old(ds),
            st.dynamic_uniform == *old(du),
            *ds == *old(ds),
            *du == *old(du),
            add_binding(st, b, limits) is Some,
            find_binding_from(st.bindings, b.index, 0) == find_binding_from(st.bindings, b.index, j as int),
        decreases set.len() - j,
    {
        if set[j].index == b.index {
            assert(find_binding_from(st.bindings, b.index, j as int) == Some(j as int));
            let e = set[j];
            let merged = VkDescriptorSetEntryInfo {
                shader_stage: e.shader_stage | b.shader_stage,
                flags: e.flags | b.flags,
                ..e
            };
            set.set(j, merged);
            return;
        }
        j = j + 1;
    }
    let mut b1 = b;
    if b1.descriptor_type == vk::DESCRIPTOR_TYPE_STORAGE_BUFFER
        && (*ds as u64) + (b1.count as u64) < (limits.max_descriptor_set_storage_buffers_dynamic as u64) {
        *ds = *ds + b1.count;
        b1.descriptor_type = vk::DESCRIPTOR_TYPE_STORAGE_BUFFER_DYNAMIC;
    }
    if b1.descriptor_type == vk::DESCRIPTOR_TYPE_UNIFORM_BUFFER
        && (*du as u64) + (b1.count as u64) < (limits.max_descriptor_set_uniform_buffers_dynamic as u64) {
        *du = *du + b1.count;
        b1.descriptor_type = vk::DESCRIPTOR_TYPE_UNIFORM_BUFFER_DYNAMIC;
    }
    set.push(b1);
}

/// The shader's bindings agree with what the layout holds.
pub open spec fn shader_fits(ctx: DescriptorSetLayoutSetupContext, shader: ShaderLayoutInfo, limits: DescriptorLimits) -> bool {
    &&& shader.descriptor_set_bindings.len() <= TOTAL_SET_COUNT
    &&& forall|i: int| 0 <= i < shader.descriptor_set_bindings.len() ==> add_bindings_upto(
        ctx.set_state(i),
        (#[trigger] shader.descriptor_set_bindings@[i])@,
        shader.descriptor_set_bindings@[i].len() as int,
        limits,
    ) is Some
}

/// Adds the resources of a shader to the layout: its bindings are merged into
/// the sets, its push constants take the range slot of its stage, and its
/// stage is added to the stages of the pipeline.
pub fn add_shader_to_descriptor_set_layout_setup(shader: &ShaderLayoutInfo, limits: DescriptorLimits, context: &mut DescriptorSetLayoutSetupContext)
    requires
        old(context).wf(),
        shader_fits(*old(context), *shader, limits),
    ensures
        final(context).wf(),
        forall|i: int| 0 <= i < TOTAL_SET_COUNT ==> {
            let st = #[trigger] final(context).set_state(i);
            if i < shader.descriptor_set_bindings.len() {
                Some(st) == add_bindings_upto(
                    old(context).set_state(i),
                    shader.descriptor_set_bindings@[i]@,
                    shader.descriptor_set_bindings@[i].len() as int,
                    limits,
                )
            } else {
                st == old(context).set_state(i)
            }
        },
        final(context).descriptor_set_layout_flags@ == old(context).descriptor_set_layout_flags@,
        final(context).push_constants_ranges@ == match (shader.push_constants_range, push_constant_slot(shader.shader_type)) {
            (Some(r), Some(slot)) => old(context).push_constants_ranges@.update(
                slot,
                Some(VkConstantRange { offset: r.offset, size: r.size, shader_stage: vk_shader_stage(shader.shader_type) }),
            ),
            _ => old(context).push_constants_ranges@,
        },
        final(context).uses_bindless_texture_set == (old(context).uses_bindless_texture_set
            || shader.uses_bindless_texture_set),
        final(context).shader_stages == old(context).shader_stages | vk_shader_stage(shader.shader_type),
{
    let ghost ctx0 = *context;
    let mut index: usize = 0;
    while index < shader.descriptor_set_bindings.len()
        invariant
            index <= shader.descriptor_set_bindings.len(),
            context.wf(),
            shader_fits(ctx0, *shader, limits),
            context.descriptor_set_layout_flags@ == ctx0.descriptor_set_layout_flags@,
            context.push_constants_ranges@ == ctx0.push_constants_ranges@,
            context.uses_bindless_texture_set == ctx0.uses_bindless_texture_set,
            context.shader_stages == ctx0.shader_stages,
            forall|i: int| 0 <= i < TOTAL_SET_COUNT ==> {
                let st = #[trigger] context.set_state(i);
                if i < index {
                    Some(st) == add_bindings_upto(
                        ctx0.set_state(i),
                        shader.descriptor_set_bindings@[i]@,
                        shader.descriptor_set_bindings@[i].len() as int,
                        limits,
                    )
                } else {
                    st == ctx0.set_state(i)
                }
            },
        decreases shader.descriptor_set_bindings.len() - index,
    {
        let shader_set = &shader.descriptor_set_bindings[index];
        let mut set = context.descriptor_set_layouts[index].clone();
        assert(set@ =~= context.descriptor_set_layouts@[index as int]@);
        let mut ds = context.dynamic_storage_buffers[index];
        let mut du = context.dynamic_uniform_buffers[index];
        let ghost st0 = context.set_state(index as int);
        assert(add_bindings_upto(st0, shader_set@, shader_set.len() as int, limits) is Some);
        let mut k: usize = 0;
        while k < shader_set.len()
            invariant
                k <= shader_set.len(),
                add_bindings_upto(st0, shader_set@, shader_set.len() as int, limits) is Some,
                add_bindings_upto(st0, shader_set@, k as int, limits) == Some(
                    SetState { bindings: set@, dynamic_storage: ds, dynamic_uniform: du },
                ),
            decreases shader_set.len() - k,
        {
            proof {
                lemma_add_bindings_prefix(st0, shader_set@, k as int + 1, shader_set.len() as int, limits);
            }
            add_binding_exec(&mut set, &mut ds, &mut du, shader_set[k], limits);
            k = k + 1;
        }
        let ghost before = *context;
        let ghost new_state = SetState { bindings: set@, dynamic_storage: ds, dynamic_uniform: du };
        context.descriptor_set_layouts.set(index, set);
        context.dynamic_storage_buffers.set(index, ds);
        context.dynamic_uniform_buffers.set(index, du);
        assert(context.set_state(index as int) == new_state);
        assert(shader_set@ == shader.descriptor_set_bindings@[index as int]@);
        assert forall|i: int| 0 <= i < TOTAL_SET_COUNT && i != index implies #[trigger] context.set_state(i)
            == before.set_state(i) by {
            assert(context.descriptor_set_layouts@[i] == before.descriptor_set_layouts@[i]);
        }
        index = index + 1;
    }
    let ghost after_sets = *context;
    let shader_stage_flags = shader_type_to_vk(shader.shader_type);
    match shader.push_constants_range {
        Some(push_constants_range) => {
            match push_constant_range_index(shader.shader_type) {
                Some(i) => {
                    context.push_constants_ranges.set(
                        i,
                        Some(
                            VkConstantRange {
                                offset: push_constants_range.offset,
                                size: push_constants_range.size,
                                shader_stage: shader_stage_flags,
                            },
                        ),
                    );
                },
                None => {},
            }
        },
        None => {},
    }
    context.uses_bindless_texture_set = context.uses_bindless_texture_set || shader.uses_bindless_texture_set;
    context.shader_stages = context.shader_stages | shader_stage_flags;
    assert forall|i: int| 0 <= i < TOTAL_SET_COUNT implies #[trigger] context.set_state(i)
        == after_sets.set_state(i) by {}
}

proof fn lemma_add_bindings_prefix(st: SetState, bs: Seq<VkDescriptorSetEntryInfo>, k: int, n: int, limits: DescriptorLimits)
    requires
        0 <= k <= n,
        add_bindings_upto(st, bs, n, limits) is Some,
    ensures
        add_bindings_upto(st, bs, k, limits) is Some,
    decreases n - k,
{
    if k < n {
        lemma_add_bindings_prefix(st, bs, k, n - 1, limits);
    }
}

/// The bindless texture set: every sampled texture of the heap, visible to the
/// vertex, fragment and compute stages, bound and updated while in use.
pub open spec fn bindless_set_binding() -> VkDescriptorSetEntryInfo {
    VkDescriptorSetEntryInfo {
        shader_stage: vk::SHADER_STAGE_VERTEX | vk::SHADER_STAGE_FRAGMENT | vk::SHADER_STAGE_COMPUTE,
        index: 0,
        count: BINDLESS_TEXTURE_COUNT,
        descriptor_type: vk::DESCRIPTOR_TYPE_SAMPLED_IMAGE,
        writable: false,
        flags: vk::DESCRIPTOR_BINDING_UPDATE_AFTER_BIND | vk::DESCRIPTOR_BINDING_UPDATE_UNUSED_WHILE_PENDING
            | vk::DESCRIPTOR_BINDING_PARTIALLY_BOUND,
    }
}

/// The pool of the bindless texture set: one set with all its textures, whose
/// descriptors may be written while in use.
pub fn bindless_pool_setup() -> (r: DescriptorPoolSetup)
    ensures
        r.max_sets == 1,
        r.flags == vk::DESCRIPTOR_POOL_CREATE_UPDATE_AFTER_BIND,
        r.pool_sizes@ == seq![(vk::DESCRIPTOR_TYPE_SAMPLED_IMAGE, BINDLESS_TEXTURE_COUNT)],
{
    let mut sizes: Vec<(i32, u32)> = Vec::new();
    sizes.push((vk::DESCRIPTOR_TYPE_SAMPLED_IMAGE, BINDLESS_TEXTURE_COUNT));
    assert(sizes@ =~= seq![(vk::DESCRIPTOR_TYPE_SAMPLED_IMAGE, BINDLESS_TEXTURE_COUNT)]);
    DescriptorPoolSetup { max_sets: 1, flags: vk::DESCRIPTOR_POOL_CREATE_UPDATE_AFTER_BIND, pool_sizes: sizes }
}

/// The write that puts the texture view `view` into slot `slot` of the
/// bindless texture set: the array element of its one binding, sampled in the
/// shader read layout. Returns the array element with the write.
pub fn bindless_texture_write(slot: u32, view: u64) -> (r: (u32, DescriptorWrite))
    ensures
        r.0 == slot,
        r.1 == (DescriptorWrite {
            binding: 0,
            descriptor_type: vk::DESCRIPTOR_TYPE_SAMPLED_IMAGE,
            payload: DescriptorPayload::Image { view, sampler: 0, layout: vk::IMAGE_LAYOUT_SHADER_READ_ONLY_OPTIMAL },
        }),
{
    (
        slot,
        DescriptorWrite {
            binding: 0,
            descriptor_type: vk::DESCRIPTOR_TYPE_SAMPLED_IMAGE,
            payload: DescriptorPayload::Image { view, sampler: 0, layout: vk::IMAGE_LAYOUT_SHADER_READ_ONLY_OPTIMAL },
        },
    )
}

/// Gives the layout the bindless texture set where one of its shaders uses it;
/// that takes a device with descriptor indexing.
pub fn add_bindless_set_if_used(supports_descriptor_indexing: bool, context: &mut DescriptorSetLayoutSetupContext)
    requires
        old(context).wf(),
        old(context).uses_bindless_texture_set ==> supports_descriptor_indexing,
    ensures
        final(context).wf(),
        !old(context).uses_bindless_texture_set ==> *final(context) == *old(context),
        old(context).uses_bindless_texture_set ==> {
            &&& final(context).descriptor_set_layouts@.len() == TOTAL_SET_COUNT
            &&& final(context).descriptor_set_layouts@[BINDLESS_TEXTURE_SET_INDEX as int]@ == seq![bindless_set_binding()]
            &&& forall|i: int| 0 <= i < TOTAL_SET_COUNT && i != BINDLESS_TEXTURE_SET_INDEX ==> (#[trigger] final(context).descriptor_set_layouts@[i])
                == old(context).descriptor_set_layouts@[i]
            &&& final(context).descriptor_set_layout_flags@ == old(context).descriptor_set_layout_flags@.update(
                BINDLESS_TEXTURE_SET_INDEX as int,
                vk::DESCRIPTOR_SET_LAYOUT_CREATE_UPDATE_AFTER_BIND_POOL,
            )
            &&& final(context).dynamic_storage_buffers@ == old(context).dynamic_storage_buffers@
            &&& final(context).dynamic_uniform_buffers@ == old(context).dynamic_uniform_buffers@
            &&& final(context).push_constants_ranges@ == old(context).push_constants_ranges@
            &&& final(context).uses_bindless_texture_set
            &&& final(context).shader_stages == old(context).shader_stages
        },
{
    if !context.uses_bindless_texture_set {
        return;
    }
    let mut bindless_bindings: Vec<VkDescriptorSetEntryInfo> = Vec::new();
    bindless_bindings.push(
        VkDescriptorSetEntryInfo {
            shader_stage: vk::SHADER_STAGE_VERTEX | vk::SHADER_STAGE_FRAGMENT | vk::SHADER_STAGE_COMPUTE,
            index: 0,
            count: BINDLESS_TEXTURE_COUNT,
            descriptor_type: vk::DESCRIPTOR_TYPE_SAMPLED_IMAGE,
            writable: false,
            flags: vk::DESCRIPTOR_BINDING_UPDATE_AFTER_BIND | vk::DESCRIPTOR_BINDING_UPDATE_UNUSED_WHILE_PENDING
                | vk::DESCRIPTOR_BINDING_PARTIALLY_BOUND,
        },
    );
    assert(bindless_bindings@ =~= seq![bindless_set_binding()]);
    context.descriptor_set_layouts.set(BINDLESS_TEXTURE_SET_INDEX, bindless_bindings);
    context.descriptor_set_layout_flags.set(
        BINDLESS_TEXTURE_SET_INDEX,
        vk::DESCRIPTOR_SET_LAYOUT_CREATE_UPDATE_AFTER_BIND_POOL,
    );
}

/// The total size of the push constant ranges before slot `i`.
pub open spec fn push_constants_before(ranges: Seq<Option<VkConstantRange>>, i: int) -> int
    decreases i,
{
    if i <= 0 {
        0
    } else {
        push_constants_before(ranges, i - 1) + match ranges[i - 1] {
            Some(r) => r.size as int,
            None => 0,
        }
    }
}

/// The push constant ranges packed one after the other, in slot order.
pub open spec fn remapped_ranges(ranges: Seq<Option<VkConstantRange>>) -> Seq<Option<VkConstantRange>> {
    Seq::new(
        ranges.len(),
        |i: int| match ranges[i] {
            Some(r) => Some(
                VkConstantRange { offset: push_constants_before(ranges, i) as u32, size: r.size, shader_stage: r.shader_stage },
            ),
            None => None,
        },
    )
}

proof fn lemma_push_constants_grow(ranges: Seq<Option<VkConstantRange>>, i: int, j: int)
    requires
        0 <= i <= j,
    ensures
        push_constants_before(ranges, i) <= push_constants_before(ranges, j),
    decreases j - i,
{
    if i < j {
        lemma_push_constants_grow(ranges, i, j - 1);
    }
}

/// Packs the push constant ranges of the layout one after the other; their
/// sizes together fit in 32 bits.
pub fn remap_push_constant_ranges(context: &mut DescriptorSetLayoutSetupContext)
    requires
        old(context).wf(),
        push_constants_before(old(context).push_constants_ranges@, PUSH_CONSTANT_RANGE_COUNT as int) <= u32::MAX,
    ensures
        final(context).wf(),
        final(context).push_constants_ranges@ == remapped_ranges(old(context).push_constants_ranges@),
        final(context).descriptor_set_layouts@ == old(context).descriptor_set_layouts@,
        final(context).descriptor_set_layout_flags@ == old(context).descriptor_set_layout_flags@,
        final(context).dynamic_storage_buffers@ == old(context).dynamic_storage_buffers@,
        final(context).dynamic_uniform_buffers@ == old(context).dynamic_uniform_buffers@,
        final(context).uses_bindless_texture_set == old(context).uses_bindless_texture_set,
        final(context).shader_stages == old(context).shader_stages,
{
    let ghost ranges = context.push_constants_ranges@;
    let mut offset: u32 = 0;
    let mut remapped: Vec<Option<VkConstantRange>> = Vec::new();
    let mut i: usize = 0;
    while i < context.push_constants_ranges.len()
        invariant
            i <= context.push_constants_ranges.len(),
            context.push_constants_ranges@ == ranges,
            ranges.len() == PUSH_CONSTANT_RANGE_COUNT,
            push_constants_before(ranges, PUSH_CONSTANT_RANGE_COUNT as int) <= u32::MAX,
            offset == push_constants_before(ranges, i as int),
            remapped@ == remapped_ranges(ranges).take(i as int),
        decreases context.push_constants_ranges.len() - i,
    {
        proof {
            lemma_push_constants_grow(ranges, i as int + 1, PUSH_CONSTANT_RANGE_COUNT as int);
        }
        match context.push_constants_ranges[i] {
            Some(range) => {
                remapped.push(Some(VkConstantRange { offset, size: range.size, shader_stage: range.shader_stage }));
                offset = offset + range.size;
            },
            None => {
                remapped.push(None);
            },
        }
        assert(remapped@ =~= remapped_ranges(ranges).take(i as int + 1));
        i = i + 1;
    }
    assert(remapped@ =~= remapped_ranges(ranges));
    context.push_constants_ranges = remapped;
}

/// After packing, the push constant ranges lie one after the other: each
/// ends no later than any later one starts, and the first starts at zero.
pub proof fn law_push_constant_ranges_disjoint(ranges: Seq<Option<VkConstantRange>>)
    requires
        push_constants_before(ranges, ranges.len() as int) <= u32::MAX,
    ensures
        forall|i: int, j: int|
            0 <= i < j < ranges.len() && (#[trigger] remapped_ranges(ranges)[i]) is Some && (#[trigger] remapped_ranges(
                ranges,
            )[j]) is Some ==> remapped_ranges(ranges)[i]->0.offset + remapped_ranges(ranges)[i]->0.size
                <= remapped_ranges(ranges)[j]->0.offset,
        ranges.len() > 0 && ranges[0] is Some ==> remapped_ranges(ranges)[0]->0.offset == 0,
{
    let rm = remapped_ranges(ranges);
    assert forall|i: int, j: int|
        0 <= i < j < ranges.len() && (#[trigger] rm[i]) is Some && (#[trigger] rm[j]) is Some implies rm[i]->0.offset
        + rm[i]->0.size <= rm[j]->0.offset by {
        lemma_push_constants_grow(ranges, 0, i);
        lemma_push_constants_grow(ranges, i + 1, j);
        lemma_push_constants_grow(ranges, j, ranges.len() as int);
        lemma_push_constants_grow(ranges, i, ranges.len() as int);
        assert(ranges[i] is Some && ranges[j] is Some);
        assert(push_constants_before(ranges, i + 1) == push_constants_before(ranges, i) + ranges[i]->0.size);
        assert(rm[i]->0.offset == push_constants_before(ranges, i));
        assert(rm[j]->0.offset == push_constants_before(ranges, j));
        assert(rm[i]->0.size == ranges[i]->0.size);
    }
}

/// What a binding of a pipeline holds, as the engine names it.
#[derive(Clone, Copy, PartialEq, Eq, Structural, Debug)]
pub enum BindingType {
    StorageBuffer,
    StorageTexture,
    ConstantBuffer,
    SampledTexture,
    Sampler,
    TextureAndSampler,
}

/// The engine's name for a descriptor type that shaders declare. Storage
/// buffers are reported as storage textures.
pub open spec fn binding_type_of(descriptor_type: i32) -> Option<BindingType> {
    if descriptor_type == vk::DESCRIPTOR_TYPE_STORAGE_BUFFER_DYNAMIC || descriptor_type == vk::DESCRIPTOR_TYPE_STORAGE_BUFFER {
        Some(BindingType::StorageTexture)
    } else if descriptor_type == vk::DESCRIPTOR_TYPE_UNIFORM_BUFFER_DYNAMIC || descriptor_type == vk::DESCRIPTOR_TYPE_UNIFORM_BUFFER {
        Some(BindingType::ConstantBuffer)
    } else if descriptor_type == vk::DESCRIPTOR_TYPE_STORAGE_IMAGE {
        Some(BindingType::StorageTexture)
    } else if descriptor_type == vk::DESCRIPTOR_TYPE_SAMPLED_IMAGE {
        Some(BindingType::SampledTexture)
    } else if descriptor_type == vk::DESCRIPTOR_TYPE_SAMPLER {
        Some(BindingType::Sampler)
    } else if descriptor_type == vk::DESCRIPTOR_TYPE_COMBINED_IMAGE_SAMPLER {
        Some(BindingType::TextureAndSampler)
    } else {
        None
    }
}

/// A pipeline layout: its handle, the layouts of its five descriptor sets and
/// its three push constant ranges.
#[derive(Clone, Debug)]
pub struct VkPipelineLayout {
    pub handle: u64,
    pub descriptor_set_layouts: Vec<Option<VkDescriptorSetLayout>>,
    pub push_constant_ranges: Vec<Option<VkConstantRange>>,
}

/// The present items of a sequence of options, in order.
pub open spec fn present<T>(s: Seq<Option<T>>) -> Seq<T>
    decreases s.len(),
{
    if s.len() == 0 {
        Seq::empty()
    } else {
        let before = present(s.drop_last());
        match s.last() {
            Some(x) => before.push(x),
            None => before,
        }
    }
}

impl VkPipelineLayout {
    pub open spec fn wf(&self) -> bool {
        &&& self.descriptor_set_layouts.len() == TOTAL_SET_COUNT
        &&& self.push_constant_ranges.len() == PUSH_CONSTANT_RANGE_COUNT
        &&& forall|i: int| 0 <= i < TOTAL_SET_COUNT ==> match #[trigger] self.descriptor_set_layouts@[i] {
            Some(l) => l.wf(),
            None => true,
        }
    }

    /// The layout made with handle `handle`. Its first push constant range,
    /// if it has any, is not empty.
    pub fn new(descriptor_set_layouts: Vec<Option<VkDescriptorSetLayout>>, push_constant_ranges: Vec<Option<VkConstantRange>>, handle: u64) -> (r: Self)
        requires
            descriptor_set_layouts.len() == TOTAL_SET_COUNT,
            push_constant_ranges.len() == PUSH_CONSTANT_RANGE_COUNT,
            forall|i: int| 0 <= i < TOTAL_SET_COUNT ==> match #[trigger] descriptor_set_layouts@[i] {
                Some(l) => l.wf(),
                None => true,
            },
            present(push_constant_ranges@).len() > 0 ==> present(push_constant_ranges@)[0].size != 0,
        ensures
            r.wf(),
            r.handle == handle,
            r.descriptor_set_layouts@ == descriptor_set_layouts@,
            r.push_constant_ranges@ == push_constant_ranges@,
    {
        VkPipelineLayout { handle, descriptor_set_layouts, push_constant_ranges }
    }

    pub fn handle(&self) -> (r: u64)
        ensures
            r == self.handle,
    {
        self.handle
    }

    /// The handles of the descriptor set layouts the pipeline layout is made
    /// of, in set order.
    pub fn set_layout_handles(&self) -> (r: Vec<u64>)
        requires
            self.wf(),
        ensures
            r@ == present(self.descriptor_set_layouts@).map_values(|l: VkDescriptorSetLayout| l.handle),
    {
        let mut r: Vec<u64> = Vec::new();
        let mut i: usize = 0;
        while i < self.descriptor_set_layouts.len()
            invariant
                i <= self.descriptor_set_layouts.len(),
                r@ == present(self.descriptor_set_layouts@.take(i as int)).map_values(|l: VkDescriptorSetLayout| l.handle),
            decreases self.descriptor_set_layouts.len() - i,
        {
            assert(self.descriptor_set_layouts@.take(i as int + 1).drop_last() =~= self.descriptor_set_layouts@.take(i as int));
            match &self.descriptor_set_layouts[i] {
                Some(l) => {
                    r.push(l.handle);
                },
                None => {},
            }
            assert(r@ =~= present(self.descriptor_set_layouts@.take(i as int + 1)).map_values(|l: VkDescriptorSetLayout| l.handle));
            i = i + 1;
        }
        assert(self.descriptor_set_layouts@.take(self.descriptor_set_layouts.len() as int) =~= self.descriptor_set_layouts@);
        r
    }

    /// The push constant ranges the pipeline layout is made with, in slot order.
    pub fn push_constant_range_list(&self) -> (r: Vec<VkConstantRange>)
        requires
            self.wf(),
        ensures
            r@ == present(self.push_constant_ranges@),
    {
        let mut r: Vec<VkConstantRange> = Vec::new();
        let mut i: usize = 0;
        while i < self.push_constant_ranges.len()
            invariant
                i <= self.push_constant_ranges.len(),
                r@ == present(self.push_constant_ranges@.take(i as int)),
            decreases self.push_constant_ranges.len() - i,
        {
            assert(self.push_constant_ranges@.take(i as int + 1).drop_last() =~= self.push_constant_ranges@.take(i as int));
            match self.push_constant_ranges[i] {
                Some(range) => {
                    r.push(range);
                },
                None => {},
            }
            i = i + 1;
        }
        assert(self.push_constant_ranges@.take(self.push_constant_ranges.len() as int) =~= self.push_constant_ranges@);
        r
    }

    /// The layout of descriptor set `index`, where the pipeline has one.
    pub fn descriptor_set_layout(&self, index: u32) -> (r: Option<&VkDescriptorSetLayout>)
        requires
            self.wf(),
            index < TOTAL_SET_COUNT,
        ensures
            match r {
                Some(l) => self.descriptor_set_layouts@[index as int] == Some(*l),
                None => self.descriptor_set_layouts@[index as int] is None,
            },
    {
        match &self.descriptor_set_layouts[index as usize] {
            Some(l) => Some(l),
            None => None,
        }
    }

    /// The push constant range of a shader stage.
    pub fn push_constant_range(&self, shader_type: ShaderType) -> (r: Option<VkConstantRange>)
        requires
            self.wf(),
        ensures
            r == match push_constant_slot(shader_type) {
                Some(i) => self.push_constant_ranges@[i],
                None => None,
            },
    {
        match push_constant_range_index(shader_type) {
            Some(i) => self.push_constant_ranges[i],
            None => None,
        }
    }

    /// What binding `slot` of set `set` holds, as the engine names it.
    pub fn binding_info(&self, set: u32, slot: u32) -> (r: Option<BindingType>)
        requires
            self.wf(),
            set < TOTAL_SET_COUNT,
            slot < BINDINGS_PER_SET,
            match self.descriptor_set_layouts@[set as int] {
                Some(l) => match l.binding_infos@[slot as int] {
                    Some(info) => binding_type_of(info.descriptor_type) is Some,
                    None => true,
                },
                None => true,
            },
        ensures
            r == match self.descriptor_set_layouts@[set as int] {
                Some(l) => match l.binding_infos@[slot as int] {
                    Some(info) => binding_type_of(info.descriptor_type),
                    None => None,
                },
                None => None,
            },
    {
        match &self.descriptor_set_layouts[set as usize] {
            Some(l) => match l.binding_infos[slot as usize] {
                Some(info) => {
                    let t = info.descriptor_type;
                    if t == vk::DESCRIPTOR_TYPE_STORAGE_BUFFER_DYNAMIC || t == vk::DESCRIPTOR_TYPE_STORAGE_BUFFER {
                        Some(BindingType::StorageTexture)
                    } else if t == vk::DESCRIPTOR_TYPE_UNIFORM_BUFFER_DYNAMIC || t == vk::DESCRIPTOR_TYPE_UNIFORM_BUFFER {
                        Some(BindingType::ConstantBuffer)
                    } else if t == vk::DESCRIPTOR_TYPE_STORAGE_IMAGE {
                        Some(BindingType::StorageTexture)
                    } else if t == vk::DESCRIPTOR_TYPE_SAMPLED_IMAGE {
                        Some(BindingType::SampledTexture)
                    } else if t == vk::DESCRIPTOR_TYPE_SAMPLER {
                        Some(BindingType::Sampler)
                    } else {
                        Some(BindingType::TextureAndSampler)
                    }
                },
                None => None,
            },
            None => None,
        }
    }
}

} // verus!
