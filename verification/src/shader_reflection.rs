//! What a shader declares, from what the reflection of its SPIR-V lists.
use vstd::prelude::*;
use crate::gpu::ShaderType;
use crate::descriptor::VkDescriptorSetEntryInfo;
use crate::pipeline_layout::{
    ShaderLayoutInfo, PushConstantRange, TOTAL_SET_COUNT, BINDLESS_TEXTURE_SET_INDEX, push_constant_slot,
};
use crate::vk_convert::{vk_shader_stage, shader_type_to_vk};
use crate::vk_values as vk;

verus! {

/// The kinds of resources the reflection of a shader lists.
#[derive(Clone, Copy, PartialEq, Eq, Structural, Debug)]
pub enum ReflectedKind {
    SeparateImage,
    SeparateSampler,
    SampledImage,
    SubpassInput,
    UniformBuffer,
    StorageBuffer,
    StorageImage,
    AccelerationStructure,
}

/// A resource of a shader as the reflection lists it: its kind, its set and
/// binding, the length of its array (one for no array), and whether it is
/// declared read only.
#[derive(Clone, Copy, PartialEq, Eq, Structural, Debug)]
pub struct ReflectedResource {
    pub kind: ReflectedKind,
    pub set: u32,
    pub binding: u32,
    pub array_size: u32,
    pub non_writable: bool,
}

/// The largest push constant block a shader may have.
pub const MAX_PUSH_CONSTANT_SIZE: u64 = 128u64;

/// A resource of the bindless texture set, which every pipeline shares.
pub open spec fn is_bindless(r: ReflectedResource) -> bool {
    r.kind == ReflectedKind::SeparateImage && r.set == BINDLESS_TEXTURE_SET_INDEX
}

/// The binding a resource declares in its set.
pub open spec fn entry_of(shader_type: ShaderType, r: ReflectedResource) -> VkDescriptorSetEntryInfo {
    let (descriptor_type, count, writable) = match r.kind {
        ReflectedKind::SeparateImage => (vk::DESCRIPTOR_TYPE_SAMPLED_IMAGE, r.array_size, false),
        ReflectedKind::SeparateSampler => (vk::DESCRIPTOR_TYPE_SAMPLER, r.array_size, false),
        ReflectedKind::SampledImage => (vk::DESCRIPTOR_TYPE_COMBINED_IMAGE_SAMPLER, r.array_size, false),
        ReflectedKind::SubpassInput => (vk::DESCRIPTOR_TYPE_INPUT_ATTACHMENT, 1u32, false),
        ReflectedKind::UniformBuffer => (vk::DESCRIPTOR_TYPE_UNIFORM_BUFFER, r.array_size, false),
        ReflectedKind::StorageBuffer => (vk::DESCRIPTOR_TYPE_STORAGE_BUFFER, r.array_size, !r.non_writable),
        ReflectedKind::StorageImage => (vk::DESCRIPTOR_TYPE_STORAGE_IMAGE, r.array_size, !r.non_writable),
        ReflectedKind::AccelerationStructure => (vk::DESCRIPTOR_TYPE_ACCELERATION_STRUCTURE_KHR, 1u32, false),
    };
    VkDescriptorSetEntryInfo {
        shader_stage: vk_shader_stage(shader_type),
        index: r.binding,
        count,
        descriptor_type,
        writable,
        flags: 0,
    }
}

/// The bindings of set `set` among the first `n` resources, in order.
pub open spec fn set_entries(shader_type: ShaderType, rs: Seq<ReflectedResource>, set: u32, n: int) -> Seq<VkDescriptorSetEntryInfo>
    decreases n,
{
    if n <= 0 {
        Seq::empty()
    } else {
        let before = set_entries(shader_type, rs, set, n - 1);
        let r = rs[n - 1];
        if r.set == set && !is_bindless(r) {
            before.push(entry_of(shader_type, r))
        } else {
            before
        }
    }
}

/// The resources can be taken in: every set exists, samplers are no arrays.
pub open spec fn resources_fit(rs: Seq<ReflectedResource>) -> bool {
    forall|i: int| 0 <= i < rs.len() ==> {
        &&& (#[trigger] rs[i]).set < TOTAL_SET_COUNT
        &&& (rs[i].kind == ReflectedKind::SeparateSampler ==> rs[i].array_size == 1)
    }
}

fn entry_of_exec(shader_type: ShaderType, r: ReflectedResource) -> (e: VkDescriptorSetEntryInfo)
    ensures
        e == entry_of(shader_type, r),
{
    let (descriptor_type, count, writable) = match r.kind {
        ReflectedKind::SeparateImage => (vk::DESCRIPTOR_TYPE_SAMPLED_IMAGE, r.array_size, false),
        ReflectedKind::SeparateSampler => (vk::DESCRIPTOR_TYPE_SAMPLER, r.array_size, false),
        ReflectedKind::SampledImage => (vk::DESCRIPTOR_TYPE_COMBINED_IMAGE_SAMPLER, r.array_size, false),
        ReflectedKind::SubpassInput => (vk::DESCRIPTOR_TYPE_INPUT_ATTACHMENT, 1u32, false),
        ReflectedKind::UniformBuffer => (vk::DESCRIPTOR_TYPE_UNIFORM_BUFFER, r.array_size, false),
        ReflectedKind::StorageBuffer => (vk::DESCRIPTOR_TYPE_STORAGE_BUFFER, r.array_size, !r.non_writable),
        ReflectedKind::StorageImage => (vk::DESCRIPTOR_TYPE_STORAGE_IMAGE, r.array_size, !r.non_writable),
        ReflectedKind::AccelerationStructure => (vk::DESCRIPTOR_TYPE_ACCELERATION_STRUCTURE_KHR, 1u32, false),
    };
    VkDescriptorSetEntryInfo {
        shader_stage: shader_type_to_vk(shader_type),
        index: r.binding,
        count,
        descriptor_type,
        writable,
        flags: 0,
    }
}

/// What a shader declares: the bindings of each set, from the resources in
/// the order the reflection lists them (separate images, separate samplers,
/// sampled images, subpass inputs, uniform buffers, storage buffers, storage
/// images, acceleration structures); whether it uses the bindless texture
/// set; and its push constants, which start at zero and hold at most 128
/// bytes, in a stage that has push constants.
pub fn reflect_shader_layout(
    shader_type: ShaderType,
    push_constant_size: Option<u64>,
    resources: &Vec<ReflectedResource>,
) -> (r: ShaderLayoutInfo)
    requires
        resources_fit(resources@),
        match push_constant_size {
            Some(size) => size <= MAX_PUSH_CONSTANT_SIZE && push_constant_slot(shader_type) is Some,
            None => true,
        },
    ensures
        r.shader_type == shader_type,
        r.descriptor_set_bindings.len() == TOTAL_SET_COUNT,
        forall|s: int| 0 <= s < TOTAL_SET_COUNT ==> (#[trigger] r.descriptor_set_bindings@[s])@ == set_entries(
            shader_type,
            resources@,
            s as u32,
            resources.len() as int,
        ),
        r.uses_bindless_texture_set == exists|i: int| 0 <= i < resources.len() && is_bindless(#[trigger] resources@[i]),
        r.push_constants_range == match push_constant_size {
            Some(size) => Some(PushConstantRange { offset: 0, size: size as u32 }),
            None => None,
        },
{
    let mut sets: Vec<Vec<VkDescriptorSetEntryInfo>> = Vec::new();
    let mut s: usize = 0;
    while s < TOTAL_SET_COUNT
        invariant
            s <= TOTAL_SET_COUNT,
            sets.len() == s,
            forall|t: int| 0 <= t < s ==> (#[trigger] sets@[t])@ == set_entries(
                shader_type,
                resources@,
                t as u32,
                resources.len() as int,
            ),
        decreases TOTAL_SET_COUNT - s,
    {
        let mut set: Vec<VkDescriptorSetEntryInfo> = Vec::new();
        let mut i: usize = 0;
        while i < resources.len()
            invariant
                i <= resources.len(),
                s < TOTAL_SET_COUNT,
                set@ == set_entries(shader_type, resources@, s as u32, i as int),
            decreases resources.len() - i,
        {
            let res = resources[i];
            let bindless = res.kind == ReflectedKind::SeparateImage && res.set == BINDLESS_TEXTURE_SET_INDEX as u32;
            if res.set == s as u32 && !bindless {
                set.push(entry_of_exec(shader_type, res));
            }
            i = i + 1;
        }
        sets.push(set);
        s = s + 1;
    }
    let mut uses_bindless_texture_set = false;
    let mut i: usize = 0;
    while i < resources.len()
        invariant
            i <= resources.len(),
            uses_bindless_texture_set == exists|j: int| 0 <= j < i && is_bindless(#[trigger] resources@[j]),
        decreases resources.len() - i,
    {
        let res = resources[i];
        if res.kind == ReflectedKind::SeparateImage && res.set == BINDLESS_TEXTURE_SET_INDEX as u32 {
            uses_bindless_texture_set = true;
        }
        i = i + 1;
    }
    let push_constants_range = match push_constant_size {
        Some(size) => Some(PushConstantRange { offset: 0, size: size as u32 }),
        None => None,
    };
    ShaderLayoutInfo { shader_type, descriptor_set_bindings: sets, push_constants_range, uses_bindless_texture_set }
}

} // verus!
