//! Descriptor set layouts, the writes that fill a descriptor set, and the
//! binding manager that tracks what is bound and which sets must be rebuilt.
//!
//! Vulkan objects are named by their handles; the device calls that create
//! them stay outside the library.
use vstd::prelude::*;
use crate::gpu::{BindingFrequency, frequency_index, frequency_index_exec};
use crate::vk_values as vk;

verus! {

/// The number of bindings of a descriptor set layout.
pub const BINDINGS_PER_SET: usize = 16usize;

/// The number of binding tables of the binding manager.
pub const SET_COUNT: usize = 4usize;

/// The most dynamic offsets one set can have.
pub const MAX_DYNAMIC_OFFSETS: usize = 8usize;

// Descriptor sets that must be rebuilt.
pub const DIRTY_PER_DRAW: u32 = 0b0001u32;
pub const DIRTY_PER_MATERIAL: u32 = 0b0010u32;
pub const DIRTY_PER_FRAME: u32 = 0b0100u32;
pub const DIRTY_BINDLESS_TEXTURES: u32 = 0b10000u32;

/// The dirty flag of the sets of a binding frequency.
pub open spec fn dirty_flag(frequency: BindingFrequency) -> u32 {
    match frequency {
        BindingFrequency::PerDraw => DIRTY_PER_DRAW,
        BindingFrequency::PerMaterial => DIRTY_PER_MATERIAL,
        BindingFrequency::PerFrame => DIRTY_PER_FRAME,
    }
}

/// The dirty flag of the sets of a binding frequency.
pub fn dirty_descriptor_sets_from(frequency: BindingFrequency) -> (r: u32)
    ensures
        r == dirty_flag(frequency),
{
    match frequency {
        BindingFrequency::PerDraw => DIRTY_PER_DRAW,
        BindingFrequency::PerMaterial => DIRTY_PER_MATERIAL,
        BindingFrequency::PerFrame => DIRTY_PER_FRAME,
    }
}

/// A binding of a descriptor set layout.
#[derive(Clone, Copy, PartialEq, Eq, Structural, Debug)]
pub struct VkDescriptorSetEntryInfo {
    pub shader_stage: u32,
    pub index: u32,
    pub count: u32,
    pub descriptor_type: i32,
    pub writable: bool,
    pub flags: u32,
}

/// A range of push constants.
#[derive(Clone, Copy, PartialEq, Eq, Structural, Debug)]
pub struct VkConstantRange {
    pub offset: u32,
    pub size: u32,
    pub shader_stage: u32,
}

/// A resource bound to a slot. Buffers are slices of a Vulkan buffer: `slice`
/// names the slice, `buffer` the Vulkan buffer and `slice_offset` where the
/// slice starts in it. Texture views, samplers and acceleration structures are
/// named by their handles.
#[derive(Clone, Copy, PartialEq, Eq, Structural, Debug)]
pub enum VkBoundResource {
    Unbound,
    UniformBuffer { slice: u64, buffer: u64, slice_offset: usize, offset: usize, length: usize },
    StorageBuffer { slice: u64, buffer: u64, slice_offset: usize, offset: usize, length: usize },
    StorageTexture(u64),
    SampledTexture(u64),
    SampledTextureAndSampler(u64, u64),
    Sampler(u64),
    AccelerationStructure(u64),
}

impl VkBoundResource {
    pub fn default() -> (r: Self)
        ensures
            r == VkBoundResource::Unbound,
    {
        VkBoundResource::Unbound
    }
}

/// The layout of a descriptor set: its handle and what each of its sixteen
/// bindings holds.
#[derive(Clone, Debug)]
pub struct VkDescriptorSetLayout {
    pub handle: u64,
    pub binding_infos: Vec<Option<VkDescriptorSetEntryInfo>>,
}

pub open spec fn is_dynamic_type(descriptor_type: i32) -> bool {
    descriptor_type == vk::DESCRIPTOR_TYPE_UNIFORM_BUFFER_DYNAMIC
        || descriptor_type == vk::DESCRIPTOR_TYPE_STORAGE_BUFFER_DYNAMIC
}

/// The binding table of a layout made of `bindings`: each binding stands at its
/// index, a later one replacing an earlier one at the same index.
pub open spec fn binding_table(bindings: Seq<VkDescriptorSetEntryInfo>) -> Seq<Option<VkDescriptorSetEntryInfo>>
    decreases bindings.len(),
{
    if bindings.len() == 0 {
        Seq::new(BINDINGS_PER_SET as nat, |i: int| None)
    } else {
        let last = bindings.last();
        binding_table(bindings.drop_last()).update(last.index as int, Some(last))
    }
}

proof fn lemma_binding_table_len(bindings: Seq<VkDescriptorSetEntryInfo>)
    requires
        forall|i: int| 0 <= i < bindings.len() ==> (#[trigger] bindings[i]).index < BINDINGS_PER_SET,
    ensures
        binding_table(bindings).len() == BINDINGS_PER_SET,
    decreases bindings.len(),
{
    if bindings.len() > 0 {
        lemma_binding_table_len(bindings.drop_last());
    }
}

impl VkDescriptorSetLayout {
    pub open spec fn wf(&self) -> bool {
        self.binding_infos.len() == BINDINGS_PER_SET
    }

    /// The layout with handle `handle` of the given bindings; every binding
    /// index is below sixteen.
    pub fn new(bindings: &Vec<VkDescriptorSetEntryInfo>, handle: u64) -> (r: Self)
        requires
            forall|i: int| 0 <= i < bindings.len() ==> (#[trigger] bindings@[i]).index < BINDINGS_PER_SET,
        ensures
            r.wf(),
            r.handle == handle,
            r.binding_infos@ == binding_table(bindings@),
    {
        let mut binding_infos: Vec<Option<VkDescriptorSetEntryInfo>> = Vec::new();
        let mut k: usize = 0;
        while k < BINDINGS_PER_SET
            invariant
                k <= BINDINGS_PER_SET,
                binding_infos.len() == k,
                forall|j: int| 0 <= j < k ==> binding_infos@[j] is None,
            decreases BINDINGS_PER_SET - k,
        {
            binding_infos.push(None);
            k = k + 1;
        }
        assert(binding_infos@ == binding_table(bindings@.take(0)));
        let mut i: usize = 0;
        while i < bindings.len()
            invariant
                i <= bindings.len(),
                forall|j: int| 0 <= j < bindings.len() ==> (#[trigger] bindings@[j]).index < BINDINGS_PER_SET,
                binding_infos@ == binding_table(bindings@.take(i as int)),
            decreases bindings.len() - i,
        {
            proof {
                lemma_binding_table_len(bindings@.take(i as int));
                assert(bindings@.take(i as int + 1).drop_last() == bindings@.take(i as int));
            }
            let binding = bindings[i];
            binding_infos.set(binding.index as usize, Some(binding));
            i = i + 1;
        }
        assert(bindings@.take(bindings.len() as int) == bindings@);
        proof {
            lemma_binding_table_len(bindings@);
        }
        VkDescriptorSetLayout { handle, binding_infos }
    }

    pub fn handle(&self) -> (r: u64)
        ensures
            r == self.handle,
    {
        self.handle
    }

    /// The number of binding slots of the layout, bound or not.
    pub fn binding_count(&self) -> (r: usize)
        ensures
            r == self.binding_infos.len(),
    {
        self.binding_infos.len()
    }

    /// The binding at `binding_index` holds a buffer with a dynamic offset.
    pub fn is_dynamic_binding(&self, binding_index: u32) -> (r: bool)
        requires
            binding_index < self.binding_infos.len(),
        ensures
            r == match self.binding_infos@[binding_index as int] {
                Some(info) => is_dynamic_type(info.descriptor_type),
                None => false,
            },
    {
        match self.binding_infos[binding_index as usize] {
            Some(info) => info.descriptor_type == vk::DESCRIPTOR_TYPE_UNIFORM_BUFFER_DYNAMIC
                || info.descriptor_type == vk::DESCRIPTOR_TYPE_STORAGE_BUFFER_DYNAMIC,
            None => false,
        }
    }
}

/// What a descriptor write points the binding at.
#[derive(Clone, Copy, PartialEq, Eq, Structural, Debug)]
pub enum DescriptorPayload {
    Buffer { buffer: u64, offset: u64, range: u64 },
    /// A null view or sampler is zero.
    Image { view: u64, sampler: u64, layout: i32 },
    AccelerationStructure(u64),
}

/// One write of a descriptor set update.
#[derive(Clone, Copy, PartialEq, Eq, Structural, Debug)]
pub struct DescriptorWrite {
    pub binding: u32,
    pub descriptor_type: i32,
    pub payload: DescriptorPayload,
}

/// The resource can fill a binding of the type `descriptor_type`.
pub open spec fn resource_fits(resource: VkBoundResource, descriptor_type: i32) -> bool {
    match resource {
        VkBoundResource::Unbound => false,
        VkBoundResource::UniformBuffer { slice_offset, offset, .. } => {
            &&& (descriptor_type == vk::DESCRIPTOR_TYPE_UNIFORM_BUFFER_DYNAMIC
                || descriptor_type == vk::DESCRIPTOR_TYPE_UNIFORM_BUFFER)
            &&& slice_offset + offset <= usize::MAX
        },
        VkBoundResource::StorageBuffer { slice_offset, offset, .. } => {
            &&& (descriptor_type == vk::DESCRIPTOR_TYPE_STORAGE_BUFFER_DYNAMIC
                || descriptor_type == vk::DESCRIPTOR_TYPE_STORAGE_BUFFER)
            &&& slice_offset + offset <= usize::MAX
        },
        VkBoundResource::StorageTexture(_) => descriptor_type == vk::DESCRIPTOR_TYPE_STORAGE_IMAGE,
        VkBoundResource::SampledTexture(_) => descriptor_type == vk::DESCRIPTOR_TYPE_SAMPLED_IMAGE,
        VkBoundResource::SampledTextureAndSampler(_, _) => descriptor_type
            == vk::DESCRIPTOR_TYPE_COMBINED_IMAGE_SAMPLER,
        VkBoundResource::Sampler(_) => descriptor_type == vk::DESCRIPTOR_TYPE_SAMPLER,
        VkBoundResource::AccelerationStructure(_) => descriptor_type
            == vk::DESCRIPTOR_TYPE_ACCELERATION_STRUCTURE_KHR,
    }
}

/// Every binding of the layout has a resource that fits it.
pub open spec fn bindings_fit(infos: Seq<Option<VkDescriptorSetEntryInfo>>, bindings: Seq<VkBoundResource>) -> bool {
    forall|i: int| 0 <= i < infos.len() ==> match #[trigger] infos[i] {
        Some(info) => resource_fits(bindings[i], info.descriptor_type),
        None => true,
    }
}

/// The write of a resource into a binding of type `descriptor_type`. A buffer
/// bound with a dynamic offset is written at offset zero; the offset is passed
/// when the set is bound.
pub open spec fn write_of(binding: int, descriptor_type: i32, resource: VkBoundResource) -> DescriptorWrite {
    let payload = match resource {
        VkBoundResource::UniformBuffer { buffer, slice_offset, offset, length, .. } | VkBoundResource::StorageBuffer {
            buffer,
            slice_offset,
            offset,
            length,
            ..
        } => DescriptorPayload::Buffer {
            buffer,
            offset: if is_dynamic_type(descriptor_type) { 0 } else { (slice_offset + offset) as u64 },
            range: length as u64,
        },
        VkBoundResource::StorageTexture(view) => DescriptorPayload::Image {
            view,
            sampler: 0,
            layout: vk::IMAGE_LAYOUT_GENERAL,
        },
        VkBoundResource::SampledTexture(view) => DescriptorPayload::Image {
            view,
            sampler: 0,
            layout: vk::IMAGE_LAYOUT_SHADER_READ_ONLY_OPTIMAL,
        },
        VkBoundResource::SampledTextureAndSampler(view, sampler) => DescriptorPayload::Image {
            view,
            sampler,
            layout: vk::IMAGE_LAYOUT_SHADER_READ_ONLY_OPTIMAL,
        },
        VkBoundResource::Sampler(sampler) => DescriptorPayload::Image {
            view: 0,
            sampler,
            layout: vk::IMAGE_LAYOUT_UNDEFINED,
        },
        VkBoundResource::AccelerationStructure(handle) => DescriptorPayload::AccelerationStructure(handle),
        VkBoundResource::Unbound => DescriptorPayload::AccelerationStructure(0),
    };
    DescriptorWrite { binding: binding as u32, descriptor_type, payload }
}

/// The writes for the bindings below `n`: one per binding of the layout, in
/// binding order.
pub open spec fn writes_upto(infos: Seq<Option<VkDescriptorSetEntryInfo>>, bindings: Seq<VkBoundResource>, n: int) -> Seq<DescriptorWrite>
    decreases n,
{
    if n <= 0 {
        Seq::empty()
    } else {
        let before = writes_upto(infos, bindings, n - 1);
        match infos[n - 1] {
            Some(info) => before.push(write_of(n - 1, info.descriptor_type, bindings[n - 1])),
            None => before,
        }
    }
}

fn write_of_exec(binding: usize, descriptor_type: i32, resource: VkBoundResource) -> (r: DescriptorWrite)
    requires
        binding < BINDINGS_PER_SET,
        resource_fits(resource, descriptor_type),
    ensures
        r == write_of(binding as int, descriptor_type, resource),
{
    let dynamic = descriptor_type == vk::DESCRIPTOR_TYPE_UNIFORM_BUFFER_DYNAMIC
        || descriptor_type == vk::DESCRIPTOR_TYPE_STORAGE_BUFFER_DYNAMIC;
    let payload = match resource {
        VkBoundResource::UniformBuffer { buffer, slice_offset, offset, length, .. } => DescriptorPayload::Buffer {
            buffer,
            offset: if dynamic { 0 } else { (slice_offset + offset) as u64 },
            range: length as u64,
        },
        VkBoundResource::StorageBuffer { buffer, slice_offset, offset, length, .. } => DescriptorPayload::Buffer {
            buffer,
            offset: if dynamic { 0 } else { (slice_offset + offset) as u64 },
            range: length as u64,
        },
        VkBoundResource::StorageTexture(view) => DescriptorPayload::Image {
            view,
            sampler: 0,
            layout: vk::IMAGE_LAYOUT_GENERAL,
        },
        VkBoundResource::SampledTexture(view) => DescriptorPayload::Image {
            view,
            sampler: 0,
            layout: vk::IMAGE_LAYOUT_SHADER_READ_ONLY_OPTIMAL,
        },
        VkBoundResource::SampledTextureAndSampler(view, sampler) => DescriptorPayload::Image {
            view,
            sampler,
            layout: vk::IMAGE_LAYOUT_SHADER_READ_ONLY_OPTIMAL,
        },
        VkBoundResource::Sampler(sampler) => DescriptorPayload::Image {
            view: 0,
            sampler,
            layout: vk::IMAGE_LAYOUT_UNDEFINED,
        },
        VkBoundResource::AccelerationStructure(handle) => DescriptorPayload::AccelerationStructure(handle),
        VkBoundResource::Unbound => DescriptorPayload::AccelerationStructure(0),
    };
    DescriptorWrite { binding: binding as u32, descriptor_type, payload }
}

/// The writes that fill a new descriptor set of `layout` with `bindings`: one
/// per binding of the layout, in binding order, each with the layout's type.
pub fn descriptor_set_writes(layout: &VkDescriptorSetLayout, bindings: &Vec<VkBoundResource>) -> (r: Vec<DescriptorWrite>)
    requires
        layout.wf(),
        bindings.len() == BINDINGS_PER_SET,
        bindings_fit(layout.binding_infos@, bindings@),
    ensures
        r@ == writes_upto(layout.binding_infos@, bindings@, BINDINGS_PER_SET as int),
{
    let mut writes: Vec<DescriptorWrite> = Vec::new();
    let mut i: usize = 0;
    while i < BINDINGS_PER_SET
        invariant
            i <= BINDINGS_PER_SET,
            layout.wf(),
            bindings.len() == BINDINGS_PER_SET,
            bindings_fit(layout.binding_infos@, bindings@),
            writes@ == writes_upto(layout.binding_infos@, bindings@, i as int),
        decreases BINDINGS_PER_SET - i,
    {
        match layout.binding_infos[i] {
            Some(info) => {
                assert(resource_fits(bindings@[i as int], info.descriptor_type));
                let w = write_of_exec(i, info.descriptor_type, bindings[i]);
                writes.push(w);
            },
            None => {},
        }
        i = i + 1;
    }
    writes
}


/// A buffer bound with a dynamic offset hands that offset over when its set is
/// bound: where its slice starts plus the offset within the slice.
pub open spec fn dynamic_offset_of(resource: VkBoundResource) -> Option<u64> {
    match resource {
        VkBoundResource::UniformBuffer { slice_offset, offset, .. } => Some((slice_offset + offset) as u64),
        VkBoundResource::StorageBuffer { slice_offset, offset, .. } => Some((slice_offset + offset) as u64),
        _ => None,
    }
}

/// The dynamic offsets of the bindings below `n`, in binding order.
pub open spec fn dynamic_offsets_upto(infos: Seq<Option<VkDescriptorSetEntryInfo>>, bindings: Seq<VkBoundResource>, n: int) -> Seq<u64>
    decreases n,
{
    if n <= 0 {
        Seq::empty()
    } else {
        let before = dynamic_offsets_upto(infos, bindings, n - 1);
        match infos[n - 1] {
            Some(info) => if is_dynamic_type(info.descriptor_type) {
                match dynamic_offset_of(bindings[n - 1]) {
                    Some(o) => before.push(o),
                    None => before,
                }
            } else {
                before
            },
            None => before,
        }
    }
}

/// The buffers bound with dynamic offsets start below the end of memory, and
/// there are no more of them than a set can hold.
pub open spec fn dynamic_offsets_fit(infos: Seq<Option<VkDescriptorSetEntryInfo>>, bindings: Seq<VkBoundResource>) -> bool {
    &&& dynamic_offsets_upto(infos, bindings, BINDINGS_PER_SET as int).len() <= MAX_DYNAMIC_OFFSETS
    &&& forall|i: int| 0 <= i < bindings.len() ==> match #[trigger] bindings[i] {
        VkBoundResource::UniformBuffer { slice_offset, offset, .. } => slice_offset + offset <= usize::MAX,
        VkBoundResource::StorageBuffer { slice_offset, offset, .. } => slice_offset + offset <= usize::MAX,
        _ => true,
    }
}

proof fn lemma_dynamic_offsets_grow(infos: Seq<Option<VkDescriptorSetEntryInfo>>, bindings: Seq<VkBoundResource>, i: int, j: int)
    requires
        0 <= i <= j,
    ensures
        dynamic_offsets_upto(infos, bindings, i).len() <= dynamic_offsets_upto(infos, bindings, j).len(),
    decreases j - i,
{
    if i < j {
        lemma_dynamic_offsets_grow(infos, bindings, i, j - 1);
    }
}

/// The dynamic offsets to pass when a set of `layout` with `bindings` is bound.
pub fn dynamic_offsets(layout: &VkDescriptorSetLayout, bindings: &Vec<VkBoundResource>) -> (r: Vec<u64>)
    requires
        layout.wf(),
        bindings.len() == BINDINGS_PER_SET,
        dynamic_offsets_fit(layout.binding_infos@, bindings@),
    ensures
        r@ == dynamic_offsets_upto(layout.binding_infos@, bindings@, BINDINGS_PER_SET as int),
        r.len() <= MAX_DYNAMIC_OFFSETS,
{
    let mut offsets: Vec<u64> = Vec::new();
    let mut i: usize = 0;
    while i < BINDINGS_PER_SET
        invariant
            i <= BINDINGS_PER_SET,
            layout.wf(),
            bindings.len() == BINDINGS_PER_SET,
            dynamic_offsets_fit(layout.binding_infos@, bindings@),
            offsets@ == dynamic_offsets_upto(layout.binding_infos@, bindings@, i as int),
        decreases BINDINGS_PER_SET - i,
    {
        proof {
            lemma_dynamic_offsets_grow(layout.binding_infos@, bindings@, i + 1, BINDINGS_PER_SET as int);
        }
        match layout.binding_infos[i] {
            Some(info) => {
                if info.descriptor_type == vk::DESCRIPTOR_TYPE_STORAGE_BUFFER_DYNAMIC
                    || info.descriptor_type == vk::DESCRIPTOR_TYPE_UNIFORM_BUFFER_DYNAMIC {
                    match bindings[i] {
                        VkBoundResource::UniformBuffer { slice_offset, offset, .. } => {
                            offsets.push((slice_offset + offset) as u64);
                        },
                        VkBoundResource::StorageBuffer { slice_offset, offset, .. } => {
                            offsets.push((slice_offset + offset) as u64);
                        },
                        _ => {},
                    }
                }
            },
            None => {},
        }
        i = i + 1;
    }
    offsets
}

/// A descriptor set in the cache: its handle, its layout, what it was filled
/// with, and the frame it was last used in.
#[derive(Debug)]
pub struct DescriptorSetCacheEntry {
    pub set: u64,
    pub layout: u64,
    pub layout_bindings: Vec<Option<VkDescriptorSetEntryInfo>>,
    pub bindings: Vec<VkBoundResource>,
    pub last_used_frame: u64,
}

/// A cache entry as values.
pub struct CacheEntryModel {
    pub set: u64,
    pub layout: u64,
    pub layout_bindings: Seq<Option<VkDescriptorSetEntryInfo>>,
    pub bindings: Seq<VkBoundResource>,
    pub last_used_frame: u64,
}

impl DescriptorSetCacheEntry {
    pub open spec fn model(&self) -> CacheEntryModel {
        CacheEntryModel {
            set: self.set,
            layout: self.layout,
            layout_bindings: self.layout_bindings@,
            bindings: self.bindings@,
            last_used_frame: self.last_used_frame,
        }
    }

    /// A copy of the entry.
    pub fn duplicate(&self) -> (r: Self)
        ensures
            r.model() == self.model(),
    {
        let layout_bindings = self.layout_bindings.clone();
        let bindings = self.bindings.clone();
        assert(layout_bindings@ =~= self.layout_bindings@);
        assert(bindings@ =~= self.bindings@);
        DescriptorSetCacheEntry {
            set: self.set,
            layout: self.layout,
            layout_bindings,
            bindings,
            last_used_frame: self.last_used_frame,
        }
    }
}

pub open spec fn cache_model(cache: Seq<DescriptorSetCacheEntry>) -> Seq<CacheEntryModel> {
    cache.map_values(|e: DescriptorSetCacheEntry| e.model())
}

/// A cached binding can stand for a wanted one. A binding the layout does not
/// have matches nothing. A buffer with a dynamic offset matches any binding of
/// the same Vulkan buffer with the same length, wherever it starts; any other
/// binding only an equal one.
pub open spec fn slot_compatible(info: Option<VkDescriptorSetEntryInfo>, cached: VkBoundResource, wanted: VkBoundResource) -> bool {
    match info {
        None => false,
        Some(i) => if !is_dynamic_type(i.descriptor_type) {
            cached == wanted
        } else {
            match (cached, wanted) {
                (
                    VkBoundResource::UniformBuffer { buffer: b1, length: l1, .. },
                    VkBoundResource::UniformBuffer { buffer: b2, length: l2, .. },
                ) => b1 == b2 && l1 == l2,
                (
                    VkBoundResource::StorageBuffer { buffer: b1, length: l1, .. },
                    VkBoundResource::StorageBuffer { buffer: b2, length: l2, .. },
                ) => b1 == b2 && l1 == l2,
                _ => false,
            }
        },
    }
}

/// A cached set can be used for `bindings` with the layout `layout`.
pub open spec fn entry_compatible(e: CacheEntryModel, layout: u64, bindings: Seq<VkBoundResource>) -> bool {
    &&& e.layout == layout
    &&& forall|i: int| 0 <= i < e.bindings.len() ==> slot_compatible(
        #[trigger] e.layout_bindings[i],
        e.bindings[i],
        bindings[i],
    )
}

/// The first compatible cached set from position `i` on.
pub open spec fn first_compatible_from(cache: Seq<CacheEntryModel>, layout: u64, bindings: Seq<VkBoundResource>, i: int) -> Option<int>
    decreases cache.len() - i,
{
    if i < 0 || i >= cache.len() {
        None
    } else if entry_compatible(cache[i], layout, bindings) {
        Some(i)
    } else {
        first_compatible_from(cache, layout, bindings, i + 1)
    }
}

proof fn lemma_compatible_writes_upto(infos: Seq<Option<VkDescriptorSetEntryInfo>>, cached: Seq<VkBoundResource>, wanted: Seq<VkBoundResource>, n: int)
    requires
        0 <= n <= infos.len(),
        n <= cached.len(),
        forall|i: int| 0 <= i < n ==> slot_compatible(#[trigger] infos[i], cached[i], wanted[i]),
    ensures
        writes_upto(infos, cached, n) == writes_upto(infos, wanted, n),
    decreases n,
{
    if n > 0 {
        lemma_compatible_writes_upto(infos, cached, wanted, n - 1);
        assert(slot_compatible(infos[n - 1], cached[n - 1], wanted[n - 1]));
    }
}

proof fn lemma_first_compatible_found(cache: Seq<CacheEntryModel>, layout: u64, bindings: Seq<VkBoundResource>, i: int)
    requires
        first_compatible_from(cache, layout, bindings, i) is Some,
    ensures
        ({
            let k = first_compatible_from(cache, layout, bindings, i).unwrap();
            0 <= k < cache.len() && entry_compatible(cache[k], layout, bindings)
        }),
    decreases cache.len() - i,
{
    if 0 <= i < cache.len() && !entry_compatible(cache[i], layout, bindings) {
        lemma_first_compatible_found(cache, layout, bindings, i + 1);
    }
}

/// Law: a cached set that the lookup finds was filled with exactly the
/// descriptors wanted. It has the wanted layout, and the writes that filled it
/// equal the writes of the wanted bindings: same resources, and for buffers
/// with dynamic offsets the same Vulkan buffer and the same range. Only the
/// dynamic offsets, passed when the set is bound, may differ.
pub proof fn law_found_set_has_wanted_writes(cache: Seq<CacheEntryModel>, layout: u64, bindings: Seq<VkBoundResource>)
    requires
        forall|i: int| 0 <= i < cache.len() ==> entry_wf(#[trigger] cache[i]),
    ensures
        first_compatible_from(cache, layout, bindings, 0) matches Some(k) ==> ({
            &&& 0 <= k < cache.len()
            &&& cache[k].layout == layout
            &&& writes_upto(cache[k].layout_bindings, cache[k].bindings, BINDINGS_PER_SET as int)
                == writes_upto(cache[k].layout_bindings, bindings, BINDINGS_PER_SET as int)
        }),
{
    if first_compatible_from(cache, layout, bindings, 0) is Some {
        lemma_first_compatible_found(cache, layout, bindings, 0);
        let k = first_compatible_from(cache, layout, bindings, 0).unwrap();
        let e = cache[k];
        assert(entry_wf(e));
        assert forall|i: int| 0 <= i < BINDINGS_PER_SET as int implies slot_compatible(#[trigger] e.layout_bindings[i], e.bindings[i], bindings[i]) by {
            assert(0 <= i < e.bindings.len());
        }
        lemma_compatible_writes_upto(e.layout_bindings, e.bindings, bindings, BINDINGS_PER_SET as int);
    }
}

/// A cache entry holds sixteen bindings and a binding table of their layout.
pub open spec fn entry_wf(e: CacheEntryModel) -> bool {
    e.bindings.len() == BINDINGS_PER_SET && e.layout_bindings.len() == BINDINGS_PER_SET
}

fn slot_compatible_exec(info: Option<VkDescriptorSetEntryInfo>, cached: VkBoundResource, wanted: VkBoundResource) -> (r: bool)
    ensures
        r == slot_compatible(info, cached, wanted),
{
    match info {
        None => false,
        Some(i) => {
            if i.descriptor_type != vk::DESCRIPTOR_TYPE_UNIFORM_BUFFER_DYNAMIC
                && i.descriptor_type != vk::DESCRIPTOR_TYPE_STORAGE_BUFFER_DYNAMIC {
                cached == wanted
            } else {
                match (cached, wanted) {
                    (
                        VkBoundResource::UniformBuffer { buffer: b1, length: l1, .. },
                        VkBoundResource::UniformBuffer { buffer: b2, length: l2, .. },
                    ) => b1 == b2 && l1 == l2,
                    (
                        VkBoundResource::StorageBuffer { buffer: b1, length: l1, .. },
                        VkBoundResource::StorageBuffer { buffer: b2, length: l2, .. },
                    ) => b1 == b2 && l1 == l2,
                    _ => false,
                }
            }
        },
    }
}

fn entry_compatible_exec(e: &DescriptorSetCacheEntry, layout: u64, bindings: &Vec<VkBoundResource>) -> (r: bool)
    requires
        entry_wf(e.model()),
        bindings.len() == BINDINGS_PER_SET,
    ensures
        r == entry_compatible(e.model(), layout, bindings@),
{
    if e.layout != layout {
        return false;
    }
    let mut i: usize = 0;
    while i < e.bindings.len()
        invariant
            i <= e.bindings.len(),
            entry_wf(e.model()),
            bindings.len() == BINDINGS_PER_SET,
            forall|j: int| 0 <= j < i ==> slot_compatible(
                #[trigger] e.layout_bindings@[j],
                e.bindings@[j],
                bindings@[j],
            ),
        decreases e.bindings.len() - i,
    {
        if !slot_compatible_exec(e.layout_bindings[i], e.bindings[i], bindings[i]) {
            return false;
        }
        i = i + 1;
    }
    true
}


/// The position of a slot in the flat binding table of the binding manager.
pub open spec fn slot_position(frequency: BindingFrequency, slot: int) -> int {
    frequency_index(frequency) * BINDINGS_PER_SET + slot
}

/// What is bound, which sets must be rebuilt, and the descriptor sets made so
/// far. The binding table holds sixteen slots for each of the four sets, one
/// set after the other.
#[derive(Debug)]
pub struct VkBindingManager {
    pub dirty: u32,
    pub bindings: Vec<VkBoundResource>,
    pub transient_cache: Vec<DescriptorSetCacheEntry>,
    pub permanent_cache: Vec<DescriptorSetCacheEntry>,
    pub last_cleanup_frame: u64,
}

/// What a lookup of a descriptor set found.
#[derive(Debug)]
pub enum SetLookup {
    /// The layout has no bindings; no set is bound.
    NoSet,
    /// A cached set fits; it is bound with these dynamic offsets.
    Cached { set: u64, dynamic_offsets: Vec<u64> },
    /// No cached set fits; a new one must be made, filled and recorded with
    /// `add_created_set`, and bound with these dynamic offsets.
    Create { dynamic_offsets: Vec<u64> },
}

/// The binding manager after `bind`: a binding that differs from the bound one
/// replaces it and marks its set dirty; binding the bound resource again
/// changes nothing.
pub open spec fn bind_model(dirty: u32, bindings: Seq<VkBoundResource>, frequency: BindingFrequency, slot: int, r: VkBoundResource) -> (u32, Seq<VkBoundResource>) {
    let pos = slot_position(frequency, slot);
    if bindings[pos] == r {
        (dirty, bindings)
    } else {
        (dirty | dirty_flag(frequency), bindings.update(pos, r))
    }
}

/// The frequencies whose sets `finish` hands out, in the order they are made:
/// those that are dirty and that the pipeline layout has a set for.
pub open spec fn finish_order(dirty: u32, has_layout: Seq<bool>) -> Seq<BindingFrequency> {
    let s = Seq::<BindingFrequency>::empty();
    let s = if dirty & DIRTY_PER_DRAW != 0 && has_layout[frequency_index(BindingFrequency::PerDraw)] {
        s.push(BindingFrequency::PerDraw)
    } else {
        s
    };
    let s = if dirty & DIRTY_PER_FRAME != 0 && has_layout[frequency_index(BindingFrequency::PerFrame)] {
        s.push(BindingFrequency::PerFrame)
    } else {
        s
    };
    let s = if dirty & DIRTY_PER_MATERIAL != 0 && has_layout[frequency_index(BindingFrequency::PerMaterial)] {
        s.push(BindingFrequency::PerMaterial)
    } else {
        s
    };
    s
}

/// The frames between two cleanups of the permanent cache.
pub const FRAMES_BETWEEN_CLEANUP: u64 = 5u64;

/// How long a set stays in the permanent cache.
pub const MAX_FRAMES_SET_UNUSED: u64 = 5u64;

/// A cleanup in frame `frame` is due.
pub open spec fn cleanup_due(last_cleanup_frame: u64, frame: u64) -> bool {
    frame - last_cleanup_frame > FRAMES_BETWEEN_CLEANUP
}

/// The entries of the permanent cache that a cleanup in frame `frame` keeps:
/// those last used at least `MAX_FRAMES_SET_UNUSED` frames before.
pub open spec fn kept_by_cleanup(cache: Seq<CacheEntryModel>, frame: u64) -> Seq<CacheEntryModel> {
    cache.filter(|e: CacheEntryModel| frame - e.last_used_frame >= MAX_FRAMES_SET_UNUSED)
}

impl VkBindingManager {
    pub open spec fn wf(&self) -> bool {
        &&& self.bindings.len() == SET_COUNT * BINDINGS_PER_SET
        &&& forall|i: int| 0 <= i < self.transient_cache.len() ==> entry_wf(#[trigger] self.transient_cache@[i].model())
        &&& forall|i: int| 0 <= i < self.permanent_cache.len() ==> entry_wf(#[trigger] self.permanent_cache@[i].model())
    }

    pub open spec fn transient_model(&self) -> Seq<CacheEntryModel> {
        cache_model(self.transient_cache@)
    }

    pub open spec fn permanent_model(&self) -> Seq<CacheEntryModel> {
        cache_model(self.permanent_cache@)
    }

    /// The resources bound to the sixteen slots of the sets of `frequency`.
    pub open spec fn bound(&self, frequency: BindingFrequency) -> Seq<VkBoundResource> {
        let start = frequency_index(frequency) * BINDINGS_PER_SET;
        self.bindings@.subrange(start, start + BINDINGS_PER_SET)
    }

    /// A manager with nothing bound, nothing dirty and nothing cached.
    pub fn new() -> (r: Self)
        ensures
            r.wf(),
            r.dirty == 0,
            forall|i: int| 0 <= i < r.bindings.len() ==> r.bindings@[i] == VkBoundResource::Unbound,
            r.transient_cache.len() == 0,
            r.permanent_cache.len() == 0,
            r.last_cleanup_frame == 0,
    {
        let mut bindings: Vec<VkBoundResource> = Vec::new();
        let mut i: usize = 0;
        while i < SET_COUNT * BINDINGS_PER_SET
            invariant
                i <= SET_COUNT * BINDINGS_PER_SET,
                bindings.len() == i,
                forall|j: int| 0 <= j < i ==> bindings@[j] == VkBoundResource::Unbound,
            decreases SET_COUNT * BINDINGS_PER_SET - i,
        {
            bindings.push(VkBoundResource::Unbound);
            i = i + 1;
        }
        VkBindingManager {
            dirty: 0,
            bindings,
            transient_cache: Vec::new(),
            permanent_cache: Vec::new(),
            last_cleanup_frame: 0,
        }
    }

    /// Forgets what is bound and the transient sets, which the reset of their
    /// pools frees.
    pub fn reset(&mut self)
        requires
            old(self).wf(),
        ensures
            final(self).wf(),
            final(self).dirty == 0,
            forall|i: int| 0 <= i < final(self).bindings.len() ==> final(self).bindings@[i] == VkBoundResource::Unbound,
            final(self).transient_cache.len() == 0,
            final(self).permanent_model() == old(self).permanent_model(),
            final(self).last_cleanup_frame == old(self).last_cleanup_frame,
    {
        self.dirty = 0;
        let mut i: usize = 0;
        while i < self.bindings.len()
            invariant
                i <= self.bindings.len(),
                self.bindings.len() == SET_COUNT * BINDINGS_PER_SET,
                forall|j: int| 0 <= j < i ==> self.bindings@[j] == VkBoundResource::Unbound,
                self.permanent_cache@ == old(self).permanent_cache@,
                self.last_cleanup_frame == old(self).last_cleanup_frame,
                self.dirty == 0,
                forall|j: int| 0 <= j < self.permanent_cache.len() ==> entry_wf(#[trigger] self.permanent_cache@[j].model()),
            decreases self.bindings.len() - i,
        {
            self.bindings.set(i, VkBoundResource::Unbound);
            i = i + 1;
        }
        self.transient_cache = Vec::new();
    }

    /// Binds `binding` to `slot` of the sets of `frequency`; a change marks
    /// those sets dirty.
    pub fn bind(&mut self, frequency: BindingFrequency, slot: u32, binding: VkBoundResource)
        requires
            old(self).wf(),
            slot < BINDINGS_PER_SET,
        ensures
            final(self).wf(),
            (final(self).dirty, final(self).bindings@) == bind_model(
                old(self).dirty,
                old(self).bindings@,
                frequency,
                slot as int,
                binding,
            ),
            final(self).transient_model() == old(self).transient_model(),
            final(self).permanent_model() == old(self).permanent_model(),
            final(self).last_cleanup_frame == old(self).last_cleanup_frame,
    {
        let pos = frequency_index_exec(frequency) * BINDINGS_PER_SET + slot as usize;
        let identical = self.bindings[pos] == binding;
        if !identical {
            self.dirty = self.dirty | dirty_descriptor_sets_from(frequency);
            self.bindings.set(pos, binding);
        }
    }

    /// Marks every set dirty, the bindless texture set too.
    pub fn mark_all_dirty(&mut self)
        ensures
            final(self).dirty == old(self).dirty | DIRTY_PER_DRAW | DIRTY_PER_MATERIAL | DIRTY_PER_FRAME
                | DIRTY_BINDLESS_TEXTURES,
            final(self).bindings@ == old(self).bindings@,
            final(self).transient_cache@ == old(self).transient_cache@,
            final(self).permanent_cache@ == old(self).permanent_cache@,
            final(self).last_cleanup_frame == old(self).last_cleanup_frame,
    {
        self.dirty = self.dirty | DIRTY_PER_DRAW;
        self.dirty = self.dirty | DIRTY_PER_MATERIAL;
        self.dirty = self.dirty | DIRTY_PER_FRAME;
        self.dirty = self.dirty | DIRTY_BINDLESS_TEXTURES;
    }

    pub fn dirty_sets(&self) -> (r: u32)
        ensures
            r == self.dirty,
    {
        self.dirty
    }

    /// The resources bound to the sets of `frequency`.
    pub fn bound_resources(&self, frequency: BindingFrequency) -> (r: Vec<VkBoundResource>)
        requires
            self.wf(),
        ensures
            r@ == self.bound(frequency),
    {
        let start = frequency_index_exec(frequency) * BINDINGS_PER_SET;
        let mut r: Vec<VkBoundResource> = Vec::new();
        let mut i: usize = 0;
        while i < BINDINGS_PER_SET
            invariant
                i <= BINDINGS_PER_SET,
                start == frequency_index(frequency) * BINDINGS_PER_SET,
                self.bindings.len() == SET_COUNT * BINDINGS_PER_SET,
                r@ == self.bindings@.subrange(start as int, start + i),
            decreases BINDINGS_PER_SET - i,
        {
            r.push(self.bindings[start + i]);
            i = i + 1;
        }
        r
    }
}


/// The cache after a lookup: the first compatible set, if any, is marked as
/// used in `frame`.
pub open spec fn touched(cache: Seq<CacheEntryModel>, found: Option<int>, frame: u64) -> Seq<CacheEntryModel> {
    match found {
        Some(i) => cache.update(i, CacheEntryModel { last_used_frame: frame, ..cache[i] }),
        None => cache,
    }
}

proof fn lemma_first_compatible_bounds(cache: Seq<CacheEntryModel>, layout: u64, bindings: Seq<VkBoundResource>, i: int)
    ensures
        match first_compatible_from(cache, layout, bindings, i) {
            Some(k) => i <= k < cache.len() && entry_compatible(cache[k], layout, bindings),
            None => true,
        },
    decreases cache.len() - i,
{
    if 0 <= i < cache.len() && !entry_compatible(cache[i], layout, bindings) {
        lemma_first_compatible_bounds(cache, layout, bindings, i + 1);
    }
}

fn find_in_cache(cache: &mut Vec<DescriptorSetCacheEntry>, frame: u64, layout: u64, bindings: &Vec<VkBoundResource>) -> (r: Option<u64>)
    requires
        bindings.len() == BINDINGS_PER_SET,
        forall|i: int| 0 <= i < old(cache).len() ==> entry_wf(#[trigger] old(cache)@[i].model()),
    ensures
        forall|i: int| 0 <= i < final(cache).len() ==> entry_wf(#[trigger] final(cache)@[i].model()),
        ({
            let found = first_compatible_from(cache_model(old(cache)@), layout, bindings@, 0);
            &&& cache_model(final(cache)@) == touched(cache_model(old(cache)@), found, frame)
            &&& r == match found {
                Some(k) => Some(cache_model(old(cache)@)[k].set),
                None => None,
            }
        }),
{
    let ghost m0 = cache_model(cache@);
    let mut i: usize = 0;
    while i < cache.len()
        invariant
            i <= cache.len(),
            cache@ == old(cache)@,
            m0 == cache_model(cache@),
            bindings.len() == BINDINGS_PER_SET,
            forall|j: int| 0 <= j < cache.len() ==> entry_wf(#[trigger] cache@[j].model()),
            first_compatible_from(m0, layout, bindings@, 0) == first_compatible_from(m0, layout, bindings@, i as int),
        decreases cache.len() - i,
    {
        assert(m0[i as int] == cache@[i as int].model());
        if entry_compatible_exec(&cache[i], layout, bindings) {
            let mut e = cache[i].duplicate();
            e.last_used_frame = frame;
            let set = e.set;
            cache.set(i, e);
            assert(cache_model(cache@) =~= touched(m0, Some(i as int), frame));
            return Some(set);
        }
        i = i + 1;
    }
    None
}

impl VkBindingManager {
    /// The first cached set that fits `bindings` with `layout`, in the
    /// permanent or the transient cache; it is marked as used in `frame`.
    pub fn find_compatible_set(&mut self, frame: u64, layout: &VkDescriptorSetLayout, bindings: &Vec<VkBoundResource>, use_permanent_cache: bool) -> (r: Option<u64>)
        requires
            old(self).wf(),
            bindings.len() == BINDINGS_PER_SET,
        ensures
            final(self).wf(),
            final(self).dirty == old(self).dirty,
            final(self).bindings@ == old(self).bindings@,
            final(self).last_cleanup_frame == old(self).last_cleanup_frame,
            ({
                let cache = if use_permanent_cache { old(self).permanent_model() } else { old(self).transient_model() };
                let found = first_compatible_from(cache, layout.handle, bindings@, 0);
                &&& r == match found {
                    Some(k) => Some(cache[k].set),
                    None => None,
                }
                &&& if use_permanent_cache {
                    &&& final(self).permanent_model() == touched(cache, found, frame)
                    &&& final(self).transient_model() == old(self).transient_model()
                } else {
                    &&& final(self).transient_model() == touched(cache, found, frame)
                    &&& final(self).permanent_model() == old(self).permanent_model()
                }
            }),
    {
        if use_permanent_cache {
            find_in_cache(&mut self.permanent_cache, frame, layout.handle, bindings)
        } else {
            find_in_cache(&mut self.transient_cache, frame, layout.handle, bindings)
        }
    }

    /// Records a set the device made for `bindings` with `layout` in the
    /// transient cache, as used in `frame`.
    pub fn add_created_set(&mut self, frame: u64, layout: &VkDescriptorSetLayout, bindings: &Vec<VkBoundResource>, set: u64)
        requires
            old(self).wf(),
            layout.wf(),
            bindings.len() == BINDINGS_PER_SET,
        ensures
            final(self).wf(),
            final(self).dirty == old(self).dirty,
            final(self).bindings@ == old(self).bindings@,
            final(self).last_cleanup_frame == old(self).last_cleanup_frame,
            final(self).permanent_model() == old(self).permanent_model(),
            final(self).transient_model() == old(self).transient_model().push(
                CacheEntryModel {
                    set,
                    layout: layout.handle,
                    layout_bindings: layout.binding_infos@,
                    bindings: bindings@,
                    last_used_frame: frame,
                },
            ),
    {
        let layout_bindings = layout.binding_infos.clone();
        let entry_bindings = bindings.clone();
        assert(layout_bindings@ =~= layout.binding_infos@);
        assert(entry_bindings@ =~= bindings@);
        let e = DescriptorSetCacheEntry {
            set,
            layout: layout.handle,
            layout_bindings,
            bindings: entry_bindings,
            last_used_frame: frame,
        };
        self.transient_cache.push(e);
        assert(self.transient_model() =~= old(self).transient_model().push(e.model()));
    }

    /// Looks up the set to bind for `bindings` with `layout`: a cached
    /// transient set that fits, or the need for a new one, with the dynamic
    /// offsets to bind it with. A found set is marked as used in `frame`.
    pub fn get_or_create_set(&mut self, frame: u64, layout: &VkDescriptorSetLayout, bindings: &Vec<VkBoundResource>) -> (r: SetLookup)
        requires
            old(self).wf(),
            layout.wf(),
            bindings.len() == BINDINGS_PER_SET,
            dynamic_offsets_fit(layout.binding_infos@, bindings@),
        ensures
            final(self).wf(),
            final(self).dirty == old(self).dirty,
            final(self).bindings@ == old(self).bindings@,
            final(self).last_cleanup_frame == old(self).last_cleanup_frame,
            final(self).permanent_model() == old(self).permanent_model(),
            ({
                let cache = old(self).transient_model();
                let found = first_compatible_from(cache, layout.handle, bindings@, 0);
                let offsets = dynamic_offsets_upto(layout.binding_infos@, bindings@, BINDINGS_PER_SET as int);
                &&& final(self).transient_model() == touched(cache, found, frame)
                &&& match r {
                    SetLookup::NoSet => false,
                    SetLookup::Cached { set, dynamic_offsets } => found is Some && set == cache[found->0].set
                        && dynamic_offsets@ == offsets,
                    SetLookup::Create { dynamic_offsets } => found is None && dynamic_offsets@ == offsets,
                }
            }),
    {
        if layout.binding_count() == 0 {
            return SetLookup::NoSet;
        }
        let cached = self.find_compatible_set(frame, layout, bindings, false);
        let dynamic_offsets = dynamic_offsets(layout, bindings);
        match cached {
            Some(set) => SetLookup::Cached { set, dynamic_offsets },
            None => SetLookup::Create { dynamic_offsets },
        }
    }

    /// Drops long unused sets from the permanent cache, at most every few
    /// frames.
    pub fn clean(&mut self, frame: u64)
        requires
            old(self).wf(),
            frame >= old(self).last_cleanup_frame,
            cleanup_due(old(self).last_cleanup_frame, frame) ==> forall|i: int|
                0 <= i < old(self).permanent_cache.len() ==> (#[trigger] old(self).permanent_cache@[i]).last_used_frame
                    <= frame,
        ensures
            final(self).wf(),
            final(self).dirty == old(self).dirty,
            final(self).bindings@ == old(self).bindings@,
            final(self).transient_model() == old(self).transient_model(),
            if cleanup_due(old(self).last_cleanup_frame, frame) {
                &&& final(self).permanent_model() == kept_by_cleanup(old(self).permanent_model(), frame)
                &&& final(self).last_cleanup_frame == frame
            } else {
                &&& final(self).permanent_model() == old(self).permanent_model()
                &&& final(self).last_cleanup_frame == old(self).last_cleanup_frame
            },
    {
        if frame - self.last_cleanup_frame <= FRAMES_BETWEEN_CLEANUP {
            return;
        }
        let ghost m0 = self.permanent_model();
        let mut kept: Vec<DescriptorSetCacheEntry> = Vec::new();
        let mut i: usize = 0;
        while i < self.permanent_cache.len()
            invariant
                i <= self.permanent_cache.len(),
                self.permanent_cache@ == old(self).permanent_cache@,
                m0 == cache_model(self.permanent_cache@),
                forall|j: int| 0 <= j < self.permanent_cache.len() ==> (#[trigger] self.permanent_cache@[j]).last_used_frame <= frame,
                forall|j: int| 0 <= j < self.permanent_cache.len() ==> entry_wf(#[trigger] self.permanent_cache@[j].model()),
                forall|j: int| 0 <= j < kept.len() ==> entry_wf(#[trigger] kept@[j].model()),
                cache_model(kept@) == kept_by_cleanup(m0.take(i as int), frame),
            decreases self.permanent_cache.len() - i,
        {
            let e = &self.permanent_cache[i];
            proof {
                assert(m0.take(i as int + 1) =~= m0.take(i as int).push(e.model()));
                m0.take(i as int).lemma_filter_push(
                    e.model(),
                    |e: CacheEntryModel| frame - e.last_used_frame >= MAX_FRAMES_SET_UNUSED,
                );
            }
            if frame - e.last_used_frame >= MAX_FRAMES_SET_UNUSED {
                let d = e.duplicate();
                kept.push(d);
                assert(cache_model(kept@) =~= kept_by_cleanup(m0.take(i as int), frame).push(d.model()));
            }
            i = i + 1;
        }
        assert(m0.take(self.permanent_cache.len() as int) =~= m0);
        self.permanent_cache = kept;
        self.last_cleanup_frame = frame;
    }

    /// Ends the binding for a draw or dispatch: where any set is dirty, cleans
    /// the caches and hands out the frequencies whose sets must be bound, in
    /// the order their sets are made; nothing is dirty afterwards.
    /// `has_layout` says for each binding frequency whether the pipeline
    /// layout has a set for it.
    pub fn finish(&mut self, frame: u64, has_layout: &Vec<bool>) -> (r: Vec<BindingFrequency>)
        requires
            old(self).wf(),
            has_layout.len() == 3,
            frame >= old(self).last_cleanup_frame,
            forall|i: int|
                0 <= i < old(self).permanent_cache.len() ==> (#[trigger] old(self).permanent_cache@[i]).last_used_frame
                    <= frame,
        ensures
            final(self).wf(),
            final(self).bindings@ == old(self).bindings@,
            final(self).transient_model() == old(self).transient_model(),
            old(self).dirty == 0 ==> {
                &&& r@.len() == 0
                &&& final(self).dirty == 0
                &&& final(self).permanent_model() == old(self).permanent_model()
                &&& final(self).last_cleanup_frame == old(self).last_cleanup_frame
            },
            old(self).dirty != 0 ==> {
                &&& r@ == finish_order(old(self).dirty, has_layout@)
                &&& final(self).dirty == 0
                &&& if cleanup_due(old(self).last_cleanup_frame, frame) {
                    &&& final(self).permanent_model() == kept_by_cleanup(old(self).permanent_model(), frame)
                    &&& final(self).last_cleanup_frame == frame
                } else {
                    &&& final(self).permanent_model() == old(self).permanent_model()
                    &&& final(self).last_cleanup_frame == old(self).last_cleanup_frame
                }
            },
    {
        let mut r: Vec<BindingFrequency> = Vec::new();
        if self.dirty == 0 {
            return r;
        }
        self.clean(frame);
        if self.dirty & DIRTY_PER_DRAW != 0 && has_layout[0] {
            r.push(BindingFrequency::PerDraw);
        }
        if self.dirty & DIRTY_PER_FRAME != 0 && has_layout[2] {
            r.push(BindingFrequency::PerFrame);
        }
        if self.dirty & DIRTY_PER_MATERIAL != 0 && has_layout[1] {
            r.push(BindingFrequency::PerMaterial);
        }
        self.dirty = 0;
        r
    }
}


/// Law: binding the same resource to the same slot twice is binding it once.
pub proof fn law_bind_idempotent(dirty: u32, bindings: Seq<VkBoundResource>, frequency: BindingFrequency, slot: int, r: VkBoundResource)
    requires
        bindings.len() == SET_COUNT * BINDINGS_PER_SET,
        0 <= slot < BINDINGS_PER_SET,
    ensures
        ({
            let (d1, b1) = bind_model(dirty, bindings, frequency, slot, r);
            bind_model(d1, b1, frequency, slot, r) == (d1, b1)
        }),
{
}

/// Law: a bind changes only its own slot, and marks dirty only the sets of its
/// frequency.
pub proof fn law_bind_touches_one_slot(dirty: u32, bindings: Seq<VkBoundResource>, frequency: BindingFrequency, slot: int, r: VkBoundResource, other: int)
    requires
        bindings.len() == SET_COUNT * BINDINGS_PER_SET,
        0 <= slot < BINDINGS_PER_SET,
        0 <= other < bindings.len(),
        other != slot_position(frequency, slot),
    ensures
        ({
            let (d1, b1) = bind_model(dirty, bindings, frequency, slot, r);
            &&& b1[other] == bindings[other]
            &&& b1[slot_position(frequency, slot)] == r
            &&& (d1 == dirty || d1 == dirty | dirty_flag(frequency))
        }),
{
}

proof fn lemma_first_compatible_some(cache: Seq<CacheEntryModel>, layout: u64, bindings: Seq<VkBoundResource>, i: int, k: int)
    requires
        0 <= i <= k < cache.len(),
        entry_compatible(cache[k], layout, bindings),
    ensures
        first_compatible_from(cache, layout, bindings, i) is Some,
    decreases k - i,
{
    if i < k && !entry_compatible(cache[i], layout, bindings) {
        lemma_first_compatible_some(cache, layout, bindings, i + 1, k);
    }
}

/// Law: a set made for bindings that fill every binding of their layout is
/// found again by a lookup of the same bindings with that layout (or an
/// earlier cached set that fits them is).
pub proof fn law_created_set_is_found_again(
    cache: Seq<CacheEntryModel>,
    set: u64,
    layout: u64,
    infos: Seq<Option<VkDescriptorSetEntryInfo>>,
    bindings: Seq<VkBoundResource>,
    frame: u64,
)
    requires
        infos.len() == BINDINGS_PER_SET,
        bindings.len() == BINDINGS_PER_SET,
        forall|i: int| 0 <= i < infos.len() ==> (#[trigger] infos[i]) is Some,
        bindings_fit(infos, bindings),
    ensures
        first_compatible_from(
            cache.push(CacheEntryModel { set, layout, layout_bindings: infos, bindings, last_used_frame: frame }),
            layout,
            bindings,
            0,
        ) is Some,
{
    let e = CacheEntryModel { set, layout, layout_bindings: infos, bindings, last_used_frame: frame };
    let c = cache.push(e);
    assert forall|i: int| 0 <= i < e.bindings.len() implies slot_compatible(
        #[trigger] e.layout_bindings[i],
        e.bindings[i],
        bindings[i],
    ) by {
        assert(infos[i] is Some);
        assert(resource_fits(bindings[i], infos[i]->0.descriptor_type));
    }
    assert(entry_compatible(e, layout, bindings));
    assert(c[cache.len() as int] == e);
    lemma_first_compatible_some(c, layout, bindings, 0, cache.len() as int);
}

/// Law: a set that a lookup finds in the cache was made with the layout asked
/// for and fits the bindings asked for.
pub proof fn law_found_set_fits(cache: Seq<CacheEntryModel>, layout: u64, bindings: Seq<VkBoundResource>)
    ensures
        match first_compatible_from(cache, layout, bindings, 0) {
            Some(k) => 0 <= k < cache.len() && cache[k].layout == layout && entry_compatible(cache[k], layout, bindings),
            None => forall|i: int| 0 <= i < cache.len() ==> !entry_compatible(#[trigger] cache[i], layout, bindings),
        },
{
    lemma_first_compatible_bounds(cache, layout, bindings, 0);
    lemma_first_compatible_none(cache, layout, bindings, 0);
}

proof fn lemma_first_compatible_none(cache: Seq<CacheEntryModel>, layout: u64, bindings: Seq<VkBoundResource>, i: int)
    requires
        0 <= i,
    ensures
        first_compatible_from(cache, layout, bindings, i) is None ==> forall|j: int|
            i <= j < cache.len() ==> !entry_compatible(#[trigger] cache[j], layout, bindings),
    decreases cache.len() - i,
{
    if i < cache.len() {
        lemma_first_compatible_none(cache, layout, bindings, i + 1);
    }
}

/// The length a buffer binding covers: the given one, or, for `None`, the
/// rest of the slice from `offset` on.
pub open spec fn resolved_length(slice_length: usize, offset: usize, length: Option<usize>) -> usize {
    match length {
        Option::Some(l) => l,
        Option::None => (slice_length - offset) as usize,
    }
}

impl VkBindingManager {
    /// Binds `length` bytes (`None`: the rest of the slice) from `offset` of a
    /// buffer slice as a uniform buffer.
    pub fn bind_uniform_buffer(
        &mut self,
        frequency: BindingFrequency,
        slot: u32,
        slice: u64,
        buffer: u64,
        slice_offset: usize,
        slice_length: usize,
        offset: usize,
        length: Option<usize>,
    )
        requires
            old(self).wf(),
            slot < BINDINGS_PER_SET,
            length is None ==> offset <= slice_length,
            length != Some(0usize),
        ensures
            final(self).wf(),
            (final(self).dirty, final(self).bindings@) == bind_model(
                old(self).dirty,
                old(self).bindings@,
                frequency,
                slot as int,
                VkBoundResource::UniformBuffer {
                    slice,
                    buffer,
                    slice_offset,
                    offset,
                    length: resolved_length(slice_length, offset, length),
                },
            ),
            final(self).transient_model() == old(self).transient_model(),
            final(self).permanent_model() == old(self).permanent_model(),
            final(self).last_cleanup_frame == old(self).last_cleanup_frame,
    {
        let len = match length {
            Option::Some(l) => l,
            Option::None => slice_length - offset,
        };
        self.bind(frequency, slot, VkBoundResource::UniformBuffer { slice, buffer, slice_offset, offset, length: len });
    }

    /// Binds `length` bytes (`None`: the rest of the slice) from `offset` of a
    /// buffer slice as a storage buffer.
    pub fn bind_storage_buffer(
        &mut self,
        frequency: BindingFrequency,
        slot: u32,
        slice: u64,
        buffer: u64,
        slice_offset: usize,
        slice_length: usize,
        offset: usize,
        length: Option<usize>,
    )
        requires
            old(self).wf(),
            slot < BINDINGS_PER_SET,
            length is None ==> offset <= slice_length,
            length != Some(0usize),
        ensures
            final(self).wf(),
            (final(self).dirty, final(self).bindings@) == bind_model(
                old(self).dirty,
                old(self).bindings@,
                frequency,
                slot as int,
                VkBoundResource::StorageBuffer {
                    slice,
                    buffer,
                    slice_offset,
                    offset,
                    length: resolved_length(slice_length, offset, length),
                },
            ),
            final(self).transient_model() == old(self).transient_model(),
            final(self).permanent_model() == old(self).permanent_model(),
            final(self).last_cleanup_frame == old(self).last_cleanup_frame,
    {
        let len = match length {
            Option::Some(l) => l,
            Option::None => slice_length - offset,
        };
        self.bind(frequency, slot, VkBoundResource::StorageBuffer { slice, buffer, slice_offset, offset, length: len });
    }
}

/// How a descriptor pool of the binding manager is made.
pub struct DescriptorPoolSetup {
    pub max_sets: u32,
    pub flags: u32,
    /// Descriptor types with the number of descriptors of each.
    pub pool_sizes: Vec<(i32, u32)>,
}

/// The pool sizes every descriptor pool is made with.
pub open spec fn pool_sizes() -> Seq<(i32, u32)> {
    seq![
        (vk::DESCRIPTOR_TYPE_COMBINED_IMAGE_SAMPLER, 256u32),
        (vk::DESCRIPTOR_TYPE_UNIFORM_BUFFER_DYNAMIC, 512u32),
        (vk::DESCRIPTOR_TYPE_UNIFORM_BUFFER, 256u32),
        (vk::DESCRIPTOR_TYPE_STORAGE_BUFFER, 256u32),
        (vk::DESCRIPTOR_TYPE_STORAGE_BUFFER_DYNAMIC, 256u32),
    ]
}

/// A pool of up to 128 sets with the fixed pool sizes. Sets of a pool that is
/// not transient are freed one by one; a transient pool is reset as a whole.
pub fn descriptor_pool_setup(is_transient: bool) -> (r: DescriptorPoolSetup)
    ensures
        r.max_sets == 128,
        r.flags == if is_transient { 0 } else { vk::DESCRIPTOR_POOL_CREATE_FREE_DESCRIPTOR_SET },
        r.pool_sizes@ == pool_sizes(),
{
    let mut sizes: Vec<(i32, u32)> = Vec::new();
    sizes.push((vk::DESCRIPTOR_TYPE_COMBINED_IMAGE_SAMPLER, 256u32));
    sizes.push((vk::DESCRIPTOR_TYPE_UNIFORM_BUFFER_DYNAMIC, 512u32));
    sizes.push((vk::DESCRIPTOR_TYPE_UNIFORM_BUFFER, 256u32));
    sizes.push((vk::DESCRIPTOR_TYPE_STORAGE_BUFFER, 256u32));
    sizes.push((vk::DESCRIPTOR_TYPE_STORAGE_BUFFER_DYNAMIC, 256u32));
    assert(sizes@ =~= pool_sizes());
    DescriptorPoolSetup {
        max_sets: 128,
        flags: if is_transient { 0 } else { vk::DESCRIPTOR_POOL_CREATE_FREE_DESCRIPTOR_SET },
        pool_sizes: sizes,
    }
}

/// Only a transient pool is reset; the sets of the others stay.
pub fn descriptor_pool_resets(is_transient: bool) -> (r: bool)
    ensures
        r == is_transient,
{
    is_transient
}

} // verus!
