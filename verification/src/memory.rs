//! Memory of the device: what its heaps hold, how buffers and textures are
//! placed in memory, and which ranges of mapped memory are flushed.
use vstd::prelude::*;
use crate::gpu::{MemoryKind, QueueSharingMode, BUFFER_USAGE_STORAGE, BUFFER_USAGE_CONSTANT, BUFFER_USAGE_COPY_SRC, BUFFER_USAGE_COPY_DST};
use crate::queue::QueueFamilies;
use crate::vk_values as vk;
use crate::align::{aligned_up_64, align_up_64, align_down_64, lemma_aligned_up_64_bound, is_power_of_two_u64, law_align_brackets};

verus! {

/// A memory heap of the device.
#[derive(Clone, Copy, PartialEq, Eq, Structural, Debug)]
pub struct MemoryHeap {
    pub size: u64,
    pub device_local: bool,
}

/// What the device reports of the budget of a heap.
#[derive(Clone, Copy, PartialEq, Eq, Structural, Debug)]
pub struct HeapBudget {
    pub budget: u64,
    pub usage: u64,
}

/// How much of a heap is there and free.
#[derive(Clone, Copy, PartialEq, Eq, Structural, Debug)]
pub struct MemoryInfo {
    pub available: u64,
    pub total: u64,
    pub memory_kind: MemoryKind,
}

/// What is known of a heap: its budget and what is left of it where the device
/// reports budgets, else its size.
pub open spec fn memory_info_of(heap: MemoryHeap, budget: Option<HeapBudget>) -> MemoryInfo {
    MemoryInfo {
        available: match budget {
            Some(b) => (b.budget - b.usage) as u64,
            None => heap.size,
        },
        total: match budget {
            Some(b) => b.budget,
            None => heap.size,
        },
        memory_kind: if heap.device_local { MemoryKind::VRAM } else { MemoryKind::RAM },
    }
}

/// What is known of every heap, in heap order. `budgets` holds the budget of
/// each heap where the device reports budgets.
pub fn memory_infos(heaps: &Vec<MemoryHeap>, budgets: &Option<Vec<HeapBudget>>) -> (r: Vec<MemoryInfo>)
    requires
        match budgets {
            Some(b) => b.len() >= heaps.len() && forall|i: int| 0 <= i < heaps.len() ==> (#[trigger] b@[i]).usage <= b@[i].budget,
            None => true,
        },
    ensures
        r.len() == heaps.len(),
        forall|i: int| 0 <= i < r.len() ==> #[trigger] r@[i] == memory_info_of(
            heaps@[i],
            match budgets {
                Some(b) => Some(b@[i]),
                None => None,
            },
        ),
{
    let mut r: Vec<MemoryInfo> = Vec::new();
    let mut i: usize = 0;
    while i < heaps.len()
        invariant
            i <= heaps.len(),
            match budgets {
                Some(b) => b.len() >= heaps.len() && forall|j: int| 0 <= j < heaps.len() ==> (#[trigger] b@[j]).usage <= b@[j].budget,
                None => true,
            },
            r.len() == i,
            forall|j: int| 0 <= j < i ==> #[trigger] r@[j] == memory_info_of(
                heaps@[j],
                match budgets {
                    Some(b) => Some(b@[j]),
                    None => None,
                },
            ),
        decreases heaps.len() - i,
    {
        let heap = heaps[i];
        let kind = if heap.device_local { MemoryKind::VRAM } else { MemoryKind::RAM };
        let info = match budgets {
            Some(b) => {
                let hb = b[i];
                MemoryInfo { available: hb.budget - hb.usage, total: hb.budget, memory_kind: kind }
            },
            None => MemoryInfo { available: heap.size, total: heap.size, memory_kind: kind },
        };
        r.push(info);
        i = i + 1;
    }
    r
}

/// Whether a resource must, should or may get memory of its own.
#[derive(Clone, Copy, PartialEq, Eq, Structural, Debug)]
pub enum DedicatedAllocationPreference {
    RequireDedicated,
    PreferDedicated,
    DontCare,
}

/// What the device requires of the memory of a resource.
#[derive(Clone, Copy, PartialEq, Eq, Structural, Debug)]
pub struct MemoryRequirements {
    pub size: u64,
    pub alignment: u64,
    pub memory_type_bits: u32,
    pub requires_dedicated_allocation: bool,
    pub prefers_dedicated_allocation: bool,
}

/// Where a resource may be placed.
#[derive(Clone, Copy, PartialEq, Eq, Structural, Debug)]
pub struct ResourceHeapInfo {
    pub dedicated_allocation_preference: DedicatedAllocationPreference,
    pub memory_type_mask: u32,
    pub alignment: u64,
    pub size: u64,
}

pub open spec fn dedicated_preference(req: MemoryRequirements) -> DedicatedAllocationPreference {
    if req.requires_dedicated_allocation {
        DedicatedAllocationPreference::RequireDedicated
    } else if req.prefers_dedicated_allocation {
        DedicatedAllocationPreference::PreferDedicated
    } else {
        DedicatedAllocationPreference::DontCare
    }
}

fn dedicated_preference_exec(req: &MemoryRequirements) -> (r: DedicatedAllocationPreference)
    ensures
        r == dedicated_preference(*req),
{
    if req.requires_dedicated_allocation {
        DedicatedAllocationPreference::RequireDedicated
    } else if req.prefers_dedicated_allocation {
        DedicatedAllocationPreference::PreferDedicated
    } else {
        DedicatedAllocationPreference::DontCare
    }
}

/// The limits of the device that place buffers.
#[derive(Clone, Copy, PartialEq, Eq, Structural, Debug)]
pub struct PlacementLimits {
    pub min_memory_map_alignment: u64,
    pub non_coherent_atom_size: u64,
    pub buffer_image_granularity: u64,
    pub min_uniform_buffer_offset_alignment: u64,
    pub min_storage_buffer_offset_alignment: u64,
}

pub open spec fn max_u64(a: u64, b: u64) -> u64 {
    if a >= b { a } else { b }
}

fn max_u64_exec(a: u64, b: u64) -> (r: u64)
    ensures
        r == max_u64(a, b),
{
    if a >= b { a } else { b }
}

/// The alignment of a buffer: what the device requires, at least the map
/// alignment, the flush granularity and the granularity between buffers and
/// images, and for copies, constants and storage the offset alignments of
/// those.
pub open spec fn buffer_alignment(usage: u32, limits: PlacementLimits, req: MemoryRequirements) -> u64 {
    let a = req.alignment;
    let a = max_u64(a, limits.min_memory_map_alignment);
    let a = max_u64(a, limits.non_coherent_atom_size);
    let a = max_u64(a, limits.buffer_image_granularity);
    let copies = BUFFER_USAGE_COPY_DST | BUFFER_USAGE_COPY_SRC;
    let a = if usage & copies == copies { max_u64(a, limits.min_uniform_buffer_offset_alignment) } else { a };
    let a = if usage & BUFFER_USAGE_CONSTANT == BUFFER_USAGE_CONSTANT {
        max_u64(a, limits.min_uniform_buffer_offset_alignment)
    } else {
        a
    };
    if usage & BUFFER_USAGE_STORAGE == BUFFER_USAGE_STORAGE {
        max_u64(a, limits.min_storage_buffer_offset_alignment)
    } else {
        a
    }
}

/// Law: a buffer's alignment meets every limit that applies to its usage, and
/// is the least such: it is at least what the device requires, the map
/// alignment, the flush atom and the buffer-image granularity; at least the
/// uniform offset alignment where the buffer holds constants (or is copied both
/// ways); at least the storage offset alignment where it is storage, whatever
/// other usage bits it has; and it is one of these values.
pub proof fn law_buffer_alignment_meets_limits(usage: u32, limits: PlacementLimits, req: MemoryRequirements)
    ensures
        ({
            let a = buffer_alignment(usage, limits, req);
            let copies = BUFFER_USAGE_COPY_DST | BUFFER_USAGE_COPY_SRC;
            let uniform = usage & BUFFER_USAGE_CONSTANT == BUFFER_USAGE_CONSTANT || usage & copies == copies;
            let storage = usage & BUFFER_USAGE_STORAGE == BUFFER_USAGE_STORAGE;
            &&& a >= req.alignment
            &&& a >= limits.min_memory_map_alignment
            &&& a >= limits.non_coherent_atom_size
            &&& a >= limits.buffer_image_granularity
            &&& uniform ==> a >= limits.min_uniform_buffer_offset_alignment
            &&& storage ==> a >= limits.min_storage_buffer_offset_alignment
            &&& (a == req.alignment || a == limits.min_memory_map_alignment || a == limits.non_coherent_atom_size
                || a == limits.buffer_image_granularity || (uniform && a == limits.min_uniform_buffer_offset_alignment)
                || (storage && a == limits.min_storage_buffer_offset_alignment))
        }),
{
}

/// Where a buffer may be placed, from what the device requires of it.
pub fn buffer_heap_info(usage: u32, limits: &PlacementLimits, req: &MemoryRequirements) -> (r: ResourceHeapInfo)
    ensures
        r == (ResourceHeapInfo {
            dedicated_allocation_preference: dedicated_preference(*req),
            memory_type_mask: req.memory_type_bits,
            alignment: buffer_alignment(usage, *limits, *req),
            size: req.size,
        }),
{
    let mut alignment = req.alignment;
    alignment = max_u64_exec(alignment, limits.min_memory_map_alignment);
    alignment = max_u64_exec(alignment, limits.non_coherent_atom_size);
    alignment = max_u64_exec(alignment, limits.buffer_image_granularity);
    let copies = BUFFER_USAGE_COPY_DST | BUFFER_USAGE_COPY_SRC;
    if usage & copies == copies {
        alignment = max_u64_exec(alignment, limits.min_uniform_buffer_offset_alignment);
    }
    if usage & BUFFER_USAGE_CONSTANT == BUFFER_USAGE_CONSTANT {
        alignment = max_u64_exec(alignment, limits.min_uniform_buffer_offset_alignment);
    }
    if usage & BUFFER_USAGE_STORAGE == BUFFER_USAGE_STORAGE {
        alignment = max_u64_exec(alignment, limits.min_storage_buffer_offset_alignment);
    }
    ResourceHeapInfo {
        dedicated_allocation_preference: dedicated_preference_exec(req),
        memory_type_mask: req.memory_type_bits,
        alignment,
        size: req.size,
    }
}

/// How a buffer is shared between queue families: concurrently by the graphics
/// family and the separate transfer and compute families where it is to be
/// shared and the device has such a family; else by one family at a time.
pub open spec fn buffer_sharing_of(mode: QueueSharingMode, q: QueueFamilies) -> (bool, Seq<u32>) {
    if mode == QueueSharingMode::Concurrent && (q.transfer is Some || q.compute is Some) {
        let f = seq![q.graphics.queue_family_index as u32];
        let f = match q.transfer {
            Some(t) => f.push(t.queue_family_index as u32),
            None => f,
        };
        let f = match q.compute {
            Some(c) => f.push(c.queue_family_index as u32),
            None => f,
        };
        (true, f)
    } else {
        (false, Seq::empty())
    }
}

pub fn buffer_sharing(mode: QueueSharingMode, q: &QueueFamilies) -> (r: (bool, Vec<u32>))
    ensures
        (r.0, r.1@) == buffer_sharing_of(mode, *q),
{
    let mut families: Vec<u32> = Vec::new();
    if mode == QueueSharingMode::Concurrent && (q.transfer.is_some() || q.compute.is_some()) {
        families.push(q.graphics.family_index());
        match q.transfer {
            Some(t) => {
                families.push(t.family_index());
            },
            None => {},
        }
        match q.compute {
            Some(c) => {
                families.push(c.family_index());
            },
            None => {},
        }
        assert(families@ =~= buffer_sharing_of(mode, *q).1);
        (true, families)
    } else {
        assert(families@ =~= Seq::<u32>::empty());
        (false, families)
    }
}

/// A memory type of the device: the heap it takes memory from and whether it
/// is local to the device.
#[derive(Clone, Copy, PartialEq, Eq, Structural, Debug)]
pub struct MemoryType {
    pub heap_index: u32,
    pub device_local: bool,
}

/// The memory types and heaps of the device.
pub struct MemoryProperties {
    pub memory_types: Vec<MemoryType>,
    pub memory_heaps: Vec<MemoryHeap>,
}

impl MemoryProperties {
    /// Every memory type names a heap, and every bit of a mask names a type.
    pub open spec fn wf(&self) -> bool {
        &&& self.memory_types.len() == 32
        &&& forall|i: int| 0 <= i < 32 ==> (#[trigger] self.memory_types@[i]).heap_index < self.memory_heaps.len()
    }

    pub open spec fn heap_of(&self, t: int) -> MemoryHeap {
        self.memory_heaps@[self.memory_types@[t].heap_index as int]
    }
}

pub open spec fn mask_has(mask: u32, i: int) -> bool {
    (mask >> (i as u32)) & 1 == 1
}

/// Memory type `c` is preferred over type `p`: it has a larger heap of the same
/// locality, or it is local to the device and `p` is not.
pub open spec fn prefer_over(props: MemoryProperties, c: int, p: int) -> bool {
    let dc = props.memory_types@[c].device_local;
    let dp = props.memory_types@[p].device_local;
    (props.heap_of(c).size > props.heap_of(p).size && dp == dc) || (!dp && dc)
}

/// The preferred memory type among the types of `mask` below `n`, taken in
/// ascending order.
pub open spec fn preferred_type_upto(props: MemoryProperties, mask: u32, n: int) -> Option<int>
    decreases n,
{
    if n <= 0 {
        None
    } else {
        let p = preferred_type_upto(props, mask, n - 1);
        if mask_has(mask, n - 1) {
            match p {
                None => Some(n - 1),
                Some(q) => if prefer_over(props, n - 1, q) { Some(n - 1) } else { Some(q) },
            }
        } else {
            p
        }
    }
}

/// A memory type of `mask` has the locality of type `p` and a heap at least as
/// large.
pub open spec fn has_acceptable_type(props: MemoryProperties, mask: u32, p: int) -> bool {
    exists|i: int| 0 <= i < 32 && mask_has(mask, i) && props.memory_types@[i].device_local
        == props.memory_types@[p].device_local && props.heap_of(i).size >= props.heap_of(p).size
}

proof fn lemma_preferred_in_range(props: MemoryProperties, mask: u32, n: int)
    ensures
        match preferred_type_upto(props, mask, n) {
            Some(p) => 0 <= p < n && mask_has(mask, p),
            None => forall|i: int| 0 <= i < n ==> !mask_has(mask, i),
        },
    decreases n,
{
    if n > 0 {
        lemma_preferred_in_range(props, mask, n - 1);
    }
}

fn mask_has_exec(mask: u32, i: u32) -> (r: bool)
    requires
        i < 32,
    ensures
        r == mask_has(mask, i as int),
{
    (mask >> i) & 1 == 1
}

/// The memory type the texture would be placed in without host copies: among
/// the types of `mask`, device local ones first, then the largest heap.
pub fn preferred_memory_type(props: &MemoryProperties, mask: u32) -> (r: Option<u32>)
    requires
        props.wf(),
    ensures
        match r {
            Some(p) => preferred_type_upto(*props, mask, 32) == Some(p as int) && p < 32,
            None => preferred_type_upto(*props, mask, 32) is None,
        },
{
    let mut preferred: Option<u32> = None;
    let mut i: u32 = 0;
    while i < 32
        invariant
            i <= 32,
            props.wf(),
            match preferred {
                Some(p) => preferred_type_upto(*props, mask, i as int) == Some(p as int) && p < 32,
                None => preferred_type_upto(*props, mask, i as int) is None,
            },
        decreases 32 - i,
    {
        proof {
            lemma_preferred_in_range(*props, mask, i as int);
        }
        if mask_has_exec(mask, i) {
            match preferred {
                None => {
                    preferred = Some(i);
                },
                Some(p) => {
                    let ti = props.memory_types[i as usize];
                    let tp = props.memory_types[p as usize];
                    let hi = props.memory_heaps[ti.heap_index as usize];
                    let hp = props.memory_heaps[tp.heap_index as usize];
                    if hi.size > hp.size && tp.device_local == ti.device_local {
                        preferred = Some(i);
                    } else if !tp.device_local && ti.device_local {
                        preferred = Some(i);
                    }
                },
            }
        }
        i = i + 1;
    }
    preferred
}

/// Whether a memory type of `mask` matches the preferred type `p`.
pub fn find_acceptable_type(props: &MemoryProperties, mask: u32, p: u32) -> (r: bool)
    requires
        props.wf(),
        p < 32,
    ensures
        r == has_acceptable_type(*props, mask, p as int),
{
    let tp = props.memory_types[p as usize];
    let hp = props.memory_heaps[tp.heap_index as usize];
    let mut i: u32 = 0;
    while i < 32
        invariant
            i <= 32,
            props.wf(),
            p < 32,
            tp == props.memory_types@[p as int],
            hp == props.heap_of(p as int),
            forall|j: int| 0 <= j < i ==> !(mask_has(mask, j) && props.memory_types@[j].device_local
                == tp.device_local && props.heap_of(j).size >= hp.size),
        decreases 32 - i,
    {
        let ti = props.memory_types[i as usize];
        let hi = props.memory_heaps[ti.heap_index as usize];
        if mask_has_exec(mask, i) && tp.device_local == ti.device_local && hi.size >= hp.size {
            return true;
        }
        i = i + 1;
    }
    false
}

/// Where a texture is placed, from the requirements the device reports for
/// it, and, for a texture the host copies into on a device whose memory types
/// for that differ, the requirements without host copies. Where no memory
/// type usable with host copies matches the type the texture would get
/// otherwise, the texture does without host copies.
pub open spec fn texture_heap_info_of(
    props: MemoryProperties,
    granularity: u64,
    req: MemoryRequirements,
    without_host_copy: Option<MemoryRequirements>,
) -> ResourceHeapInfo {
    let with_copies = ResourceHeapInfo {
        dedicated_allocation_preference: dedicated_preference(req),
        memory_type_mask: req.memory_type_bits,
        alignment: max_u64(req.alignment, granularity),
        size: req.size,
    };
    match without_host_copy {
        None => with_copies,
        Some(r2) => {
            let p = preferred_type_upto(props, r2.memory_type_bits, 32)->0;
            if has_acceptable_type(props, r2.memory_type_bits, p) {
                with_copies
            } else {
                ResourceHeapInfo {
                    dedicated_allocation_preference: dedicated_preference(r2),
                    memory_type_mask: r2.memory_type_bits,
                    alignment: max_u64(r2.alignment, granularity),
                    size: r2.size,
                }
            }
        },
    }
}

pub fn texture_heap_info(
    props: &MemoryProperties,
    granularity: u64,
    req: &MemoryRequirements,
    without_host_copy: &Option<MemoryRequirements>,
) -> (r: ResourceHeapInfo)
    requires
        props.wf(),
        match without_host_copy {
            Some(r2) => preferred_type_upto(*props, r2.memory_type_bits, 32) is Some,
            None => true,
        },
    ensures
        r == texture_heap_info_of(*props, granularity, *req, *without_host_copy),
{
    let with_copies = ResourceHeapInfo {
        dedicated_allocation_preference: dedicated_preference_exec(req),
        memory_type_mask: req.memory_type_bits,
        alignment: max_u64_exec(req.alignment, granularity),
        size: req.size,
    };
    match without_host_copy {
        None => with_copies,
        Some(r2) => {
            let p = preferred_memory_type(props, r2.memory_type_bits);
            let p = p.unwrap();
            if find_acceptable_type(props, r2.memory_type_bits, p) {
                with_copies
            } else {
                ResourceHeapInfo {
                    dedicated_allocation_preference: dedicated_preference_exec(r2),
                    memory_type_mask: r2.memory_type_bits,
                    alignment: max_u64_exec(r2.alignment, granularity),
                    size: r2.size,
                }
            }
        },
    }
}

/// A range of mapped memory to flush or invalidate.
#[derive(Clone, Copy, PartialEq, Eq, Structural, Debug)]
pub struct MappedRange {
    pub offset: u64,
    pub size: u64,
}

/// The range of memory that holds `length` bytes from `offset` of a buffer,
/// widened to the flush granularity: its start is rounded down from the
/// buffer's place in memory, its end rounded up from the end of the bytes
/// within the buffer.
pub open spec fn coherent_range(offset: u64, length: u64, memory_offset: u64, size: u64, atom: u64) -> MappedRange {
    let sum = (offset + memory_offset) as u64;
    let start = if atom == 0 { sum } else { ((sum / atom) * atom) as u64 };
    let end_raw = if offset + length <= size { (offset + length) as u64 } else { size };
    let end = aligned_up_64(end_raw, atom);
    MappedRange { offset: start, size: (end - start) as u64 }
}

/// The end of the range lies at or after its start.
pub open spec fn coherent_range_valid(offset: u64, length: u64, memory_offset: u64, size: u64, atom: u64) -> bool {
    let sum = offset + memory_offset;
    let start: int = if atom == 0 { sum } else { (sum / (atom as int)) * atom };
    let end_raw: int = if offset + length <= size { offset + length } else { size as int };
    &&& offset + memory_offset <= u64::MAX
    &&& offset + length <= u64::MAX
    &&& end_raw + atom <= u64::MAX
    &&& aligned_up_64(end_raw as u64, atom) >= start
}

/// The range to invalidate or flush around `length` bytes from `offset` of a
/// mapped buffer that is not coherent.
pub fn mapped_memory_range(offset: u64, length: u64, memory_offset: u64, size: u64, atom: u64) -> (r: MappedRange)
    requires
        coherent_range_valid(offset, length, memory_offset, size, atom),
    ensures
        r == coherent_range(offset, length, memory_offset, size, atom),
{
    let start = align_down_64(offset + memory_offset, atom);
    let end_raw = if offset + length <= size { offset + length } else { size };
    proof {
        lemma_aligned_up_64_bound(end_raw, atom);
    }
    let end = align_up_64(end_raw, atom);
    MappedRange { offset: start, size: end - start }
}

/// For a buffer at the start of its memory, the range that is flushed or
/// invalidated around some of its bytes holds those bytes.
pub proof fn law_flushed_range_holds_the_bytes(offset: u64, length: u64, size: u64, atom: u64)
    requires
        is_power_of_two_u64(atom),
        coherent_range_valid(offset, length, 0, size, atom),
        offset + length <= size,
    ensures
        ({
            let r = coherent_range(offset, length, 0, size, atom);
            &&& r.offset <= offset
            &&& offset + length <= r.offset + r.size
        }),
{
    law_align_brackets(offset, atom);
    law_align_brackets((offset + length) as u64, atom);
}

/// Mapping a buffer invalidates the range it reads where the memory is not
/// coherent and the caller asks for it; unmapping flushes where it is not
/// coherent and the caller asks for it.
pub open spec fn needs_coherence_op(mapped: bool, requested: bool, is_coherent: bool) -> bool {
    mapped && requested && !is_coherent
}

pub fn coherence_op_needed(mapped: bool, requested: bool, is_coherent: bool) -> (r: bool)
    ensures
        r == needs_coherence_op(mapped, requested, is_coherent),
{
    mapped && requested && !is_coherent
}

/// The range of an allocation that a map or unmap covers: `length` bytes from
/// `offset`, cut at the end of the buffer.
pub open spec fn allocation_range_of(offset: u64, length: u64, size: u64) -> MappedRange {
    let rest = (size - offset) as u64;
    MappedRange { offset, size: if rest <= length { rest } else { length } }
}

pub fn allocation_range(offset: u64, length: u64, size: u64) -> (r: MappedRange)
    requires
        offset <= size,
    ensures
        r == allocation_range_of(offset, length, size),
{
    let rest = size - offset;
    MappedRange { offset, size: if rest <= length { rest } else { length } }
}

/// A memory type as the device reports it: its property flags and its heap.
#[derive(Clone, Copy, PartialEq, Eq, Structural, Debug)]
pub struct RawMemoryType {
    pub property_flags: u32,
    pub heap_index: u32,
}

/// What the renderer is told of a memory type.
#[derive(Clone, Copy, PartialEq, Eq, Structural, Debug)]
pub struct MemoryTypeInfo {
    pub memory_index: u32,
    pub memory_kind: MemoryKind,
    pub is_cached: bool,
    pub is_cpu_accessible: bool,
    pub is_coherent: bool,
}

pub open spec fn has_flags(flags: u32, wanted: u32) -> bool {
    flags & wanted == wanted
}

/// A device local type is VRAM, any other RAM; host visible types are reachable
/// from the CPU.
pub open spec fn memory_type_info_of(t: RawMemoryType) -> MemoryTypeInfo {
    MemoryTypeInfo {
        memory_index: t.heap_index,
        memory_kind: if has_flags(t.property_flags, vk::MEMORY_PROPERTY_DEVICE_LOCAL) {
            MemoryKind::VRAM
        } else {
            MemoryKind::RAM
        },
        is_cached: has_flags(t.property_flags, vk::MEMORY_PROPERTY_HOST_CACHED),
        is_cpu_accessible: has_flags(t.property_flags, vk::MEMORY_PROPERTY_HOST_VISIBLE),
        is_coherent: has_flags(t.property_flags, vk::MEMORY_PROPERTY_HOST_COHERENT),
    }
}

/// What the renderer is told of each memory type of the device, in order.
pub fn memory_type_infos(types: &Vec<RawMemoryType>) -> (r: Vec<MemoryTypeInfo>)
    ensures
        r@.len() == types@.len(),
        forall|i: int| 0 <= i < types@.len() ==> #[trigger] r@[i] == memory_type_info_of(types@[i]),
{
    let n = types.len();
    let mut r: Vec<MemoryTypeInfo> = Vec::new();
    let mut i: usize = 0;
    while i < n
        invariant
            n == types.len(),
            i <= n,
            r@.len() == i,
            forall|k: int| 0 <= k < i ==> #[trigger] r@[k] == memory_type_info_of(types@[k]),
        decreases n - i,
    {
        let t = types[i];
        let f = t.property_flags;
        r.push(MemoryTypeInfo {
            memory_index: t.heap_index,
            memory_kind: if f & vk::MEMORY_PROPERTY_DEVICE_LOCAL == vk::MEMORY_PROPERTY_DEVICE_LOCAL {
                MemoryKind::VRAM
            } else {
                MemoryKind::RAM
            },
            is_cached: f & vk::MEMORY_PROPERTY_HOST_CACHED == vk::MEMORY_PROPERTY_HOST_CACHED,
            is_cpu_accessible: f & vk::MEMORY_PROPERTY_HOST_VISIBLE == vk::MEMORY_PROPERTY_HOST_VISIBLE,
            is_coherent: f & vk::MEMORY_PROPERTY_HOST_COHERENT == vk::MEMORY_PROPERTY_HOST_COHERENT,
        });
        i = i + 1;
    }
    r
}

/// What allocating the memory of a heap gave.
#[derive(Clone, Copy, PartialEq, Eq, Structural, Debug)]
pub enum AllocationOutcome {
    Allocated(u64),
    OutOfDeviceMemory,
    OutOfHostMemory,
}

/// The device has no memory left for a heap.
#[derive(Clone, Copy, PartialEq, Eq, Structural, Debug)]
pub struct OutOfMemoryError {}

/// The flags a heap's memory is allocated with: device addresses where the
/// device has them.
pub fn heap_allocate_flags(buffer_device_address: bool) -> (r: u32)
    ensures
        r == if buffer_device_address { vk::MEMORY_ALLOCATE_DEVICE_ADDRESS } else { 0 },
{
    if buffer_device_address { vk::MEMORY_ALLOCATE_DEVICE_ADDRESS } else { 0 }
}

/// The memory of a heap, or out of memory where the device or host had none.
pub fn heap_allocation(outcome: AllocationOutcome) -> (r: Result<u64, OutOfMemoryError>)
    ensures
        match outcome {
            AllocationOutcome::Allocated(m) => r == Ok::<u64, OutOfMemoryError>(m),
            _ => r == Err::<u64, OutOfMemoryError>(OutOfMemoryError {}),
        },
{
    match outcome {
        AllocationOutcome::Allocated(m) => Ok(m),
        _ => Err(OutOfMemoryError {}),
    }
}

/// A heap's memory is mapped for its whole life where its type is visible to
/// the host.
pub fn heap_is_mapped(property_flags: u32) -> (r: bool)
    ensures
        r == has_flags(property_flags, vk::MEMORY_PROPERTY_HOST_VISIBLE),
{
    property_flags & vk::MEMORY_PROPERTY_HOST_VISIBLE == vk::MEMORY_PROPERTY_HOST_VISIBLE
}

} // verus!
