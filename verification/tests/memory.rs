use sourcerenderer_vulkan::memory::{heap_allocate_flags, heap_allocation, heap_is_mapped, AllocationOutcome, OutOfMemoryError};
use ash::vk;
use sourcerenderer_vulkan::align::{align_down, align_down_32, align_down_64, align_up, align_up_32, align_up_64};
use sourcerenderer_vulkan::gpu::{MemoryKind, QueueSharingMode, BUFFER_USAGE_CONSTANT, BUFFER_USAGE_STORAGE};
use sourcerenderer_vulkan::memory::{
    allocation_range, buffer_heap_info, buffer_sharing, coherence_op_needed, find_acceptable_type, mapped_memory_range,
    memory_infos, memory_type_infos, preferred_memory_type, texture_heap_info, DedicatedAllocationPreference,
    HeapBudget, MappedRange, MemoryHeap, MemoryProperties, MemoryRequirements, MemoryType, PlacementLimits,
    RawMemoryType,
};
use sourcerenderer_vulkan::queue::{queue_family_index, QueueFamilies, VkQueueInfo};
use sourcerenderer_vulkan::gpu::QueueType;

#[test]
fn align_rounds_to_the_alignment() {
    assert_eq!(align_up_64(13, 8), 16);
    assert_eq!(align_up_64(16, 8), 16);
    assert_eq!(align_up_64(13, 0), 13);
    assert_eq!(align_down_64(13, 8), 8);
    assert_eq!(align_down_64(13, 0), 13);
    assert_eq!(align_up_32(1, 256), 256);
    assert_eq!(align_up_32(0, 256), 0);
    assert_eq!(align_up(300, 256), 512);
    assert_eq!(align_up(0, 256), 0);
    assert_eq!(align_down(300, 256), 256);
    assert_eq!(align_down_32(300, 64), 256);
    assert_eq!(align_down_32(300, 0), 300);
}

#[test]
fn align_brackets_a_value() {
    for v in [1u64, 7, 8, 9, 1000] {
        let down = align_down_64(v, 8);
        let up = align_up_64(v, 8);
        assert!(down <= v && v <= up);
        assert!(up - down <= 8);
    }
}

#[test]
fn rounding_up_twice_is_rounding_up_once() {
    for v in [0u64, 1, 7, 8, 9, 1000, u64::MAX - 7] {
        let up = align_up_64(v, 8);
        assert_eq!(align_up_64(up, 8), up);
        assert_eq!(align_down_64(up, 8), up);
    }
    assert_eq!(align_up_64(align_up_64(13, 0), 0), 13);
}

#[test]
fn heaps_report_budgets_where_known() {
    let heaps = vec![MemoryHeap { size: 1000, device_local: true }, MemoryHeap { size: 500, device_local: false }];
    let infos = memory_infos(&heaps, &None);
    assert_eq!(infos[0].available, 1000);
    assert_eq!(infos[0].total, 1000);
    assert_eq!(infos[0].memory_kind, MemoryKind::VRAM);
    assert_eq!(infos[1].memory_kind, MemoryKind::RAM);
    let budgets = Some(vec![HeapBudget { budget: 800, usage: 300 }, HeapBudget { budget: 400, usage: 400 }]);
    let infos = memory_infos(&heaps, &budgets);
    assert_eq!(infos[0].available, 500);
    assert_eq!(infos[0].total, 800);
    assert_eq!(infos[1].available, 0);
}

#[test]
fn memory_types_report_their_properties() {
    let types = vec![
        RawMemoryType { property_flags: vk::MemoryPropertyFlags::DEVICE_LOCAL.as_raw(), heap_index: 0 },
        RawMemoryType {
            property_flags: (vk::MemoryPropertyFlags::HOST_VISIBLE | vk::MemoryPropertyFlags::HOST_COHERENT).as_raw(),
            heap_index: 1,
        },
        RawMemoryType {
            property_flags: (vk::MemoryPropertyFlags::HOST_VISIBLE | vk::MemoryPropertyFlags::HOST_CACHED).as_raw(),
            heap_index: 1,
        },
    ];
    let infos = memory_type_infos(&types);
    assert_eq!(infos.len(), 3);
    assert_eq!(infos[0].memory_kind, MemoryKind::VRAM);
    assert!(!infos[0].is_cpu_accessible);
    assert_eq!(infos[1].memory_kind, MemoryKind::RAM);
    assert_eq!(infos[1].memory_index, 1);
    assert!(infos[1].is_cpu_accessible && infos[1].is_coherent && !infos[1].is_cached);
    assert!(infos[2].is_cached && !infos[2].is_coherent);
}

fn limits() -> PlacementLimits {
    PlacementLimits {
        min_memory_map_alignment: 64,
        non_coherent_atom_size: 32,
        buffer_image_granularity: 128,
        min_uniform_buffer_offset_alignment: 256,
        min_storage_buffer_offset_alignment: 512,
    }
}

fn req(size: u64, alignment: u64, bits: u32) -> MemoryRequirements {
    MemoryRequirements {
        size,
        alignment,
        memory_type_bits: bits,
        requires_dedicated_allocation: false,
        prefers_dedicated_allocation: false,
    }
}

#[test]
fn buffer_alignment_takes_every_limit_that_applies() {
    let r = req(1000, 16, 0b101);
    let plain = buffer_heap_info(0, &limits(), &r);
    assert_eq!(plain.alignment, 128);
    assert_eq!(plain.size, 1000);
    assert_eq!(plain.memory_type_mask, 0b101);
    assert_eq!(plain.dedicated_allocation_preference, DedicatedAllocationPreference::DontCare);
    assert_eq!(buffer_heap_info(BUFFER_USAGE_CONSTANT, &limits(), &r).alignment, 256);
    assert_eq!(buffer_heap_info(BUFFER_USAGE_STORAGE, &limits(), &r).alignment, 512);
    let dedicated = MemoryRequirements { prefers_dedicated_allocation: true, ..r };
    assert_eq!(
        buffer_heap_info(0, &limits(), &dedicated).dedicated_allocation_preference,
        DedicatedAllocationPreference::PreferDedicated
    );
}

fn families(compute: bool, transfer: bool) -> QueueFamilies {
    QueueFamilies {
        graphics: VkQueueInfo { queue_family_index: 0, supports_presentation: true },
        compute: if compute { Some(VkQueueInfo { queue_family_index: 1, supports_presentation: false }) } else { None },
        transfer: if transfer { Some(VkQueueInfo { queue_family_index: 2, supports_presentation: false }) } else { None },
    }
}

#[test]
fn buffers_are_shared_between_the_families_there_are() {
    assert_eq!(buffer_sharing(QueueSharingMode::Concurrent, &families(true, true)), (true, vec![0, 2, 1]));
    assert_eq!(buffer_sharing(QueueSharingMode::Concurrent, &families(false, false)), (false, vec![]));
    assert_eq!(buffer_sharing(QueueSharingMode::Exclusive, &families(true, true)), (false, vec![]));
    assert_eq!(queue_family_index(&families(true, true), QueueType::Transfer), 2);
    assert_eq!(queue_family_index(&families(false, false), QueueType::Compute), vk::QUEUE_FAMILY_IGNORED);
}

fn props() -> MemoryProperties {
    let mut memory_types = Vec::new();
    for i in 0..32 {
        memory_types.push(MemoryType { heap_index: if i == 1 { 1 } else { 0 }, device_local: i != 1 });
    }
    MemoryProperties {
        memory_types,
        memory_heaps: vec![MemoryHeap { size: 4096, device_local: true }, MemoryHeap { size: 1024, device_local: false }],
    }
}

#[test]
fn preferred_memory_type_is_device_local_first() {
    assert_eq!(preferred_memory_type(&props(), 0b10), Some(1));
    assert_eq!(preferred_memory_type(&props(), 0b11), Some(0));
    assert_eq!(preferred_memory_type(&props(), 0), None);
    assert!(find_acceptable_type(&props(), 0b11, 0));
    assert!(!find_acceptable_type(&props(), 0b10, 0));
}

#[test]
fn textures_keep_host_copies_where_memory_allows() {
    let with = req(2048, 256, 0b11);
    let without = Some(req(4096, 1024, 0b11));
    let info = texture_heap_info(&props(), 512, &with, &without);
    assert_eq!(info.size, 2048);
    assert_eq!(info.alignment, 512);
    let only_host = req(2048, 256, 0b10);
    let info = texture_heap_info(&props(), 512, &only_host, &without);
    assert_eq!(info.size, 2048);
    let info = texture_heap_info(&props(), 512, &with, &None);
    assert_eq!(info.memory_type_mask, 0b11);
}

#[test]
fn mapped_ranges_widen_to_the_flush_granularity() {
    assert_eq!(mapped_memory_range(10, 20, 100, 1000, 64), MappedRange { offset: 64, size: 0 });
    assert_eq!(mapped_memory_range(0, 100, 0, 1000, 64), MappedRange { offset: 0, size: 128 });
    assert_eq!(mapped_memory_range(0, 2000, 0, 1000, 0), MappedRange { offset: 0, size: 1000 });
}

#[test]
fn coherence_operations_only_for_incoherent_memory() {
    assert!(coherence_op_needed(true, true, false));
    assert!(!coherence_op_needed(true, true, true));
    assert!(!coherence_op_needed(false, true, false));
    assert!(!coherence_op_needed(true, false, false));
}

#[test]
fn allocation_ranges_are_cut_at_the_end() {
    assert_eq!(allocation_range(100, 50, 1000), MappedRange { offset: 100, size: 50 });
    assert_eq!(allocation_range(900, 500, 1000), MappedRange { offset: 900, size: 100 });
}

#[test]
fn heaps_allocate_with_device_addresses_where_supported() {
    assert_eq!(heap_allocate_flags(true), vk::MemoryAllocateFlags::DEVICE_ADDRESS.as_raw());
    assert_eq!(heap_allocate_flags(false), 0);
    assert_eq!(heap_allocation(AllocationOutcome::Allocated(9)), Ok(9));
    assert_eq!(heap_allocation(AllocationOutcome::OutOfDeviceMemory), Err(OutOfMemoryError {}));
    assert_eq!(heap_allocation(AllocationOutcome::OutOfHostMemory), Err(OutOfMemoryError {}));
    assert!(heap_is_mapped((vk::MemoryPropertyFlags::HOST_VISIBLE | vk::MemoryPropertyFlags::HOST_COHERENT).as_raw()));
    assert!(!heap_is_mapped(vk::MemoryPropertyFlags::DEVICE_LOCAL.as_raw()));
}
