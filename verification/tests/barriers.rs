use ash::vk;
use sourcerenderer_vulkan::barrier_plan::{
    plan_barriers, Barrier, BarrierDevice, BarrierTextureRange, QueueOwnershipTransfer,
};
use sourcerenderer_vulkan::gpu::{
    QueueType, TextureLayout, BARRIER_ACCESS_ACCELERATION_STRUCTURE_READ, BARRIER_ACCESS_ACCELERATION_STRUCTURE_WRITE,
    BARRIER_ACCESS_COPY_WRITE, BARRIER_ACCESS_SAMPLING_READ, BARRIER_ACCESS_STORAGE_WRITE,
    BARRIER_SYNC_ACCELERATION_STRUCTURE_BUILD, BARRIER_SYNC_COMPUTE_SHADER, BARRIER_SYNC_COPY,
    BARRIER_SYNC_FRAGMENT_SHADER, BARRIER_SYNC_RAY_TRACING,
};
use sourcerenderer_vulkan::graph_info::Format;
use sourcerenderer_vulkan::queue::{QueueFamilies, VkQueueInfo};

fn device(transfer: bool) -> BarrierDevice {
    BarrierDevice {
        supported_pipeline_stages: !0u64,
        supported_access_flags: !0u64,
        queues: QueueFamilies {
            graphics: VkQueueInfo { queue_family_index: 0, supports_presentation: true },
            compute: None,
            transfer: if transfer { Some(VkQueueInfo { queue_family_index: 2, supports_presentation: false }) } else { None },
        },
    }
}

fn range() -> BarrierTextureRange {
    BarrierTextureRange { base_mip_level: 0, mip_level_length: 3, base_array_layer: 0, array_layer_length: 1 }
}

#[test]
fn no_barriers_record_nothing() {
    assert!(plan_barriers(&device(false), &vec![]).is_none());
}

#[test]
fn a_texture_barrier_becomes_an_image_barrier() {
    let b = Barrier::TextureBarrier {
        old_sync: BARRIER_SYNC_COPY,
        new_sync: BARRIER_SYNC_FRAGMENT_SHADER,
        old_layout: TextureLayout::CopyDst,
        new_layout: TextureLayout::Sampled,
        old_access: BARRIER_ACCESS_COPY_WRITE,
        new_access: BARRIER_ACCESS_SAMPLING_READ,
        texture: 77,
        format: Format::RGBA8UNorm,
        range: range(),
        queue_ownership: None,
    };
    let plan = plan_barriers(&device(false), &vec![b]).unwrap();
    assert_eq!(plan.image_barriers.len(), 1);
    assert_eq!(plan.memory_barrier_count, 0);
    let ib = plan.image_barriers[0];
    assert_eq!(ib.image, 77);
    assert_eq!(ib.src_stage_mask, vk::PipelineStageFlags2::TRANSFER.as_raw());
    assert_eq!(ib.dst_stage_mask, vk::PipelineStageFlags2::FRAGMENT_SHADER.as_raw());
    assert_eq!(ib.src_access_mask, vk::AccessFlags2::TRANSFER_WRITE.as_raw());
    assert_eq!(ib.dst_access_mask, vk::AccessFlags2::SHADER_SAMPLED_READ.as_raw());
    assert_eq!(ib.old_layout, vk::ImageLayout::TRANSFER_DST_OPTIMAL.as_raw());
    assert_eq!(ib.new_layout, vk::ImageLayout::SHADER_READ_ONLY_OPTIMAL.as_raw());
    assert_eq!(ib.aspect_mask, vk::ImageAspectFlags::COLOR.as_raw());
    assert_eq!((ib.level_count, ib.layer_count), (3, 1));
    assert_eq!(ib.src_queue_family_index, vk::QUEUE_FAMILY_IGNORED);
    assert_eq!(ib.dst_queue_family_index, vk::QUEUE_FAMILY_IGNORED);
}

#[test]
fn buffer_barriers_are_cut_at_the_end_and_carry_ownership() {
    let b = Barrier::BufferBarrier {
        old_sync: BARRIER_SYNC_COPY,
        new_sync: BARRIER_SYNC_COMPUTE_SHADER,
        old_access: BARRIER_ACCESS_COPY_WRITE,
        new_access: BARRIER_ACCESS_STORAGE_WRITE,
        buffer: 5,
        buffer_size: 1000,
        offset: 900,
        length: 500,
        queue_ownership: Some(QueueOwnershipTransfer { from: QueueType::Transfer, to: QueueType::Graphics }),
    };
    let plan = plan_barriers(&device(true), &vec![b]).unwrap();
    let bb = plan.buffer_barriers[0];
    assert_eq!((bb.buffer, bb.offset, bb.size), (5, 900, 100));
    assert_eq!((bb.src_queue_family_index, bb.dst_queue_family_index), (2, 0));
    let without_transfer = plan_barriers(&device(false), &vec![b]).unwrap();
    assert_eq!(without_transfer.buffer_barriers[0].src_queue_family_index, vk::QUEUE_FAMILY_IGNORED);
    assert_eq!(without_transfer.buffer_barriers[0].dst_queue_family_index, vk::QUEUE_FAMILY_IGNORED);
}

#[test]
fn global_barriers_merge_into_memory_barriers() {
    let a = Barrier::GlobalBarrier {
        old_sync: BARRIER_SYNC_COPY,
        new_sync: BARRIER_SYNC_COMPUTE_SHADER,
        old_access: BARRIER_ACCESS_COPY_WRITE,
        new_access: BARRIER_ACCESS_STORAGE_WRITE,
    };
    let b = Barrier::GlobalBarrier {
        old_sync: BARRIER_SYNC_COMPUTE_SHADER,
        new_sync: BARRIER_SYNC_FRAGMENT_SHADER,
        old_access: BARRIER_ACCESS_STORAGE_WRITE,
        new_access: BARRIER_ACCESS_SAMPLING_READ,
    };
    let plan = plan_barriers(&device(false), &vec![a, b]).unwrap();
    assert_eq!(plan.memory_barrier_count, 1);
    assert_eq!(
        plan.general_barrier.src_stage_mask,
        (vk::PipelineStageFlags2::TRANSFER | vk::PipelineStageFlags2::COMPUTE_SHADER).as_raw()
    );
    assert_eq!(
        plan.general_barrier.dst_stage_mask,
        (vk::PipelineStageFlags2::COMPUTE_SHADER | vk::PipelineStageFlags2::FRAGMENT_SHADER).as_raw()
    );
    assert_eq!(plan.acceleration_barrier.dst_access_mask, 0);
}

#[test]
fn acceleration_structure_writes_get_their_own_barrier() {
    let b = Barrier::GlobalBarrier {
        old_sync: BARRIER_SYNC_ACCELERATION_STRUCTURE_BUILD,
        new_sync: BARRIER_SYNC_RAY_TRACING,
        old_access: BARRIER_ACCESS_ACCELERATION_STRUCTURE_WRITE,
        new_access: BARRIER_ACCESS_ACCELERATION_STRUCTURE_READ,
    };
    let plan = plan_barriers(&device(false), &vec![b]).unwrap();
    assert_eq!(plan.memory_barrier_count, 2);
    assert_eq!(
        plan.acceleration_barrier.src_stage_mask,
        vk::PipelineStageFlags2::ACCELERATION_STRUCTURE_BUILD_KHR.as_raw()
    );
    assert_eq!(plan.acceleration_barrier.dst_stage_mask, vk::PipelineStageFlags2::RAY_TRACING_SHADER_KHR.as_raw());
    assert_eq!(
        plan.acceleration_barrier.src_access_mask,
        vk::AccessFlags2::ACCELERATION_STRUCTURE_WRITE_KHR.as_raw()
    );
    assert_eq!(
        plan.acceleration_barrier.dst_access_mask,
        vk::AccessFlags2::ACCELERATION_STRUCTURE_READ_KHR.as_raw()
    );
}

#[test]
fn barriers_name_only_stages_the_device_supports() {
    let mut d = device(false);
    d.supported_pipeline_stages = vk::PipelineStageFlags2::COMPUTE_SHADER.as_raw();
    d.supported_access_flags = vk::AccessFlags2::SHADER_STORAGE_WRITE.as_raw();
    let b = Barrier::GlobalBarrier {
        old_sync: BARRIER_SYNC_COPY | BARRIER_SYNC_COMPUTE_SHADER,
        new_sync: BARRIER_SYNC_FRAGMENT_SHADER,
        old_access: BARRIER_ACCESS_COPY_WRITE | BARRIER_ACCESS_STORAGE_WRITE,
        new_access: BARRIER_ACCESS_SAMPLING_READ,
    };
    let plan = plan_barriers(&d, &vec![b]).unwrap();
    assert_eq!(plan.general_barrier.src_stage_mask, vk::PipelineStageFlags2::COMPUTE_SHADER.as_raw());
    assert_eq!(plan.general_barrier.dst_stage_mask, 0);
    assert_eq!(plan.general_barrier.src_access_mask, vk::AccessFlags2::SHADER_STORAGE_WRITE.as_raw());
    assert_eq!(plan.general_barrier.dst_access_mask, 0);
}
