use ash::vk;
use sourcerenderer_vulkan::command_plan::{
    blit_region, buffer_copy_texel_pitches, clear_texture_plan, clear_storage_buffer_plan, finish_binding, push_constant_upload,
    render_pass_setup, secondary_inheritance, BlitTexture, ClearValueKind, RenderPassAttachmentDesc,
    RenderpassRecordingMode, SetBinding,
};
use sourcerenderer_vulkan::command_pool::{command_pool_create_flags, CommandBufferPool, ReturnedBuffer};
use sourcerenderer_vulkan::command_state::{CommandBufferLifecycle, VkCommandBuffer, VkCommandBufferState};
use sourcerenderer_vulkan::descriptor::{
    VkBoundResource, VkConstantRange, DIRTY_BINDLESS_TEXTURES, DIRTY_PER_DRAW, DIRTY_PER_FRAME, DIRTY_PER_MATERIAL,
};
use sourcerenderer_vulkan::gpu::BindingFrequency;
use sourcerenderer_vulkan::graph_info::{Format, SampleCount};
use sourcerenderer_vulkan::graph_passes::{LoadOp, StoreOp};
use sourcerenderer_vulkan::submit_plan::{plan_submit, submit, FenceValue, SubmissionDesc};
use sourcerenderer_vulkan::gpu::{BARRIER_SYNC_COMPUTE_SHADER, BARRIER_SYNC_HOST};

fn set(handle: u64, offsets: Vec<u64>) -> Option<SetBinding> {
    Some(SetBinding { set: handle, dynamic_offsets: offsets })
}

#[test]
fn consecutive_sets_are_bound_together() {
    let slots = vec![set(10, vec![]), set(11, vec![256]), set(12, vec![])];
    let calls = finish_binding(&slots, None);
    assert_eq!(calls.len(), 1);
    assert_eq!(calls[0].first_set, 0);
    assert_eq!(calls[0].sets, vec![10, 11, 12]);
    assert_eq!(calls[0].offsets, vec![256]);
}

#[test]
fn an_empty_slot_splits_the_binds() {
    let slots = vec![set(10, vec![]), None, set(12, vec![4, 8])];
    let calls = finish_binding(&slots, None);
    assert_eq!(calls.len(), 2);
    assert_eq!((calls[0].first_set, calls[0].sets.clone()), (0, vec![10]));
    assert_eq!((calls[1].first_set, calls[1].sets.clone()), (2, vec![12]));
    assert_eq!(calls[1].offsets, vec![4, 8]);
}

#[test]
fn bindless_set_joins_a_run_that_ends_before_it() {
    let slots = vec![None, set(11, vec![]), set(12, vec![])];
    let calls = finish_binding(&slots, Some(99));
    assert_eq!(calls.len(), 1);
    assert_eq!(calls[0].first_set, 1);
    assert_eq!(calls[0].sets, vec![11, 12, 99]);
}

#[test]
fn bindless_set_is_bound_alone_after_a_gap() {
    let slots = vec![set(10, vec![]), None, None];
    let calls = finish_binding(&slots, Some(99));
    assert_eq!(calls.len(), 2);
    assert_eq!((calls[0].first_set, calls[0].sets.clone()), (0, vec![10]));
    assert_eq!((calls[1].first_set, calls[1].sets.clone()), (3, vec![99]));
}

#[test]
fn nothing_is_bound_without_sets() {
    let slots: Vec<Option<SetBinding>> = vec![None, None, None];
    assert!(finish_binding(&slots, None).is_empty());
}

#[test]
fn dynamic_offsets_are_cut_to_32_bits() {
    let slots = vec![set(10, vec![0x1_0000_0010]), None, None];
    let calls = finish_binding(&slots, None);
    assert_eq!(calls[0].offsets, vec![0x10]);
}

#[test]
fn clearing_the_rest_of_a_buffer() {
    let plan = clear_storage_buffer_plan(1024, 4096, 256, None, 7);
    assert_eq!(plan.binding_offset, 256);
    assert_eq!(plan.binding_length, 768);
    assert_eq!(plan.push_length, 768);
    assert_eq!(plan.push_value, 7);
    assert_eq!(plan.dynamic_offset, 4352);
    assert_eq!(plan.group_count_x, 3);
}

#[test]
fn clearing_a_given_length() {
    let plan = clear_storage_buffer_plan(1024, 0, 0, Some(65), 0);
    assert_eq!(plan.binding_length, 260);
    assert_eq!(plan.group_count_x, 2);
}

#[test]
fn blit_regions_cover_whole_subresources() {
    let src = BlitTexture { format: Format::RGBA8UNorm, width: 512, height: 256, depth: 1, array_layer: 2, mip_level: 0 };
    let dst = BlitTexture { format: Format::D32S8, width: 256, height: 128, depth: 1, array_layer: 0, mip_level: 1 };
    let (s, d) = blit_region(src, dst);
    assert_eq!(s.aspect_mask, vk::ImageAspectFlags::COLOR.as_raw());
    assert_eq!((s.base_array_layer, s.mip_level, s.layer_count), (2, 0, 1));
    assert_eq!((s.max_x, s.max_y, s.max_z), (512, 256, 1));
    assert_eq!(d.aspect_mask, (vk::ImageAspectFlags::DEPTH | vk::ImageAspectFlags::STENCIL).as_raw());
    assert_eq!((d.max_x, d.max_y, d.max_z), (256, 128, 1));
    assert_eq!(d.mip_level, 1);
}

#[test]
fn render_pass_area_is_the_largest_attachment() {
    let atts = vec![
        RenderPassAttachmentDesc {
            format: Format::RGBA8UNorm,
            samples: SampleCount::Samples1,
            width: 800,
            height: 600,
            load_op: LoadOp::Clear,
            store_op: StoreOp::Store,
        },
        RenderPassAttachmentDesc {
            format: Format::D32,
            samples: SampleCount::Samples1,
            width: 1024,
            height: 512,
            load_op: LoadOp::Load,
            store_op: StoreOp::DontCare,
        },
    ];
    let setup = render_pass_setup(&atts, RenderpassRecordingMode::Commands);
    assert_eq!((setup.width, setup.height), (1024, 600));
    assert_eq!(setup.clear_values, vec![ClearValueKind::ColorZero, ClearValueKind::DepthOneStencilZero]);
    assert_eq!(setup.attachments[1].load_op, LoadOp::Load);
    assert_eq!(setup.attachments[0].stencil_load_op, LoadOp::DontCare);
    assert_eq!(setup.attachments[0].stencil_store_op, StoreOp::DontCare);
    assert_eq!(setup.subpass_contents, vk::SubpassContents::INLINE.as_raw());
    let secondary = render_pass_setup(&atts, RenderpassRecordingMode::CommandBuffers);
    assert_eq!(secondary.subpass_contents, vk::SubpassContents::SECONDARY_COMMAND_BUFFERS.as_raw());
}

#[test]
fn render_pass_without_attachments_has_no_area() {
    let setup = render_pass_setup(&vec![], RenderpassRecordingMode::Commands);
    assert_eq!((setup.width, setup.height), (0, 0));
    assert!(setup.attachments.is_empty());
}

#[test]
fn submissions_are_laid_out_in_order() {
    let all = (vk::PipelineStageFlags2::ALL_COMMANDS.as_raw()) & !vk::PipelineStageFlags2::HOST.as_raw();
    let supported = (vk::PipelineStageFlags2::COMPUTE_SHADER | vk::PipelineStageFlags2::HOST).as_raw();
    let subs = vec![
        SubmissionDesc {
            command_buffers: vec![1, 2],
            wait_fences: vec![FenceValue { fence: 50, value: 3, sync_before: BARRIER_SYNC_COMPUTE_SHADER | BARRIER_SYNC_HOST }],
            signal_fences: vec![],
            acquire_semaphore: Some(60),
            release_semaphore: None,
        },
        SubmissionDesc {
            command_buffers: vec![3],
            wait_fences: vec![],
            signal_fences: vec![FenceValue { fence: 51, value: 4, sync_before: BARRIER_SYNC_COMPUTE_SHADER }],
            acquire_semaphore: None,
            release_semaphore: Some(61),
        },
    ];
    let plan = plan_submit(&subs, supported);
    assert_eq!(plan.command_buffers, vec![1, 2, 3]);
    assert_eq!(plan.semaphores.len(), 4);
    assert_eq!(plan.semaphores[0].semaphore, 50);
    assert_eq!(plan.semaphores[0].value, 3);
    assert_eq!(plan.semaphores[0].stage_mask, vk::PipelineStageFlags2::COMPUTE_SHADER.as_raw());
    assert_eq!((plan.semaphores[1].semaphore, plan.semaphores[1].value, plan.semaphores[1].stage_mask), (60, 0, all));
    assert_eq!(plan.semaphores[2].semaphore, 51);
    assert_eq!(plan.semaphores[3].semaphore, 61);
    let r0 = plan.submissions[0];
    assert_eq!((r0.command_buffer_start, r0.command_buffer_count), (0, 2));
    assert_eq!((r0.wait_start, r0.wait_count, r0.signal_start, r0.signal_count), (0, 2, 2, 0));
    let r1 = plan.submissions[1];
    assert_eq!((r1.command_buffer_start, r1.command_buffer_count), (2, 1));
    assert_eq!((r1.wait_start, r1.wait_count, r1.signal_start, r1.signal_count), (2, 0, 2, 2));
}

#[test]
fn secondary_buffers_inherit_the_render_pass_formats() {
    let rts = vec![(Format::RGBA16Float, SampleCount::Samples4), (Format::D24, SampleCount::Samples1)];
    let inh = secondary_inheritance(&rts, Some((Format::D24, SampleCount::Samples4)), false);
    assert_eq!(inh.rt_formats, vec![vk::Format::R16G16B16A16_SFLOAT.as_raw(), vk::Format::D32_SFLOAT.as_raw()]);
    assert_eq!(inh.depth_format, vk::Format::D32_SFLOAT.as_raw());
    assert_eq!(inh.stencil_format, vk::Format::D32_SFLOAT.as_raw());
    assert_eq!(inh.sample_count, vk::SampleCountFlags::TYPE_4.as_raw());
    let depth_only = secondary_inheritance(&vec![], Some((Format::D32, SampleCount::Samples2)), true);
    assert!(depth_only.rt_formats.is_empty());
    assert_eq!(depth_only.depth_format, vk::Format::D32_SFLOAT.as_raw());
    assert_eq!(depth_only.stencil_format, vk::Format::UNDEFINED.as_raw());
    assert_eq!(depth_only.sample_count, vk::SampleCountFlags::TYPE_2.as_raw());
    let color_only = secondary_inheritance(&vec![(Format::BGRA8UNorm, SampleCount::Samples1)], None, true);
    assert_eq!(color_only.depth_format, vk::Format::UNDEFINED.as_raw());
}

#[test]
fn push_constants_are_cut_to_their_range() {
    let range = VkConstantRange { offset: 16, size: 32, shader_stage: vk::ShaderStageFlags::FRAGMENT.as_raw() };
    assert_eq!(push_constant_upload(range, 8), (16, 8));
    assert_eq!(push_constant_upload(range, 64), (16, 32));
}

#[test]
fn copy_pitches_in_texels() {
    assert_eq!(buffer_copy_texel_pitches(1024, 0, 1, 1, 4), (256, 0));
    assert_eq!(buffer_copy_texel_pitches(1024, 262144, 1, 1, 4), (256, 256));
    assert_eq!(buffer_copy_texel_pitches(0, 0, 4, 4, 8), (0, 0));
    assert_eq!(buffer_copy_texel_pitches(256, 8192, 4, 4, 8), (128, 32));
}

#[test]
fn command_buffers_go_through_their_life_in_order() {
    let mut c = CommandBufferLifecycle::new();
    assert_eq!(c.state, VkCommandBufferState::Ready);
    assert_eq!(c.begin(3, false), vk::CommandBufferUsageFlags::ONE_TIME_SUBMIT.as_raw());
    assert_eq!((c.state, c.frame), (VkCommandBufferState::Recording, 3));
    c.begin_render_pass();
    assert!(c.in_render_pass);
    assert!(c.finish());
    assert_eq!(c.state, VkCommandBufferState::Finished);
    assert!(!c.in_render_pass);
    assert!(!c.must_wait_before_drop());
    c.mark_submitted();
    assert!(c.must_wait_before_drop());
    c.reset();
    assert_eq!(c.state, VkCommandBufferState::Ready);
    assert_eq!(
        c.begin(4, true),
        (vk::CommandBufferUsageFlags::ONE_TIME_SUBMIT | vk::CommandBufferUsageFlags::RENDER_PASS_CONTINUE).as_raw()
    );
    c.begin_render_pass();
    c.end_render_pass();
    assert!(!c.finish());
}

#[test]
fn pools_reuse_the_buffers_given_back() {
    assert_eq!(
        command_pool_create_flags(true, true),
        (vk::CommandPoolCreateFlags::RESET_COMMAND_BUFFER | vk::CommandPoolCreateFlags::TRANSIENT).as_raw()
    );
    assert_eq!(command_pool_create_flags(false, false), 0);
    let mut pool = CommandBufferPool::new();
    assert_eq!(pool.take(true), None);
    pool.give_back(10, true);
    pool.give_back(20, false);
    pool.give_back(11, true);
    assert_eq!(pool.take(true), None);
    let returned = pool.reset();
    assert_eq!(
        returned,
        vec![
            ReturnedBuffer { handle: 10, primary: true },
            ReturnedBuffer { handle: 20, primary: false },
            ReturnedBuffer { handle: 11, primary: true },
        ]
    );
    assert_eq!(pool.primary_free, vec![10, 11]);
    assert_eq!(pool.secondary_free, vec![20]);
    assert_eq!(pool.take(true), Some(11));
    assert_eq!(pool.take(false), Some(20));
    assert_eq!(pool.take(false), None);
    assert!(pool.reset().is_empty());
    assert_eq!(pool.primary_free, vec![10]);
}

#[test]
fn storage_textures_clear_one_subresource() {
    let c = clear_texture_plan(Format::RGBA8UNorm, 3, 2);
    assert_eq!(c.aspect_mask, vk::ImageAspectFlags::COLOR.as_raw());
    assert_eq!((c.base_array_layer, c.layer_count, c.base_mip_level, c.level_count), (3, 1, 2, 1));
    assert!(!c.depth_stencil);
    let d = clear_texture_plan(Format::D16S8, 0, 0);
    assert_eq!(d.aspect_mask, (vk::ImageAspectFlags::DEPTH | vk::ImageAspectFlags::STENCIL).as_raw());
    assert!(d.depth_stencil);
}

fn finished(frame: u64) -> CommandBufferLifecycle {
    CommandBufferLifecycle { state: VkCommandBufferState::Finished, frame, in_render_pass: false }
}

#[test]
fn submitting_marks_every_command_buffer_submitted() {
    let subs = vec![
        SubmissionDesc {
            command_buffers: vec![1, 2],
            wait_fences: vec![],
            signal_fences: vec![],
            acquire_semaphore: None,
            release_semaphore: None,
        },
        SubmissionDesc {
            command_buffers: vec![3],
            wait_fences: vec![],
            signal_fences: vec![],
            acquire_semaphore: None,
            release_semaphore: Some(61),
        },
    ];
    let mut lifecycles = vec![finished(7), finished(7), finished(8)];
    let plan = submit(&subs, 0, &mut lifecycles);
    assert_eq!(plan.command_buffers, vec![1, 2, 3]);
    assert_eq!(plan.submissions.len(), 2);
    assert_eq!(plan.semaphores.len(), 1);
    for (c, frame) in lifecycles.iter().zip([7u64, 7, 8]) {
        assert_eq!(c.state, VkCommandBufferState::Submitted);
        assert_eq!(c.frame, frame);
    }
}

#[test]
fn beginning_a_command_buffer_marks_every_set_dirty() {
    let mut cmd = VkCommandBuffer::new();
    assert_eq!(cmd.descriptor_manager.dirty_sets(), 0);
    let flags = cmd.begin(4, false);
    assert_eq!(flags, vk::CommandBufferUsageFlags::ONE_TIME_SUBMIT.as_raw());
    assert_eq!(cmd.lifecycle.state, VkCommandBufferState::Recording);
    assert_eq!(cmd.lifecycle.frame, 4);
    let all = DIRTY_PER_DRAW | DIRTY_PER_MATERIAL | DIRTY_PER_FRAME | DIRTY_BINDLESS_TEXTURES;
    assert_eq!(cmd.descriptor_manager.dirty_sets(), all);
    assert!(!cmd.finish());
    cmd.mark_submitted();
    assert_eq!(cmd.lifecycle.state, VkCommandBufferState::Submitted);
    cmd.reset();
    assert_eq!(cmd.lifecycle.state, VkCommandBufferState::Ready);
    assert_eq!(cmd.descriptor_manager.dirty_sets(), 0);
    assert_eq!(cmd.descriptor_manager.bound_resources(BindingFrequency::PerDraw)[0], VkBoundResource::Unbound);
}
