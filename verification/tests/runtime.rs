use ash::vk;
use sourcerenderer_vulkan::graph_info::{Format, SampleCount, BACK_BUFFER_ATTACHMENT_NAME};
use sourcerenderer_vulkan::graph_barrier::VkBarrierTemplate;
use sourcerenderer_vulkan::graph_runtime::{
    acquire_error_for, check_frame_start, clear_kinds, emit_barrier, frame_buffer_extent, frame_buffer_key,
    present_barrier, submission_sync, swap_history_resources, ClearKind, ExternalResource, FrameBufferCache,
    FrameError, GraphBarrier, RenderGraphResourceError, SubmissionSync, TextureDimensions, VkRenderGraphResources,
    VkResource,
};
use sourcerenderer_vulkan::table::AssocTable;

fn texture(name: u32, view: u64, view_b: Option<u64>) -> VkResource {
    VkResource::Texture {
        texture: view + 1000,
        texture_b: view_b.map(|v| v + 1000),
        view,
        view_b,
        name,
        format: Format::RGBA8UNorm,
        samples: SampleCount::Samples1,
        width: 64,
        height: 32,
        depth: 1,
        levels: 4,
        external: false,
    }
}

fn resources() -> VkRenderGraphResources {
    let mut resources = AssocTable::new();
    resources.insert(1, texture(1, 11, Some(12)));
    resources.insert(2, texture(2, 21, None));
    resources.insert(3, VkResource::Buffer { buffer: 31, buffer_b: None, name: 3, format: None, size: 256, clear: false });
    let mut external_resources = AssocTable::new();
    external_resources.insert(
        9,
        ExternalResource::Texture {
            view: 91,
            texture: 92,
            dimensions: TextureDimensions { width: 8, height: 8, depth: 1, array_count: 2, mip_levels: 1 },
        },
    );
    external_resources.insert(10, ExternalResource::Buffer(101));
    VkRenderGraphResources {
        resources,
        external_resources,
        pass_resource_names: vec![1, 2, 3, 9, 10, BACK_BUFFER_ATTACHMENT_NAME],
        swapchain_views: vec![500, 501],
        swapchain_width: 1280,
        swapchain_height: 720,
        swapchain_image_index: 1,
    }
}

#[test]
fn passes_look_up_their_declared_textures() {
    let r = resources();
    assert_eq!(r.get_texture_view(1, false), Ok(11));
    assert_eq!(r.get_texture_srv(1, true), Ok(12));
    assert_eq!(r.get_texture_uav(2, false), Ok(21));
    assert_eq!(r.get_texture_view(2, true), Err(RenderGraphResourceError::NoHistory));
    assert_eq!(r.get_texture_view(9, false), Ok(91));
    assert_eq!(r.get_texture_view(BACK_BUFFER_ATTACHMENT_NAME, false), Ok(501));
    assert_eq!(r.get_texture_view(3, false), Err(RenderGraphResourceError::WrongResourceType));
    assert_eq!(r.get_texture_view(10, false), Err(RenderGraphResourceError::WrongResourceType));
}

#[test]
fn undeclared_resources_are_not_allowed() {
    let mut r = resources();
    r.pass_resource_names = vec![1];
    assert_eq!(r.get_texture_view(2, false), Err(RenderGraphResourceError::NotAllowed));
    assert_eq!(r.get_buffer(3, false), Err(RenderGraphResourceError::NotAllowed));
    r.pass_resource_names = vec![1, 77];
    assert_eq!(r.get_texture_view(77, false), Err(RenderGraphResourceError::NotFound));
}

#[test]
fn passes_look_up_their_buffers() {
    let r = resources();
    assert_eq!(r.get_buffer(3, false), Ok(31));
    assert_eq!(r.get_buffer(3, true), Err(RenderGraphResourceError::NoHistory));
    assert_eq!(r.get_buffer(10, false), Ok(101));
    assert_eq!(r.get_buffer(1, false), Err(RenderGraphResourceError::WrongResourceType));
}

#[test]
fn texture_dimensions_of_any_texture() {
    let r = resources();
    assert_eq!(
        r.texture_dimensions(1),
        Ok(TextureDimensions { width: 64, height: 32, depth: 1, array_count: 1, mip_levels: 4 })
    );
    assert_eq!(
        r.texture_dimensions(BACK_BUFFER_ATTACHMENT_NAME),
        Ok(TextureDimensions { width: 1280, height: 720, depth: 1, array_count: 1, mip_levels: 1 })
    );
    assert_eq!(
        r.texture_dimensions(9),
        Ok(TextureDimensions { width: 8, height: 8, depth: 1, array_count: 2, mip_levels: 1 })
    );
    assert_eq!(r.texture_dimensions(3), Err(RenderGraphResourceError::WrongResourceType));
    assert_eq!(r.texture_dimensions(55), Err(RenderGraphResourceError::NotFound));
}

#[test]
fn history_copies_trade_places_and_back() {
    let mut r = resources().resources;
    swap_history_resources(&mut r);
    match r.get(1) {
        Some(VkResource::Texture { view, view_b, .. }) => assert_eq!((*view, *view_b), (12, Some(11))),
        other => panic!("{:?}", other),
    }
    match r.get(2) {
        Some(VkResource::Texture { view, view_b, .. }) => assert_eq!((*view, *view_b), (21, None)),
        other => panic!("{:?}", other),
    }
    swap_history_resources(&mut r);
    assert_eq!(r.get(1), Some(&texture(1, 11, Some(12))));
}

#[test]
fn frames_start_only_on_a_fine_swapchain() {
    assert_eq!(check_frame_start(false, true), Ok(()));
    assert_eq!(check_frame_start(true, true), Err(FrameError::SurfaceLost));
    assert_eq!(check_frame_start(false, false), Err(FrameError::Other));
    assert_eq!(acquire_error_for(vk::Result::ERROR_OUT_OF_DATE_KHR.as_raw(), false), FrameError::Other);
    assert_eq!(acquire_error_for(vk::Result::ERROR_OUT_OF_DATE_KHR.as_raw(), true), FrameError::SurfaceLost);
    assert_eq!(acquire_error_for(vk::Result::ERROR_SURFACE_LOST_KHR.as_raw(), false), FrameError::SurfaceLost);
}

#[test]
fn only_swapchain_passes_synchronise_with_presentation() {
    assert_eq!(submission_sync(true), SubmissionSync { wait_for_acquire: true, signal_done: true, fence: true });
    assert_eq!(submission_sync(false), SubmissionSync { wait_for_acquire: false, signal_done: false, fence: false });
}

#[test]
fn present_barrier_after_compute_and_copy() {
    let c = present_barrier(true, Format::BGRA8UNorm, 1, 1, 3);
    assert_eq!(c.src_stage, vk::PipelineStageFlags::COMPUTE_SHADER.as_raw());
    assert_eq!(c.src_access, vk::AccessFlags::SHADER_WRITE.as_raw());
    assert_eq!(c.old_layout, vk::ImageLayout::GENERAL.as_raw());
    assert_eq!(c.new_layout, vk::ImageLayout::PRESENT_SRC_KHR.as_raw());
    assert_eq!(c.dst_access, vk::AccessFlags::MEMORY_READ.as_raw());
    assert_eq!(c.aspect_mask, vk::ImageAspectFlags::COLOR.as_raw());
    let t = present_barrier(false, Format::BGRA8UNorm, 1, 1, 3);
    assert_eq!(t.src_stage, vk::PipelineStageFlags::TRANSFER.as_raw());
    assert_eq!(t.old_layout, vk::ImageLayout::TRANSFER_DST_OPTIMAL.as_raw());
}

#[test]
fn frame_buffers_are_found_by_their_views() {
    let mut cache = FrameBufferCache::new();
    assert_eq!(cache.lookup(&vec![1, 2]), None);
    cache.insert(vec![1, 2], 40);
    assert_eq!(cache.lookup(&vec![1, 2]), Some(40));
    assert_eq!(cache.lookup(&vec![2, 1]), None);
}

fn depth_texture(name: u32, view: u64, width: u32, height: u32) -> VkResource {
    VkResource::Texture {
        texture: view + 1000,
        texture_b: None,
        view,
        view_b: None,
        name,
        format: Format::D32,
        samples: SampleCount::Samples1,
        width,
        height,
        depth: 1,
        levels: 1,
        external: false,
    }
}

#[test]
fn attachments_clear_by_their_format() {
    let mut r = resources().resources;
    r.insert(4, depth_texture(4, 41, 32, 16));
    let kinds = clear_kinds(&r, &vec![1, 4, BACK_BUFFER_ATTACHMENT_NAME]);
    assert_eq!(kinds, vec![ClearKind::Color, ClearKind::DepthStencil, ClearKind::Color]);
}

#[test]
fn frame_buffers_take_the_smallest_attachment() {
    let mut r = resources().resources;
    r.insert(4, depth_texture(4, 41, 32, 48));
    assert_eq!(frame_buffer_extent(&r, &vec![1, 4], false, 1280, 720), (32, 32));
    assert_eq!(frame_buffer_extent(&r, &vec![1, BACK_BUFFER_ATTACHMENT_NAME], false, 16, 8), (64, 32));
    assert_eq!(frame_buffer_extent(&r, &vec![1, BACK_BUFFER_ATTACHMENT_NAME], true, 16, 8), (16, 8));
    assert_eq!(frame_buffer_key(&r, &vec![4, BACK_BUFFER_ATTACHMENT_NAME, 1], 777), vec![41, 777, 11]);
}

#[test]
fn barrier_templates_name_real_resources() {
    let r = resources();
    let templates = vec![
        VkBarrierTemplate::Image { name: 1, is_history: true, new_usage: 2, old_usage: 1, new_primary_usage: 2, old_primary_usage: 1 },
        VkBarrierTemplate::Image {
            name: BACK_BUFFER_ATTACHMENT_NAME,
            is_history: false,
            new_usage: 4,
            old_usage: 0,
            new_primary_usage: 4,
            old_primary_usage: 0,
        },
        VkBarrierTemplate::Buffer { name: 10, is_history: false, new_usage: 8, old_usage: 16, new_primary_usage: 8, old_primary_usage: 16 },
    ];
    let barriers = emit_barrier(&templates, &r.resources, &r.external_resources, 4242);
    assert_eq!(
        barriers,
        vec![
            GraphBarrier::Texture { texture: 1012, old_usage: 1, new_usage: 2, old_primary_usage: 1, new_primary_usage: 2 },
            GraphBarrier::Texture { texture: 4242, old_usage: 0, new_usage: 4, old_primary_usage: 0, new_primary_usage: 4 },
            GraphBarrier::Buffer { buffer: 101, old_usage: 16, new_usage: 8, old_primary_usage: 16, new_primary_usage: 8 },
        ]
    );
}
