use sourcerenderer_vulkan::descriptor::{descriptor_pool_resets, descriptor_pool_setup};
use sourcerenderer_vulkan::pipeline_layout::{bindless_pool_setup, bindless_texture_write, BINDLESS_TEXTURE_COUNT};
use ash::vk;
use sourcerenderer_vulkan::descriptor::{
    descriptor_set_writes, dirty_descriptor_sets_from, dynamic_offsets, DescriptorPayload, SetLookup,
    VkBindingManager, VkBoundResource, VkDescriptorSetEntryInfo, VkDescriptorSetLayout, DIRTY_BINDLESS_TEXTURES,
    DIRTY_PER_DRAW, DIRTY_PER_FRAME, DIRTY_PER_MATERIAL,
};
use sourcerenderer_vulkan::gpu::BindingFrequency;

fn entry(index: u32, descriptor_type: vk::DescriptorType) -> VkDescriptorSetEntryInfo {
    VkDescriptorSetEntryInfo {
        shader_stage: vk::ShaderStageFlags::FRAGMENT.as_raw(),
        index,
        count: 1,
        descriptor_type: descriptor_type.as_raw(),
        writable: false,
        flags: 0,
    }
}

fn layout() -> VkDescriptorSetLayout {
    VkDescriptorSetLayout::new(
        &vec![entry(0, vk::DescriptorType::UNIFORM_BUFFER_DYNAMIC), entry(1, vk::DescriptorType::SAMPLED_IMAGE)],
        42,
    )
}

fn full_layout() -> VkDescriptorSetLayout {
    let mut entries = vec![entry(0, vk::DescriptorType::UNIFORM_BUFFER_DYNAMIC)];
    for i in 1..16 {
        entries.push(entry(i, vk::DescriptorType::SAMPLED_IMAGE));
    }
    VkDescriptorSetLayout::new(&entries, 43)
}

fn full_bindings(offset: usize) -> Vec<VkBoundResource> {
    let mut b = vec![VkBoundResource::Unbound; 16];
    b[0] = VkBoundResource::UniformBuffer { slice: 1, buffer: 100, slice_offset: 256, offset, length: 128 };
    for i in 1..16 {
        b[i] = VkBoundResource::SampledTexture(i as u64);
    }
    b
}

fn bindings(offset: usize) -> Vec<VkBoundResource> {
    let mut b = vec![VkBoundResource::Unbound; 16];
    b[0] = VkBoundResource::UniformBuffer { slice: 1, buffer: 100, slice_offset: 256, offset, length: 128 };
    b[1] = VkBoundResource::SampledTexture(7);
    b
}

#[test]
fn layouts_place_bindings_by_index() {
    let l = layout();
    assert_eq!(l.handle(), 42);
    assert_eq!(l.binding_count(), 16);
    assert!(l.is_dynamic_binding(0));
    assert!(!l.is_dynamic_binding(1));
    assert!(!l.is_dynamic_binding(5));
    assert_eq!(l.binding_infos[1], Some(entry(1, vk::DescriptorType::SAMPLED_IMAGE)));
    assert_eq!(l.binding_infos[2], None);
}

#[test]
fn writes_fill_each_binding_of_the_layout() {
    let writes = descriptor_set_writes(&layout(), &bindings(64));
    assert_eq!(writes.len(), 2);
    assert_eq!(writes[0].binding, 0);
    assert_eq!(writes[0].descriptor_type, vk::DescriptorType::UNIFORM_BUFFER_DYNAMIC.as_raw());
    assert_eq!(writes[0].payload, DescriptorPayload::Buffer { buffer: 100, offset: 0, range: 128 });
    assert_eq!(writes[1].binding, 1);
    assert_eq!(
        writes[1].payload,
        DescriptorPayload::Image { view: 7, sampler: 0, layout: vk::ImageLayout::SHADER_READ_ONLY_OPTIMAL.as_raw() }
    );
}

#[test]
fn dynamic_offsets_are_where_the_buffers_start() {
    assert_eq!(dynamic_offsets(&layout(), &bindings(64)), vec![320]);
}

#[test]
fn dirty_flags_per_frequency() {
    assert_eq!(dirty_descriptor_sets_from(BindingFrequency::PerDraw), DIRTY_PER_DRAW);
    assert_eq!(dirty_descriptor_sets_from(BindingFrequency::PerMaterial), DIRTY_PER_MATERIAL);
    assert_eq!(dirty_descriptor_sets_from(BindingFrequency::PerFrame), DIRTY_PER_FRAME);
}

#[test]
fn binding_marks_the_set_dirty_once() {
    let mut m = VkBindingManager::new();
    assert_eq!(m.dirty_sets(), 0);
    m.bind(BindingFrequency::PerFrame, 3, VkBoundResource::Sampler(9));
    assert_eq!(m.dirty_sets(), DIRTY_PER_FRAME);
    assert_eq!(m.bound_resources(BindingFrequency::PerFrame)[3], VkBoundResource::Sampler(9));
    assert_eq!(m.bound_resources(BindingFrequency::PerDraw)[3], VkBoundResource::Unbound);
    let before = m.bound_resources(BindingFrequency::PerFrame);
    m.bind(BindingFrequency::PerFrame, 3, VkBoundResource::Sampler(9));
    assert_eq!(m.bound_resources(BindingFrequency::PerFrame), before);
    assert_eq!(m.dirty_sets(), DIRTY_PER_FRAME);
}

#[test]
fn finishing_hands_out_the_dirty_sets_with_layouts() {
    let mut m = VkBindingManager::new();
    m.bind(BindingFrequency::PerDraw, 0, VkBoundResource::SampledTexture(1));
    m.bind(BindingFrequency::PerMaterial, 0, VkBoundResource::SampledTexture(2));
    m.bind(BindingFrequency::PerFrame, 0, VkBoundResource::SampledTexture(3));
    let order = m.finish(0, &vec![true, false, true]);
    assert_eq!(order, vec![BindingFrequency::PerDraw, BindingFrequency::PerFrame]);
    assert_eq!(m.dirty_sets(), 0);
    assert!(m.finish(1, &vec![true, true, true]).is_empty());
}

#[test]
fn marking_all_dirty_includes_bindless() {
    let mut m = VkBindingManager::new();
    m.mark_all_dirty();
    assert_eq!(m.dirty_sets(), DIRTY_PER_DRAW | DIRTY_PER_MATERIAL | DIRTY_PER_FRAME | DIRTY_BINDLESS_TEXTURES);
    m.reset();
    assert_eq!(m.dirty_sets(), 0);
}

#[test]
fn created_sets_are_found_again() {
    let mut m = VkBindingManager::new();
    let l = full_layout();
    match m.get_or_create_set(1, &l, &full_bindings(64)) {
        SetLookup::Create { dynamic_offsets } => assert_eq!(dynamic_offsets, vec![320]),
        other => panic!("expected a new set, got {:?}", other),
    }
    m.add_created_set(1, &l, &full_bindings(64), 555);
    match m.get_or_create_set(2, &l, &full_bindings(64)) {
        SetLookup::Cached { set, dynamic_offsets } => {
            assert_eq!(set, 555);
            assert_eq!(dynamic_offsets, vec![320]);
        },
        other => panic!("expected the cached set, got {:?}", other),
    }
    assert_eq!(m.transient_cache[0].last_used_frame, 2);
}

#[test]
fn a_dynamic_buffer_at_another_offset_reuses_the_set() {
    let mut m = VkBindingManager::new();
    let l = full_layout();
    m.add_created_set(1, &l, &full_bindings(64), 555);
    match m.get_or_create_set(1, &l, &full_bindings(0)) {
        SetLookup::Cached { set, dynamic_offsets } => {
            assert_eq!(set, 555);
            assert_eq!(dynamic_offsets, vec![256]);
        },
        other => panic!("expected the cached set, got {:?}", other),
    }
}

#[test]
fn another_texture_needs_another_set() {
    let mut m = VkBindingManager::new();
    let l = full_layout();
    m.add_created_set(1, &l, &full_bindings(64), 555);
    let mut other = full_bindings(64);
    other[1] = VkBoundResource::SampledTexture(80);
    assert!(matches!(m.get_or_create_set(1, &l, &other), SetLookup::Create { .. }));
    assert_eq!(m.find_compatible_set(1, &l, &full_bindings(64), true), None);
    assert_eq!(m.find_compatible_set(1, &l, &full_bindings(64), false), Some(555));
}

#[test]
fn sets_of_layouts_with_unused_slots_are_never_reused() {
    let mut m = VkBindingManager::new();
    let l = layout();
    m.add_created_set(1, &l, &bindings(64), 555);
    assert!(matches!(m.get_or_create_set(2, &l, &bindings(64)), SetLookup::Create { .. }));
}

#[test]
fn buffers_bind_the_rest_of_the_slice_without_a_length() {
    let mut m = VkBindingManager::new();
    m.bind_uniform_buffer(BindingFrequency::PerDraw, 2, 1, 100, 64, 1024, 256, None);
    assert_eq!(
        m.bound_resources(BindingFrequency::PerDraw)[2],
        VkBoundResource::UniformBuffer { slice: 1, buffer: 100, slice_offset: 64, offset: 256, length: 768 }
    );
    assert_eq!(m.dirty_sets(), DIRTY_PER_DRAW);
    m.bind_storage_buffer(BindingFrequency::PerMaterial, 0, 2, 200, 0, 512, 0, Some(128));
    assert_eq!(
        m.bound_resources(BindingFrequency::PerMaterial)[0],
        VkBoundResource::StorageBuffer { slice: 2, buffer: 200, slice_offset: 0, offset: 0, length: 128 }
    );
    assert_eq!(m.dirty_sets(), DIRTY_PER_DRAW | DIRTY_PER_MATERIAL);
}

#[test]
fn descriptor_pools_have_fixed_sizes() {
    let p = descriptor_pool_setup(false);
    assert_eq!(p.max_sets, 128);
    assert_eq!(p.flags, vk::DescriptorPoolCreateFlags::FREE_DESCRIPTOR_SET.as_raw());
    assert_eq!(
        p.pool_sizes,
        vec![
            (vk::DescriptorType::COMBINED_IMAGE_SAMPLER.as_raw(), 256),
            (vk::DescriptorType::UNIFORM_BUFFER_DYNAMIC.as_raw(), 512),
            (vk::DescriptorType::UNIFORM_BUFFER.as_raw(), 256),
            (vk::DescriptorType::STORAGE_BUFFER.as_raw(), 256),
            (vk::DescriptorType::STORAGE_BUFFER_DYNAMIC.as_raw(), 256),
        ]
    );
    assert_eq!(descriptor_pool_setup(true).flags, 0);
    assert!(descriptor_pool_resets(true));
    assert!(!descriptor_pool_resets(false));
}

#[test]
fn bindless_textures_live_in_one_big_set() {
    let p = bindless_pool_setup();
    assert_eq!(p.max_sets, 1);
    assert_eq!(p.flags, vk::DescriptorPoolCreateFlags::UPDATE_AFTER_BIND.as_raw());
    assert_eq!(p.pool_sizes, vec![(vk::DescriptorType::SAMPLED_IMAGE.as_raw(), BINDLESS_TEXTURE_COUNT)]);
    let (element, write) = bindless_texture_write(1234, 77);
    assert_eq!(element, 1234);
    assert_eq!(write.binding, 0);
    assert_eq!(write.descriptor_type, vk::DescriptorType::SAMPLED_IMAGE.as_raw());
    assert_eq!(
        write.payload,
        DescriptorPayload::Image { view: 77, sampler: 0, layout: vk::ImageLayout::SHADER_READ_ONLY_OPTIMAL.as_raw() }
    );
}
