use ash::vk;
use sourcerenderer_vulkan::adapter::{
    adapter_type, device_extension_list, extension_name_of, extension_support, extension_support_from_name,
    find_queue_family, plan_device, queue_create_infos, select_queue_families, DeviceExtension, FamilyKind,
    QueueCreateInfo, QueueFamilyProperties, SupportedFeatures, EXTENSION_ACCELERATION_STRUCTURE,
    EXTENSION_MEMORY_BUDGET, EXTENSION_NONE, EXTENSION_PIPELINE_LIBRARY, EXTENSION_RAY_QUERY,
    EXTENSION_RAY_TRACING_PIPELINE, EXTENSION_SWAPCHAIN,
};
use sourcerenderer_vulkan::gpu::AdapterType;

fn family(flags: vk::QueueFlags, count: u32) -> QueueFamilyProperties {
    QueueFamilyProperties { queue_flags: flags.as_raw(), queue_count: count }
}

fn families() -> Vec<QueueFamilyProperties> {
    vec![
        family(vk::QueueFlags::GRAPHICS | vk::QueueFlags::COMPUTE | vk::QueueFlags::TRANSFER, 16),
        family(vk::QueueFlags::COMPUTE | vk::QueueFlags::TRANSFER, 0),
        family(vk::QueueFlags::TRANSFER, 2),
        family(vk::QueueFlags::COMPUTE | vk::QueueFlags::TRANSFER, 8),
    ]
}

#[test]
fn queue_families_are_picked_by_their_purpose() {
    let props = families();
    assert_eq!(find_queue_family(&props, FamilyKind::Graphics), Some(0));
    assert_eq!(find_queue_family(&props, FamilyKind::Compute), Some(3));
    assert_eq!(find_queue_family(&props, FamilyKind::Transfer), Some(2));
    let s = select_queue_families(&props);
    assert_eq!((s.graphics, s.compute, s.transfer), (0, Some(3), Some(2)));
    assert_eq!(
        queue_create_infos(&s),
        vec![
            QueueCreateInfo { queue_family_index: 0, low_priority: false },
            QueueCreateInfo { queue_family_index: 3, low_priority: false },
            QueueCreateInfo { queue_family_index: 2, low_priority: true },
        ]
    );
}

#[test]
fn a_single_family_serves_everything() {
    let props = vec![family(vk::QueueFlags::GRAPHICS | vk::QueueFlags::COMPUTE | vk::QueueFlags::TRANSFER, 1)];
    let s = select_queue_families(&props);
    assert_eq!((s.graphics, s.compute, s.transfer), (0, None, None));
    assert_eq!(queue_create_infos(&s).len(), 1);
}

#[test]
fn extensions_are_known_by_name() {
    assert_eq!(extension_support_from_name(&"VK_KHR_swapchain".to_string()), EXTENSION_SWAPCHAIN);
    assert_eq!(extension_support_from_name(&"VK_EXT_memory_budget".to_string()), EXTENSION_MEMORY_BUDGET);
    assert_eq!(extension_support_from_name(&"VK_KHR_something_else".to_string()), EXTENSION_NONE);
    let names = vec!["VK_KHR_swapchain".to_string(), "VK_KHR_ray_query".to_string(), "VK_NV_other".to_string()];
    assert_eq!(extension_support(&names), EXTENSION_SWAPCHAIN | EXTENSION_RAY_QUERY);
    assert_eq!(extension_name_of(DeviceExtension::RayTracingPipeline), "VK_KHR_ray_tracing_pipeline".to_string());
}

fn features() -> SupportedFeatures {
    SupportedFeatures {
        shader_storage_image_write_without_format: true,
        shader_int16: true,
        storage_buffer_16bit_access: false,
        draw_indirect_first_instance: true,
        multi_draw_indirect: true,
        host_query_reset: true,
        shader_sampled_image_array_non_uniform_indexing: true,
        descriptor_binding_sampled_image_update_after_bind: true,
        descriptor_binding_variable_descriptor_count: true,
        runtime_descriptor_array: true,
        descriptor_binding_partially_bound: true,
        descriptor_binding_update_unused_while_pending: true,
        shader_sampled_image_array_non_uniform_indexing_native: true,
        max_descriptor_set_update_after_bind_sampled_images: 1_000_000,
        buffer_device_address: true,
        draw_indirect_count: true,
        sampler_filter_minmax: true,
        filter_minmax_single_component_formats: true,
        timeline_semaphore: true,
        dynamic_rendering: true,
        synchronization2: true,
        maintenance4: true,
        acceleration_structure: true,
        ray_tracing_pipeline: true,
        ray_query: true,
        fragment_shader_barycentric: true,
        host_image_copy: false,
        mesh_shader: false,
        task_shader: false,
    }
}

#[test]
fn a_device_without_ray_tracing_extensions() {
    let plan = plan_device(EXTENSION_SWAPCHAIN | EXTENSION_MEMORY_BUDGET, &features());
    assert_eq!(plan.extensions, vec![DeviceExtension::Swapchain, DeviceExtension::MemoryBudget]);
    assert!(!plan.ray_tracing_pipeline);
    assert!(!plan.ray_query);
    assert!(!plan.buffer_device_address);
    assert!(plan.descriptor_indexing);
    assert!(!plan.shader_int16);
    assert!(plan.memory_budget);
    assert!(plan.sampler_filter_minmax);
    assert!(!plan.geometry_shader);
}

#[test]
fn a_device_with_ray_tracing() {
    let exts = EXTENSION_SWAPCHAIN
        | EXTENSION_ACCELERATION_STRUCTURE
        | EXTENSION_RAY_TRACING_PIPELINE
        | EXTENSION_PIPELINE_LIBRARY
        | EXTENSION_RAY_QUERY;
    let plan = plan_device(exts, &features());
    assert!(plan.ray_tracing_pipeline && plan.ray_query && plan.acceleration_structure);
    assert!(plan.buffer_device_address);
    assert!(plan.supports_ray_tracing_pipeline() && plan.supports_ray_tracing_query());
    assert!(plan.supports_bindless());
    assert!(plan.supports_indirect_count() && plan.supports_indirect_first_instance());
    assert!(plan.supports_min_max_filter());
    assert!(!plan.supports_mesh_shader());
    assert!(!plan.supports_barycentrics());
    assert_eq!(
        device_extension_list(exts, &features()),
        vec![
            DeviceExtension::Swapchain,
            DeviceExtension::AccelerationStructure,
            DeviceExtension::RayTracingPipeline,
            DeviceExtension::PipelineLibrary,
            DeviceExtension::RayQuery,
        ]
    );
}

#[test]
fn adapter_types_follow_the_device_type() {
    assert_eq!(adapter_type(vk::PhysicalDeviceType::DISCRETE_GPU.as_raw()), AdapterType::Discrete);
    assert_eq!(adapter_type(vk::PhysicalDeviceType::INTEGRATED_GPU.as_raw()), AdapterType::Integrated);
    assert_eq!(adapter_type(vk::PhysicalDeviceType::VIRTUAL_GPU.as_raw()), AdapterType::Virtual);
    assert_eq!(adapter_type(vk::PhysicalDeviceType::CPU.as_raw()), AdapterType::Software);
    assert_eq!(adapter_type(vk::PhysicalDeviceType::OTHER.as_raw()), AdapterType::Other);
}
