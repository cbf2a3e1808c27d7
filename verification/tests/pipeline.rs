use ash::vk;
use sourcerenderer_vulkan::descriptor::{VkConstantRange, VkDescriptorSetEntryInfo, VkDescriptorSetLayout};
use sourcerenderer_vulkan::gpu::{
    BlendFactor, BlendOp, CompareFunc, InputRate, LogicOp, ShaderType, StencilOp, COLOR_COMPONENT_ALPHA,
    COLOR_COMPONENT_BLUE, COLOR_COMPONENT_GREEN, COLOR_COMPONENT_RED,
};
use sourcerenderer_vulkan::graph_info::{Format, SampleCount};
use sourcerenderer_vulkan::pipeline_layout::{
    add_bindless_set_if_used, add_shader_to_descriptor_set_layout_setup, push_constant_range_index,
    remap_push_constant_ranges, BindingType, DescriptorLimits, DescriptorSetLayoutSetupContext, VkPipelineLayout,
    BINDLESS_TEXTURE_COUNT, BINDLESS_TEXTURE_SET_INDEX,
};
use sourcerenderer_vulkan::pipeline_state::{
    graphics_pipeline_state, AttachmentBlendInfo, CullMode, DepthStencilInfo, FillMode, FrontFace,
    GraphicsPipelineInfo, InputAssemblerElement, PrimitiveType, RasterizerInfo, ShaderInputElement, StencilInfo,
};
use sourcerenderer_vulkan::shader_reflection::{reflect_shader_layout, ReflectedKind, ReflectedResource};

fn res(kind: ReflectedKind, set: u32, binding: u32) -> ReflectedResource {
    ReflectedResource { kind, set, binding, array_size: 1, non_writable: false }
}

fn limits() -> DescriptorLimits {
    DescriptorLimits { max_descriptor_set_storage_buffers_dynamic: 8, max_descriptor_set_uniform_buffers_dynamic: 8 }
}

#[test]
fn reflection_sorts_resources_into_sets() {
    let resources = vec![
        res(ReflectedKind::SeparateImage, 0, 1),
        res(ReflectedKind::SeparateImage, BINDLESS_TEXTURE_SET_INDEX as u32, 0),
        res(ReflectedKind::StorageBuffer, 2, 0),
        ReflectedResource { kind: ReflectedKind::StorageImage, set: 2, binding: 1, array_size: 1, non_writable: true },
    ];
    let info = reflect_shader_layout(ShaderType::ComputeShader, Some(16), &resources);
    assert_eq!(info.shader_type, ShaderType::ComputeShader);
    assert_eq!(info.descriptor_set_bindings.len(), 5);
    assert!(info.uses_bindless_texture_set);
    let stage = vk::ShaderStageFlags::COMPUTE.as_raw();
    assert_eq!(
        info.descriptor_set_bindings[0],
        vec![VkDescriptorSetEntryInfo {
            shader_stage: stage,
            index: 1,
            count: 1,
            descriptor_type: vk::DescriptorType::SAMPLED_IMAGE.as_raw(),
            writable: false,
            flags: 0,
        }]
    );
    assert!(info.descriptor_set_bindings[BINDLESS_TEXTURE_SET_INDEX].is_empty());
    let set2 = &info.descriptor_set_bindings[2];
    assert_eq!(set2.len(), 2);
    assert_eq!(set2[0].descriptor_type, vk::DescriptorType::STORAGE_BUFFER.as_raw());
    assert!(set2[0].writable);
    assert_eq!(set2[1].descriptor_type, vk::DescriptorType::STORAGE_IMAGE.as_raw());
    assert!(!set2[1].writable);
    let range = info.push_constants_range.unwrap();
    assert_eq!((range.offset, range.size), (0, 16));
}

#[test]
fn push_constant_slots_per_stage() {
    assert_eq!(push_constant_range_index(ShaderType::VertexShader), Some(0));
    assert_eq!(push_constant_range_index(ShaderType::FragmentShader), Some(1));
    assert_eq!(push_constant_range_index(ShaderType::ComputeShader), Some(0));
    assert_eq!(push_constant_range_index(ShaderType::RayMiss), Some(2));
    assert_eq!(push_constant_range_index(ShaderType::GeometryShader), None);
}

#[test]
fn shaders_of_a_pipeline_share_their_bindings() {
    let vertex = reflect_shader_layout(ShaderType::VertexShader, Some(16), &vec![res(ReflectedKind::UniformBuffer, 0, 0)]);
    let fragment = reflect_shader_layout(
        ShaderType::FragmentShader,
        Some(8),
        &vec![res(ReflectedKind::UniformBuffer, 0, 0), res(ReflectedKind::SeparateImage, 0, 1)],
    );
    let mut ctx = DescriptorSetLayoutSetupContext::new();
    add_shader_to_descriptor_set_layout_setup(&vertex, limits(), &mut ctx);
    add_shader_to_descriptor_set_layout_setup(&fragment, limits(), &mut ctx);
    add_bindless_set_if_used(true, &mut ctx);
    remap_push_constant_ranges(&mut ctx);
    let set0 = &ctx.descriptor_set_layouts[0];
    assert_eq!(set0.len(), 2);
    assert_eq!(
        set0[0].shader_stage,
        (vk::ShaderStageFlags::VERTEX | vk::ShaderStageFlags::FRAGMENT).as_raw()
    );
    assert_eq!(set0[0].descriptor_type, vk::DescriptorType::UNIFORM_BUFFER_DYNAMIC.as_raw());
    assert_eq!(ctx.dynamic_uniform_buffers[0], 1);
    assert_eq!(set0[1].descriptor_type, vk::DescriptorType::SAMPLED_IMAGE.as_raw());
    assert!(!ctx.uses_bindless_texture_set);
    assert!(ctx.descriptor_set_layouts[BINDLESS_TEXTURE_SET_INDEX].is_empty());
    assert_eq!(
        ctx.push_constants_ranges,
        vec![
            Some(VkConstantRange { offset: 0, size: 16, shader_stage: vk::ShaderStageFlags::VERTEX.as_raw() }),
            Some(VkConstantRange { offset: 16, size: 8, shader_stage: vk::ShaderStageFlags::FRAGMENT.as_raw() }),
            None,
        ]
    );
    assert_eq!(ctx.shader_stages, (vk::ShaderStageFlags::VERTEX | vk::ShaderStageFlags::FRAGMENT).as_raw());
}

#[test]
fn dynamic_buffers_stop_at_the_device_limit() {
    let tight = DescriptorLimits { max_descriptor_set_storage_buffers_dynamic: 2, max_descriptor_set_uniform_buffers_dynamic: 0 };
    let shader = reflect_shader_layout(
        ShaderType::ComputeShader,
        None,
        &vec![
            res(ReflectedKind::StorageBuffer, 1, 0),
            res(ReflectedKind::StorageBuffer, 1, 1),
            res(ReflectedKind::UniformBuffer, 1, 2),
        ],
    );
    let mut ctx = DescriptorSetLayoutSetupContext::new();
    add_shader_to_descriptor_set_layout_setup(&shader, tight, &mut ctx);
    let set1 = &ctx.descriptor_set_layouts[1];
    assert_eq!(set1[0].descriptor_type, vk::DescriptorType::STORAGE_BUFFER_DYNAMIC.as_raw());
    assert_eq!(set1[1].descriptor_type, vk::DescriptorType::STORAGE_BUFFER.as_raw());
    assert_eq!(set1[2].descriptor_type, vk::DescriptorType::UNIFORM_BUFFER.as_raw());
    assert_eq!(ctx.dynamic_storage_buffers[1], 1);
}

#[test]
fn bindless_set_is_added_where_a_shader_uses_it() {
    let shader = reflect_shader_layout(
        ShaderType::FragmentShader,
        None,
        &vec![res(ReflectedKind::SeparateImage, BINDLESS_TEXTURE_SET_INDEX as u32, 0)],
    );
    let mut ctx = DescriptorSetLayoutSetupContext::new();
    add_shader_to_descriptor_set_layout_setup(&shader, limits(), &mut ctx);
    add_bindless_set_if_used(true, &mut ctx);
    assert!(ctx.uses_bindless_texture_set);
    let set = &ctx.descriptor_set_layouts[BINDLESS_TEXTURE_SET_INDEX];
    assert_eq!(set.len(), 1);
    assert_eq!(set[0].count, BINDLESS_TEXTURE_COUNT);
    assert_eq!(set[0].descriptor_type, vk::DescriptorType::SAMPLED_IMAGE.as_raw());
    assert_eq!(
        ctx.descriptor_set_layout_flags[BINDLESS_TEXTURE_SET_INDEX],
        vk::DescriptorSetLayoutCreateFlags::UPDATE_AFTER_BIND_POOL.as_raw()
    );
}

#[test]
fn pipeline_layouts_answer_for_their_bindings() {
    let entries = vec![
        VkDescriptorSetEntryInfo {
            shader_stage: vk::ShaderStageFlags::FRAGMENT.as_raw(),
            index: 0,
            count: 1,
            descriptor_type: vk::DescriptorType::STORAGE_BUFFER_DYNAMIC.as_raw(),
            writable: true,
            flags: 0,
        },
        VkDescriptorSetEntryInfo {
            shader_stage: vk::ShaderStageFlags::FRAGMENT.as_raw(),
            index: 2,
            count: 1,
            descriptor_type: vk::DescriptorType::COMBINED_IMAGE_SAMPLER.as_raw(),
            writable: false,
            flags: 0,
        },
    ];
    let set_layout = VkDescriptorSetLayout::new(&entries, 7);
    let ranges = vec![
        Some(VkConstantRange { offset: 0, size: 16, shader_stage: vk::ShaderStageFlags::VERTEX.as_raw() }),
        None,
        None,
    ];
    let layout = VkPipelineLayout::new(vec![Some(set_layout), None, None, None, None], ranges, 99);
    assert_eq!(layout.handle(), 99);
    assert_eq!(layout.set_layout_handles(), vec![7]);
    assert_eq!(layout.push_constant_range_list().len(), 1);
    assert_eq!(layout.descriptor_set_layout(0).map(|l| l.handle()), Some(7));
    assert!(layout.descriptor_set_layout(1).is_none());
    assert_eq!(layout.push_constant_range(ShaderType::VertexShader).map(|r| r.size), Some(16));
    assert_eq!(layout.push_constant_range(ShaderType::FragmentShader), None);
    assert_eq!(layout.binding_info(0, 0), Some(BindingType::StorageTexture));
    assert_eq!(layout.binding_info(0, 2), Some(BindingType::TextureAndSampler));
    assert_eq!(layout.binding_info(0, 1), None);
    assert_eq!(layout.binding_info(1, 0), None);
}

fn stencil() -> StencilInfo {
    StencilInfo { fail_op: StencilOp::Keep, depth_fail_op: StencilOp::Zero, pass_op: StencilOp::Replace, func: CompareFunc::Always }
}

#[test]
fn graphics_pipeline_state_follows_the_description() {
    let info = GraphicsPipelineInfo {
        shader_inputs: vec![ShaderInputElement { location_vk_mtl: 0, input_assembler_binding: 0, format: Format::RGB32Float, offset: 12 }],
        input_assembler: vec![InputAssemblerElement { binding: 0, stride: 24, input_rate: InputRate::PerVertex }],
        primitive_type: PrimitiveType::TriangleStrip,
        rasterizer: RasterizerInfo {
            fill_mode: FillMode::Line,
            cull_mode: CullMode::Back,
            front_face: FrontFace::CounterClockwise,
            sample_count: SampleCount::Samples4,
        },
        depth_stencil: DepthStencilInfo {
            depth_test_enabled: true,
            depth_write_enabled: false,
            depth_func: CompareFunc::LessEqual,
            stencil_enable: true,
            stencil_read_mask: 0x0f,
            stencil_write_mask: 0xf0,
            stencil_front: stencil(),
            stencil_back: stencil(),
        },
        alpha_to_coverage_enabled: false,
        logic_op_enabled: false,
        logic_op: LogicOp::Noop,
        attachments: vec![AttachmentBlendInfo {
            blend_enabled: true,
            src_color_blend_factor: BlendFactor::SrcAlpha,
            dst_color_blend_factor: BlendFactor::OneMinusSrcAlpha,
            color_blend_op: BlendOp::Add,
            src_alpha_blend_factor: BlendFactor::One,
            dst_alpha_blend_factor: BlendFactor::Zero,
            alpha_blend_op: BlendOp::Max,
            write_mask: COLOR_COMPONENT_RED | COLOR_COMPONENT_GREEN | COLOR_COMPONENT_BLUE | COLOR_COMPONENT_ALPHA,
        }],
        render_target_formats: vec![Format::RGBA16Float],
        depth_stencil_format: Format::D24,
    };
    let s = graphics_pipeline_state(&info, false);
    assert_eq!(s.vertex_attributes[0].format, vk::Format::R32G32B32_SFLOAT.as_raw());
    assert_eq!(s.vertex_attributes[0].offset, 12);
    assert_eq!(s.vertex_bindings[0].stride, 24);
    assert_eq!(s.vertex_bindings[0].input_rate, vk::VertexInputRate::VERTEX.as_raw());
    assert_eq!(s.topology, vk::PrimitiveTopology::TRIANGLE_STRIP.as_raw());
    assert_eq!(s.polygon_mode, vk::PolygonMode::LINE.as_raw());
    assert_eq!(s.cull_mode, vk::CullModeFlags::BACK.as_raw());
    assert_eq!(s.front_face, vk::FrontFace::COUNTER_CLOCKWISE.as_raw());
    assert_eq!(s.rasterization_samples, vk::SampleCountFlags::TYPE_4.as_raw());
    assert_eq!(s.depth_stencil.depth_compare_op, vk::CompareOp::LESS_OR_EQUAL.as_raw());
    assert_eq!(s.depth_stencil.front.compare_mask, 0x0f);
    assert_eq!(s.depth_stencil.front.write_mask, 0xf0);
    assert_eq!(s.depth_stencil.front.pass_op, vk::StencilOp::REPLACE.as_raw());
    assert_eq!(s.blend_attachments[0].dst_color_blend_factor, vk::BlendFactor::ONE_MINUS_SRC_ALPHA.as_raw());
    assert_eq!(s.blend_attachments[0].alpha_blend_op, vk::BlendOp::MAX.as_raw());
    assert_eq!(s.blend_attachments[0].color_write_mask, vk::ColorComponentFlags::RGBA.as_raw());
    assert_eq!(
        s.dynamic_states,
        vec![
            vk::DynamicState::VIEWPORT.as_raw(),
            vk::DynamicState::SCISSOR.as_raw(),
            vk::DynamicState::STENCIL_REFERENCE.as_raw(),
        ]
    );
    assert_eq!(s.color_attachment_formats, vec![vk::Format::R16G16B16A16_SFLOAT.as_raw()]);
    assert_eq!(s.depth_attachment_format, vk::Format::D32_SFLOAT.as_raw());
    assert_eq!(s.stencil_attachment_format, vk::Format::D32_SFLOAT.as_raw());
}
