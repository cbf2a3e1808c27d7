use sourcerenderer_vulkan::shader_binding_table::{
    ray_tracing_buffer_size, shader_binding_table_layout, shader_groups, HandleCopy, RtPipelineProperties, SbtRegion,
    ShaderGroup, SHADER_UNUSED,
};

fn props() -> RtPipelineProperties {
    RtPipelineProperties { shader_group_handle_size: 32, shader_group_handle_alignment: 32, shader_group_base_alignment: 64 }
}

#[test]
fn shader_groups_follow_the_stage_order() {
    let groups = shader_groups(2, 1);
    assert_eq!(
        groups,
        vec![
            ShaderGroup { triangles_hit_group: false, general_shader: 0, closest_hit_shader: SHADER_UNUSED },
            ShaderGroup { triangles_hit_group: true, general_shader: SHADER_UNUSED, closest_hit_shader: 1 },
            ShaderGroup { triangles_hit_group: true, general_shader: SHADER_UNUSED, closest_hit_shader: 2 },
            ShaderGroup { triangles_hit_group: false, general_shader: 3, closest_hit_shader: SHADER_UNUSED },
        ]
    );
}

#[test]
fn buffer_size_holds_one_aligned_record_per_shader() {
    assert_eq!(ray_tracing_buffer_size(props(), 2, 1), 256);
    let odd = RtPipelineProperties { shader_group_handle_size: 20, shader_group_handle_alignment: 16, shader_group_base_alignment: 32 };
    assert_eq!(ray_tracing_buffer_size(odd, 0, 0), 32);
}

#[test]
fn table_regions_start_at_the_base_alignment() {
    let layout = shader_binding_table_layout(props(), 2, 1);
    assert_eq!(layout.handle_stride, 32);
    assert_eq!(layout.raygen, SbtRegion { offset: 0, stride: 64, size: 64 });
    assert_eq!(layout.closest_hit, SbtRegion { offset: 64, stride: 32, size: 64 });
    assert_eq!(layout.miss, SbtRegion { offset: 128, stride: 32, size: 64 });
    assert_eq!(
        layout.copies,
        vec![
            HandleCopy { src_offset: 0, dst_offset: 0, size: 32 },
            HandleCopy { src_offset: 32, dst_offset: 64, size: 32 },
            HandleCopy { src_offset: 64, dst_offset: 96, size: 32 },
            HandleCopy { src_offset: 96, dst_offset: 128, size: 32 },
        ]
    );
}
