use ash::vk;
use sourcerenderer_vulkan::gpu::{
    BlendFactor, BlendOp, CompareFunc, IndexFormat, InputRate, LogicOp, ShaderType, StencilOp, TextureLayout,
    BARRIER_ACCESS_COPY_WRITE, BARRIER_ACCESS_RENDER_TARGET_WRITE, BARRIER_ACCESS_SAMPLING_READ,
    BARRIER_ACCESS_RESOLVE_READ, BARRIER_SYNC_COMPUTE_SHADER, BARRIER_SYNC_COPY, BARRIER_SYNC_RENDER_TARGET,
    BUFFER_USAGE_COPY_DST, BUFFER_USAGE_INITIAL_COPY, BUFFER_USAGE_STORAGE, BUFFER_USAGE_VERTEX,
    COLOR_COMPONENT_ALPHA, COLOR_COMPONENT_RED,
};
use sourcerenderer_vulkan::graph_info::{Format, PipelineStage, SampleCount};
use sourcerenderer_vulkan::graph_passes::{LoadOp, StoreOp};
use sourcerenderer_vulkan::vk_convert::{
    aspect_mask_from_format, barrier_access_to_access, barrier_sync_to_stage, blend_factor_to_vk, blend_op_to_vk,
    buffer_usage_to_vk, color_components_to_vk, compare_func_to_vk, format_to_vk, index_format_to_vk,
    input_rate_to_vk, load_action_to_vk, logic_op_to_vk, pipeline_stage_to_rp, pipeline_stage_to_vk,
    samples_to_vk, shader_type_to_vk, stencil_op_to_vk, store_action_to_vk, surface_vk_format_to_core,
    texture_layout_to_image_layout, write_access_mask,
};

#[test]
fn formats_map_to_vulkan_formats() {
    assert_eq!(format_to_vk(Format::RGBA8UNorm, true), vk::Format::R8G8B8A8_UNORM.as_raw());
    assert_eq!(format_to_vk(Format::BGRA8UNorm, false), vk::Format::B8G8R8A8_UNORM.as_raw());
    assert_eq!(format_to_vk(Format::R11G11B10Float, false), vk::Format::B10G11R11_UFLOAT_PACK32.as_raw());
    assert_eq!(format_to_vk(Format::D32S8, false), vk::Format::D32_SFLOAT_S8_UINT.as_raw());
    assert_eq!(format_to_vk(Format::Unknown, false), vk::Format::UNDEFINED.as_raw());
}

#[test]
fn d24_falls_back_to_d32_without_support() {
    assert_eq!(format_to_vk(Format::D24, true), vk::Format::D24_UNORM_S8_UINT.as_raw());
    assert_eq!(format_to_vk(Format::D24, false), vk::Format::D32_SFLOAT.as_raw());
}

#[test]
fn surface_formats_map_back() {
    assert_eq!(surface_vk_format_to_core(vk::Format::R8G8B8A8_UNORM.as_raw()), Format::RGBA8UNorm);
    assert_eq!(surface_vk_format_to_core(vk::Format::B8G8R8A8_UNORM.as_raw()), Format::BGRA8UNorm);
}

#[test]
fn texture_layouts_map_to_image_layouts() {
    assert_eq!(texture_layout_to_image_layout(TextureLayout::Storage), vk::ImageLayout::GENERAL.as_raw());
    assert_eq!(texture_layout_to_image_layout(TextureLayout::Sampled), vk::ImageLayout::SHADER_READ_ONLY_OPTIMAL.as_raw());
    assert_eq!(texture_layout_to_image_layout(TextureLayout::ResolveDst), vk::ImageLayout::TRANSFER_DST_OPTIMAL.as_raw());
    assert_eq!(texture_layout_to_image_layout(TextureLayout::Present), vk::ImageLayout::PRESENT_SRC_KHR.as_raw());
}

#[test]
fn aspects_follow_the_format() {
    assert_eq!(aspect_mask_from_format(Format::RGBA8UNorm), vk::ImageAspectFlags::COLOR.as_raw());
    assert_eq!(aspect_mask_from_format(Format::D32), vk::ImageAspectFlags::DEPTH.as_raw());
    assert_eq!(
        aspect_mask_from_format(Format::D24),
        (vk::ImageAspectFlags::DEPTH | vk::ImageAspectFlags::STENCIL).as_raw()
    );
}

#[test]
fn small_enums_map_to_vulkan() {
    assert_eq!(index_format_to_vk(IndexFormat::U16), vk::IndexType::UINT16.as_raw());
    assert_eq!(index_format_to_vk(IndexFormat::U32), vk::IndexType::UINT32.as_raw());
    assert_eq!(input_rate_to_vk(InputRate::PerInstance), vk::VertexInputRate::INSTANCE.as_raw());
    assert_eq!(shader_type_to_vk(ShaderType::FragmentShader), vk::ShaderStageFlags::FRAGMENT.as_raw());
    assert_eq!(shader_type_to_vk(ShaderType::RayMiss), vk::ShaderStageFlags::MISS_KHR.as_raw());
    assert_eq!(samples_to_vk(SampleCount::Samples4), vk::SampleCountFlags::TYPE_4.as_raw());
    assert_eq!(compare_func_to_vk(CompareFunc::GreaterEqual), vk::CompareOp::GREATER_OR_EQUAL.as_raw());
    assert_eq!(stencil_op_to_vk(StencilOp::DecreaseClamp), vk::StencilOp::DECREMENT_AND_CLAMP.as_raw());
    assert_eq!(logic_op_to_vk(LogicOp::SetAll), vk::LogicOp::SET.as_raw());
    assert_eq!(logic_op_to_vk(LogicOp::OrReverse), vk::LogicOp::OR_REVERSE.as_raw());
    assert_eq!(blend_factor_to_vk(BlendFactor::OneMinusSrcAlpha), vk::BlendFactor::ONE_MINUS_SRC_ALPHA.as_raw());
    assert_eq!(blend_op_to_vk(BlendOp::ReverseSubtract), vk::BlendOp::REVERSE_SUBTRACT.as_raw());
    assert_eq!(store_action_to_vk(StoreOp::DontCare), vk::AttachmentStoreOp::DONT_CARE.as_raw());
    assert_eq!(load_action_to_vk(LoadOp::Clear), vk::AttachmentLoadOp::CLEAR.as_raw());
}

#[test]
fn pipeline_stages_map_to_vulkan() {
    assert_eq!(pipeline_stage_to_vk(PipelineStage::ComputeShader), vk::PipelineStageFlags::COMPUTE_SHADER.as_raw());
    assert_eq!(pipeline_stage_to_vk(PipelineStage::FragmentShader), vk::PipelineStageFlags::VERTEX_SHADER.as_raw());
    assert_eq!(
        pipeline_stage_to_vk(PipelineStage::GraphicsShaders),
        (vk::PipelineStageFlags::VERTEX_SHADER | vk::PipelineStageFlags::FRAGMENT_SHADER).as_raw()
    );
    assert_eq!(pipeline_stage_to_vk(PipelineStage::Copy), vk::PipelineStageFlags::TRANSFER.as_raw());
    assert_eq!(pipeline_stage_to_rp(PipelineStage::VertexShader), 1);
    assert_eq!(pipeline_stage_to_rp(PipelineStage::FragmentShader), 2);
    assert_eq!(pipeline_stage_to_rp(PipelineStage::GraphicsShaders), 3);
}

#[test]
fn write_access_mask_holds_every_write() {
    assert_eq!(
        write_access_mask(),
        (vk::AccessFlags::HOST_WRITE
            | vk::AccessFlags::MEMORY_WRITE
            | vk::AccessFlags::SHADER_WRITE
            | vk::AccessFlags::TRANSFER_WRITE
            | vk::AccessFlags::COLOR_ATTACHMENT_WRITE)
            .as_raw()
    );
}

#[test]
fn barrier_syncs_map_to_stages() {
    assert_eq!(barrier_sync_to_stage(0), vk::PipelineStageFlags2::NONE.as_raw());
    assert_eq!(
        barrier_sync_to_stage(BARRIER_SYNC_COMPUTE_SHADER | BARRIER_SYNC_COPY),
        (vk::PipelineStageFlags2::COMPUTE_SHADER | vk::PipelineStageFlags2::TRANSFER).as_raw()
    );
    assert_eq!(
        barrier_sync_to_stage(BARRIER_SYNC_RENDER_TARGET),
        vk::PipelineStageFlags2::COLOR_ATTACHMENT_OUTPUT.as_raw()
    );
}

#[test]
fn barrier_accesses_map_to_accesses() {
    assert_eq!(barrier_access_to_access(0), vk::AccessFlags2::empty().as_raw());
    assert_eq!(
        barrier_access_to_access(BARRIER_ACCESS_SAMPLING_READ | BARRIER_ACCESS_RENDER_TARGET_WRITE),
        (vk::AccessFlags2::SHADER_SAMPLED_READ | vk::AccessFlags2::COLOR_ATTACHMENT_WRITE).as_raw()
    );
    assert_eq!(
        barrier_access_to_access(BARRIER_ACCESS_RESOLVE_READ | BARRIER_ACCESS_COPY_WRITE),
        (vk::AccessFlags2::TRANSFER_READ | vk::AccessFlags2::TRANSFER_WRITE).as_raw()
    );
}

#[test]
fn buffer_usage_maps_to_vulkan_usage() {
    assert_eq!(
        buffer_usage_to_vk(BUFFER_USAGE_STORAGE | BUFFER_USAGE_COPY_DST, false),
        (vk::BufferUsageFlags::STORAGE_BUFFER | vk::BufferUsageFlags::TRANSFER_DST).as_raw()
    );
    assert_eq!(buffer_usage_to_vk(BUFFER_USAGE_INITIAL_COPY, false), vk::BufferUsageFlags::TRANSFER_DST.as_raw());
    assert_eq!(buffer_usage_to_vk(BUFFER_USAGE_VERTEX, false), vk::BufferUsageFlags::VERTEX_BUFFER.as_raw());
    assert_eq!(
        buffer_usage_to_vk(BUFFER_USAGE_VERTEX, true),
        (vk::BufferUsageFlags::VERTEX_BUFFER
            | vk::BufferUsageFlags::ACCELERATION_STRUCTURE_BUILD_INPUT_READ_ONLY_KHR
            | vk::BufferUsageFlags::SHADER_DEVICE_ADDRESS)
            .as_raw()
    );
}

#[test]
fn color_components_keep_their_bits() {
    assert_eq!(
        color_components_to_vk(COLOR_COMPONENT_RED | COLOR_COMPONENT_ALPHA),
        (vk::ColorComponentFlags::R | vk::ColorComponentFlags::A).as_raw()
    );
    assert_eq!(color_components_to_vk(0), 0);
}

#[test]
fn stages_of_a_union_are_the_union_of_stages() {
    let a = BARRIER_SYNC_COMPUTE_SHADER | BARRIER_SYNC_RENDER_TARGET;
    let b = BARRIER_SYNC_COPY | BARRIER_SYNC_RENDER_TARGET;
    assert_eq!(barrier_sync_to_stage(a | b), barrier_sync_to_stage(a) | barrier_sync_to_stage(b));
    assert_eq!(
        barrier_sync_to_stage(a | b),
        (vk::PipelineStageFlags2::COMPUTE_SHADER
            | vk::PipelineStageFlags2::TRANSFER
            | vk::PipelineStageFlags2::COLOR_ATTACHMENT_OUTPUT)
            .as_raw()
    );
}

#[test]
fn buffer_usage_of_a_union_is_the_union_of_usages() {
    let a = BUFFER_USAGE_VERTEX | BUFFER_USAGE_COPY_DST;
    let b = BUFFER_USAGE_STORAGE | BUFFER_USAGE_INITIAL_COPY;
    for rt in [false, true] {
        assert_eq!(buffer_usage_to_vk(a | b, rt), buffer_usage_to_vk(a, rt) | buffer_usage_to_vk(b, rt));
        assert_eq!(buffer_usage_to_vk(0, rt), 0);
    }
    let without = buffer_usage_to_vk(a, false);
    assert_eq!(buffer_usage_to_vk(a, true) & without, without);
    assert_ne!(buffer_usage_to_vk(a, true), without);
}
