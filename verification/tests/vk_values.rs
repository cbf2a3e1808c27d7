use ash::vk;
use sourcerenderer_vulkan::vk_values;

#[test]
fn vk_values_match_the_binding() {
    assert_eq!(vk_values::PIPELINE_STAGE2_NONE, vk::PipelineStageFlags2::NONE.as_raw());
    assert_eq!(vk_values::PIPELINE_STAGE2_COMPUTE_SHADER, vk::PipelineStageFlags2::COMPUTE_SHADER.as_raw());
    assert_eq!(vk_values::PIPELINE_STAGE2_TRANSFER, vk::PipelineStageFlags2::TRANSFER.as_raw());
    assert_eq!(vk_values::PIPELINE_STAGE2_EARLY_FRAGMENT_TESTS, vk::PipelineStageFlags2::EARLY_FRAGMENT_TESTS.as_raw());
    assert_eq!(vk_values::PIPELINE_STAGE2_FRAGMENT_SHADER, vk::PipelineStageFlags2::FRAGMENT_SHADER.as_raw());
    assert_eq!(vk_values::PIPELINE_STAGE2_DRAW_INDIRECT, vk::PipelineStageFlags2::DRAW_INDIRECT.as_raw());
    assert_eq!(vk_values::PIPELINE_STAGE2_LATE_FRAGMENT_TESTS, vk::PipelineStageFlags2::LATE_FRAGMENT_TESTS.as_raw());
    assert_eq!(vk_values::PIPELINE_STAGE2_COLOR_ATTACHMENT_OUTPUT, vk::PipelineStageFlags2::COLOR_ATTACHMENT_OUTPUT.as_raw());
    assert_eq!(vk_values::PIPELINE_STAGE2_RESOLVE, vk::PipelineStageFlags2::RESOLVE.as_raw());
    assert_eq!(vk_values::PIPELINE_STAGE2_VERTEX_ATTRIBUTE_INPUT, vk::PipelineStageFlags2::VERTEX_ATTRIBUTE_INPUT.as_raw());
    assert_eq!(vk_values::PIPELINE_STAGE2_INDEX_INPUT, vk::PipelineStageFlags2::INDEX_INPUT.as_raw());
    assert_eq!(vk_values::PIPELINE_STAGE2_VERTEX_SHADER, vk::PipelineStageFlags2::VERTEX_SHADER.as_raw());
    assert_eq!(vk_values::PIPELINE_STAGE2_HOST, vk::PipelineStageFlags2::HOST.as_raw());
    assert_eq!(vk_values::PIPELINE_STAGE2_ACCELERATION_STRUCTURE_BUILD_KHR, vk::PipelineStageFlags2::ACCELERATION_STRUCTURE_BUILD_KHR.as_raw());
    assert_eq!(vk_values::PIPELINE_STAGE2_ACCELERATION_STRUCTURE_COPY_KHR, vk::PipelineStageFlags2::ACCELERATION_STRUCTURE_COPY_KHR.as_raw());
    assert_eq!(vk_values::PIPELINE_STAGE2_RAY_TRACING_SHADER_KHR, vk::PipelineStageFlags2::RAY_TRACING_SHADER_KHR.as_raw());
    assert_eq!(vk_values::PIPELINE_STAGE2_ALL_COMMANDS, vk::PipelineStageFlags2::ALL_COMMANDS.as_raw());
    assert_eq!(vk_values::ACCESS2_INDEX_READ, vk::AccessFlags2::INDEX_READ.as_raw());
    assert_eq!(vk_values::ACCESS2_INDIRECT_COMMAND_READ, vk::AccessFlags2::INDIRECT_COMMAND_READ.as_raw());
    assert_eq!(vk_values::ACCESS2_VERTEX_ATTRIBUTE_READ, vk::AccessFlags2::VERTEX_ATTRIBUTE_READ.as_raw());
    assert_eq!(vk_values::ACCESS2_UNIFORM_READ, vk::AccessFlags2::UNIFORM_READ.as_raw());
    assert_eq!(vk_values::ACCESS2_SHADER_SAMPLED_READ, vk::AccessFlags2::SHADER_SAMPLED_READ.as_raw());
    assert_eq!(vk_values::ACCESS2_SHADER_STORAGE_READ, vk::AccessFlags2::SHADER_STORAGE_READ.as_raw());
    assert_eq!(vk_values::ACCESS2_SHADER_STORAGE_WRITE, vk::AccessFlags2::SHADER_STORAGE_WRITE.as_raw());
    assert_eq!(vk_values::ACCESS2_TRANSFER_READ, vk::AccessFlags2::TRANSFER_READ.as_raw());
    assert_eq!(vk_values::ACCESS2_TRANSFER_WRITE, vk::AccessFlags2::TRANSFER_WRITE.as_raw());
    assert_eq!(vk_values::ACCESS2_DEPTH_STENCIL_ATTACHMENT_READ, vk::AccessFlags2::DEPTH_STENCIL_ATTACHMENT_READ.as_raw());
    assert_eq!(vk_values::ACCESS2_DEPTH_STENCIL_ATTACHMENT_WRITE, vk::AccessFlags2::DEPTH_STENCIL_ATTACHMENT_WRITE.as_raw());
    assert_eq!(vk_values::ACCESS2_COLOR_ATTACHMENT_READ, vk::AccessFlags2::COLOR_ATTACHMENT_READ.as_raw());
    assert_eq!(vk_values::ACCESS2_COLOR_ATTACHMENT_WRITE, vk::AccessFlags2::COLOR_ATTACHMENT_WRITE.as_raw());
    assert_eq!(vk_values::ACCESS2_SHADER_READ, vk::AccessFlags2::SHADER_READ.as_raw());
    assert_eq!(vk_values::ACCESS2_SHADER_WRITE, vk::AccessFlags2::SHADER_WRITE.as_raw());
    assert_eq!(vk_values::ACCESS2_MEMORY_READ, vk::AccessFlags2::MEMORY_READ.as_raw());
    assert_eq!(vk_values::ACCESS2_MEMORY_WRITE, vk::AccessFlags2::MEMORY_WRITE.as_raw());
    assert_eq!(vk_values::ACCESS2_HOST_READ, vk::AccessFlags2::HOST_READ.as_raw());
    assert_eq!(vk_values::ACCESS2_HOST_WRITE, vk::AccessFlags2::HOST_WRITE.as_raw());
    assert_eq!(vk_values::ACCESS2_ACCELERATION_STRUCTURE_READ_KHR, vk::AccessFlags2::ACCELERATION_STRUCTURE_READ_KHR.as_raw());
    assert_eq!(vk_values::ACCESS2_ACCELERATION_STRUCTURE_WRITE_KHR, vk::AccessFlags2::ACCELERATION_STRUCTURE_WRITE_KHR.as_raw());
    assert_eq!(vk_values::IMAGE_LAYOUT_UNDEFINED, vk::ImageLayout::UNDEFINED.as_raw());
    assert_eq!(vk_values::IMAGE_LAYOUT_GENERAL, vk::ImageLayout::GENERAL.as_raw());
    assert_eq!(vk_values::IMAGE_LAYOUT_COLOR_ATTACHMENT_OPTIMAL, vk::ImageLayout::COLOR_ATTACHMENT_OPTIMAL.as_raw());
    assert_eq!(vk_values::IMAGE_LAYOUT_DEPTH_STENCIL_ATTACHMENT_OPTIMAL, vk::ImageLayout::DEPTH_STENCIL_ATTACHMENT_OPTIMAL.as_raw());
    assert_eq!(vk_values::IMAGE_LAYOUT_DEPTH_STENCIL_READ_ONLY_OPTIMAL, vk::ImageLayout::DEPTH_STENCIL_READ_ONLY_OPTIMAL.as_raw());
    assert_eq!(vk_values::IMAGE_LAYOUT_SHADER_READ_ONLY_OPTIMAL, vk::ImageLayout::SHADER_READ_ONLY_OPTIMAL.as_raw());
    assert_eq!(vk_values::IMAGE_LAYOUT_TRANSFER_SRC_OPTIMAL, vk::ImageLayout::TRANSFER_SRC_OPTIMAL.as_raw());
    assert_eq!(vk_values::IMAGE_LAYOUT_TRANSFER_DST_OPTIMAL, vk::ImageLayout::TRANSFER_DST_OPTIMAL.as_raw());
    assert_eq!(vk_values::IMAGE_LAYOUT_PRESENT_SRC_KHR, vk::ImageLayout::PRESENT_SRC_KHR.as_raw());
    assert_eq!(vk_values::IMAGE_ASPECT_COLOR, vk::ImageAspectFlags::COLOR.as_raw());
    assert_eq!(vk_values::IMAGE_ASPECT_DEPTH, vk::ImageAspectFlags::DEPTH.as_raw());
    assert_eq!(vk_values::IMAGE_ASPECT_STENCIL, vk::ImageAspectFlags::STENCIL.as_raw());
    assert_eq!(vk_values::INDEX_TYPE_UINT16, vk::IndexType::UINT16.as_raw());
    assert_eq!(vk_values::INDEX_TYPE_UINT32, vk::IndexType::UINT32.as_raw());
    assert_eq!(vk_values::FORMAT_UNDEFINED, vk::Format::UNDEFINED.as_raw());
    assert_eq!(vk_values::FORMAT_R8G8B8A8_UNORM, vk::Format::R8G8B8A8_UNORM.as_raw());
    assert_eq!(vk_values::FORMAT_R8G8B8A8_SRGB, vk::Format::R8G8B8A8_SRGB.as_raw());
    assert_eq!(vk_values::FORMAT_R16_UNORM, vk::Format::R16_UNORM.as_raw());
    assert_eq!(vk_values::FORMAT_R16_SFLOAT, vk::Format::R16_SFLOAT.as_raw());
    assert_eq!(vk_values::FORMAT_R32_SFLOAT, vk::Format::R32_SFLOAT.as_raw());
    assert_eq!(vk_values::FORMAT_R8_UNORM, vk::Format::R8_UNORM.as_raw());
    assert_eq!(vk_values::FORMAT_R32G32_SFLOAT, vk::Format::R32G32_SFLOAT.as_raw());
    assert_eq!(vk_values::FORMAT_R32G32B32_SFLOAT, vk::Format::R32G32B32_SFLOAT.as_raw());
    assert_eq!(vk_values::FORMAT_R32G32B32A32_SFLOAT, vk::Format::R32G32B32A32_SFLOAT.as_raw());
    assert_eq!(vk_values::FORMAT_B8G8R8_UNORM, vk::Format::B8G8R8_UNORM.as_raw());
    assert_eq!(vk_values::FORMAT_B8G8R8A8_UNORM, vk::Format::B8G8R8A8_UNORM.as_raw());
    assert_eq!(vk_values::FORMAT_D16_UNORM, vk::Format::D16_UNORM.as_raw());
    assert_eq!(vk_values::FORMAT_D16_UNORM_S8_UINT, vk::Format::D16_UNORM_S8_UINT.as_raw());
    assert_eq!(vk_values::FORMAT_D24_UNORM_S8_UINT, vk::Format::D24_UNORM_S8_UINT.as_raw());
    assert_eq!(vk_values::FORMAT_D32_SFLOAT, vk::Format::D32_SFLOAT.as_raw());
    assert_eq!(vk_values::FORMAT_D32_SFLOAT_S8_UINT, vk::Format::D32_SFLOAT_S8_UINT.as_raw());
    assert_eq!(vk_values::FORMAT_BC1_RGB_UNORM_BLOCK, vk::Format::BC1_RGB_UNORM_BLOCK.as_raw());
    assert_eq!(vk_values::FORMAT_BC1_RGBA_UNORM_BLOCK, vk::Format::BC1_RGBA_UNORM_BLOCK.as_raw());
    assert_eq!(vk_values::FORMAT_BC2_UNORM_BLOCK, vk::Format::BC2_UNORM_BLOCK.as_raw());
    assert_eq!(vk_values::FORMAT_BC3_UNORM_BLOCK, vk::Format::BC3_UNORM_BLOCK.as_raw());
    assert_eq!(vk_values::FORMAT_R16G16_UNORM, vk::Format::R16G16_UNORM.as_raw());
    assert_eq!(vk_values::FORMAT_R8G8_UNORM, vk::Format::R8G8_UNORM.as_raw());
    assert_eq!(vk_values::FORMAT_R32_UINT, vk::Format::R32_UINT.as_raw());
    assert_eq!(vk_values::FORMAT_R16G16_SFLOAT, vk::Format::R16G16_SFLOAT.as_raw());
    assert_eq!(vk_values::FORMAT_R16G16B16A16_SFLOAT, vk::Format::R16G16B16A16_SFLOAT.as_raw());
    assert_eq!(vk_values::FORMAT_B10G11R11_UFLOAT_PACK32, vk::Format::B10G11R11_UFLOAT_PACK32.as_raw());
    assert_eq!(vk_values::FORMAT_R16G16_UINT, vk::Format::R16G16_UINT.as_raw());
    assert_eq!(vk_values::FORMAT_R16_UINT, vk::Format::R16_UINT.as_raw());
    assert_eq!(vk_values::FORMAT_R16_SNORM, vk::Format::R16_SNORM.as_raw());
    assert_eq!(vk_values::SAMPLE_COUNT_TYPE_1, vk::SampleCountFlags::TYPE_1.as_raw());
    assert_eq!(vk_values::SAMPLE_COUNT_TYPE_2, vk::SampleCountFlags::TYPE_2.as_raw());
    assert_eq!(vk_values::SAMPLE_COUNT_TYPE_4, vk::SampleCountFlags::TYPE_4.as_raw());
    assert_eq!(vk_values::SAMPLE_COUNT_TYPE_8, vk::SampleCountFlags::TYPE_8.as_raw());
    assert_eq!(vk_values::COMPARE_OP_NEVER, vk::CompareOp::NEVER.as_raw());
    assert_eq!(vk_values::COMPARE_OP_LESS, vk::CompareOp::LESS.as_raw());
    assert_eq!(vk_values::COMPARE_OP_EQUAL, vk::CompareOp::EQUAL.as_raw());
    assert_eq!(vk_values::COMPARE_OP_LESS_OR_EQUAL, vk::CompareOp::LESS_OR_EQUAL.as_raw());
    assert_eq!(vk_values::COMPARE_OP_GREATER, vk::CompareOp::GREATER.as_raw());
    assert_eq!(vk_values::COMPARE_OP_NOT_EQUAL, vk::CompareOp::NOT_EQUAL.as_raw());
    assert_eq!(vk_values::COMPARE_OP_GREATER_OR_EQUAL, vk::CompareOp::GREATER_OR_EQUAL.as_raw());
    assert_eq!(vk_values::COMPARE_OP_ALWAYS, vk::CompareOp::ALWAYS.as_raw());
    assert_eq!(vk_values::STENCIL_OP_KEEP, vk::StencilOp::KEEP.as_raw());
    assert_eq!(vk_values::STENCIL_OP_ZERO, vk::StencilOp::ZERO.as_raw());
    assert_eq!(vk_values::STENCIL_OP_REPLACE, vk::StencilOp::REPLACE.as_raw());
    assert_eq!(vk_values::STENCIL_OP_INCREMENT_AND_CLAMP, vk::StencilOp::INCREMENT_AND_CLAMP.as_raw());
    assert_eq!(vk_values::STENCIL_OP_DECREMENT_AND_CLAMP, vk::StencilOp::DECREMENT_AND_CLAMP.as_raw());
    assert_eq!(vk_values::STENCIL_OP_INVERT, vk::StencilOp::INVERT.as_raw());
    assert_eq!(vk_values::STENCIL_OP_INCREMENT_AND_WRAP, vk::StencilOp::INCREMENT_AND_WRAP.as_raw());
    assert_eq!(vk_values::STENCIL_OP_DECREMENT_AND_WRAP, vk::StencilOp::DECREMENT_AND_WRAP.as_raw());
    assert_eq!(vk_values::LOGIC_OP_CLEAR, vk::LogicOp::CLEAR.as_raw());
    assert_eq!(vk_values::LOGIC_OP_AND, vk::LogicOp::AND.as_raw());
    assert_eq!(vk_values::LOGIC_OP_AND_REVERSE, vk::LogicOp::AND_REVERSE.as_raw());
    assert_eq!(vk_values::LOGIC_OP_COPY, vk::LogicOp::COPY.as_raw());
    assert_eq!(vk_values::LOGIC_OP_AND_INVERTED, vk::LogicOp::AND_INVERTED.as_raw());
    assert_eq!(vk_values::LOGIC_OP_NO_OP, vk::LogicOp::NO_OP.as_raw());
    assert_eq!(vk_values::LOGIC_OP_XOR, vk::LogicOp::XOR.as_raw());
    assert_eq!(vk_values::LOGIC_OP_OR, vk::LogicOp::OR.as_raw());
    assert_eq!(vk_values::LOGIC_OP_NOR, vk::LogicOp::NOR.as_raw());
    assert_eq!(vk_values::LOGIC_OP_EQUIVALENT, vk::LogicOp::EQUIVALENT.as_raw());
    assert_eq!(vk_values::LOGIC_OP_INVERT, vk::LogicOp::INVERT.as_raw());
    assert_eq!(vk_values::LOGIC_OP_OR_REVERSE, vk::LogicOp::OR_REVERSE.as_raw());
    assert_eq!(vk_values::LOGIC_OP_COPY_INVERTED, vk::LogicOp::COPY_INVERTED.as_raw());
    assert_eq!(vk_values::LOGIC_OP_OR_INVERTED, vk::LogicOp::OR_INVERTED.as_raw());
    assert_eq!(vk_values::LOGIC_OP_NAND, vk::LogicOp::NAND.as_raw());
    assert_eq!(vk_values::LOGIC_OP_SET, vk::LogicOp::SET.as_raw());
    assert_eq!(vk_values::BLEND_FACTOR_ZERO, vk::BlendFactor::ZERO.as_raw());
    assert_eq!(vk_values::BLEND_FACTOR_ONE, vk::BlendFactor::ONE.as_raw());
    assert_eq!(vk_values::BLEND_FACTOR_SRC_COLOR, vk::BlendFactor::SRC_COLOR.as_raw());
    assert_eq!(vk_values::BLEND_FACTOR_ONE_MINUS_SRC_COLOR, vk::BlendFactor::ONE_MINUS_SRC_COLOR.as_raw());
    assert_eq!(vk_values::BLEND_FACTOR_DST_COLOR, vk::BlendFactor::DST_COLOR.as_raw());
    assert_eq!(vk_values::BLEND_FACTOR_ONE_MINUS_DST_COLOR, vk::BlendFactor::ONE_MINUS_DST_COLOR.as_raw());
    assert_eq!(vk_values::BLEND_FACTOR_SRC_ALPHA, vk::BlendFactor::SRC_ALPHA.as_raw());
    assert_eq!(vk_values::BLEND_FACTOR_ONE_MINUS_SRC_ALPHA, vk::BlendFactor::ONE_MINUS_SRC_ALPHA.as_raw());
    assert_eq!(vk_values::BLEND_FACTOR_DST_ALPHA, vk::BlendFactor::DST_ALPHA.as_raw());
    assert_eq!(vk_values::BLEND_FACTOR_ONE_MINUS_DST_ALPHA, vk::BlendFactor::ONE_MINUS_DST_ALPHA.as_raw());
    assert_eq!(vk_values::BLEND_FACTOR_CONSTANT_COLOR, vk::BlendFactor::CONSTANT_COLOR.as_raw());
    assert_eq!(vk_values::BLEND_FACTOR_ONE_MINUS_CONSTANT_COLOR, vk::BlendFactor::ONE_MINUS_CONSTANT_COLOR.as_raw());
    assert_eq!(vk_values::BLEND_FACTOR_SRC_ALPHA_SATURATE, vk::BlendFactor::SRC_ALPHA_SATURATE.as_raw());
    assert_eq!(vk_values::BLEND_FACTOR_SRC1_COLOR, vk::BlendFactor::SRC1_COLOR.as_raw());
    assert_eq!(vk_values::BLEND_FACTOR_ONE_MINUS_SRC1_COLOR, vk::BlendFactor::ONE_MINUS_SRC1_COLOR.as_raw());
    assert_eq!(vk_values::BLEND_FACTOR_SRC1_ALPHA, vk::BlendFactor::SRC1_ALPHA.as_raw());
    assert_eq!(vk_values::BLEND_FACTOR_ONE_MINUS_SRC1_ALPHA, vk::BlendFactor::ONE_MINUS_SRC1_ALPHA.as_raw());
    assert_eq!(vk_values::BLEND_OP_ADD, vk::BlendOp::ADD.as_raw());
    assert_eq!(vk_values::BLEND_OP_SUBTRACT, vk::BlendOp::SUBTRACT.as_raw());
    assert_eq!(vk_values::BLEND_OP_REVERSE_SUBTRACT, vk::BlendOp::REVERSE_SUBTRACT.as_raw());
    assert_eq!(vk_values::BLEND_OP_MIN, vk::BlendOp::MIN.as_raw());
    assert_eq!(vk_values::BLEND_OP_MAX, vk::BlendOp::MAX.as_raw());
    assert_eq!(vk_values::COLOR_COMPONENT_R, vk::ColorComponentFlags::R.as_raw());
    assert_eq!(vk_values::COLOR_COMPONENT_G, vk::ColorComponentFlags::G.as_raw());
    assert_eq!(vk_values::COLOR_COMPONENT_B, vk::ColorComponentFlags::B.as_raw());
    assert_eq!(vk_values::COLOR_COMPONENT_A, vk::ColorComponentFlags::A.as_raw());
    assert_eq!(vk_values::SHADER_STAGE_VERTEX, vk::ShaderStageFlags::VERTEX.as_raw());
    assert_eq!(vk_values::SHADER_STAGE_TESSELLATION_CONTROL, vk::ShaderStageFlags::TESSELLATION_CONTROL.as_raw());
    assert_eq!(vk_values::SHADER_STAGE_TESSELLATION_EVALUATION, vk::ShaderStageFlags::TESSELLATION_EVALUATION.as_raw());
    assert_eq!(vk_values::SHADER_STAGE_GEOMETRY, vk::ShaderStageFlags::GEOMETRY.as_raw());
    assert_eq!(vk_values::SHADER_STAGE_FRAGMENT, vk::ShaderStageFlags::FRAGMENT.as_raw());
    assert_eq!(vk_values::SHADER_STAGE_COMPUTE, vk::ShaderStageFlags::COMPUTE.as_raw());
    assert_eq!(vk_values::SHADER_STAGE_RAYGEN_KHR, vk::ShaderStageFlags::RAYGEN_KHR.as_raw());
    assert_eq!(vk_values::SHADER_STAGE_CLOSEST_HIT_KHR, vk::ShaderStageFlags::CLOSEST_HIT_KHR.as_raw());
    assert_eq!(vk_values::SHADER_STAGE_MISS_KHR, vk::ShaderStageFlags::MISS_KHR.as_raw());
    assert_eq!(vk_values::VERTEX_INPUT_RATE_VERTEX, vk::VertexInputRate::VERTEX.as_raw());
    assert_eq!(vk_values::VERTEX_INPUT_RATE_INSTANCE, vk::VertexInputRate::INSTANCE.as_raw());
    assert_eq!(vk_values::BUFFER_USAGE_TRANSFER_SRC, vk::BufferUsageFlags::TRANSFER_SRC.as_raw());
    assert_eq!(vk_values::BUFFER_USAGE_TRANSFER_DST, vk::BufferUsageFlags::TRANSFER_DST.as_raw());
    assert_eq!(vk_values::BUFFER_USAGE_UNIFORM_BUFFER, vk::BufferUsageFlags::UNIFORM_BUFFER.as_raw());
    assert_eq!(vk_values::BUFFER_USAGE_STORAGE_BUFFER, vk::BufferUsageFlags::STORAGE_BUFFER.as_raw());
    assert_eq!(vk_values::BUFFER_USAGE_INDEX_BUFFER, vk::BufferUsageFlags::INDEX_BUFFER.as_raw());
    assert_eq!(vk_values::BUFFER_USAGE_VERTEX_BUFFER, vk::BufferUsageFlags::VERTEX_BUFFER.as_raw());
    assert_eq!(vk_values::BUFFER_USAGE_INDIRECT_BUFFER, vk::BufferUsageFlags::INDIRECT_BUFFER.as_raw());
    assert_eq!(vk_values::BUFFER_USAGE_SHADER_DEVICE_ADDRESS_EXT, vk::BufferUsageFlags::SHADER_DEVICE_ADDRESS_EXT.as_raw());
    assert_eq!(vk_values::BUFFER_USAGE_ACCELERATION_STRUCTURE_BUILD_INPUT_READ_ONLY_KHR, vk::BufferUsageFlags::ACCELERATION_STRUCTURE_BUILD_INPUT_READ_ONLY_KHR.as_raw());
    assert_eq!(vk_values::BUFFER_USAGE_ACCELERATION_STRUCTURE_STORAGE_KHR, vk::BufferUsageFlags::ACCELERATION_STRUCTURE_STORAGE_KHR.as_raw());
    assert_eq!(vk_values::BUFFER_USAGE_SHADER_BINDING_TABLE_KHR, vk::BufferUsageFlags::SHADER_BINDING_TABLE_KHR.as_raw());
    assert_eq!(vk_values::ATTACHMENT_LOAD_OP_LOAD, vk::AttachmentLoadOp::LOAD.as_raw());
    assert_eq!(vk_values::ATTACHMENT_LOAD_OP_CLEAR, vk::AttachmentLoadOp::CLEAR.as_raw());
    assert_eq!(vk_values::ATTACHMENT_LOAD_OP_DONT_CARE, vk::AttachmentLoadOp::DONT_CARE.as_raw());
    assert_eq!(vk_values::ATTACHMENT_STORE_OP_STORE, vk::AttachmentStoreOp::STORE.as_raw());
    assert_eq!(vk_values::ATTACHMENT_STORE_OP_DONT_CARE, vk::AttachmentStoreOp::DONT_CARE.as_raw());
    assert_eq!(vk_values::PIPELINE_STAGE_VERTEX_SHADER, vk::PipelineStageFlags::VERTEX_SHADER.as_raw());
    assert_eq!(vk_values::PIPELINE_STAGE_FRAGMENT_SHADER, vk::PipelineStageFlags::FRAGMENT_SHADER.as_raw());
    assert_eq!(vk_values::PIPELINE_STAGE_COMPUTE_SHADER, vk::PipelineStageFlags::COMPUTE_SHADER.as_raw());
    assert_eq!(vk_values::PIPELINE_STAGE_TRANSFER, vk::PipelineStageFlags::TRANSFER.as_raw());
    assert_eq!(vk_values::ACCESS_HOST_WRITE, vk::AccessFlags::HOST_WRITE.as_raw());
    assert_eq!(vk_values::ACCESS_MEMORY_WRITE, vk::AccessFlags::MEMORY_WRITE.as_raw());
    assert_eq!(vk_values::ACCESS_SHADER_WRITE, vk::AccessFlags::SHADER_WRITE.as_raw());
    assert_eq!(vk_values::ACCESS_TRANSFER_WRITE, vk::AccessFlags::TRANSFER_WRITE.as_raw());
    assert_eq!(vk_values::ACCESS_COLOR_ATTACHMENT_WRITE, vk::AccessFlags::COLOR_ATTACHMENT_WRITE.as_raw());
    assert_eq!(vk_values::PRESENT_MODE_IMMEDIATE, vk::PresentModeKHR::IMMEDIATE.as_raw());
    assert_eq!(vk_values::PRESENT_MODE_MAILBOX, vk::PresentModeKHR::MAILBOX.as_raw());
    assert_eq!(vk_values::PRESENT_MODE_FIFO, vk::PresentModeKHR::FIFO.as_raw());
    assert_eq!(vk_values::COLOR_SPACE_SRGB_NONLINEAR, vk::ColorSpaceKHR::SRGB_NONLINEAR.as_raw());
    assert_eq!(vk_values::QUEUE_GRAPHICS, vk::QueueFlags::GRAPHICS.as_raw());
    assert_eq!(vk_values::QUEUE_COMPUTE, vk::QueueFlags::COMPUTE.as_raw());
    assert_eq!(vk_values::QUEUE_TRANSFER, vk::QueueFlags::TRANSFER.as_raw());
    assert_eq!(vk_values::PHYSICAL_DEVICE_TYPE_OTHER, vk::PhysicalDeviceType::OTHER.as_raw());
    assert_eq!(vk_values::PHYSICAL_DEVICE_TYPE_INTEGRATED_GPU, vk::PhysicalDeviceType::INTEGRATED_GPU.as_raw());
    assert_eq!(vk_values::PHYSICAL_DEVICE_TYPE_DISCRETE_GPU, vk::PhysicalDeviceType::DISCRETE_GPU.as_raw());
    assert_eq!(vk_values::PHYSICAL_DEVICE_TYPE_VIRTUAL_GPU, vk::PhysicalDeviceType::VIRTUAL_GPU.as_raw());
    assert_eq!(vk_values::PHYSICAL_DEVICE_TYPE_CPU, vk::PhysicalDeviceType::CPU.as_raw());
    assert_eq!(vk_values::DESCRIPTOR_TYPE_SAMPLER, vk::DescriptorType::SAMPLER.as_raw());
    assert_eq!(vk_values::DESCRIPTOR_TYPE_COMBINED_IMAGE_SAMPLER, vk::DescriptorType::COMBINED_IMAGE_SAMPLER.as_raw());
    assert_eq!(vk_values::DESCRIPTOR_TYPE_SAMPLED_IMAGE, vk::DescriptorType::SAMPLED_IMAGE.as_raw());
    assert_eq!(vk_values::DESCRIPTOR_TYPE_STORAGE_IMAGE, vk::DescriptorType::STORAGE_IMAGE.as_raw());
    assert_eq!(vk_values::DESCRIPTOR_TYPE_UNIFORM_BUFFER, vk::DescriptorType::UNIFORM_BUFFER.as_raw());
    assert_eq!(vk_values::DESCRIPTOR_TYPE_STORAGE_BUFFER, vk::DescriptorType::STORAGE_BUFFER.as_raw());
    assert_eq!(vk_values::DESCRIPTOR_TYPE_UNIFORM_BUFFER_DYNAMIC, vk::DescriptorType::UNIFORM_BUFFER_DYNAMIC.as_raw());
    assert_eq!(vk_values::DESCRIPTOR_TYPE_STORAGE_BUFFER_DYNAMIC, vk::DescriptorType::STORAGE_BUFFER_DYNAMIC.as_raw());
    assert_eq!(vk_values::DESCRIPTOR_TYPE_ACCELERATION_STRUCTURE_KHR, vk::DescriptorType::ACCELERATION_STRUCTURE_KHR.as_raw());
    assert_eq!(vk_values::DESCRIPTOR_BINDING_UPDATE_AFTER_BIND, vk::DescriptorBindingFlags::UPDATE_AFTER_BIND_EXT.as_raw());
    assert_eq!(vk_values::DESCRIPTOR_BINDING_UPDATE_UNUSED_WHILE_PENDING, vk::DescriptorBindingFlags::UPDATE_UNUSED_WHILE_PENDING_EXT.as_raw());
    assert_eq!(vk_values::DESCRIPTOR_BINDING_PARTIALLY_BOUND, vk::DescriptorBindingFlags::PARTIALLY_BOUND_EXT.as_raw());
    assert_eq!(vk_values::DESCRIPTOR_SET_LAYOUT_CREATE_UPDATE_AFTER_BIND_POOL, vk::DescriptorSetLayoutCreateFlags::UPDATE_AFTER_BIND_POOL_EXT.as_raw());
    assert_eq!(vk_values::IMAGE_USAGE_TRANSFER_DST, vk::ImageUsageFlags::TRANSFER_DST.as_raw());
    assert_eq!(vk_values::IMAGE_USAGE_STORAGE, vk::ImageUsageFlags::STORAGE.as_raw());
    assert_eq!(vk_values::IMAGE_USAGE_COLOR_ATTACHMENT, vk::ImageUsageFlags::COLOR_ATTACHMENT.as_raw());
    assert_eq!(vk_values::COMPOSITE_ALPHA_OPAQUE, vk::CompositeAlphaFlagsKHR::OPAQUE.as_raw());
    assert_eq!(vk_values::COMPOSITE_ALPHA_INHERIT, vk::CompositeAlphaFlagsKHR::INHERIT.as_raw());
    assert_eq!(vk_values::SURFACE_TRANSFORM_IDENTITY, vk::SurfaceTransformFlagsKHR::IDENTITY.as_raw());
    assert_eq!(vk_values::RESULT_ERROR_SURFACE_LOST_KHR, vk::Result::ERROR_SURFACE_LOST_KHR.as_raw());
    assert_eq!(vk_values::RESULT_ERROR_OUT_OF_DATE_KHR, vk::Result::ERROR_OUT_OF_DATE_KHR.as_raw());
    assert_eq!(vk_values::PIPELINE_STAGE2_VERTEX_INPUT, vk::PipelineStageFlags2::VERTEX_INPUT.as_raw());
    assert_eq!(vk_values::PIPELINE_STAGE2_COPY, vk::PipelineStageFlags2::COPY.as_raw());
    assert_eq!(vk_values::PIPELINE_STAGE2_BLIT, vk::PipelineStageFlags2::BLIT.as_raw());
    assert_eq!(vk_values::PIPELINE_STAGE2_CLEAR, vk::PipelineStageFlags2::CLEAR.as_raw());
    assert_eq!(vk_values::PIPELINE_STAGE2_CONDITIONAL_RENDERING_EXT, vk::PipelineStageFlags2::CONDITIONAL_RENDERING_EXT.as_raw());
    assert_eq!(vk_values::PIPELINE_STAGE2_TASK_SHADER_EXT, vk::PipelineStageFlags2::TASK_SHADER_EXT.as_raw());
    assert_eq!(vk_values::PIPELINE_STAGE2_MESH_SHADER_EXT, vk::PipelineStageFlags2::MESH_SHADER_EXT.as_raw());
    assert_eq!(vk_values::SHADER_STAGE_ANY_HIT_KHR, vk::ShaderStageFlags::ANY_HIT_KHR.as_raw());
    assert_eq!(vk_values::SHADER_STAGE_INTERSECTION_KHR, vk::ShaderStageFlags::INTERSECTION_KHR.as_raw());
    assert_eq!(vk_values::SHADER_STAGE_TASK_EXT, vk::ShaderStageFlags::TASK_EXT.as_raw());
    assert_eq!(vk_values::SHADER_STAGE_MESH_EXT, vk::ShaderStageFlags::MESH_EXT.as_raw());
    assert_eq!(vk_values::PIPELINE_STAGE_ALL_COMMANDS, vk::PipelineStageFlags::ALL_COMMANDS.as_raw());
    assert_eq!(vk_values::ACCESS_MEMORY_READ, vk::AccessFlags::MEMORY_READ.as_raw());
    assert_eq!(vk_values::DESCRIPTOR_TYPE_INPUT_ATTACHMENT, vk::DescriptorType::INPUT_ATTACHMENT.as_raw());
    assert_eq!(vk_values::PRIMITIVE_TOPOLOGY_POINT_LIST, vk::PrimitiveTopology::POINT_LIST.as_raw());
    assert_eq!(vk_values::PRIMITIVE_TOPOLOGY_LINE_LIST, vk::PrimitiveTopology::LINE_LIST.as_raw());
    assert_eq!(vk_values::PRIMITIVE_TOPOLOGY_LINE_STRIP, vk::PrimitiveTopology::LINE_STRIP.as_raw());
    assert_eq!(vk_values::PRIMITIVE_TOPOLOGY_TRIANGLE_LIST, vk::PrimitiveTopology::TRIANGLE_LIST.as_raw());
    assert_eq!(vk_values::PRIMITIVE_TOPOLOGY_TRIANGLE_STRIP, vk::PrimitiveTopology::TRIANGLE_STRIP.as_raw());
    assert_eq!(vk_values::POLYGON_MODE_FILL, vk::PolygonMode::FILL.as_raw());
    assert_eq!(vk_values::POLYGON_MODE_LINE, vk::PolygonMode::LINE.as_raw());
    assert_eq!(vk_values::CULL_MODE_NONE, vk::CullModeFlags::NONE.as_raw());
    assert_eq!(vk_values::CULL_MODE_FRONT, vk::CullModeFlags::FRONT.as_raw());
    assert_eq!(vk_values::CULL_MODE_BACK, vk::CullModeFlags::BACK.as_raw());
    assert_eq!(vk_values::FRONT_FACE_COUNTER_CLOCKWISE, vk::FrontFace::COUNTER_CLOCKWISE.as_raw());
    assert_eq!(vk_values::FRONT_FACE_CLOCKWISE, vk::FrontFace::CLOCKWISE.as_raw());
    assert_eq!(vk_values::DYNAMIC_STATE_VIEWPORT, vk::DynamicState::VIEWPORT.as_raw());
    assert_eq!(vk_values::DYNAMIC_STATE_SCISSOR, vk::DynamicState::SCISSOR.as_raw());
    assert_eq!(vk_values::DYNAMIC_STATE_STENCIL_REFERENCE, vk::DynamicState::STENCIL_REFERENCE.as_raw());
    assert_eq!(vk_values::SUBPASS_CONTENTS_INLINE, vk::SubpassContents::INLINE.as_raw());
    assert_eq!(vk_values::SUBPASS_CONTENTS_SECONDARY_COMMAND_BUFFERS, vk::SubpassContents::SECONDARY_COMMAND_BUFFERS.as_raw());
    assert_eq!(vk_values::MEMORY_PROPERTY_DEVICE_LOCAL, vk::MemoryPropertyFlags::DEVICE_LOCAL.as_raw());
    assert_eq!(vk_values::MEMORY_PROPERTY_HOST_VISIBLE, vk::MemoryPropertyFlags::HOST_VISIBLE.as_raw());
    assert_eq!(vk_values::MEMORY_PROPERTY_HOST_COHERENT, vk::MemoryPropertyFlags::HOST_COHERENT.as_raw());
    assert_eq!(vk_values::MEMORY_PROPERTY_HOST_CACHED, vk::MemoryPropertyFlags::HOST_CACHED.as_raw());
    assert_eq!(vk_values::COMMAND_BUFFER_USAGE_ONE_TIME_SUBMIT, vk::CommandBufferUsageFlags::ONE_TIME_SUBMIT.as_raw());
    assert_eq!(vk_values::COMMAND_BUFFER_USAGE_RENDER_PASS_CONTINUE, vk::CommandBufferUsageFlags::RENDER_PASS_CONTINUE.as_raw());
    assert_eq!(vk_values::COMMAND_POOL_CREATE_TRANSIENT, vk::CommandPoolCreateFlags::TRANSIENT.as_raw());
    assert_eq!(vk_values::COMMAND_POOL_CREATE_RESET_COMMAND_BUFFER, vk::CommandPoolCreateFlags::RESET_COMMAND_BUFFER.as_raw());
    assert_eq!(vk_values::DESCRIPTOR_POOL_CREATE_FREE_DESCRIPTOR_SET, vk::DescriptorPoolCreateFlags::FREE_DESCRIPTOR_SET.as_raw());
    assert_eq!(vk_values::MEMORY_ALLOCATE_DEVICE_ADDRESS, vk::MemoryAllocateFlags::DEVICE_ADDRESS.as_raw());
    assert_eq!(vk_values::DESCRIPTOR_POOL_CREATE_UPDATE_AFTER_BIND, vk::DescriptorPoolCreateFlags::UPDATE_AFTER_BIND.as_raw());
    assert_eq!(vk_values::QUEUE_FAMILY_IGNORED, vk::QUEUE_FAMILY_IGNORED);
}
