//! Values of Vulkan enumerants and flag bits, as the Vulkan registry defines them.
//!
//! The planning code speaks of Vulkan values as plain integers; the boundary to
//! the driver turns them into the binding's types.
use vstd::prelude::*;

verus! {

// `PipelineStageFlags2`
pub const PIPELINE_STAGE2_NONE: u64 = 0x0u64;
pub const PIPELINE_STAGE2_COMPUTE_SHADER: u64 = 0x800u64;
pub const PIPELINE_STAGE2_TRANSFER: u64 = 0x1000u64;
pub const PIPELINE_STAGE2_EARLY_FRAGMENT_TESTS: u64 = 0x100u64;
pub const PIPELINE_STAGE2_FRAGMENT_SHADER: u64 = 0x80u64;
pub const PIPELINE_STAGE2_DRAW_INDIRECT: u64 = 0x2u64;
pub const PIPELINE_STAGE2_LATE_FRAGMENT_TESTS: u64 = 0x200u64;
pub const PIPELINE_STAGE2_COLOR_ATTACHMENT_OUTPUT: u64 = 0x400u64;
pub const PIPELINE_STAGE2_RESOLVE: u64 = 0x200000000u64;
pub const PIPELINE_STAGE2_VERTEX_ATTRIBUTE_INPUT: u64 = 0x2000000000u64;
pub const PIPELINE_STAGE2_INDEX_INPUT: u64 = 0x1000000000u64;
pub const PIPELINE_STAGE2_VERTEX_SHADER: u64 = 0x8u64;
pub const PIPELINE_STAGE2_HOST: u64 = 0x4000u64;
pub const PIPELINE_STAGE2_ACCELERATION_STRUCTURE_BUILD_KHR: u64 = 0x2000000u64;
pub const PIPELINE_STAGE2_ACCELERATION_STRUCTURE_COPY_KHR: u64 = 0x10000000u64;
pub const PIPELINE_STAGE2_RAY_TRACING_SHADER_KHR: u64 = 0x200000u64;
pub const PIPELINE_STAGE2_ALL_COMMANDS: u64 = 0x10000u64;

// `AccessFlags2`
pub const ACCESS2_INDEX_READ: u64 = 0x2u64;
pub const ACCESS2_INDIRECT_COMMAND_READ: u64 = 0x1u64;
pub const ACCESS2_VERTEX_ATTRIBUTE_READ: u64 = 0x4u64;
pub const ACCESS2_UNIFORM_READ: u64 = 0x8u64;
pub const ACCESS2_SHADER_SAMPLED_READ: u64 = 0x100000000u64;
pub const ACCESS2_SHADER_STORAGE_READ: u64 = 0x200000000u64;
pub const ACCESS2_SHADER_STORAGE_WRITE: u64 = 0x400000000u64;
pub const ACCESS2_TRANSFER_READ: u64 = 0x800u64;
pub const ACCESS2_TRANSFER_WRITE: u64 = 0x1000u64;
pub const ACCESS2_DEPTH_STENCIL_ATTACHMENT_READ: u64 = 0x200u64;
pub const ACCESS2_DEPTH_STENCIL_ATTACHMENT_WRITE: u64 = 0x400u64;
pub const ACCESS2_COLOR_ATTACHMENT_READ: u64 = 0x80u64;
pub const ACCESS2_COLOR_ATTACHMENT_WRITE: u64 = 0x100u64;
pub const ACCESS2_SHADER_READ: u64 = 0x20u64;
pub const ACCESS2_SHADER_WRITE: u64 = 0x40u64;
pub const ACCESS2_MEMORY_READ: u64 = 0x8000u64;
pub const ACCESS2_MEMORY_WRITE: u64 = 0x10000u64;
pub const ACCESS2_HOST_READ: u64 = 0x2000u64;
pub const ACCESS2_HOST_WRITE: u64 = 0x4000u64;
pub const ACCESS2_ACCELERATION_STRUCTURE_READ_KHR: u64 = 0x200000u64;
pub const ACCESS2_ACCELERATION_STRUCTURE_WRITE_KHR: u64 = 0x400000u64;

// `ImageLayout`
pub const IMAGE_LAYOUT_UNDEFINED: i32 = 0i32;
pub const IMAGE_LAYOUT_GENERAL: i32 = 1i32;
pub const IMAGE_LAYOUT_COLOR_ATTACHMENT_OPTIMAL: i32 = 2i32;
pub const IMAGE_LAYOUT_DEPTH_STENCIL_ATTACHMENT_OPTIMAL: i32 = 3i32;
pub const IMAGE_LAYOUT_DEPTH_STENCIL_READ_ONLY_OPTIMAL: i32 = 4i32;
pub const IMAGE_LAYOUT_SHADER_READ_ONLY_OPTIMAL: i32 = 5i32;
pub const IMAGE_LAYOUT_TRANSFER_SRC_OPTIMAL: i32 = 6i32;
pub const IMAGE_LAYOUT_TRANSFER_DST_OPTIMAL: i32 = 7i32;
pub const IMAGE_LAYOUT_PRESENT_SRC_KHR: i32 = 1000001002i32;

// `ImageAspectFlags`
pub const IMAGE_ASPECT_COLOR: u32 = 0x1u32;
pub const IMAGE_ASPECT_DEPTH: u32 = 0x2u32;
pub const IMAGE_ASPECT_STENCIL: u32 = 0x4u32;

// `IndexType`
pub const INDEX_TYPE_UINT16: i32 = 0i32;
pub const INDEX_TYPE_UINT32: i32 = 1i32;
pub const MEMORY_PROPERTY_DEVICE_LOCAL: u32 = 0x1u32;
pub const MEMORY_PROPERTY_HOST_VISIBLE: u32 = 0x2u32;
pub const MEMORY_PROPERTY_HOST_COHERENT: u32 = 0x4u32;
pub const MEMORY_PROPERTY_HOST_CACHED: u32 = 0x8u32;
pub const COMMAND_BUFFER_USAGE_ONE_TIME_SUBMIT: u32 = 0x1u32;
pub const COMMAND_BUFFER_USAGE_RENDER_PASS_CONTINUE: u32 = 0x2u32;
pub const COMMAND_POOL_CREATE_TRANSIENT: u32 = 0x1u32;
pub const COMMAND_POOL_CREATE_RESET_COMMAND_BUFFER: u32 = 0x2u32;
pub const DESCRIPTOR_POOL_CREATE_FREE_DESCRIPTOR_SET: u32 = 0x1u32;
pub const MEMORY_ALLOCATE_DEVICE_ADDRESS: u32 = 0x2u32;
pub const DESCRIPTOR_POOL_CREATE_UPDATE_AFTER_BIND: u32 = 0x2u32;
pub const SUBPASS_CONTENTS_INLINE: i32 = 0i32;
pub const SUBPASS_CONTENTS_SECONDARY_COMMAND_BUFFERS: i32 = 1i32;

// `Format`
pub const FORMAT_UNDEFINED: i32 = 0i32;
pub const FORMAT_R8G8B8A8_UNORM: i32 = 37i32;
pub const FORMAT_R8G8B8A8_SRGB: i32 = 43i32;
pub const FORMAT_R16_UNORM: i32 = 70i32;
pub const FORMAT_R16_SFLOAT: i32 = 76i32;
pub const FORMAT_R32_SFLOAT: i32 = 100i32;
pub const FORMAT_R8_UNORM: i32 = 9i32;
pub const FORMAT_R32G32_SFLOAT: i32 = 103i32;
pub const FORMAT_R32G32B32_SFLOAT: i32 = 106i32;
pub const FORMAT_R32G32B32A32_SFLOAT: i32 = 109i32;
pub const FORMAT_B8G8R8_UNORM: i32 = 30i32;
pub const FORMAT_B8G8R8A8_UNORM: i32 = 44i32;
pub const FORMAT_D16_UNORM: i32 = 124i32;
pub const FORMAT_D16_UNORM_S8_UINT: i32 = 128i32;
pub const FORMAT_D24_UNORM_S8_UINT: i32 = 129i32;
pub const FORMAT_D32_SFLOAT: i32 = 126i32;
pub const FORMAT_D32_SFLOAT_S8_UINT: i32 = 130i32;
pub const FORMAT_BC1_RGB_UNORM_BLOCK: i32 = 131i32;
pub const FORMAT_BC1_RGBA_UNORM_BLOCK: i32 = 133i32;
pub const FORMAT_BC2_UNORM_BLOCK: i32 = 135i32;
pub const FORMAT_BC3_UNORM_BLOCK: i32 = 137i32;
pub const FORMAT_R16G16_UNORM: i32 = 77i32;
pub const FORMAT_R8G8_UNORM: i32 = 16i32;
pub const FORMAT_R32_UINT: i32 = 98i32;
pub const FORMAT_R16G16_SFLOAT: i32 = 83i32;
pub const FORMAT_R16G16B16A16_SFLOAT: i32 = 97i32;
pub const FORMAT_B10G11R11_UFLOAT_PACK32: i32 = 122i32;
pub const FORMAT_R16G16_UINT: i32 = 81i32;
pub const FORMAT_R16_UINT: i32 = 74i32;
pub const FORMAT_R16_SNORM: i32 = 71i32;

// `SampleCountFlags`
pub const SAMPLE_COUNT_TYPE_1: u32 = 0x1u32;
pub const SAMPLE_COUNT_TYPE_2: u32 = 0x2u32;
pub const SAMPLE_COUNT_TYPE_4: u32 = 0x4u32;
pub const SAMPLE_COUNT_TYPE_8: u32 = 0x8u32;

// `CompareOp`
pub const COMPARE_OP_NEVER: i32 = 0i32;
pub const COMPARE_OP_LESS: i32 = 1i32;
pub const COMPARE_OP_EQUAL: i32 = 2i32;
pub const COMPARE_OP_LESS_OR_EQUAL: i32 = 3i32;
pub const COMPARE_OP_GREATER: i32 = 4i32;
pub const COMPARE_OP_NOT_EQUAL: i32 = 5i32;
pub const COMPARE_OP_GREATER_OR_EQUAL: i32 = 6i32;
pub const COMPARE_OP_ALWAYS: i32 = 7i32;

// `StencilOp`
pub const STENCIL_OP_KEEP: i32 = 0i32;
pub const STENCIL_OP_ZERO: i32 = 1i32;
pub const STENCIL_OP_REPLACE: i32 = 2i32;
pub const STENCIL_OP_INCREMENT_AND_CLAMP: i32 = 3i32;
pub const STENCIL_OP_DECREMENT_AND_CLAMP: i32 = 4i32;
pub const STENCIL_OP_INVERT: i32 = 5i32;
pub const STENCIL_OP_INCREMENT_AND_WRAP: i32 = 6i32;
pub const STENCIL_OP_DECREMENT_AND_WRAP: i32 = 7i32;

// `LogicOp`
pub const LOGIC_OP_CLEAR: i32 = 0i32;
pub const LOGIC_OP_AND: i32 = 1i32;
pub const LOGIC_OP_AND_REVERSE: i32 = 2i32;
pub const LOGIC_OP_COPY: i32 = 3i32;
pub const LOGIC_OP_AND_INVERTED: i32 = 4i32;
pub const LOGIC_OP_NO_OP: i32 = 5i32;
pub const LOGIC_OP_XOR: i32 = 6i32;
pub const LOGIC_OP_OR: i32 = 7i32;
pub const LOGIC_OP_NOR: i32 = 8i32;
pub const LOGIC_OP_EQUIVALENT: i32 = 9i32;
pub const LOGIC_OP_INVERT: i32 = 10i32;
pub const LOGIC_OP_OR_REVERSE: i32 = 11i32;
pub const LOGIC_OP_COPY_INVERTED: i32 = 12i32;
pub const LOGIC_OP_OR_INVERTED: i32 = 13i32;
pub const LOGIC_OP_NAND: i32 = 14i32;
pub const LOGIC_OP_SET: i32 = 15i32;

// `BlendFactor`
pub const BLEND_FACTOR_ZERO: i32 = 0i32;
pub const BLEND_FACTOR_ONE: i32 = 1i32;
pub const BLEND_FACTOR_SRC_COLOR: i32 = 2i32;
pub const BLEND_FACTOR_ONE_MINUS_SRC_COLOR: i32 = 3i32;
pub const BLEND_FACTOR_DST_COLOR: i32 = 4i32;
pub const BLEND_FACTOR_ONE_MINUS_DST_COLOR: i32 = 5i32;
pub const BLEND_FACTOR_SRC_ALPHA: i32 = 6i32;
pub const BLEND_FACTOR_ONE_MINUS_SRC_ALPHA: i32 = 7i32;
pub const BLEND_FACTOR_DST_ALPHA: i32 = 8i32;
pub const BLEND_FACTOR_ONE_MINUS_DST_ALPHA: i32 = 9i32;
pub const BLEND_FACTOR_CONSTANT_COLOR: i32 = 10i32;
pub const BLEND_FACTOR_ONE_MINUS_CONSTANT_COLOR: i32 = 11i32;
pub const BLEND_FACTOR_SRC_ALPHA_SATURATE: i32 = 14i32;
pub const BLEND_FACTOR_SRC1_COLOR: i32 = 15i32;
pub const BLEND_FACTOR_ONE_MINUS_SRC1_COLOR: i32 = 16i32;
pub const BLEND_FACTOR_SRC1_ALPHA: i32 = 17i32;
pub const BLEND_FACTOR_ONE_MINUS_SRC1_ALPHA: i32 = 18i32;

// `BlendOp`
pub const BLEND_OP_ADD: i32 = 0i32;
pub const BLEND_OP_SUBTRACT: i32 = 1i32;
pub const BLEND_OP_REVERSE_SUBTRACT: i32 = 2i32;
pub const BLEND_OP_MIN: i32 = 3i32;
pub const BLEND_OP_MAX: i32 = 4i32;

// `ColorComponentFlags`
pub const COLOR_COMPONENT_R: u32 = 0x1u32;
pub const COLOR_COMPONENT_G: u32 = 0x2u32;
pub const COLOR_COMPONENT_B: u32 = 0x4u32;
pub const COLOR_COMPONENT_A: u32 = 0x8u32;

// `ShaderStageFlags`
pub const SHADER_STAGE_VERTEX: u32 = 0x1u32;
pub const SHADER_STAGE_TESSELLATION_CONTROL: u32 = 0x2u32;
pub const SHADER_STAGE_TESSELLATION_EVALUATION: u32 = 0x4u32;
pub const SHADER_STAGE_GEOMETRY: u32 = 0x8u32;
pub const SHADER_STAGE_FRAGMENT: u32 = 0x10u32;
pub const SHADER_STAGE_COMPUTE: u32 = 0x20u32;
pub const SHADER_STAGE_RAYGEN_KHR: u32 = 0x100u32;
pub const SHADER_STAGE_CLOSEST_HIT_KHR: u32 = 0x400u32;
pub const SHADER_STAGE_MISS_KHR: u32 = 0x800u32;

// `VertexInputRate`
pub const VERTEX_INPUT_RATE_VERTEX: i32 = 0i32;
pub const VERTEX_INPUT_RATE_INSTANCE: i32 = 1i32;

// `BufferUsageFlags`
pub const BUFFER_USAGE_TRANSFER_SRC: u32 = 0x1u32;
pub const BUFFER_USAGE_TRANSFER_DST: u32 = 0x2u32;
pub const BUFFER_USAGE_UNIFORM_BUFFER: u32 = 0x10u32;
pub const BUFFER_USAGE_STORAGE_BUFFER: u32 = 0x20u32;
pub const BUFFER_USAGE_INDEX_BUFFER: u32 = 0x40u32;
pub const BUFFER_USAGE_VERTEX_BUFFER: u32 = 0x80u32;
pub const BUFFER_USAGE_INDIRECT_BUFFER: u32 = 0x100u32;
pub const BUFFER_USAGE_SHADER_DEVICE_ADDRESS_EXT: u32 = 0x20000u32;
pub const BUFFER_USAGE_ACCELERATION_STRUCTURE_BUILD_INPUT_READ_ONLY_KHR: u32 = 0x80000u32;
pub const BUFFER_USAGE_ACCELERATION_STRUCTURE_STORAGE_KHR: u32 = 0x100000u32;
pub const BUFFER_USAGE_SHADER_BINDING_TABLE_KHR: u32 = 0x400u32;

// `AttachmentLoadOp`
pub const ATTACHMENT_LOAD_OP_LOAD: i32 = 0i32;
pub const ATTACHMENT_LOAD_OP_CLEAR: i32 = 1i32;
pub const ATTACHMENT_LOAD_OP_DONT_CARE: i32 = 2i32;

// `AttachmentStoreOp`
pub const ATTACHMENT_STORE_OP_STORE: i32 = 0i32;
pub const ATTACHMENT_STORE_OP_DONT_CARE: i32 = 1i32;

// `PipelineStageFlags`
pub const PIPELINE_STAGE_VERTEX_SHADER: u32 = 0x8u32;
pub const PIPELINE_STAGE_FRAGMENT_SHADER: u32 = 0x80u32;
pub const PIPELINE_STAGE_COMPUTE_SHADER: u32 = 0x800u32;
pub const PIPELINE_STAGE_TRANSFER: u32 = 0x1000u32;

// `AccessFlags`
pub const ACCESS_HOST_WRITE: u32 = 0x4000u32;
pub const ACCESS_MEMORY_WRITE: u32 = 0x10000u32;
pub const ACCESS_SHADER_WRITE: u32 = 0x40u32;
pub const ACCESS_TRANSFER_WRITE: u32 = 0x1000u32;
pub const ACCESS_COLOR_ATTACHMENT_WRITE: u32 = 0x100u32;

// `PresentModeKHR`
pub const PRESENT_MODE_IMMEDIATE: i32 = 0i32;
pub const PRESENT_MODE_MAILBOX: i32 = 1i32;
pub const PRESENT_MODE_FIFO: i32 = 2i32;

// `ColorSpaceKHR`
pub const COLOR_SPACE_SRGB_NONLINEAR: i32 = 0i32;

// `QueueFlags`
pub const QUEUE_GRAPHICS: u32 = 0x1u32;
pub const QUEUE_COMPUTE: u32 = 0x2u32;
pub const QUEUE_TRANSFER: u32 = 0x4u32;

// `PhysicalDeviceType`
pub const PHYSICAL_DEVICE_TYPE_OTHER: i32 = 0i32;
pub const PHYSICAL_DEVICE_TYPE_INTEGRATED_GPU: i32 = 1i32;
pub const PHYSICAL_DEVICE_TYPE_DISCRETE_GPU: i32 = 2i32;
pub const PHYSICAL_DEVICE_TYPE_VIRTUAL_GPU: i32 = 3i32;
pub const PHYSICAL_DEVICE_TYPE_CPU: i32 = 4i32;

// `DescriptorType`
pub const DESCRIPTOR_TYPE_SAMPLER: i32 = 0i32;
pub const DESCRIPTOR_TYPE_COMBINED_IMAGE_SAMPLER: i32 = 1i32;
pub const DESCRIPTOR_TYPE_SAMPLED_IMAGE: i32 = 2i32;
pub const DESCRIPTOR_TYPE_STORAGE_IMAGE: i32 = 3i32;
pub const DESCRIPTOR_TYPE_UNIFORM_BUFFER: i32 = 6i32;
pub const DESCRIPTOR_TYPE_STORAGE_BUFFER: i32 = 7i32;
pub const DESCRIPTOR_TYPE_UNIFORM_BUFFER_DYNAMIC: i32 = 8i32;
pub const DESCRIPTOR_TYPE_STORAGE_BUFFER_DYNAMIC: i32 = 9i32;
pub const DESCRIPTOR_TYPE_INPUT_ATTACHMENT: i32 = 10i32;
pub const DESCRIPTOR_TYPE_ACCELERATION_STRUCTURE_KHR: i32 = 1000150000i32;

// `DescriptorBindingFlags`
pub const DESCRIPTOR_BINDING_UPDATE_AFTER_BIND: u32 = 0x1u32;
pub const DESCRIPTOR_BINDING_UPDATE_UNUSED_WHILE_PENDING: u32 = 0x2u32;
pub const DESCRIPTOR_BINDING_PARTIALLY_BOUND: u32 = 0x4u32;

// `DescriptorSetLayoutCreateFlags`
pub const DESCRIPTOR_SET_LAYOUT_CREATE_UPDATE_AFTER_BIND_POOL: u32 = 0x2u32;

// `ImageUsageFlags`
pub const IMAGE_USAGE_TRANSFER_DST: u32 = 0x2u32;
pub const IMAGE_USAGE_STORAGE: u32 = 0x8u32;
pub const IMAGE_USAGE_COLOR_ATTACHMENT: u32 = 0x10u32;

// `CompositeAlphaFlagsKHR`
pub const COMPOSITE_ALPHA_OPAQUE: u32 = 0x1u32;
pub const COMPOSITE_ALPHA_INHERIT: u32 = 0x8u32;

// `SurfaceTransformFlagsKHR`
pub const SURFACE_TRANSFORM_IDENTITY: u32 = 0x1u32;

// `Result`
pub const RESULT_ERROR_SURFACE_LOST_KHR: i32 = -1000000000i32;
pub const RESULT_ERROR_OUT_OF_DATE_KHR: i32 = -1000001004i32;

// More of `PipelineStageFlags2`
pub const PIPELINE_STAGE2_VERTEX_INPUT: u64 = 0x4u64;
pub const PIPELINE_STAGE2_COPY: u64 = 0x100000000u64;
pub const PIPELINE_STAGE2_BLIT: u64 = 0x400000000u64;
pub const PIPELINE_STAGE2_CLEAR: u64 = 0x800000000u64;
pub const PIPELINE_STAGE2_CONDITIONAL_RENDERING_EXT: u64 = 0x40000u64;
pub const PIPELINE_STAGE2_TASK_SHADER_EXT: u64 = 0x80000u64;
pub const PIPELINE_STAGE2_MESH_SHADER_EXT: u64 = 0x100000u64;

// More of `ShaderStageFlags`
pub const SHADER_STAGE_ANY_HIT_KHR: u32 = 0x200u32;
pub const SHADER_STAGE_INTERSECTION_KHR: u32 = 0x1000u32;
pub const SHADER_STAGE_TASK_EXT: u32 = 0x40u32;
pub const SHADER_STAGE_MESH_EXT: u32 = 0x80u32;

// More of `PipelineStageFlags` and `AccessFlags`
pub const PIPELINE_STAGE_ALL_COMMANDS: u32 = 0x10000u32;
pub const ACCESS_MEMORY_READ: u32 = 0x8000u32;

// `PrimitiveTopology`
pub const PRIMITIVE_TOPOLOGY_POINT_LIST: i32 = 0i32;
pub const PRIMITIVE_TOPOLOGY_LINE_LIST: i32 = 1i32;
pub const PRIMITIVE_TOPOLOGY_LINE_STRIP: i32 = 2i32;
pub const PRIMITIVE_TOPOLOGY_TRIANGLE_LIST: i32 = 3i32;
pub const PRIMITIVE_TOPOLOGY_TRIANGLE_STRIP: i32 = 4i32;

// `PolygonMode`
pub const POLYGON_MODE_FILL: i32 = 0i32;
pub const POLYGON_MODE_LINE: i32 = 1i32;

// `CullModeFlags`
pub const CULL_MODE_NONE: u32 = 0x0u32;
pub const CULL_MODE_FRONT: u32 = 0x1u32;
pub const CULL_MODE_BACK: u32 = 0x2u32;

// `FrontFace`
pub const FRONT_FACE_COUNTER_CLOCKWISE: i32 = 0i32;
pub const FRONT_FACE_CLOCKWISE: i32 = 1i32;

// `DynamicState`
pub const DYNAMIC_STATE_VIEWPORT: i32 = 0i32;
pub const DYNAMIC_STATE_SCISSOR: i32 = 1i32;
pub const DYNAMIC_STATE_STENCIL_REFERENCE: i32 = 8i32;

/// The queue family index that leaves a resource with its queue family.
pub const QUEUE_FAMILY_IGNORED: u32 = 0xffff_ffffu32;

} // verus!
